//! The values and errors that views hand to the dispatcher.

use vstd::prelude::*;
use crate::http_errors::HTTPError;
use crate::wrappers::{response_from_bytes, Response, ResponseView};

verus! {

/// The arguments that a matched rule took from the request path, as pairs
/// of name and value in the order of the rule.
pub type ViewArgs = Vec<(String, String)>;

/// An error of the application's own, known by its description.
#[derive(Debug)]
pub struct UserError {
    pub desc: String,
}

impl UserError {
    /// An error with the description `desc`.
    pub fn new(desc: String) -> (error: UserError)
        ensures
            error.desc@ == desc@,
    {
        UserError { desc }
    }
}

/// What a view can fail with.
#[derive(Debug)]
pub enum PencilError {
    PenHTTPError(HTTPError),
    PenUserError(UserError),
}

/// What an error is to a contract.
pub enum PencilErrorView {
    Http(HTTPError),
    User(Seq<char>),
}

impl View for PencilError {
    type V = PencilErrorView;

    open spec fn view(&self) -> PencilErrorView {
        match self {
            PencilError::PenHTTPError(e) => PencilErrorView::Http(*e),
            PencilError::PenUserError(e) => PencilErrorView::User(e.desc@),
        }
    }
}

impl PencilErrorView {
    /// The text by which a handler for the error is found: the name of an
    /// HTTP error, the description of a user error.
    pub open spec fn description(self) -> Seq<char> {
        match self {
            PencilErrorView::Http(e) => e.spec_name(),
            PencilErrorView::User(desc) => desc,
        }
    }
}

impl PencilError {
    /// The text by which a handler for the error is found.
    pub fn description(&self) -> (text: &str)
        ensures
            text@ == self@.description(),
    {
        match self {
            PencilError::PenHTTPError(e) => e.name(),
            PencilError::PenUserError(e) => e.desc.as_str(),
        }
    }
}

/// The result type of views and helpers.
pub type PencilResult = Result<Response, PencilError>;

/// A result by its view.
pub open spec fn result_view(result: PencilResult) -> Result<ResponseView, PencilErrorView> {
    match result {
        Ok(response) => Ok(response@),
        Err(error) => Err(error@),
    }
}

/// What a view can return in place of a finished response.
pub enum PencilValue {
    PenString(String),
    PenResponse(Response),
}

/// The response that a view's value stands for.
pub open spec fn value_response(value: PencilValue) -> ResponseView {
    match value {
        PencilValue::PenString(text) => response_from_bytes(vstd::utf8::encode_utf8(text@)),
        PencilValue::PenResponse(response) => response@,
    }
}

impl PencilError {
    /// A second error of the same kind with the same content.
    pub fn copy(&self) -> (same: PencilError)
        ensures
            same@ == self@,
    {
        match self {
            PencilError::PenHTTPError(e) => PencilError::PenHTTPError(*e),
            PencilError::PenUserError(e) => PencilError::PenUserError(
                UserError { desc: e.desc.clone() },
            ),
        }
    }
}

/// A second result with the same content.
pub fn copy_result(result: &PencilResult) -> (same: PencilResult)
    ensures
        result_view(same) == result_view(*result),
{
    match result {
        Ok(response) => Ok(response.copy()),
        Err(error) => Err(error.copy()),
    }
}

/// Converts the return value from a view function to a real response
/// object.
pub fn make_response(rv: PencilValue) -> (response: Response)
    ensures
        response@ == value_response(rv),
{
    match rv {
        PencilValue::PenString(text) => Response::from(text),
        PencilValue::PenResponse(response) => response,
    }
}

} // verus!
