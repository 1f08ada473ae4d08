//! The HTTP errors that a view can answer with, each with its status code
//! and its name.

use vstd::prelude::*;
use vstd::string::StringExecFns;
use crate::text::{decimal, decimal_string};
use crate::wrappers::{response_from_bytes, Response, ResponseView};

verus! {

/// An HTTP error: a condition with a status code and a name, which can
/// always be turned into a response.
#[derive(Clone, Copy, Debug, PartialEq, Eq, Structural)]
pub enum HTTPError {
    BadRequest,
    Unauthorized,
    Forbidden,
    NotFound,
    MethodNotAllowed,
    NotAcceptable,
    RequestTimeout,
    Conflict,
    Gone,
    LengthRequired,
    PreconditionFailed,
    RequestEntityTooLarge,
    RequestURITooLarge,
    UnsupportedMediaType,
    RequestedRangeNotSatisfiable,
    ExpectationFailed,
    ImATeapot,
    UnprocessableEntity,
    PreconditionRequired,
    TooManyRequests,
    RequestHeaderFieldsTooLarge,
    InternalServerError,
    NotImplemented,
    BadGateway,
    ServiceUnavailable,
}

impl HTTPError {
    /// The status code of the error.
    pub open spec fn spec_code(self) -> u16 {
        match self {
            HTTPError::BadRequest => 400,
            HTTPError::Unauthorized => 401,
            HTTPError::Forbidden => 403,
            HTTPError::NotFound => 404,
            HTTPError::MethodNotAllowed => 405,
            HTTPError::NotAcceptable => 406,
            HTTPError::RequestTimeout => 408,
            HTTPError::Conflict => 409,
            HTTPError::Gone => 410,
            HTTPError::LengthRequired => 411,
            HTTPError::PreconditionFailed => 412,
            HTTPError::RequestEntityTooLarge => 413,
            HTTPError::RequestURITooLarge => 414,
            HTTPError::UnsupportedMediaType => 415,
            HTTPError::RequestedRangeNotSatisfiable => 416,
            HTTPError::ExpectationFailed => 417,
            HTTPError::ImATeapot => 418,
            HTTPError::UnprocessableEntity => 422,
            HTTPError::PreconditionRequired => 428,
            HTTPError::TooManyRequests => 429,
            HTTPError::RequestHeaderFieldsTooLarge => 431,
            HTTPError::InternalServerError => 500,
            HTTPError::NotImplemented => 501,
            HTTPError::BadGateway => 502,
            HTTPError::ServiceUnavailable => 503,
        }
    }

    /// The name of the error, under which a handler for it is registered:
    /// the standard reason phrase of its status code.
    pub open spec fn spec_name(self) -> Seq<char> {
        match self {
            HTTPError::BadRequest => "Bad Request"@,
            HTTPError::Unauthorized => "Unauthorized"@,
            HTTPError::Forbidden => "Forbidden"@,
            HTTPError::NotFound => "Not Found"@,
            HTTPError::MethodNotAllowed => "Method Not Allowed"@,
            HTTPError::NotAcceptable => "Not Acceptable"@,
            HTTPError::RequestTimeout => "Request Timeout"@,
            HTTPError::Conflict => "Conflict"@,
            HTTPError::Gone => "Gone"@,
            HTTPError::LengthRequired => "Length Required"@,
            HTTPError::PreconditionFailed => "Precondition Failed"@,
            HTTPError::RequestEntityTooLarge => "Payload Too Large"@,
            HTTPError::RequestURITooLarge => "URI Too Long"@,
            HTTPError::UnsupportedMediaType => "Unsupported Media Type"@,
            HTTPError::RequestedRangeNotSatisfiable => "Range Not Satisfiable"@,
            HTTPError::ExpectationFailed => "Expectation Failed"@,
            HTTPError::ImATeapot => "I'm a teapot"@,
            HTTPError::UnprocessableEntity => "Unprocessable Entity"@,
            HTTPError::PreconditionRequired => "Precondition Required"@,
            HTTPError::TooManyRequests => "Too Many Requests"@,
            HTTPError::RequestHeaderFieldsTooLarge => "Request Header Fields Too Large"@,
            HTTPError::InternalServerError => "Internal Server Error"@,
            HTTPError::NotImplemented => "Not Implemented"@,
            HTTPError::BadGateway => "Bad Gateway"@,
            HTTPError::ServiceUnavailable => "Service Unavailable"@,
        }
    }

    /// The error for a status code. A code that stands for none of the
    /// errors gives the internal server error.
    pub open spec fn for_code(code: u16) -> HTTPError {
        if code == 400 {
            HTTPError::BadRequest
        } else if code == 401 {
            HTTPError::Unauthorized
        } else if code == 403 {
            HTTPError::Forbidden
        } else if code == 404 {
            HTTPError::NotFound
        } else if code == 405 {
            HTTPError::MethodNotAllowed
        } else if code == 406 {
            HTTPError::NotAcceptable
        } else if code == 408 {
            HTTPError::RequestTimeout
        } else if code == 409 {
            HTTPError::Conflict
        } else if code == 410 {
            HTTPError::Gone
        } else if code == 411 {
            HTTPError::LengthRequired
        } else if code == 412 {
            HTTPError::PreconditionFailed
        } else if code == 413 {
            HTTPError::RequestEntityTooLarge
        } else if code == 414 {
            HTTPError::RequestURITooLarge
        } else if code == 415 {
            HTTPError::UnsupportedMediaType
        } else if code == 416 {
            HTTPError::RequestedRangeNotSatisfiable
        } else if code == 417 {
            HTTPError::ExpectationFailed
        } else if code == 418 {
            HTTPError::ImATeapot
        } else if code == 422 {
            HTTPError::UnprocessableEntity
        } else if code == 428 {
            HTTPError::PreconditionRequired
        } else if code == 429 {
            HTTPError::TooManyRequests
        } else if code == 431 {
            HTTPError::RequestHeaderFieldsTooLarge
        } else if code == 501 {
            HTTPError::NotImplemented
        } else if code == 502 {
            HTTPError::BadGateway
        } else if code == 503 {
            HTTPError::ServiceUnavailable
        } else {
            HTTPError::InternalServerError
        }
    }

    /// The error for a status code. A code that stands for none of the
    /// errors gives the internal server error.
    pub fn new(code: u16) -> (error: HTTPError)
        ensures
            error == HTTPError::for_code(code),
    {
        match code {
            400 => HTTPError::BadRequest,
            401 => HTTPError::Unauthorized,
            403 => HTTPError::Forbidden,
            404 => HTTPError::NotFound,
            405 => HTTPError::MethodNotAllowed,
            406 => HTTPError::NotAcceptable,
            408 => HTTPError::RequestTimeout,
            409 => HTTPError::Conflict,
            410 => HTTPError::Gone,
            411 => HTTPError::LengthRequired,
            412 => HTTPError::PreconditionFailed,
            413 => HTTPError::RequestEntityTooLarge,
            414 => HTTPError::RequestURITooLarge,
            415 => HTTPError::UnsupportedMediaType,
            416 => HTTPError::RequestedRangeNotSatisfiable,
            417 => HTTPError::ExpectationFailed,
            418 => HTTPError::ImATeapot,
            422 => HTTPError::UnprocessableEntity,
            428 => HTTPError::PreconditionRequired,
            429 => HTTPError::TooManyRequests,
            431 => HTTPError::RequestHeaderFieldsTooLarge,
            501 => HTTPError::NotImplemented,
            502 => HTTPError::BadGateway,
            503 => HTTPError::ServiceUnavailable,
            _ => HTTPError::InternalServerError,
        }
    }

    /// The status code of the error.
    pub fn code(&self) -> (code: u16)
        ensures
            code == self.spec_code(),
    {
        match self {
            HTTPError::BadRequest => 400,
            HTTPError::Unauthorized => 401,
            HTTPError::Forbidden => 403,
            HTTPError::NotFound => 404,
            HTTPError::MethodNotAllowed => 405,
            HTTPError::NotAcceptable => 406,
            HTTPError::RequestTimeout => 408,
            HTTPError::Conflict => 409,
            HTTPError::Gone => 410,
            HTTPError::LengthRequired => 411,
            HTTPError::PreconditionFailed => 412,
            HTTPError::RequestEntityTooLarge => 413,
            HTTPError::RequestURITooLarge => 414,
            HTTPError::UnsupportedMediaType => 415,
            HTTPError::RequestedRangeNotSatisfiable => 416,
            HTTPError::ExpectationFailed => 417,
            HTTPError::ImATeapot => 418,
            HTTPError::UnprocessableEntity => 422,
            HTTPError::PreconditionRequired => 428,
            HTTPError::TooManyRequests => 429,
            HTTPError::RequestHeaderFieldsTooLarge => 431,
            HTTPError::InternalServerError => 500,
            HTTPError::NotImplemented => 501,
            HTTPError::BadGateway => 502,
            HTTPError::ServiceUnavailable => 503,
        }
    }

    /// The name of the error.
    pub fn name(&self) -> (name: &'static str)
        ensures
            name@ == self.spec_name(),
    {
        match self {
            HTTPError::BadRequest => "Bad Request",
            HTTPError::Unauthorized => "Unauthorized",
            HTTPError::Forbidden => "Forbidden",
            HTTPError::NotFound => "Not Found",
            HTTPError::MethodNotAllowed => "Method Not Allowed",
            HTTPError::NotAcceptable => "Not Acceptable",
            HTTPError::RequestTimeout => "Request Timeout",
            HTTPError::Conflict => "Conflict",
            HTTPError::Gone => "Gone",
            HTTPError::LengthRequired => "Length Required",
            HTTPError::PreconditionFailed => "Precondition Failed",
            HTTPError::RequestEntityTooLarge => "Payload Too Large",
            HTTPError::RequestURITooLarge => "URI Too Long",
            HTTPError::UnsupportedMediaType => "Unsupported Media Type",
            HTTPError::RequestedRangeNotSatisfiable => "Range Not Satisfiable",
            HTTPError::ExpectationFailed => "Expectation Failed",
            HTTPError::ImATeapot => "I'm a teapot",
            HTTPError::UnprocessableEntity => "Unprocessable Entity",
            HTTPError::PreconditionRequired => "Precondition Required",
            HTTPError::TooManyRequests => "Too Many Requests",
            HTTPError::RequestHeaderFieldsTooLarge => "Request Header Fields Too Large",
            HTTPError::InternalServerError => "Internal Server Error",
            HTTPError::NotImplemented => "Not Implemented",
            HTTPError::BadGateway => "Bad Gateway",
            HTTPError::ServiceUnavailable => "Service Unavailable",
        }
    }

    /// The name of the error, by which a handler for it is found.
    pub fn description(&self) -> (name: &'static str)
        ensures
            name@ == self.spec_name(),
    {
        self.name()
    }

    /// The page that the error shows: a title with the code and the name,
    /// and the name as a heading.
    pub open spec fn spec_body(self) -> Seq<char> {
        "<!DOCTYPE HTML PUBLIC \"-//W3C//DTD HTML 3.2 Final//EN\">\n<title>"@ + decimal(
            self.spec_code() as nat,
        ) + " "@ + self.spec_name() + "</title>\n<h1>"@ + self.spec_name() + "</h1>\n"@
    }

    /// The page that the error shows.
    pub fn get_body(&self) -> (page: String)
        ensures
            page@ == self.spec_body(),
    {
        let mut page = "<!DOCTYPE HTML PUBLIC \"-//W3C//DTD HTML 3.2 Final//EN\">\n<title>".to_owned();
        page.append(decimal_string(self.code() as u64).as_str());
        page.append(" ");
        page.append(self.name());
        page.append("</title>\n<h1>");
        page.append(self.name());
        page.append("</h1>\n");
        page
    }

    /// The response that answers the error.
    pub open spec fn spec_response(self) -> ResponseView {
        ResponseView {
            status_code: self.spec_code(),
            ..response_from_bytes(vstd::utf8::encode_utf8(self.spec_body()))
        }
    }

    /// The response that answers the error: its page as an HTML body under
    /// its status code.
    pub fn to_response(&self) -> (response: Response)
        ensures
            response@ == self.spec_response(),
    {
        let mut response = Response::from(self.get_body());
        response.status_code = self.code();
        response
    }
}

/// The code of an error found by its code is that code again.
pub proof fn lemma_code_round_trip(error: HTTPError)
    ensures
        HTTPError::for_code(error.spec_code()) == error,
{
}

} // verus!
