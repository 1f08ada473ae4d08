//! The response object.

use vstd::prelude::*;
use crate::datastructures::{
    first_for, key_matches, lemma_set_leaves_one, lemma_without_key_keeps_others, values_for,
    without_key,
};
use crate::wrappers::headers::Headers;

verus! {

/// What a response is to a contract: its status code, its headers in
/// order, and the bytes of its body where it has one.
pub struct ResponseView {
    pub status_code: u16,
    pub headers: Seq<(Seq<char>, Seq<char>)>,
    pub body: Option<Seq<u8>>,
}

/// Response type. It is just one container with a couple of parameters
/// (headers, body, status code etc).
pub struct Response {
    /// The HTTP Status code number
    pub status_code: u16,
    pub headers: Headers,
    pub body: Option<Vec<u8>>,
}

impl View for Response {
    type V = ResponseView;

    open spec fn view(&self) -> ResponseView {
        ResponseView {
            status_code: self.status_code,
            headers: self.headers@,
            body: match self.body {
                Some(bytes) => Some(bytes@),
                None => None,
            },
        }
    }
}

/// The header list that holds the one header `name: value`.
pub open spec fn one_header(name: Seq<char>, value: Seq<char>) -> Seq<(Seq<char>, Seq<char>)> {
    seq![(name, value)]
}

/// The headers after `name` is set to `value`: what was stored under the
/// name leaves, and the new header comes last.
pub open spec fn with_header(
    headers: Seq<(Seq<char>, Seq<char>)>,
    name: Seq<char>,
    value: Seq<char>,
) -> Seq<(Seq<char>, Seq<char>)> {
    without_key(headers, name, true).push((name, value))
}

/// What `Response::new` makes of a body.
pub open spec fn new_response(body: Seq<u8>) -> ResponseView {
    ResponseView {
        status_code: 200,
        headers: one_header("Content-Type"@, "text/html; charset=UTF-8"@),
        body: Some(body),
    }
}

/// What converting a byte string into a response gives: a new response
/// whose content length is that of the bytes.
pub open spec fn response_from_bytes(body: Seq<u8>) -> ResponseView {
    ResponseView {
        headers: with_header(
            new_response(body).headers,
            "Content-Length"@,
            crate::text::decimal(body.len()),
        ),
        ..new_response(body)
    }
}

/// The setters do not interact: setting one header leaves what is stored
/// under every other header name as it was, and makes the new value the
/// one that a lookup of the header finds.
pub proof fn lemma_setters_independent(
    headers: Seq<(Seq<char>, Seq<char>)>,
    name: Seq<char>,
    value: Seq<char>,
    other: Seq<char>,
)
    requires
        !key_matches(true, other, name),
    ensures
        values_for(with_header(headers, name, value), other, true) == values_for(
            headers,
            other,
            true,
        ),
        first_for(with_header(headers, name, value), other, true) == first_for(headers, other, true),
        first_for(with_header(headers, name, value), name, true) == Some(value),
{
    let kept = without_key(headers, name, true);
    lemma_without_key_keeps_others(headers, name, other, true);
    assert(kept.push((name, value)).drop_last() == kept);
    lemma_set_leaves_one(headers, name, value, true);
}

impl Response {
    /// Create a `Response`. By default, the status code is 200
    /// and content type is "text/html; charset=UTF-8".
    /// Remember to set content length if necessary.
    pub fn new(body: Vec<u8>) -> (response: Response)
        ensures
            response@ == new_response(body@),
    {
        let mut headers = Headers::new(None);
        headers.add("Content-Type".to_owned(), "text/html; charset=UTF-8".to_owned());
        Response { status_code: 200, headers, body: Some(body) }
    }

    /// Create an empty response without body.
    pub fn new_empty() -> (response: Response)
        ensures
            response@ == (ResponseView { status_code: 200, headers: Seq::empty(), body: None }),
    {
        Response { status_code: 200, headers: Headers::new(None), body: None }
    }

    /// The status code.
    pub fn get_status_code(&self) -> (code: u16)
        ensures
            code == self.status_code,
    {
        self.status_code
    }

    /// Sets the status code. Any number is kept as it is given.
    pub fn set_status_code(&mut self, code: u16)
        ensures
            final(self)@ == (ResponseView { status_code: code, ..old(self)@ }),
    {
        self.status_code = code;
    }

    /// Get status name: the standard reason phrase of the status code, or
    /// `UNKNOWN` where it has none.
    pub fn status_name(&self) -> (name: &str)
        ensures
            name@ == match crate::httputils::status_name_of(self.status_code) {
                Some(phrase) => phrase,
                None => "UNKNOWN"@,
            },
    {
        match crate::httputils::get_name_by_http_code(self.status_code) {
            Some(name) => name,
            None => "UNKNOWN",
        }
    }

    /// Returns the response content type if available.
    pub fn content_type(&self) -> (value: Option<String>)
        ensures
            value is Some == first_for(self@.headers, "Content-Type"@, true) is Some,
            value is Some ==> value->0@ == first_for(self@.headers, "Content-Type"@, true)->0,
    {
        match self.headers.get("Content-Type".to_owned()) {
            Some(value) => Some(value.clone()),
            None => None,
        }
    }

    /// Returns the response content type if available.
    pub fn get_content_type(&self) -> (value: Option<String>)
        ensures
            value is Some == first_for(self@.headers, "Content-Type"@, true) is Some,
            value is Some ==> value->0@ == first_for(self@.headers, "Content-Type"@, true)->0,
    {
        self.content_type()
    }

    /// Set response content type. If the mimetype passed is a mimetype
    /// starting with `text/` or something that needs a charset, the
    /// charset(UTF-8) parameter is appended to it.
    pub fn set_content_type(&mut self, mimetype: &str)
        ensures
            final(self)@ == (ResponseView {
                headers: with_header(
                    old(self)@.headers,
                    "Content-Type"@,
                    crate::httputils::full_content_type(mimetype@, "UTF-8"@),
                ),
                ..old(self)@
            }),
    {
        let value = crate::httputils::get_content_type(mimetype, "UTF-8");
        self.headers.set("Content-Type".to_owned(), value);
    }

    /// Returns the response content length if available: the number that
    /// the first `Content-Length` header writes, where it is a decimal
    /// numeral that fits.
    pub fn content_length(&self) -> (value: Option<usize>)
        ensures
            value == stored_length(self@.headers),
    {
        match self.headers.get("Content-Length".to_owned()) {
            Some(text) => match crate::text::parse_decimal(text.as_str()) {
                Some(n) => if n <= usize::MAX as u64 {
                    Some(n as usize)
                } else {
                    None
                },
                None => None,
            },
            None => None,
        }
    }

    /// Returns the response content length if available.
    pub fn get_content_length(&self) -> (value: Option<usize>)
        ensures
            value == stored_length(self@.headers),
    {
        self.content_length()
    }

    /// Set content length.
    pub fn set_content_length(&mut self, value: usize)
        ensures
            final(self)@ == (ResponseView {
                headers: with_header(
                    old(self)@.headers,
                    "Content-Length"@,
                    crate::text::decimal(value as nat),
                ),
                ..old(self)@
            }),
    {
        self.headers.set("Content-Length".to_owned(), crate::text::decimal_string(value as u64));
    }

    /// Sets cookie: the `Set-Cookie` header becomes `cookie`.
    pub fn set_cookie(&mut self, cookie: String)
        ensures
            final(self)@ == (ResponseView {
                headers: with_header(old(self)@.headers, "Set-Cookie"@, cookie@),
                ..old(self)@
            }),
    {
        self.headers.set("Set-Cookie".to_owned(), cookie);
    }

    /// Sets a new string as response body. The content length is set
    /// automatically.
    pub fn set_data(&mut self, value: String)
        ensures
            final(self)@ == (ResponseView {
                headers: with_header(
                    old(self)@.headers,
                    "Content-Length"@,
                    crate::text::decimal(vstd::utf8::encode_utf8(value@).len()),
                ),
                body: Some(vstd::utf8::encode_utf8(value@)),
                ..old(self)@
            }),
    {
        let bytes = crate::text::bytes_of(value.as_str());
        let n = bytes.len();
        self.body = Some(bytes);
        self.set_content_length(n);
    }
}

/// The content length that a header list states.
pub open spec fn stored_length(headers: Seq<(Seq<char>, Seq<char>)>) -> Option<usize> {
    match first_for(headers, "Content-Length"@, true) {
        Some(text) => if crate::text::is_numeral(text) && crate::text::numeral_value(text)
            <= usize::MAX {
            Some(crate::text::numeral_value(text) as usize)
        } else {
            None
        },
        None => None,
    }
}

impl Response {
    /// A second response with the same status, headers and body.
    pub fn copy(&self) -> (same: Response)
        ensures
            same@ == self@,
    {
        Response {
            status_code: self.status_code,
            headers: self.headers.copy(),
            body: match &self.body {
                Some(bytes) => Some(bytes.clone()),
                None => None,
            },
        }
    }
}

impl From<Vec<u8>> for Response {
    /// Convert to response body. The content length is set automatically.
    fn from(bytes: Vec<u8>) -> (response: Response)
        ensures
            response@ == response_from_bytes(bytes@),
    {
        let content_length = bytes.len();
        let mut response = Response::new(bytes);
        response.set_content_length(content_length);
        response
    }
}

impl vstd::std_specs::convert::FromSpecImpl<Vec<u8>> for Response {
    open spec fn obeys_from_spec() -> bool {
        false
    }

    open spec fn from_spec(bytes: Vec<u8>) -> Response {
        arbitrary()
    }
}

impl From<String> for Response {
    /// Convert a string to response body. The content length is set
    /// automatically.
    fn from(s: String) -> (response: Response)
        ensures
            response@ == response_from_bytes(vstd::utf8::encode_utf8(s@)),
    {
        let bytes = crate::text::bytes_of(s.as_str());
        let content_length = bytes.len();
        let mut response = Response::new(bytes);
        response.set_content_length(content_length);
        response
    }
}

impl vstd::std_specs::convert::FromSpecImpl<String> for Response {
    open spec fn obeys_from_spec() -> bool {
        false
    }

    open spec fn from_spec(s: String) -> Response {
        arbitrary()
    }
}

impl<'a> From<&'a [u8]> for Response {
    /// Convert to response body. The content length is set automatically.
    fn from(bytes: &'a [u8]) -> (response: Response)
        ensures
            response@ == response_from_bytes(bytes@),
    {
        Response::from(vstd::slice::slice_to_vec(bytes))
    }
}

impl<'a> vstd::std_specs::convert::FromSpecImpl<&'a [u8]> for Response {
    open spec fn obeys_from_spec() -> bool {
        false
    }

    open spec fn from_spec(bytes: &'a [u8]) -> Response {
        arbitrary()
    }
}

impl<'a> From<&'a str> for Response {
    /// Convert to response body. The content length is set automatically.
    fn from(s: &'a str) -> (response: Response)
        ensures
            response@ == response_from_bytes(vstd::utf8::encode_utf8(s@)),
    {
        Response::from(crate::text::bytes_of(s))
    }
}

impl<'a> vstd::std_specs::convert::FromSpecImpl<&'a str> for Response {
    open spec fn obeys_from_spec() -> bool {
        false
    }

    open spec fn from_spec(s: &'a str) -> Response {
        arbitrary()
    }
}

} // verus!
