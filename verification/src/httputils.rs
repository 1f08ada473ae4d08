//! Helpers for HTTP data: reason phrases and content types.

use vstd::prelude::*;
use vstd::string::StringExecFns;
use crate::text::{contains_text, ends_with, has_prefix, has_suffix, occurs_in, same_text};

verus! {

/// The reason phrase that `http::StatusCode::canonical_reason` gives for the
/// status code `code`, if it has one.
pub uninterp spec fn canonical_reason_phrase(code: u16) -> Option<Seq<char>>;

/// `http::StatusCode::from_u16` followed by `canonical_reason`: the crate's
/// table of standard reason phrases. The table is not written out here; the
/// result is named by `canonical_reason_phrase`. `from_u16` accepts exactly
/// the codes from 100 to 999.
#[verifier::external_body]
fn canonical_reason(code: u16) -> (name: Option<&'static str>)
    requires
        100 <= code <= 999,
    ensures
        name is Some == canonical_reason_phrase(code) is Some,
        name is Some ==> name->0@ == canonical_reason_phrase(code)->0,
{
    http::StatusCode::from_u16(code).unwrap().canonical_reason()
}

/// The name of an HTTP status code, where it is a status code (100 to 999)
/// and has a standard name.
pub open spec fn status_name_of(code: u16) -> Option<Seq<char>> {
    if 100 <= code <= 999 {
        canonical_reason_phrase(code)
    } else {
        None
    }
}

/// Get HTTP status name by status code.
pub fn get_name_by_http_code(code: u16) -> (name: Option<&'static str>)
    ensures
        name is Some == status_name_of(code) is Some,
        name is Some ==> name->0@ == status_name_of(code)->0,
{
    if code < 100 || code > 999 {
        None
    } else {
        canonical_reason(code)
    }
}

/// Whether a content type is text-like and names no charset yet.
pub open spec fn needs_charset(mimetype: Seq<char>) -> bool {
    &&& "text/"@.is_prefix_of(mimetype) || mimetype == "application/xml"@ || (
    "application/"@.is_prefix_of(mimetype) && ends_with(mimetype, "+xml"@))
    &&& !occurs_in(mimetype, "charset"@)
}

/// The content type with the charset parameter added where it is needed.
pub open spec fn full_content_type(mimetype: Seq<char>, charset: Seq<char>) -> Seq<char> {
    if needs_charset(mimetype) {
        mimetype + "; charset="@ + charset
    } else {
        mimetype
    }
}

/// Return the full content type with charset for a mimetype.
pub fn get_content_type(mimetype: &str, charset: &str) -> (out: String)
    ensures
        out@ == full_content_type(mimetype@, charset@),
{
    let text_like = has_prefix(mimetype, "text/") || same_text(mimetype, "application/xml") || (
    has_prefix(mimetype, "application/") && has_suffix(mimetype, "+xml"));
    if text_like && !contains_text(mimetype, "charset") {
        let mut out = mimetype.to_owned();
        out.append("; charset=");
        out.append(charset);
        out
    } else {
        mimetype.to_owned()
    }
}

} // verus!
