//! Helpers for views: aborting, redirecting, escaping, and answering with
//! the content of a file, whole or by byte range.

use vstd::prelude::*;
use vstd::string::StringExecFns;
use std::path::PathBuf;
use crate::http_errors::HTTPError;
use crate::text::{chars_of, decimal, decimal_string, has_prefix, same_text};
use crate::types::{result_view, PencilError, PencilErrorView, PencilResult, UserError};
use crate::wrappers::{new_response, with_header, Body, DrainError, Response, ResponseView};

verus! {

/// `std::path::PathBuf`, an owned file path.
#[verifier::external_type_specification]
#[verifier::external_body]
pub struct ExPathBuf(PathBuf);

/// `std::path::Path::is_absolute`: whether the platform takes `path` as
/// absolute. What counts as absolute differs between platforms, so nothing
/// is stated of the answer.
#[verifier::external_body]
fn path_is_absolute(path: &str) -> bool {
    std::path::Path::new(path).is_absolute()
}

/// `std::path::Path::join`: the path of `filename` under `directory`, by
/// the platform's rules.
#[verifier::external_body]
fn path_join(directory: &str, filename: &str) -> PathBuf {
    std::path::Path::new(directory).join(filename)
}

/// Whether a file name leads out of the directory it is joined to: it is
/// `..` or begins with `../`.
pub open spec fn escapes_parent(filename: Seq<char>) -> bool {
    filename == ".."@ || "../"@.is_prefix_of(filename)
}

/// Whether a file name may be joined to a directory, given whether the
/// platform takes it as absolute.
pub open spec fn may_join(filename: Seq<char>, absolute: bool) -> bool {
    !absolute && !escapes_parent(filename)
}

/// Whether `filename` may be joined to a directory: it is not absolute
/// and does not lead out of the directory.
pub fn join_allowed(filename: &str, absolute: bool) -> (allowed: bool)
    ensures
        allowed == may_join(filename@, absolute),
{
    !(absolute || same_text(filename, "..") || has_prefix(filename, "../"))
}

/// Safely join directory and filename, otherwise this returns None.
pub fn safe_join(directory: &str, filename: &str) -> (joined: Option<PathBuf>)
    ensures
        escapes_parent(filename@) ==> joined is None,
{
    let absolute = path_is_absolute(filename);
    if join_allowed(filename, absolute) {
        Some(path_join(directory, filename))
    } else {
        None
    }
}

/// One helper function that can be used to return HTTP Error inside a view
/// function.
pub fn abort(code: u16) -> (result: PencilResult)
    ensures
        result_view(result) == Err::<ResponseView, PencilErrorView>(
            PencilErrorView::Http(HTTPError::for_code(code)),
        ),
{
    Err(PencilError::PenHTTPError(HTTPError::new(code)))
}

/// The page of a redirect to `location`.
pub open spec fn redirect_page(location: Seq<char>) -> Seq<char> {
    "<!DOCTYPE HTML PUBLIC \"-//W3C//DTD HTML 3.2 Final//EN\">\n<title>Redirecting...</title>\n<h1>Redirecting...</h1>\n<p>You should be redirected automatically to target URL: \n<a href=\""@
        + location + "\">"@ + location + "</a>.  If not click the link.\n"@
}

/// The response of a redirect to `location` under the status `code`.
pub open spec fn redirect_response(location: Seq<char>, code: u16) -> ResponseView {
    let page = vstd::utf8::encode_utf8(redirect_page(location));
    ResponseView {
        status_code: code,
        headers: with_header(
            with_header(
                crate::wrappers::response_from_bytes(page).headers,
                "Content-Type"@,
                "text/html; charset=UTF-8"@,
            ),
            "Location"@,
            location,
        ),
        body: Some(page),
    }
}

/// Returns a response that redirects the client to the target location.
pub fn redirect(location: &str, code: u16) -> (result: PencilResult)
    ensures
        result_view(result) == Ok::<ResponseView, PencilErrorView>(
            redirect_response(location@, code),
        ),
{
    let mut page = "<!DOCTYPE HTML PUBLIC \"-//W3C//DTD HTML 3.2 Final//EN\">\n<title>Redirecting...</title>\n<h1>Redirecting...</h1>\n<p>You should be redirected automatically to target URL: \n<a href=\"".to_owned();
    page.append(location);
    page.append("\">");
    page.append(location);
    page.append("</a>.  If not click the link.\n");
    let mut response = Response::from(page);
    response.status_code = code;
    response.set_content_type("text/html");
    response.headers.set("Location".to_owned(), location.to_owned());
    proof {
        reveal_strlit("text/html");
        reveal_strlit("text/");
        reveal_strlit("charset");
        reveal_strlit("; charset=");
        reveal_strlit("UTF-8");
        reveal_strlit("text/html; charset=UTF-8");
        assert("text/"@.is_prefix_of("text/html"@));
        assert forall|at: int| !crate::text::occurs_at("text/html"@, "charset"@, at) by {
            if 0 <= at && at + 7 <= 9 {
                assert("text/html"@.subrange(at, at + 7)[0] == "text/html"@[at]);
            }
        }
        assert(crate::httputils::full_content_type("text/html"@, "UTF-8"@)
            =~= "text/html; charset=UTF-8"@);
    }
    Ok(response)
}

/// What `escape` puts in place of one character.
pub open spec fn escaped_char(c: char) -> Seq<char> {
    if c == '&' {
        "&amp;"@
    } else if c == '<' {
        "&lt;"@
    } else if c == '>' {
        "&gt;"@
    } else if c == '"' {
        "&quot;"@
    } else {
        seq![c]
    }
}

/// `s` with each of its characters escaped, in order.
pub open spec fn escaped(s: Seq<char>) -> Seq<char>
    decreases s.len(),
{
    if s.len() == 0 {
        Seq::empty()
    } else {
        escaped(s.drop_last()) + escaped_char(s.last())
    }
}

/// Replace special characters "&", "<", ">" and (") to HTML-safe characters.
pub fn escape(s: String) -> (out: String)
    ensures
        out@ == escaped(s@),
{
    let cs = chars_of(s.as_str());
    let mut out = String::new();
    let mut i: usize = 0;
    while i < cs.len()
        invariant
            i <= cs.len(),
            cs@ == s@,
            out@ == escaped(s@.take(i as int)),
        decreases cs.len() - i,
    {
        proof {
            assert(s@.take(i + 1).drop_last() == s@.take(i as int));
            assert(s@.take(i + 1).last() == cs@[i as int]);
        }
        let c = cs[i];
        if c == '&' {
            out.append("&amp;");
        } else if c == '<' {
            out.append("&lt;");
        } else if c == '>' {
            out.append("&gt;");
        } else if c == '"' {
            out.append("&quot;");
        } else {
            out.push(c);
            proof {
                assert(out@ == escaped(s@.take(i as int)) + seq![c]);
            }
        }
        i += 1;
    }
    proof {
        assert(s@.take(cs.len() as int) == s@);
    }
    out
}

/// Reads a body to its end and returns its bytes, or the reason why
/// the read stopped short: the first failure of the stream, or the limit
/// of the body.
pub fn load_body(body: &mut Body) -> (out: Result<Vec<u8>, DrainError>)
    ensures
        final(body)@ == crate::wrappers::drained(old(body)@),
        crate::wrappers::drain_view(out) == crate::wrappers::drain_result(
            old(body)@.pending,
            old(body)@.limit,
        ),
{
    body.drain()
}

/// `std::path::Path::file_name` followed by `to_str`: the last component
/// of `path` by the platform's rules, where it has one that is valid
/// Unicode.
#[verifier::external_body]
fn path_file_name(path: &str) -> Option<String> {
    std::path::Path::new(path).file_name().and_then(|name| name.to_str()).map(|name| name.to_string())
}

/// `std::path::Path::to_str`: the text of `path`, where it is valid
/// Unicode.
#[verifier::external_body]
fn path_text(path: &PathBuf) -> Option<String> {
    path.as_path().to_str().map(|text| text.to_string())
}

/// `mime_guess::from_path` followed by `first_or_octet_stream`: the media
/// type that the crate's table gives for the extension of `path`, or
/// `application/octet-stream`. The table changes between releases of the
/// crate, and the extension is found by the platform's rules.
#[verifier::external_body]
fn guess_mime(path: &PathBuf) -> String {
    mime_guess::from_path(path.as_path()).first_or_octet_stream().to_string()
}

/// One end of a byte range.
#[derive(Clone, Copy, Debug, PartialEq, Eq, Structural)]
pub enum RangeBound {
    Unbounded,
    Included(u64),
    Excluded(u64),
}

/// The byte ranges that a request asks for, in the order of its `Range`
/// header, each with its start and its end.
pub struct ByteRanges {
    pub ranges: Vec<(RangeBound, RangeBound)>,
}

/// What the caller found at a file path.
pub enum FileState {
    /// There is no file at the path.
    Missing,
    /// The file could not be opened; the text says why.
    Unreadable(String),
    /// The content of the file, and its length where the file system
    /// told it.
    Opened { bytes: Vec<u8>, len: Option<u64> },
}

/// A file state by its view.
pub enum FileStateView {
    Missing,
    Unreadable(Seq<char>),
    Opened { bytes: Seq<u8>, len: Option<u64> },
}

impl View for FileState {
    type V = FileStateView;

    open spec fn view(&self) -> FileStateView {
        match self {
            FileState::Missing => FileStateView::Missing,
            FileState::Unreadable(reason) => FileStateView::Unreadable(reason@),
            FileState::Opened { bytes, len } => FileStateView::Opened { bytes: bytes@, len: *len },
        }
    }
}

/// The first byte that a range with the start `bound` covers.
pub open spec fn window_start(bound: RangeBound) -> int {
    match bound {
        RangeBound::Unbounded => 0,
        RangeBound::Included(start) => start as int,
        RangeBound::Excluded(start) => start + 1,
    }
}

/// The position behind the last byte that a range with the end `bound`
/// covers in a resource of `len` bytes.
pub open spec fn window_end(bound: RangeBound, len: u64) -> int {
    let end = match bound {
        RangeBound::Unbounded => len as int,
        RangeBound::Included(end) => end + 1,
        RangeBound::Excluded(end) => end as int,
    };
    if end < len {
        end
    } else {
        len as int
    }
}

/// The window of a resource of `len` bytes that a request is answered
/// with: from the first position to the one behind the last. There is one
/// where exactly one range is asked for and it covers at least one byte of
/// the resource; else the whole resource is sent.
pub open spec fn window_of(len: u64, ranges: Option<Seq<(RangeBound, RangeBound)>>) -> Option<
    (u64, u64),
> {
    match ranges {
        Some(list) => if list.len() == 1 && window_start(list[0].0) < window_end(list[0].1, len) {
            Some((window_start(list[0].0) as u64, window_end(list[0].1, len) as u64))
        } else {
            None
        },
        None => None,
    }
}

/// The ranges of a request by their view.
pub open spec fn ranges_view(range: Option<&ByteRanges>) -> Option<Seq<(RangeBound, RangeBound)>> {
    match range {
        Some(r) => Some(r.ranges@),
        None => None,
    }
}

/// The window of a resource of `len` bytes that a request for `range` is
/// answered with, if it is answered in part.
pub fn byte_window(len: u64, range: Option<&ByteRanges>) -> (window: Option<(u64, u64)>)
    ensures
        window == window_of(len, ranges_view(range)),
        window matches Some((start, end)) ==> start < end <= len,
{
    let list = match range {
        Some(r) => &r.ranges,
        None => {
            return None;
        },
    };
    if list.len() != 1 {
        return None;
    }
    let start: u64 = match list[0].0 {
        RangeBound::Unbounded => 0,
        RangeBound::Included(start) => start,
        RangeBound::Excluded(start) => {
            if start == u64::MAX {
                return None;
            }
            start + 1
        },
    };
    let end: u64 = match list[0].1 {
        RangeBound::Unbounded => len,
        RangeBound::Included(end) => if end < len {
            end + 1
        } else {
            len
        },
        RangeBound::Excluded(end) => if end < len {
            end
        } else {
            len
        },
    };
    if start < end {
        Some((start, end))
    } else {
        None
    }
}

/// The bytes of `bytes` from position `from` up to, not including,
/// position `to`, both cut to the length of `bytes`.
pub open spec fn cut(bytes: Seq<u8>, from: u64, to: u64) -> Seq<u8> {
    let n = bytes.len() as int;
    let a = if from < n { from as int } else { n };
    let b = if to < n { to as int } else { n };
    if a <= b {
        bytes.subrange(a, b)
    } else {
        Seq::empty()
    }
}

/// The bytes of `bytes` from position `from` up to, not including,
/// position `to`, both cut to the length of `bytes`.
pub fn slice_between(bytes: &Vec<u8>, from: u64, to: u64) -> (out: Vec<u8>)
    ensures
        out@ == cut(bytes@, from, to),
{
    let n = bytes.len();
    let a: usize = if from < n as u64 { from as usize } else { n };
    let b: usize = if to < n as u64 { to as usize } else { n };
    let mut out: Vec<u8> = Vec::new();
    if a > b {
        return out;
    }
    let mut i: usize = a;
    while i < b
        invariant
            a <= i <= b <= bytes.len(),
            out@ == bytes@.subrange(a as int, i as int),
        decreases b - i,
    {
        out.push(bytes[i]);
        proof {
            assert(bytes@.subrange(a as int, i + 1) == bytes@.subrange(a as int, i as int).push(
                bytes@[i as int],
            ));
        }
        i += 1;
    }
    out
}

/// The response that carries a whole file: a new response with the
/// content as body, and the content length where the file system told the
/// file's length.
pub open spec fn whole_file_response(bytes: Seq<u8>, len: Option<u64>) -> ResponseView {
    match len {
        Some(n) => ResponseView {
            headers: with_header(new_response(bytes).headers, "Content-Length"@, decimal(n as nat)),
            ..new_response(bytes)
        },
        None => new_response(bytes),
    }
}

/// The value of the `Content-Range` header for the window from `start` up
/// to, not including, `end` of a resource of `len` bytes.
pub open spec fn content_range(start: u64, end: u64, len: u64) -> Seq<char> {
    "bytes "@ + decimal(start as nat) + "-"@ + decimal((end - 1) as nat) + "/"@ + decimal(len as nat)
}

/// The response that carries the window `window` of a file, or the whole
/// file where there is no window.
pub open spec fn ranged_file_response(bytes: Seq<u8>, len: u64, window: Option<(u64, u64)>) -> ResponseView {
    match window {
        Some((start, end)) => {
            let part = cut(bytes, start, end);
            ResponseView {
                status_code: 206,
                headers: with_header(
                    with_header(new_response(part).headers, "Content-Length"@, decimal(part.len())),
                    "Content-Range"@,
                    content_range(start, end, len),
                ),
                body: Some(part),
            }
        },
        None => whole_file_response(bytes, Some(len)),
    }
}

/// A response with its content type set to `mimetype` as it stands and,
/// for an attachment, its disposition set to the file name. An attachment
/// without a file name is a user error.
pub open spec fn labelled(
    response: ResponseView,
    mimetype: Seq<char>,
    as_attachment: bool,
    file_name: Option<Seq<char>>,
) -> Result<ResponseView, PencilErrorView> {
    let typed = ResponseView {
        headers: with_header(response.headers, "Content-Type"@, mimetype),
        ..response
    };
    if !as_attachment {
        Ok(typed)
    } else {
        match file_name {
            Some(name) => Ok(
                ResponseView {
                    headers: with_header(
                        typed.headers,
                        "Content-Disposition"@,
                        "attachment; filename="@ + name,
                    ),
                    ..typed
                },
            ),
            None => Err(
                PencilErrorView::User(
                    "filename unavailable, required for sending as attachment."@,
                ),
            ),
        }
    }
}

/// What answers a request for the file at `path`, given what was found
/// there and the file name that the path ends in.
pub open spec fn file_answer(
    path: Seq<char>,
    file: FileStateView,
    mimetype: Seq<char>,
    as_attachment: bool,
    file_name: Option<Seq<char>>,
) -> Result<ResponseView, PencilErrorView> {
    match file {
        FileStateView::Missing => Err(PencilErrorView::Http(HTTPError::NotFound)),
        FileStateView::Unreadable(reason) => Err(
            PencilErrorView::User("couldn't open "@ + path + ": "@ + reason),
        ),
        FileStateView::Opened { bytes, len } => labelled(
            whole_file_response(bytes, len),
            mimetype,
            as_attachment,
            file_name,
        ),
    }
}

/// What answers a request for the ranges `ranges` of the file at `path`.
/// A file whose length the file system did not tell is an internal server
/// error.
pub open spec fn file_range_answer(
    path: Seq<char>,
    file: FileStateView,
    mimetype: Seq<char>,
    as_attachment: bool,
    ranges: Option<Seq<(RangeBound, RangeBound)>>,
    file_name: Option<Seq<char>>,
) -> Result<ResponseView, PencilErrorView> {
    match file {
        FileStateView::Missing => Err(PencilErrorView::Http(HTTPError::NotFound)),
        FileStateView::Unreadable(reason) => Err(
            PencilErrorView::User("couldn't open "@ + path + ": "@ + reason),
        ),
        FileStateView::Opened { bytes, len } => match len {
            Some(n) => labelled(
                ranged_file_response(bytes, n, window_of(n, ranges)),
                mimetype,
                as_attachment,
                file_name,
            ),
            None => Err(PencilErrorView::Http(HTTPError::InternalServerError)),
        },
    }
}

/// The user error for a file that could not be opened.
fn open_failure(filepath: &str, reason: &str) -> (error: PencilError)
    ensures
        error@ == PencilErrorView::User("couldn't open "@ + filepath@ + ": "@ + reason@),
{
    let mut text = "couldn't open ".to_owned();
    text.append(filepath);
    text.append(": ");
    text.append(reason);
    PencilError::PenUserError(UserError::new(text))
}

/// Sets the content type of `response` to `mimetype` and, for an
/// attachment, its disposition to `file_name`.
fn label(response: Response, mimetype: &str, as_attachment: bool, file_name: Option<String>) -> (result:
    PencilResult)
    ensures
        result_view(result) == labelled(
            response@,
            mimetype@,
            as_attachment,
            match file_name {
                Some(name) => Some(name@),
                None => None,
            },
        ),
{
    let mut response = response;
    response.headers.set("Content-Type".to_owned(), mimetype.to_owned());
    if as_attachment {
        match file_name {
            Some(name) => {
                let mut disposition = "attachment; filename=".to_owned();
                disposition.append(name.as_str());
                response.headers.set("Content-Disposition".to_owned(), disposition);
            },
            None => {
                return Err(
                    PencilError::PenUserError(
                        UserError::new(
                            "filename unavailable, required for sending as attachment.".to_owned(),
                        ),
                    ),
                );
            },
        }
    }
    Ok(response)
}

/// An optional string by its view.
pub open spec fn text_view(text: Option<String>) -> Option<Seq<char>> {
    match text {
        Some(t) => Some(t@),
        None => None,
    }
}

/// Answers with a file, given what was found at `filepath` and the file
/// name that the path ends in.
pub fn respond_with_file(
    filepath: &str,
    file: FileState,
    mimetype: &str,
    as_attachment: bool,
    file_name: Option<String>,
) -> (result: PencilResult)
    ensures
        result_view(result) == file_answer(
            filepath@,
            file@,
            mimetype@,
            as_attachment,
            text_view(file_name),
        ),
{
    match file {
        FileState::Missing => Err(PencilError::PenHTTPError(HTTPError::NotFound)),
        FileState::Unreadable(reason) => Err(open_failure(filepath, reason.as_str())),
        FileState::Opened { bytes, len } => {
            let mut response = Response::new(bytes);
            match len {
                Some(n) => {
                    response.headers.set("Content-Length".to_owned(), decimal_string(n));
                },
                None => {},
            }
            label(response, mimetype, as_attachment, file_name)
        },
    }
}

/// Sends the contents of a file to the client. `file` is what the caller
/// found at `filepath`. Set `as_attachment` to `true` if you want to send
/// this file with a `Content-Disposition: attachment` header. This will
/// return `NotFound` if filepath is not one file.
pub fn send_file(filepath: &str, file: FileState, mimetype: &str, as_attachment: bool) -> (result:
    PencilResult)
    ensures
        exists|file_name: Option<Seq<char>>|
            result_view(result) == file_answer(
                filepath@,
                file@,
                mimetype@,
                as_attachment,
                file_name,
            ),
        !as_attachment ==> result_view(result) == file_answer(
            filepath@,
            file@,
            mimetype@,
            false,
            None,
        ),
{
    let file_name = if as_attachment {
        path_file_name(filepath)
    } else {
        None
    };
    let ghost name = text_view(file_name);
    let result = respond_with_file(filepath, file, mimetype, as_attachment, file_name);
    proof {
        assert(result_view(result) == file_answer(
            filepath@,
            file@,
            mimetype@,
            as_attachment,
            name,
        ));
    }
    result
}

/// Answers with a file or a byte range of it, given what was found at
/// `filepath` and the file name that the path ends in.
pub fn respond_with_file_range(
    filepath: &str,
    file: FileState,
    mimetype: &str,
    as_attachment: bool,
    range: Option<&ByteRanges>,
    file_name: Option<String>,
) -> (result: PencilResult)
    ensures
        result_view(result) == file_range_answer(
            filepath@,
            file@,
            mimetype@,
            as_attachment,
            ranges_view(range),
            text_view(file_name),
        ),
{
    match file {
        FileState::Missing => Err(PencilError::PenHTTPError(HTTPError::NotFound)),
        FileState::Unreadable(reason) => Err(open_failure(filepath, reason.as_str())),
        FileState::Opened { bytes, len } => {
            let len = match len {
                Some(n) => n,
                None => {
                    return Err(PencilError::PenHTTPError(HTTPError::InternalServerError));
                },
            };
            let response = match byte_window(len, range) {
                Some((start, end)) => {
                    let part = slice_between(&bytes, start, end);
                    let content_len = part.len();
                    let mut resp = Response::new(part);
                    resp.status_code = 206;
                    resp.headers.set(
                        "Content-Length".to_owned(),
                        decimal_string(content_len as u64),
                    );
                    let mut value = "bytes ".to_owned();
                    value.append(decimal_string(start).as_str());
                    value.append("-");
                    value.append(decimal_string(end - 1).as_str());
                    value.append("/");
                    value.append(decimal_string(len).as_str());
                    resp.headers.set("Content-Range".to_owned(), value);
                    resp
                },
                None => {
                    let mut resp = Response::new(bytes);
                    resp.headers.set("Content-Length".to_owned(), decimal_string(len));
                    resp
                },
            };
            label(response, mimetype, as_attachment, file_name)
        },
    }
}

/// Sends the contents of a file to the client, supporting HTTP Range
/// requests, so it allows only partial files to be requested and sent.
/// A request for several ranges, or for a range that covers no byte of the
/// file, is answered with the whole file. `file` is what the caller found
/// at `filepath`.
pub fn send_file_range(
    filepath: &str,
    file: FileState,
    mimetype: &str,
    as_attachment: bool,
    range: Option<&ByteRanges>,
) -> (result: PencilResult)
    ensures
        exists|file_name: Option<Seq<char>>|
            result_view(result) == file_range_answer(
                filepath@,
                file@,
                mimetype@,
                as_attachment,
                ranges_view(range),
                file_name,
            ),
        !as_attachment ==> result_view(result) == file_range_answer(
            filepath@,
            file@,
            mimetype@,
            false,
            ranges_view(range),
            None,
        ),
{
    let file_name = if as_attachment {
        path_file_name(filepath)
    } else {
        None
    };
    let ghost name = text_view(file_name);
    let result = respond_with_file_range(filepath, file, mimetype, as_attachment, range, file_name);
    proof {
        assert(result_view(result) == file_range_answer(
            filepath@,
            file@,
            mimetype@,
            as_attachment,
            ranges_view(range),
            name,
        ));
    }
    result
}

/// Send a file from a given directory with `send_file`. This is a secure
/// way to quickly expose static files from a folder. This will guess the
/// mimetype for you. `file` is what the caller found at the path that
/// `safe_join` gives.
pub fn send_from_directory(directory: &str, filename: &str, file: FileState, as_attachment: bool) -> (result:
    PencilResult)
    ensures
        escapes_parent(filename@) ==> result_view(result) == Err::<ResponseView, PencilErrorView>(
            PencilErrorView::Http(HTTPError::NotFound),
        ),
        result_view(result) == Err::<ResponseView, PencilErrorView>(
            PencilErrorView::Http(HTTPError::NotFound),
        ) || exists|path: Seq<char>, mimetype: Seq<char>, file_name: Option<Seq<char>>|
            result_view(result) == file_answer(path, file@, mimetype, as_attachment, file_name),
{
    match safe_join(directory, filename) {
        Some(filepath) => {
            let mimetype = guess_mime(&filepath);
            match path_text(&filepath) {
                Some(text) => send_file(text.as_str(), file, mimetype.as_str(), as_attachment),
                None => Err(PencilError::PenHTTPError(HTTPError::NotFound)),
            }
        },
        None => Err(PencilError::PenHTTPError(HTTPError::NotFound)),
    }
}

/// Send a file from a given directory with `send_file_range`, supporting
/// HTTP Range requests. `file` is what the caller found at the path that
/// `safe_join` gives.
pub fn send_from_directory_range(
    directory: &str,
    filename: &str,
    file: FileState,
    as_attachment: bool,
    range: Option<&ByteRanges>,
) -> (result: PencilResult)
    ensures
        escapes_parent(filename@) ==> result_view(result) == Err::<ResponseView, PencilErrorView>(
            PencilErrorView::Http(HTTPError::NotFound),
        ),
        result_view(result) == Err::<ResponseView, PencilErrorView>(
            PencilErrorView::Http(HTTPError::NotFound),
        ) || exists|path: Seq<char>, mimetype: Seq<char>, file_name: Option<Seq<char>>|
            result_view(result) == file_range_answer(
                path,
                file@,
                mimetype,
                as_attachment,
                ranges_view(range),
                file_name,
            ),
{
    match safe_join(directory, filename) {
        Some(filepath) => {
            let mimetype = guess_mime(&filepath);
            match path_text(&filepath) {
                Some(text) => send_file_range(
                    text.as_str(),
                    file,
                    mimetype.as_str(),
                    as_attachment,
                    range,
                ),
                None => Err(PencilError::PenHTTPError(HTTPError::NotFound)),
            }
        },
        None => Err(PencilError::PenHTTPError(HTTPError::NotFound)),
    }
}

} // verus!
