use sharp_pencil::helpers::{
    abort, byte_window, escape, join_allowed, load_body, redirect, respond_with_file,
    respond_with_file_range, safe_join, send_file, send_file_range, send_from_directory,
    send_from_directory_range, slice_between, ByteRanges, FileState, RangeBound,
};
use sharp_pencil::http_errors::HTTPError;
use sharp_pencil::types::PencilError;
use sharp_pencil::wrappers::{Body, DrainError, Response, StreamError};

fn header_list(response: &Response) -> Vec<(String, String)> {
    response.headers.iter().into_iter().map(|(k, v)| (k.clone(), v.clone())).collect()
}

fn header(response: &Response, name: &str) -> Option<String> {
    response.headers.get(name.to_string()).cloned()
}

fn stream_message(out: Result<Vec<u8>, DrainError>) -> String {
    match out {
        Err(DrainError::Stream(e)) => e.message,
        _ => panic!("expected a failed read"),
    }
}

fn resource(len: usize) -> Vec<u8> {
    (0..len).map(|i| (i % 251) as u8).collect()
}

fn opened(bytes: Vec<u8>) -> FileState {
    let len = bytes.len() as u64;
    FileState::Opened { bytes, len: Some(len) }
}

fn one_range(start: RangeBound, end: RangeBound) -> ByteRanges {
    ByteRanges { ranges: vec![(start, end)] }
}

#[test]
fn safe_join_joins_plain_names() {
    assert_eq!(
        safe_join("static", "css/site.css"),
        Some(std::path::Path::new("static").join("css/site.css"))
    );
    assert_eq!(safe_join("/web/demo", "user.sql"), Some(std::path::PathBuf::from("/web/demo/user.sql")));
}

#[test]
fn safe_join_refuses_parent_and_absolute_names() {
    assert_eq!(safe_join("static", ".."), None);
    assert_eq!(safe_join("static", "../secret"), None);
    assert_eq!(safe_join("static", "../../etc/passwd"), None);
    assert_eq!(safe_join("static", "/etc/passwd"), None);
}

#[test]
fn safe_join_lets_inner_dots_pass() {
    assert!(safe_join("static", "a/../b").is_some());
    assert!(safe_join("static", "..hidden").is_some());
    assert!(safe_join("static", "").is_some());
}

#[test]
fn join_allowed_decides_from_name_and_absoluteness() {
    assert!(join_allowed("file.txt", false));
    assert!(!join_allowed("file.txt", true));
    assert!(!join_allowed("..", false));
    assert!(!join_allowed("../x", false));
    assert!(join_allowed("...", false));
    assert!(join_allowed("..x", false));
}

#[test]
fn abort_gives_the_error_of_the_code() {
    assert!(matches!(abort(404), Err(PencilError::PenHTTPError(HTTPError::NotFound))));
    assert!(matches!(abort(403), Err(PencilError::PenHTTPError(HTTPError::Forbidden))));
    assert!(matches!(abort(500), Err(PencilError::PenHTTPError(HTTPError::InternalServerError))));
    assert!(matches!(abort(299), Err(PencilError::PenHTTPError(HTTPError::InternalServerError))));
}

#[test]
fn redirect_builds_page_and_location() {
    let response = redirect("/login?next=%2F", 302).unwrap();
    assert_eq!(response.status_code, 302);
    let page = "<!DOCTYPE HTML PUBLIC \"-//W3C//DTD HTML 3.2 Final//EN\">\n<title>Redirecting...</title>\n<h1>Redirecting...</h1>\n<p>You should be redirected automatically to target URL: \n<a href=\"/login?next=%2F\">/login?next=%2F</a>.  If not click the link.\n";
    assert_eq!(response.body, Some(page.as_bytes().to_vec()));
    assert_eq!(header(&response, "Location"), Some("/login?next=%2F".to_string()));
    assert_eq!(header(&response, "Content-Type"), Some("text/html; charset=UTF-8".to_string()));
    assert_eq!(header(&response, "Content-Length"), Some(page.len().to_string()));
    assert_eq!(response.headers.len(), 3);
}

#[test]
fn escape_replaces_the_four_characters() {
    assert_eq!(escape("<a href=\"x\">T&C</a>".to_string()), "&lt;a href=&quot;x&quot;&gt;T&amp;C&lt;/a&gt;");
    assert_eq!(escape("plain text \u{e9}'".to_string()), "plain text \u{e9}'");
    assert_eq!(escape(String::new()), "");
    assert_eq!(escape("&amp;".to_string()), "&amp;amp;");
}

#[test]
fn escape_equals_the_chain_of_replacements() {
    let samples = ["a&b<c>d\"e", "&&<<>>\"\"", "&lt;&gt;", "x", "\"&\""];
    for s in samples {
        let chained = s
            .replace("&", "&amp;")
            .replace("<", "&lt;")
            .replace(">", "&gt;")
            .replace("\"", "&quot;");
        assert_eq!(escape(s.to_string()), chained);
    }
}

#[test]
fn load_body_joins_chunks_and_counts() {
    let mut body = Body::new(vec![Ok(vec![1, 2]), Ok(vec![]), Ok(vec![3])]);
    assert_eq!(body.drain_count(), 0);
    assert_eq!(load_body(&mut body).unwrap(), vec![1, 2, 3]);
    assert_eq!(body.drain_count(), 1);
    assert_eq!(load_body(&mut body).unwrap(), Vec::<u8>::new());
    assert_eq!(body.drain_count(), 2);
}

#[test]
fn load_body_stops_at_the_first_failure() {
    let mut body = Body::new(vec![
        Ok(vec![1]),
        Err(StreamError { message: "first".to_string() }),
        Ok(vec![2]),
        Err(StreamError { message: "second".to_string() }),
        Ok(vec![3]),
    ]);
    assert_eq!(stream_message(load_body(&mut body)), "first");
    assert_eq!(stream_message(load_body(&mut body)), "second");
    assert_eq!(load_body(&mut body).unwrap(), vec![3]);
    assert_eq!(load_body(&mut body).unwrap(), Vec::<u8>::new());
}

#[test]
fn load_body_without_limit_takes_everything() {
    let mut body = Body::new(vec![Ok(vec![0; 4096]), Ok(vec![1; 4096])]);
    assert_eq!(body.limit(), None);
    assert_eq!(load_body(&mut body).unwrap().len(), 8192);
}

#[test]
fn load_body_within_its_limit_succeeds() {
    let mut body = Body::new(vec![Ok(vec![1, 2]), Ok(vec![3])]);
    body.set_limit(Some(3));
    assert_eq!(body.limit(), Some(3));
    assert_eq!(load_body(&mut body).unwrap(), vec![1, 2, 3]);
    let mut body = Body::empty();
    body.set_limit(Some(0));
    assert_eq!(load_body(&mut body).unwrap(), Vec::<u8>::new());
}

#[test]
fn load_body_over_its_limit_is_too_large() {
    let mut body = Body::new(vec![Ok(vec![1, 2]), Ok(vec![3, 4]), Ok(vec![5])]);
    body.set_limit(Some(3));
    assert!(matches!(load_body(&mut body), Err(DrainError::TooLarge)));
    assert_eq!(body.drain_count(), 1);
    assert_eq!(load_body(&mut body).unwrap(), vec![5]);
    let mut body = Body::from_bytes(vec![9]);
    body.set_limit(Some(0));
    assert!(matches!(load_body(&mut body), Err(DrainError::TooLarge)));
}

#[test]
fn load_body_reports_what_comes_first() {
    let mut body = Body::new(vec![
        Ok(vec![1]),
        Err(StreamError { message: "cut".to_string() }),
        Ok(vec![2, 3, 4]),
    ]);
    body.set_limit(Some(2));
    assert_eq!(stream_message(load_body(&mut body)), "cut");
    assert!(matches!(load_body(&mut body), Err(DrainError::TooLarge)));
    let mut body = Body::new(vec![
        Ok(vec![1, 2, 3]),
        Err(StreamError { message: "cut".to_string() }),
    ]);
    body.set_limit(Some(2));
    assert!(matches!(load_body(&mut body), Err(DrainError::TooLarge)));
    assert_eq!(stream_message(load_body(&mut body)), "cut");
}

#[test]
fn load_body_of_an_empty_body_is_empty() {
    let mut body = Body::empty();
    assert_eq!(load_body(&mut body).unwrap(), Vec::<u8>::new());
}

#[test]
fn byte_window_of_single_ranges() {
    let r = one_range(RangeBound::Included(0), RangeBound::Included(99));
    assert_eq!(byte_window(500, Some(&r)), Some((0, 100)));
    let r = one_range(RangeBound::Included(400), RangeBound::Unbounded);
    assert_eq!(byte_window(500, Some(&r)), Some((400, 500)));
    let r = one_range(RangeBound::Unbounded, RangeBound::Excluded(10));
    assert_eq!(byte_window(500, Some(&r)), Some((0, 10)));
    let r = one_range(RangeBound::Excluded(9), RangeBound::Included(9));
    assert_eq!(byte_window(500, Some(&r)), None);
    let r = one_range(RangeBound::Excluded(9), RangeBound::Included(10));
    assert_eq!(byte_window(500, Some(&r)), Some((10, 11)));
}

#[test]
fn byte_window_cuts_the_end_to_the_length() {
    let r = one_range(RangeBound::Included(100), RangeBound::Included(9999));
    assert_eq!(byte_window(500, Some(&r)), Some((100, 500)));
    let r = one_range(RangeBound::Included(0), RangeBound::Included(u64::MAX));
    assert_eq!(byte_window(500, Some(&r)), Some((0, 500)));
}

#[test]
fn byte_window_is_none_without_a_window() {
    assert_eq!(byte_window(500, None), None);
    let none = ByteRanges { ranges: vec![] };
    assert_eq!(byte_window(500, Some(&none)), None);
    let two = ByteRanges {
        ranges: vec![
            (RangeBound::Included(0), RangeBound::Included(9)),
            (RangeBound::Included(20), RangeBound::Included(29)),
        ],
    };
    assert_eq!(byte_window(500, Some(&two)), None);
    let r = one_range(RangeBound::Included(500), RangeBound::Unbounded);
    assert_eq!(byte_window(500, Some(&r)), None);
    let r = one_range(RangeBound::Included(700), RangeBound::Included(800));
    assert_eq!(byte_window(500, Some(&r)), None);
    let r = one_range(RangeBound::Included(50), RangeBound::Included(10));
    assert_eq!(byte_window(500, Some(&r)), None);
    let r = one_range(RangeBound::Excluded(u64::MAX), RangeBound::Unbounded);
    assert_eq!(byte_window(u64::MAX, Some(&r)), None);
    let r = one_range(RangeBound::Unbounded, RangeBound::Unbounded);
    assert_eq!(byte_window(0, Some(&r)), None);
}

#[test]
fn slice_between_cuts_to_the_content() {
    let bytes = vec![10, 11, 12, 13, 14];
    assert_eq!(slice_between(&bytes, 1, 3), vec![11, 12]);
    assert_eq!(slice_between(&bytes, 3, 99), vec![13, 14]);
    assert_eq!(slice_between(&bytes, 7, 9), Vec::<u8>::new());
    assert_eq!(slice_between(&bytes, 3, 1), Vec::<u8>::new());
    assert_eq!(slice_between(&bytes, 0, 5), bytes);
}

#[test]
fn range_of_the_first_hundred_bytes() {
    let content = resource(500);
    let r = one_range(RangeBound::Included(0), RangeBound::Included(99));
    let response =
        send_file_range("data/file.bin", opened(content.clone()), "application/octet-stream", false, Some(&r))
            .unwrap();
    assert_eq!(response.status_code, 206);
    assert_eq!(response.body, Some(content[0..100].to_vec()));
    assert_eq!(header(&response, "Content-Range"), Some("bytes 0-99/500".to_string()));
    assert_eq!(header(&response, "Content-Length"), Some("100".to_string()));
    assert_eq!(header(&response, "Content-Type"), Some("application/octet-stream".to_string()));
    assert_eq!(
        header_list(&response),
        vec![
            ("Content-Length".to_string(), "100".to_string()),
            ("Content-Range".to_string(), "bytes 0-99/500".to_string()),
            ("Content-Type".to_string(), "application/octet-stream".to_string()),
        ]
    );
}

#[test]
fn range_to_the_end_gives_the_last_bytes() {
    let content = resource(500);
    let r = one_range(RangeBound::Included(400), RangeBound::Unbounded);
    let response =
        send_file_range("file.bin", opened(content.clone()), "application/octet-stream", false, Some(&r))
            .unwrap();
    assert_eq!(response.status_code, 206);
    assert_eq!(response.body, Some(content[400..500].to_vec()));
    assert_eq!(response.body.as_ref().unwrap().len(), 100);
    assert_eq!(header(&response, "Content-Range"), Some("bytes 400-499/500".to_string()));
    assert_eq!(header(&response, "Content-Length"), Some("100".to_string()));
}

#[test]
fn range_that_cannot_be_met_falls_back_to_the_whole_file() {
    let content = resource(500);
    let r = one_range(RangeBound::Included(900), RangeBound::Included(999));
    let response =
        send_file_range("file.bin", opened(content.clone()), "text/plain", false, Some(&r)).unwrap();
    assert_eq!(response.status_code, 200);
    assert_eq!(response.body, Some(content));
    assert_eq!(header(&response, "Content-Range"), None);
    assert_eq!(header(&response, "Content-Length"), Some("500".to_string()));
}

#[test]
fn several_ranges_fall_back_to_the_whole_file() {
    let content = resource(500);
    let r = ByteRanges {
        ranges: vec![
            (RangeBound::Included(0), RangeBound::Included(9)),
            (RangeBound::Included(100), RangeBound::Included(109)),
        ],
    };
    let response =
        send_file_range("file.bin", opened(content.clone()), "text/plain", false, Some(&r)).unwrap();
    assert_eq!(response.status_code, 200);
    assert_eq!(response.body, Some(content));
    assert_eq!(header(&response, "Content-Range"), None);
    assert_eq!(header(&response, "Content-Length"), Some("500".to_string()));
}

#[test]
fn no_range_gives_the_whole_file() {
    let content = resource(500);
    let response =
        send_file_range("file.bin", opened(content.clone()), "text/plain", false, None).unwrap();
    assert_eq!(response.status_code, 200);
    assert_eq!(response.body, Some(content));
    assert_eq!(header(&response, "Content-Length"), Some("500".to_string()));
    assert_eq!(header(&response, "Content-Type"), Some("text/plain".to_string()));
}

#[test]
fn range_request_needs_the_length_of_the_file() {
    let file = FileState::Opened { bytes: resource(10), len: None };
    let result = send_file_range("file.bin", file, "text/plain", false, None);
    assert!(matches!(result, Err(PencilError::PenHTTPError(HTTPError::InternalServerError))));
}

#[test]
fn missing_file_is_not_found() {
    let result = send_file("nowhere.txt", FileState::Missing, "text/plain", false);
    assert!(matches!(result, Err(PencilError::PenHTTPError(HTTPError::NotFound))));
    let result = send_file_range("nowhere.txt", FileState::Missing, "text/plain", true, None);
    assert!(matches!(result, Err(PencilError::PenHTTPError(HTTPError::NotFound))));
}

#[test]
fn unreadable_file_is_a_user_error() {
    let file = FileState::Unreadable("Permission denied (os error 13)".to_string());
    match send_file("secret.txt", file, "text/plain", false) {
        Err(PencilError::PenUserError(e)) => {
            assert_eq!(e.desc, "couldn't open secret.txt: Permission denied (os error 13)")
        }
        _ => panic!("expected a user error"),
    }
}

#[test]
fn send_file_sets_type_and_length() {
    let response = send_file("a/b/report.pdf", opened(vec![1, 2, 3]), "application/pdf", false).unwrap();
    assert_eq!(response.status_code, 200);
    assert_eq!(response.body, Some(vec![1, 2, 3]));
    assert_eq!(
        header_list(&response),
        vec![
            ("Content-Length".to_string(), "3".to_string()),
            ("Content-Type".to_string(), "application/pdf".to_string()),
        ]
    );
}

#[test]
fn send_file_without_known_length_sets_no_length() {
    let file = FileState::Opened { bytes: vec![1, 2, 3], len: None };
    let response = send_file("x", file, "text/plain", false).unwrap();
    assert_eq!(header(&response, "Content-Length"), None);
    assert_eq!(header(&response, "Content-Type"), Some("text/plain".to_string()));
}

#[test]
fn send_file_as_attachment_names_the_file() {
    let response = send_file("a/b/report.pdf", opened(vec![1]), "application/pdf", true).unwrap();
    assert_eq!(
        header(&response, "Content-Disposition"),
        Some("attachment; filename=report.pdf".to_string())
    );
}

#[test]
fn attachment_without_file_name_is_a_user_error() {
    match send_file("a/b/..", opened(vec![1]), "application/pdf", true) {
        Err(PencilError::PenUserError(e)) => {
            assert_eq!(e.desc, "filename unavailable, required for sending as attachment.")
        }
        _ => panic!("expected a user error"),
    }
    match respond_with_file("whatever", opened(vec![1]), "text/plain", true, None) {
        Err(PencilError::PenUserError(e)) => {
            assert_eq!(e.desc, "filename unavailable, required for sending as attachment.")
        }
        _ => panic!("expected a user error"),
    }
}

#[test]
fn respond_with_file_range_uses_the_given_name() {
    let r = one_range(RangeBound::Included(1), RangeBound::Included(2));
    let response = respond_with_file_range(
        "p",
        opened(vec![5, 6, 7, 8]),
        "text/plain",
        true,
        Some(&r),
        Some("n.txt".to_string()),
    )
    .unwrap();
    assert_eq!(response.status_code, 206);
    assert_eq!(response.body, Some(vec![6, 7]));
    assert_eq!(header(&response, "Content-Range"), Some("bytes 1-2/4".to_string()));
    assert_eq!(header(&response, "Content-Disposition"), Some("attachment; filename=n.txt".to_string()));
}

#[test]
fn range_of_a_file_shorter_than_its_stated_length_is_cut() {
    let file = FileState::Opened { bytes: vec![1, 2, 3], len: Some(10) };
    let r = one_range(RangeBound::Included(2), RangeBound::Included(7));
    let response = send_file_range("p", file, "text/plain", false, Some(&r)).unwrap();
    assert_eq!(response.status_code, 206);
    assert_eq!(response.body, Some(vec![3]));
    assert_eq!(header(&response, "Content-Length"), Some("1".to_string()));
    assert_eq!(header(&response, "Content-Range"), Some("bytes 2-7/10".to_string()));
}

#[test]
fn send_from_directory_guesses_the_type() {
    let response = send_from_directory("static", "css/site.css", opened(b"body{}".to_vec()), false).unwrap();
    assert_eq!(header(&response, "Content-Type"), Some("text/css".to_string()));
    assert_eq!(response.body, Some(b"body{}".to_vec()));
    let response = send_from_directory("static", "blob", opened(vec![0]), false).unwrap();
    assert_eq!(header(&response, "Content-Type"), Some("application/octet-stream".to_string()));
}

#[test]
fn send_from_directory_refuses_to_leave_the_directory() {
    let result = send_from_directory("static", "../main.rs", opened(vec![0]), false);
    assert!(matches!(result, Err(PencilError::PenHTTPError(HTTPError::NotFound))));
    let result = send_from_directory("static", "/etc/passwd", opened(vec![0]), false);
    assert!(matches!(result, Err(PencilError::PenHTTPError(HTTPError::NotFound))));
    let result = send_from_directory_range("static", "..", opened(vec![0]), false, None);
    assert!(matches!(result, Err(PencilError::PenHTTPError(HTTPError::NotFound))));
}

#[test]
fn send_from_directory_range_answers_in_part() {
    let content = resource(500);
    let r = one_range(RangeBound::Included(0), RangeBound::Included(99));
    let response =
        send_from_directory_range("static", "video.mp4", opened(content.clone()), true, Some(&r)).unwrap();
    assert_eq!(response.status_code, 206);
    assert_eq!(response.body, Some(content[..100].to_vec()));
    assert_eq!(header(&response, "Content-Range"), Some("bytes 0-99/500".to_string()));
    assert_eq!(header(&response, "Content-Type"), Some("video/mp4".to_string()));
    assert_eq!(
        header(&response, "Content-Disposition"),
        Some("attachment; filename=video.mp4".to_string())
    );
}
