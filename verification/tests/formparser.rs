use sharp_pencil::datastructures::MultiDict;
use sharp_pencil::formparser::{add_part, parse, Error, RawPart};
use sharp_pencil::wrappers::{Body, StreamError};

fn fields(dict: &MultiDict<String>) -> Vec<(String, String)> {
    dict.iter().into_iter().map(|(k, v)| (k.clone(), v.clone())).collect()
}

fn uploads(dict: &MultiDict<Vec<u8>>) -> Vec<(String, Vec<u8>)> {
    dict.iter().into_iter().map(|(k, v)| (k.clone(), v.clone())).collect()
}

fn pair(k: &str, v: &str) -> (String, String) {
    (k.to_string(), v.to_string())
}

fn multipart_body(boundary: &str, parts: &[(&str, Option<&str>, Option<&str>, &[u8])]) -> Vec<u8> {
    let mut body: Vec<u8> = Vec::new();
    for (name, filename, content_type, data) in parts {
        body.extend_from_slice(format!("--{}\r\n", boundary).as_bytes());
        match filename {
            Some(f) => body.extend_from_slice(
                format!("Content-Disposition: form-data; name=\"{}\"; filename=\"{}\"\r\n", name, f)
                    .as_bytes(),
            ),
            None => body.extend_from_slice(
                format!("Content-Disposition: form-data; name=\"{}\"\r\n", name).as_bytes(),
            ),
        }
        if let Some(ct) = content_type {
            body.extend_from_slice(format!("Content-Type: {}\r\n", ct).as_bytes());
        }
        body.extend_from_slice(b"\r\n");
        body.extend_from_slice(data);
        body.extend_from_slice(b"\r\n");
    }
    body.extend_from_slice(format!("--{}--\r\n", boundary).as_bytes());
    body
}

#[test]
fn no_content_type_gives_empty_form_and_leaves_body() {
    let mut body = Body::from_bytes(b"a=1".to_vec());
    let (form, files) = parse(None, &mut body).unwrap();
    assert!(form.is_empty());
    assert!(files.is_empty());
    assert_eq!(body.drain_count(), 0);
    assert_eq!(body.drain().unwrap(), b"a=1".to_vec());
}

#[test]
fn other_content_type_gives_empty_form_and_leaves_body() {
    let mut body = Body::from_bytes(b"{\"a\": 1}".to_vec());
    let (form, files) = parse(Some("application/json"), &mut body).unwrap();
    assert!(form.is_empty());
    assert!(files.is_empty());
    assert_eq!(body.drain_count(), 0);
}

#[test]
fn unreadable_content_type_gives_empty_form() {
    let mut body = Body::from_bytes(b"a=1".to_vec());
    let (form, files) = parse(Some("not a media type"), &mut body).unwrap();
    assert!(form.is_empty());
    assert!(files.is_empty());
    assert_eq!(body.drain_count(), 0);
}

#[test]
fn urlencoded_fields_keep_order_and_duplicates() {
    let mut body = Body::from_bytes(b"b=2&a=1&b=3&empty=&flag".to_vec());
    let (form, files) = parse(Some("application/x-www-form-urlencoded"), &mut body).unwrap();
    assert_eq!(
        fields(&form),
        vec![pair("b", "2"), pair("a", "1"), pair("b", "3"), pair("empty", ""), pair("flag", "")]
    );
    assert!(files.is_empty());
    assert_eq!(body.drain_count(), 1);
}

#[test]
fn urlencoded_values_are_percent_decoded() {
    let mut body = Body::from_bytes(b"%23first=%25try%25&sp=a+b%20c".to_vec());
    let (form, _) = parse(Some("application/x-www-form-urlencoded"), &mut body).unwrap();
    assert_eq!(fields(&form), vec![pair("#first", "%try%"), pair("sp", "a b c")]);
}

#[test]
fn urlencoded_content_type_is_matched_without_case_and_with_parameters() {
    let mut body = Body::from_bytes(b"k=v".to_vec());
    let (form, _) =
        parse(Some("Application/X-WWW-Form-Urlencoded; charset=utf-8"), &mut body).unwrap();
    assert_eq!(fields(&form), vec![pair("k", "v")]);
}

#[test]
fn urlencoded_round_trip_of_encoded_pairs() {
    let pairs = vec![
        pair("name", "Ada Lovelace"),
        pair("sym", "&=+%#?/"),
        pair("name", "second"),
        pair("uni", "caf\u{e9} \u{4e16}\u{754c}"),
        pair("", "no key"),
        pair("empty", ""),
    ];
    let mut serializer = url::form_urlencoded::Serializer::new(String::new());
    for (k, v) in &pairs {
        serializer.append_pair(k, v);
    }
    let encoded = serializer.finish();
    let mut body = Body::from_bytes(encoded.into_bytes());
    let (form, files) = parse(Some("application/x-www-form-urlencoded"), &mut body).unwrap();
    assert_eq!(fields(&form), pairs);
    assert!(files.is_empty());
}

#[test]
fn urlencoded_body_is_joined_from_its_chunks() {
    let mut body = Body::new(vec![Ok(b"a=1&b".to_vec()), Ok(b"=2".to_vec())]);
    let (form, _) = parse(Some("application/x-www-form-urlencoded"), &mut body).unwrap();
    assert_eq!(fields(&form), vec![pair("a", "1"), pair("b", "2")]);
}

#[test]
fn stream_failure_is_a_stream_read_error() {
    let mut body = Body::new(vec![
        Ok(b"a=1".to_vec()),
        Err(StreamError { message: "connection reset".to_string() }),
        Ok(b"&b=2".to_vec()),
    ]);
    let result = parse(Some("application/x-www-form-urlencoded"), &mut body);
    match result {
        Err(Error::StreamReadError(e)) => assert_eq!(e.message, "connection reset"),
        _ => panic!("expected a stream read error"),
    }
    assert_eq!(body.drain_count(), 1);
    assert_eq!(body.drain().unwrap(), b"&b=2".to_vec());
}

#[test]
fn stream_failure_of_a_multipart_body_is_a_stream_read_error() {
    let mut body = Body::new(vec![Err(StreamError { message: "timed out".to_string() })]);
    let result = parse(Some("multipart/form-data; boundary=xyz"), &mut body);
    assert!(matches!(result, Err(Error::StreamReadError(_))));
}

#[test]
fn body_over_its_limit_is_a_payload_error() {
    let mut body = Body::from_bytes(b"name=a+long+value".to_vec());
    body.set_limit(Some(8));
    let result = parse(Some("application/x-www-form-urlencoded"), &mut body);
    assert!(matches!(result, Err(Error::PayloadTooLarge)));
    let mut body = Body::from_bytes(b"--b--\r\n".to_vec());
    body.set_limit(Some(2));
    let result = parse(Some("multipart/form-data; boundary=b"), &mut body);
    assert!(matches!(result, Err(Error::PayloadTooLarge)));
}

#[test]
fn body_at_its_limit_is_parsed() {
    let mut body = Body::from_bytes(b"a=1&b=2".to_vec());
    body.set_limit(Some(7));
    let (form, _) = parse(Some("application/x-www-form-urlencoded"), &mut body).unwrap();
    assert_eq!(fields(&form), vec![pair("a", "1"), pair("b", "2")]);
}

#[test]
fn limit_does_not_matter_where_the_body_is_not_read() {
    let mut body = Body::from_bytes(b"a very long body".to_vec());
    body.set_limit(Some(1));
    let (form, files) = parse(Some("text/plain"), &mut body).unwrap();
    assert!(form.is_empty());
    assert!(files.is_empty());
    assert_eq!(body.drain_count(), 0);
}

#[test]
fn multipart_without_boundary_is_an_error() {
    let mut body = Body::from_bytes(multipart_body("xyz", &[("a", None, None, b"1")]));
    let result = parse(Some("multipart/form-data"), &mut body);
    assert!(matches!(result, Err(Error::NoBoundaryError)));
    assert_eq!(body.drain_count(), 0);
}

#[test]
fn multipart_without_boundary_is_an_error_even_for_a_failing_stream() {
    let mut body = Body::new(vec![Err(StreamError { message: "gone".to_string() })]);
    let result = parse(Some("multipart/form-data; charset=utf-8"), &mut body);
    assert!(matches!(result, Err(Error::NoBoundaryError)));
}

#[test]
fn multipart_text_and_file_parts_are_split() {
    let payload = multipart_body(
        "boundary42",
        &[
            ("title", None, None, b"hello"),
            ("upload", Some("a.bin"), Some("application/octet-stream"), &[0, 159, 146, 150]),
            ("note", None, Some("text/plain"), "gr\u{fc}\u{df}e".as_bytes()),
            ("image", Some("b.png"), Some("image/png"), b"\x89PNG"),
            ("last", None, None, b""),
        ],
    );
    let mut body = Body::from_bytes(payload);
    let (form, files) = parse(Some("multipart/form-data; boundary=boundary42"), &mut body).unwrap();
    assert_eq!(
        fields(&form),
        vec![pair("title", "hello"), pair("note", "gr\u{fc}\u{df}e"), pair("last", "")]
    );
    assert_eq!(
        uploads(&files),
        vec![
            ("upload".to_string(), vec![0, 159, 146, 150]),
            ("image".to_string(), b"\x89PNG".to_vec()),
        ]
    );
    assert_eq!(form.len(), 3);
    assert_eq!(files.len(), 2);
}

#[test]
fn multipart_text_part_with_invalid_utf8_is_a_decoding_error() {
    let payload = multipart_body(
        "b",
        &[("ok", None, None, b"fine"), ("bad", None, None, &[b'a', 0xff, b'b'])],
    );
    let mut body = Body::from_bytes(payload);
    let result = parse(Some("multipart/form-data; boundary=b"), &mut body);
    assert!(matches!(result, Err(Error::MultipartStringDecodingError(_))));
}

#[test]
fn multipart_file_part_with_invalid_utf8_is_kept_as_bytes() {
    let payload = multipart_body(
        "b",
        &[("raw", Some("x"), Some("application/octet-stream"), &[b'a', 0xff, b'b'])],
    );
    let mut body = Body::from_bytes(payload);
    let (form, files) = parse(Some("multipart/form-data; boundary=b"), &mut body).unwrap();
    assert!(form.is_empty());
    assert_eq!(uploads(&files), vec![("raw".to_string(), vec![b'a', 0xff, b'b'])]);
}

#[test]
fn multipart_with_broken_framing_is_a_parse_error() {
    let payload = b"--b\r\nContent-Disposition: form-data; name=\"a\"\r\n\r\nvalue without end".to_vec();
    let mut body = Body::from_bytes(payload);
    let result = parse(Some("multipart/form-data; boundary=b"), &mut body);
    assert!(matches!(result, Err(Error::MultipartParseError(_))));
}

#[test]
fn multipart_part_without_disposition_is_a_parse_error() {
    let payload = b"--b\r\nContent-Type: text/plain\r\n\r\nvalue\r\n--b--\r\n".to_vec();
    let mut body = Body::from_bytes(payload);
    let result = parse(Some("multipart/form-data; boundary=b"), &mut body);
    assert!(matches!(result, Err(Error::MultipartParseError(_))));
}

#[test]
fn multipart_decoding_error_comes_before_a_later_framing_error() {
    let payload =
        b"--b\r\nContent-Disposition: form-data; name=\"bad\"\r\n\r\n\xff\xfe\r\n--b\r\nno headers here"
            .to_vec();
    let mut body = Body::from_bytes(payload);
    let result = parse(Some("multipart/form-data; boundary=b"), &mut body);
    assert!(matches!(result, Err(Error::MultipartStringDecodingError(_))));
}

#[test]
fn multipart_empty_body_has_no_parts() {
    let mut body = Body::from_bytes(b"--b--\r\n".to_vec());
    let (form, files) = parse(Some("multipart/form-data; boundary=b"), &mut body).unwrap();
    assert!(form.is_empty());
    assert!(files.is_empty());
    assert_eq!(body.drain_count(), 1);
}

#[test]
fn add_part_sorts_by_kind() {
    let mut form: MultiDict<String> = MultiDict::new();
    let mut files: MultiDict<Vec<u8>> = MultiDict::new();
    let text = RawPart { name: "t".to_string(), is_text: true, data: b"abc".to_vec() };
    let file = RawPart { name: "f".to_string(), is_text: false, data: vec![1, 2, 3] };
    assert!(add_part(&mut form, &mut files, text).is_ok());
    assert!(add_part(&mut form, &mut files, file).is_ok());
    assert_eq!(fields(&form), vec![pair("t", "abc")]);
    assert_eq!(uploads(&files), vec![("f".to_string(), vec![1, 2, 3])]);
}

#[test]
fn add_part_rejects_invalid_text_and_changes_nothing() {
    let mut form: MultiDict<String> = MultiDict::new();
    let mut files: MultiDict<Vec<u8>> = MultiDict::new();
    form.add("kept".to_string(), "v".to_string());
    let bad = RawPart { name: "t".to_string(), is_text: true, data: vec![0xc3, 0x28] };
    let result = add_part(&mut form, &mut files, bad);
    assert!(matches!(result, Err(Error::MultipartStringDecodingError(_))));
    assert_eq!(fields(&form), vec![pair("kept", "v")]);
    assert!(files.is_empty());
}

#[test]
fn multipart_boundary_may_be_quoted() {
    let payload = multipart_body("my boundary", &[("a", None, None, b"1")]);
    let mut body = Body::from_bytes(payload);
    let (form, _) =
        parse(Some("multipart/form-data; boundary=\"my boundary\""), &mut body).unwrap();
    assert_eq!(fields(&form), vec![pair("a", "1")]);
}
