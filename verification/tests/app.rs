use sharp_pencil::app::Pencil;
use sharp_pencil::http_errors::HTTPError;
use sharp_pencil::routing::{MapAdapterMatched, Rule};
use sharp_pencil::types::{PencilError, PencilResult, UserError};
use sharp_pencil::wrappers::{Body, Headers, Request, Response};

fn strings(items: &[&str]) -> Vec<String> {
    items.iter().map(|s| s.to_string()).collect()
}

fn request() -> Request {
    match Request::new("GET".to_string(), "/".to_string(), None, Headers::new(None), Body::empty()) {
        Ok(request) => request,
        Err(_) => panic!("a request is always made"),
    }
}

fn routed_to(endpoint: &str) -> Request {
    let mut r = request();
    let rule = Rule::new("/".to_string(), vec!["GET".to_string()], endpoint.to_string());
    r.match_request(MapAdapterMatched::MatchedRule((rule, vec![])));
    r
}

fn failed_with(error: HTTPError) -> Request {
    let mut r = request();
    r.match_request(MapAdapterMatched::MatchedError(error));
    r
}

fn bare_app() -> Pencil {
    let mut app = Pencil::new("/web/demo");
    app.after_request_funcs.clear();
    app
}

fn no_view(_endpoint: String, _request: Request) -> PencilResult {
    panic!("no view is to be called")
}

fn user_error(desc: &str) -> PencilResult {
    Err(PencilError::PenUserError(UserError::new(desc.to_string())))
}

#[test]
fn new_application_has_its_defaults() {
    let app = Pencil::new("/web/demo");
    assert_eq!(app.root_path, "/web/demo");
    assert_eq!(app.static_folder, "static");
    assert_eq!(app.static_url_path, "/static");
    assert!(app.url_map.is_empty());
    assert!(app.view_functions.is_empty());
    assert!(app.before_request_funcs.is_empty());
    assert_eq!(app.after_request_funcs, strings(&["after"]));
    assert!(app.teardown_request_funcs.is_empty());
    assert!(app.error_handlers.is_empty());
}

#[test]
fn registration_keeps_order() {
    let mut app = bare_app();
    app.before_request("b1".to_string());
    app.before_request("b2".to_string());
    app.after_request("a1".to_string());
    app.teardown_request("t1".to_string());
    app.teardown_request("t2".to_string());
    app.route("/", &["GET"], "index");
    app.add_url_rule("/user/<id>", &["GET", "POST"], "user");
    assert_eq!(app.before_request_funcs, strings(&["b1", "b2"]));
    assert_eq!(app.after_request_funcs, strings(&["a1"]));
    assert_eq!(app.teardown_request_funcs, strings(&["t1", "t2"]));
    assert_eq!(app.view_functions, strings(&["index", "user"]));
    assert_eq!(app.url_map.len(), 2);
    assert_eq!(app.url_map[1].rule, "/user/<id>");
    assert_eq!(app.url_map[1].methods, strings(&["GET", "POST"]));
    assert_eq!(app.url_map[1].endpoint, "user");
    assert!(app.has_view("user"));
    assert!(!app.has_view("User"));
}

#[test]
fn last_registered_handler_wins() {
    let mut app = bare_app();
    app.register_error_handler("Not Found", Ok(Response::from("first".to_string())));
    app.register_error_handler("oops", user_error("other"));
    app.register_error_handler("Not Found", Ok(Response::from("second".to_string())));
    assert_eq!(app.error_handlers.len(), 2);
    let response = app.handle_http_error(HTTPError::NotFound).unwrap();
    assert_eq!(response.body, Some(b"second".to_vec()));
}

#[test]
fn unhandled_routing_error_gets_its_own_response() {
    let app = bare_app();
    let mut log = Vec::new();
    let response = app.handle_request(failed_with(HTTPError::NotFound), no_view, &mut log);
    assert_eq!(response.status_code, 404);
    assert_eq!(response.status_name(), "Not Found");
    assert_eq!(response.body, HTTPError::NotFound.to_response().body);
    assert!(log.is_empty());
}

#[test]
fn unrouted_request_is_not_found() {
    let app = bare_app();
    let mut log = Vec::new();
    let response = app.handle_request(request(), no_view, &mut log);
    assert_eq!(response.status_code, 404);
}

#[test]
fn routing_error_with_handler_gets_the_handler_answer() {
    let mut app = bare_app();
    let mut page = Response::from("custom 404".to_string());
    page.status_code = 404;
    app.register_error_handler("Not Found", Ok(page));
    let mut log = Vec::new();
    let response = app.handle_request(failed_with(HTTPError::NotFound), no_view, &mut log);
    assert_eq!(response.status_code, 404);
    assert_eq!(response.body, Some(b"custom 404".to_vec()));
    let response = app.handle_request(failed_with(HTTPError::MethodNotAllowed), no_view, &mut log);
    assert_eq!(response.status_code, 405);
    assert_eq!(response.status_name(), "Method Not Allowed");
}

#[test]
fn redirect_is_answered_without_a_view() {
    let app = bare_app();
    let mut r = request();
    r.match_request(MapAdapterMatched::MatchedRedirect(("/home/".to_string(), 301)));
    let mut log = Vec::new();
    let response = app.handle_request(r, no_view, &mut log);
    assert_eq!(response.status_code, 301);
    assert_eq!(response.headers.get("Location".to_string()), Some(&"/home/".to_string()));
}

#[test]
fn routing_error_comes_before_redirect_and_rule() {
    let mut app = bare_app();
    app.route("/", &["GET"], "index");
    let mut r = routed_to("index");
    r.match_request(MapAdapterMatched::MatchedRedirect(("/x".to_string(), 302)));
    r.match_request(MapAdapterMatched::MatchedError(HTTPError::Gone));
    let mut log = Vec::new();
    let response = app.handle_request(r, no_view, &mut log);
    assert_eq!(response.status_code, 410);
}

#[test]
fn view_is_called_with_endpoint_and_request() {
    let mut app = bare_app();
    app.route("/", &["GET"], "admin.index");
    let mut log = Vec::new();
    let response = app.handle_request(
        routed_to("admin.index"),
        |endpoint: String, request: Request| -> PencilResult {
            let text = format!("{} {} {:?}", endpoint, request.path(), request.module_name());
            Ok(Response::from(text))
        },
        &mut log,
    );
    assert_eq!(response.status_code, 200);
    assert_eq!(response.body, Some(b"admin.index / Some(\"admin\")".to_vec()));
}

#[test]
fn endpoint_without_view_is_answered_with_a_note() {
    let app = bare_app();
    let mut log = Vec::new();
    let response = app.handle_request(routed_to("ghost"), no_view, &mut log);
    assert_eq!(response.status_code, 200);
    assert_eq!(response.body, Some(b"No such handler".to_vec()));
}

#[test]
fn after_entries_are_appended_to_the_body_in_order() {
    let mut app = Pencil::new("/");
    app.after_request("<!-- one -->".to_string());
    app.after_request("<!-- two -->".to_string());
    app.route("/", &["GET"], "index");
    let mut log = Vec::new();
    let response = app.handle_request(
        routed_to("index"),
        |_e: String, _r: Request| -> PencilResult { Ok(Response::from("body".to_string())) },
        &mut log,
    );
    assert_eq!(response.body, Some(b"bodyafter<!-- one --><!-- two -->".to_vec()));
    assert_eq!(response.content_length(), Some(4));
}

#[test]
fn after_entries_reach_error_responses_and_empty_bodies() {
    let mut app = bare_app();
    app.after_request("!".to_string());
    let mut log = Vec::new();
    let response = app.handle_request(failed_with(HTTPError::NotFound), no_view, &mut log);
    let mut expected = HTTPError::NotFound.to_response().body.unwrap();
    expected.push(b'!');
    assert_eq!(response.body, Some(expected));
    let mut empty = Response::new_empty();
    app.process_response(&mut empty);
    assert_eq!(empty.body, Some(b"!".to_vec()));
    let plain = bare_app();
    let mut empty = Response::new_empty();
    plain.process_response(&mut empty);
    assert_eq!(empty.body, None);
}

#[test]
fn teardown_runs_when_the_view_fails_without_handler() {
    let mut app = bare_app();
    app.before_request("open".to_string());
    app.teardown_request("close".to_string());
    app.teardown_request("flush".to_string());
    app.route("/", &["GET"], "index");
    let mut log = Vec::new();
    let response = app.handle_request(
        routed_to("index"),
        |_e: String, _r: Request| -> PencilResult { user_error("database down") },
        &mut log,
    );
    assert_eq!(response.status_code, 500);
    assert_eq!(response.status_name(), "Internal Server Error");
    assert_eq!(log, strings(&["open", "database down", "close", "flush"]));
}

#[test]
fn teardown_runs_on_success_and_on_routing_errors() {
    let mut app = bare_app();
    app.before_request("b".to_string());
    app.teardown_request("t".to_string());
    app.route("/", &["GET"], "index");
    let mut log = strings(&["earlier"]);
    let _ = app.handle_request(
        routed_to("index"),
        |_e: String, _r: Request| -> PencilResult { Ok(Response::new_empty()) },
        &mut log,
    );
    assert_eq!(log, strings(&["earlier", "b", "t"]));
    let _ = app.handle_request(failed_with(HTTPError::NotFound), no_view, &mut log);
    assert_eq!(log, strings(&["earlier", "b", "t", "b", "t"]));
}

#[test]
fn user_error_with_handler_gets_the_handler_answer() {
    let mut app = bare_app();
    let mut page = Response::from("try later".to_string());
    page.status_code = 503;
    app.register_error_handler("database down", Ok(page));
    app.route("/", &["GET"], "index");
    let mut log = Vec::new();
    let response = app.handle_request(
        routed_to("index"),
        |_e: String, _r: Request| -> PencilResult { user_error("database down") },
        &mut log,
    );
    assert_eq!(response.status_code, 503);
    assert_eq!(response.body, Some(b"try later".to_vec()));
    assert!(log.is_empty());
}

#[test]
fn failing_handler_affects_only_its_response() {
    let mut app = bare_app();
    app.register_error_handler("Not Found", user_error("handler broke"));
    let mut log = Vec::new();
    let response = app.handle_request(failed_with(HTTPError::NotFound), no_view, &mut log);
    assert_eq!(response.status_code, 500);
    assert_eq!(log, strings(&["handler broke"]));
    let mut page = Response::from("second chance".to_string());
    page.status_code = 502;
    app.register_error_handler("handler broke", Ok(page));
    let mut log = Vec::new();
    let response = app.handle_request(failed_with(HTTPError::NotFound), no_view, &mut log);
    assert_eq!(response.status_code, 502);
    assert_eq!(log, strings(&["handler broke"]));
    let response = app.handle_request(failed_with(HTTPError::Forbidden), no_view, &mut log);
    assert_eq!(response.status_code, 403);
}

#[test]
fn view_http_error_is_answered_by_its_response() {
    let mut app = bare_app();
    app.route("/", &["GET"], "index");
    let mut log = Vec::new();
    let response = app.handle_request(
        routed_to("index"),
        |_e: String, _r: Request| -> PencilResult { sharp_pencil::helpers::abort(403) },
        &mut log,
    );
    assert_eq!(response.status_code, 403);
    assert_eq!(response.status_name(), "Forbidden");
    assert!(log.is_empty());
}

#[test]
fn error_cascade_step_by_step() {
    let mut app = bare_app();
    app.register_error_handler("known", Ok(Response::from("k".to_string())));
    let kept = app.handle_user_error(PencilError::PenUserError(UserError::new("unknown".to_string())));
    match kept {
        Err(PencilError::PenUserError(e)) => assert_eq!(e.desc, "unknown"),
        _ => panic!("an unhandled user error stays"),
    }
    let answered = app.handle_user_error(PencilError::PenUserError(UserError::new("known".to_string())));
    assert_eq!(answered.unwrap().body, Some(b"k".to_vec()));
    let own = app.handle_user_error(PencilError::PenHTTPError(HTTPError::Conflict));
    assert_eq!(own.unwrap().status_code, 409);
    let mut log = Vec::new();
    let last = app.handle_error(&PencilError::PenUserError(UserError::new("unknown".to_string())), &mut log);
    assert_eq!(last.status_code, 500);
    assert_eq!(log, strings(&["unknown"]));
    let last = app.handle_error(&PencilError::PenUserError(UserError::new("known".to_string())), &mut log);
    assert_eq!(last.body, Some(b"k".to_vec()));
}

#[test]
fn full_dispatch_hands_back_what_the_first_step_left() {
    let mut app = bare_app();
    app.before_request("b".to_string());
    app.after_request("+".to_string());
    app.route("/", &["GET"], "index");
    let mut log = Vec::new();
    let result = app.full_dispatch_request(
        routed_to("index"),
        |_e: String, _r: Request| -> PencilResult { user_error("nope") },
        &mut log,
    );
    match result {
        Err(PencilError::PenUserError(e)) => assert_eq!(e.desc, "nope"),
        _ => panic!("the user error stays"),
    }
    assert_eq!(log, strings(&["b"]));
    let result = app.full_dispatch_request(
        routed_to("index"),
        |_e: String, _r: Request| -> PencilResult { Ok(Response::from("ok".to_string())) },
        &mut log,
    );
    assert_eq!(result.unwrap().body, Some(b"ok+".to_vec()));
}

#[test]
fn dispatch_request_alone_runs_no_hooks() {
    let mut app = Pencil::new("/");
    app.route("/", &["GET"], "index");
    let result = app.dispatch_request(routed_to("index"), |_e: String, _r: Request| -> PencilResult {
        Ok(Response::from("raw".to_string()))
    });
    assert_eq!(result.unwrap().body, Some(b"raw".to_vec()));
    let result = app.dispatch_request(failed_with(HTTPError::NotFound), no_view);
    assert!(matches!(result, Err(PencilError::PenHTTPError(HTTPError::NotFound))));
}

#[test]
fn hooks_are_written_by_their_own_functions() {
    let mut app = bare_app();
    app.before_request("b".to_string());
    app.teardown_request("t".to_string());
    let mut log = Vec::new();
    app.preprocess_request(&mut log);
    app.do_teardown_request(&mut log);
    app.log_error(&PencilError::PenHTTPError(HTTPError::Gone), &mut log);
    assert_eq!(log, strings(&["b", "t", "Gone"]));
    let mut log = Vec::new();
    let response = app.respond_to(user_error("x"), &mut log);
    assert_eq!(response.status_code, 500);
    assert_eq!(log, strings(&["x"]));
}

#[test]
fn main_items_are_reachable_from_the_crate_root() {
    let app = sharp_pencil::Pencil::new("/srv");
    assert_eq!(app.root_path, "/srv");
    let response = sharp_pencil::Response::from("x");
    assert_eq!(response.content_length(), Some(1));
    let response = sharp_pencil::Response::from(&b"xyz"[..]);
    assert_eq!(response.body, Some(b"xyz".to_vec()));
    assert!(matches!(
        sharp_pencil::abort(410),
        Err(sharp_pencil::PencilError::PenHTTPError(sharp_pencil::HTTPError::Gone))
    ));
}
