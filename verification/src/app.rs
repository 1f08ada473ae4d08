//! The central application object: the registries of hooks, views and
//! error handlers, and the dispatcher that turns every request into a
//! response.

use vstd::prelude::*;
use crate::datastructures::{
    entries_of, find_first, first_for, lemma_set_leaves_one, lemma_without_key_keeps_others,
    take_out, values_for, without_key,
};
use crate::helpers::{redirect, redirect_response};
use crate::http_errors::HTTPError;
use crate::routing::Rule;
use crate::text::{same_text, texts};
use crate::types::{copy_result, result_view, PencilError, PencilErrorView, PencilResult};
use crate::wrappers::{response_from_bytes, Request, RequestView, Response, ResponseView};

verus! {

/// A result by its view.
pub type ResultView = Result<ResponseView, PencilErrorView>;

/// The answer that is registered for one kind of error.
pub struct ErrorHandler {
    pub result: PencilResult,
}

impl View for ErrorHandler {
    type V = ResultView;

    open spec fn view(&self) -> ResultView {
        result_view(self.result)
    }
}

/// What routing has decided for a request.
pub enum Route {
    /// Routing failed with this error.
    Failed(HTTPError),
    /// The client is sent to a location under a status code.
    Redirect(Seq<char>, u16),
    /// A rule matched; its endpoint is named.
    Endpoint(Seq<char>),
}

/// What routing has decided for a request: its routing error, else its
/// redirect, else its rule. A request that was not routed counts as not
/// found.
pub open spec fn route_of(request: RequestView) -> Route {
    match (request.routing_error, request.routing_redirect, request.url_rule) {
        (Some(error), _, _) => Route::Failed(error),
        (None, Some((location, code)), _) => Route::Redirect(location, code),
        (None, None, Some(rule)) => Route::Endpoint(rule.endpoint),
        (None, None, None) => Route::Failed(HTTPError::NotFound),
    }
}

/// What the application is to a contract: its hooks in the order of their
/// registration, its error handlers by the description they answer, the
/// endpoints that have a view, and its rules.
pub struct PencilView {
    pub before: Seq<Seq<char>>,
    pub after: Seq<Seq<char>>,
    pub teardown: Seq<Seq<char>>,
    pub handlers: Seq<(Seq<char>, ResultView)>,
    pub views: Seq<Seq<char>>,
    pub rules: Seq<crate::routing::RuleView>,
}

/// The pencil type. It acts as the central application object.
pub struct Pencil {
    pub root_path: String,
    pub static_folder: String,
    pub static_url_path: String,
    /// The rules, for the router.
    pub url_map: Vec<Rule>,
    /// The endpoints for which a view function is registered.
    pub view_functions: Vec<String>,
    pub before_request_funcs: Vec<String>,
    pub after_request_funcs: Vec<String>,
    pub teardown_request_funcs: Vec<String>,
    pub error_handlers: Vec<(String, ErrorHandler)>,
}

/// The rules of a list by their views.
pub open spec fn rule_views(rules: Seq<Rule>) -> Seq<crate::routing::RuleView> {
    Seq::new(rules.len(), |i: int| rules[i]@)
}

impl View for Pencil {
    type V = PencilView;

    open spec fn view(&self) -> PencilView {
        PencilView {
            before: texts(self.before_request_funcs@),
            after: texts(self.after_request_funcs@),
            teardown: texts(self.teardown_request_funcs@),
            handlers: entries_of(self.error_handlers@),
            views: texts(self.view_functions@),
            rules: rule_views(self.url_map@),
        }
    }
}

/// The answer that is registered for errors of the description `desc`.
pub open spec fn handler_for(app: PencilView, desc: Seq<char>) -> Option<ResultView> {
    first_for(app.handlers, desc, false)
}

/// The first step of the error cascade. A response stays. An HTTP error
/// is answered by its handler, or by its own response where it has none.
/// A user error is answered by its handler, or stays where it has none.
pub open spec fn first_answer(app: PencilView, outcome: ResultView) -> ResultView {
    match outcome {
        Ok(response) => Ok(response),
        Err(PencilErrorView::Http(error)) => match handler_for(app, error.spec_name()) {
            Some(answer) => answer,
            None => Ok(error.spec_response()),
        },
        Err(PencilErrorView::User(desc)) => match handler_for(app, desc) {
            Some(answer) => answer,
            None => Err(PencilErrorView::User(desc)),
        },
    }
}

/// The last step of the error cascade, for an error that the first step
/// left: the response of its handler where that is a response, else the
/// internal server error.
pub open spec fn last_resort(app: PencilView, error: PencilErrorView) -> ResponseView {
    match handler_for(app, error.description()) {
        Some(Ok(response)) => response,
        _ => HTTPError::InternalServerError.spec_response(),
    }
}

/// The response that the error cascade settles on.
pub open spec fn settled(app: PencilView, outcome: ResultView) -> ResponseView {
    match first_answer(app, outcome) {
        Ok(response) => response,
        Err(error) => last_resort(app, error),
    }
}

/// A body after each text of `after` was appended to it in order. A
/// missing body counts as empty once something is appended.
pub open spec fn appended(body: Option<Seq<u8>>, after: Seq<Seq<char>>) -> Option<Seq<u8>>
    decreases after.len(),
{
    if after.len() == 0 {
        body
    } else {
        let before = match appended(body, after.drop_last()) {
            Some(bytes) => bytes,
            None => Seq::empty(),
        };
        Some(before + vstd::utf8::encode_utf8(after.last()))
    }
}

/// A response after the after-request entries were applied to it.
pub open spec fn with_after(response: ResponseView, after: Seq<Seq<char>>) -> ResponseView {
    ResponseView { body: appended(response.body, after), ..response }
}

/// The response that answers the outcome of a dispatch.
pub open spec fn answer(app: PencilView, outcome: ResultView) -> ResponseView {
    with_after(settled(app, outcome), app.after)
}

/// The lines that the error cascade writes for an outcome: the
/// description of an error that its first step left.
pub open spec fn error_lines(app: PencilView, outcome: ResultView) -> Seq<Seq<char>> {
    match first_answer(app, outcome) {
        Ok(_) => Seq::empty(),
        Err(error) => seq![error.description()],
    }
}

/// The lines that one dispatch writes: the before-request entries, the
/// lines of the error cascade, the teardown entries.
pub open spec fn journal(app: PencilView, outcome: ResultView) -> Seq<Seq<char>> {
    app.before + error_lines(app, outcome) + app.teardown
}

/// The outcome of a dispatch that is decided without a view, if it is: a
/// routing error, a redirect, or a rule whose endpoint has no view.
pub open spec fn decided(app: PencilView, request: RequestView) -> Option<ResultView> {
    match route_of(request) {
        Route::Failed(error) => Some(Err(PencilErrorView::Http(error))),
        Route::Redirect(location, code) => Some(Ok(redirect_response(location, code))),
        Route::Endpoint(name) => if app.views.contains(name) {
            None
        } else {
            Some(Ok(response_from_bytes(vstd::utf8::encode_utf8("No such handler"@))))
        },
    }
}

/// Appends a copy of each text of `lines` to `log`.
fn write_lines(log: &mut Vec<String>, lines: &Vec<String>)
    ensures
        texts(final(log)@) == texts(old(log)@) + texts(lines@),
{
    let mut i: usize = 0;
    while i < lines.len()
        invariant
            i <= lines.len(),
            texts(log@) == texts(old(log)@) + texts(lines@).take(i as int),
        decreases lines.len() - i,
    {
        let ghost before = log@;
        log.push(lines[i].clone());
        proof {
            assert(texts(log@) == texts(before).push(lines@[i as int]@));
            assert(texts(lines@).take(i + 1) == texts(lines@).take(i as int).push(
                lines@[i as int]@,
            ));
        }
        i += 1;
    }
    proof {
        assert(texts(lines@).take(lines.len() as int) == texts(lines@));
    }
}

impl Pencil {
    /// Create a new pencil object. It has no rules, views, handlers,
    /// before-request or teardown entries, and the one after-request entry
    /// `after`.
    pub fn new(root_path: &str) -> (app: Pencil)
        ensures
            app.root_path@ == root_path@,
            app.static_folder@ == "static"@,
            app.static_url_path@ == "/static"@,
            app@ == (PencilView {
                before: Seq::empty(),
                after: seq!["after"@],
                teardown: Seq::empty(),
                handlers: Seq::empty(),
                views: Seq::empty(),
                rules: Seq::empty(),
            }),
    {
        let mut after: Vec<String> = Vec::new();
        after.push("after".to_owned());
        let app = Pencil {
            root_path: root_path.to_owned(),
            static_folder: "static".to_owned(),
            static_url_path: "/static".to_owned(),
            url_map: Vec::new(),
            view_functions: Vec::new(),
            before_request_funcs: Vec::new(),
            after_request_funcs: after,
            teardown_request_funcs: Vec::new(),
            error_handlers: Vec::new(),
        };
        proof {
            assert(app@.before =~= Seq::empty());
            assert(app@.after =~= seq!["after"@]);
            assert(app@.teardown =~= Seq::empty());
            assert(app@.handlers =~= Seq::empty());
            assert(app@.views =~= Seq::empty());
            assert(app@.rules =~= Seq::empty());
        }
        app
    }

    /// A shortcut that is used to register a view function for a given
    /// URL rule.
    pub fn route(&mut self, rule: &str, methods: &[&str], endpoint: &str)
        ensures
            final(self)@ == (PencilView {
                views: old(self)@.views.push(endpoint@),
                rules: old(self)@.rules.push(
                    crate::routing::RuleView {
                        rule: rule@,
                        methods: Seq::new(methods@.len(), |i: int| methods@[i]@),
                        endpoint: endpoint@,
                    },
                ),
                ..old(self)@
            }),
    {
        self.add_url_rule(rule, methods, endpoint);
    }

    /// Connects a URL rule: the rule joins the rules, and its endpoint the
    /// endpoints that have a view.
    pub fn add_url_rule(&mut self, rule: &str, methods: &[&str], endpoint: &str)
        ensures
            final(self)@ == (PencilView {
                views: old(self)@.views.push(endpoint@),
                rules: old(self)@.rules.push(
                    crate::routing::RuleView {
                        rule: rule@,
                        methods: Seq::new(methods@.len(), |i: int| methods@[i]@),
                        endpoint: endpoint@,
                    },
                ),
                ..old(self)@
            }),
    {
        let mut names: Vec<String> = Vec::new();
        let mut i: usize = 0;
        while i < methods.len()
            invariant
                i <= methods.len(),
                names@.len() == i,
                forall|k: int| 0 <= k < i ==> (#[trigger] names@[k])@ == methods@[k]@,
            decreases methods.len() - i,
        {
            names.push(methods[i].to_owned());
            i += 1;
        }
        let url_rule = Rule::new(rule.to_owned(), names, endpoint.to_owned());
        proof {
            assert(url_rule@.methods =~= Seq::new(methods@.len(), |i: int| methods@[i]@));
        }
        let ghost rules = self.url_map@;
        let ghost views = self.view_functions@;
        self.url_map.push(url_rule);
        self.view_functions.push(endpoint.to_owned());
        proof {
            assert(rule_views(self.url_map@) =~= rule_views(rules).push(url_rule@));
            assert(texts(self.view_functions@) =~= texts(views).push(endpoint@));
        }
    }

    /// Registers an entry to run before each request.
    pub fn before_request(&mut self, f: String)
        ensures
            final(self)@ == (PencilView { before: old(self)@.before.push(f@), ..old(self)@ }),
    {
        let ghost before = self.before_request_funcs@;
        self.before_request_funcs.push(f);
        proof {
            assert(texts(self.before_request_funcs@) =~= texts(before).push(f@));
        }
    }

    /// Registers an entry to run after each request: its text is appended
    /// to the body of the response.
    pub fn after_request(&mut self, f: String)
        ensures
            final(self)@ == (PencilView { after: old(self)@.after.push(f@), ..old(self)@ }),
    {
        let ghost before = self.after_request_funcs@;
        self.after_request_funcs.push(f);
        proof {
            assert(texts(self.after_request_funcs@) =~= texts(before).push(f@));
        }
    }

    /// Registers an entry to run at the end of each request, regardless of
    /// whether there was an error or not.
    pub fn teardown_request(&mut self, f: String)
        ensures
            final(self)@ == (PencilView { teardown: old(self)@.teardown.push(f@), ..old(self)@ }),
    {
        let ghost before = self.teardown_request_funcs@;
        self.teardown_request_funcs.push(f);
        proof {
            assert(texts(self.teardown_request_funcs@) =~= texts(before).push(f@));
        }
    }

    /// Registers an answer as the handler of errors with the description
    /// `error_desc`. It takes the place of an answer registered for that
    /// description before.
    pub fn register_error_handler(&mut self, error_desc: &str, f: PencilResult)
        ensures
            final(self)@ == (PencilView {
                handlers: without_key(old(self)@.handlers, error_desc@, false).push(
                    (error_desc@, result_view(f)),
                ),
                ..old(self)@
            }),
    {
        let _ = take_out(&mut self.error_handlers, error_desc, false);
        let ghost kept = self.error_handlers@;
        self.error_handlers.push((error_desc.to_owned(), ErrorHandler { result: f }));
        proof {
            assert(entries_of(self.error_handlers@) =~= entries_of(kept).push(
                (error_desc@, result_view(f)),
            ));
        }
    }

    /// The answer registered for errors of the description `desc`.
    fn find_handler(&self, desc: &str) -> (found: Option<PencilResult>)
        ensures
            found is Some == handler_for(self@, desc@) is Some,
            found is Some ==> result_view(found->0) == handler_for(self@, desc@)->0,
    {
        let at = find_first(&self.error_handlers, desc, false);
        if at < self.error_handlers.len() {
            Some(copy_result(&self.error_handlers[at].1.result))
        } else {
            None
        }
    }

    /// Whether a view function is registered for `endpoint`.
    pub fn has_view(&self, endpoint: &str) -> (found: bool)
        ensures
            found == self@.views.contains(endpoint@),
    {
        let mut i: usize = 0;
        while i < self.view_functions.len()
            invariant
                i <= self.view_functions.len(),
                forall|k: int| 0 <= k < i ==> texts(self.view_functions@)[k] != endpoint@,
            decreases self.view_functions.len() - i,
        {
            if same_text(self.view_functions[i].as_str(), endpoint) {
                proof {
                    assert(texts(self.view_functions@)[i as int] == endpoint@);
                }
                return true;
            }
            i += 1;
        }
        false
    }

    /// Called before the actual request dispatching: writes the
    /// before-request entries to `log`, in order.
    pub fn preprocess_request(&self, log: &mut Vec<String>)
        ensures
            texts(final(log)@) == texts(old(log)@) + self@.before,
    {
        write_lines(log, &self.before_request_funcs);
    }

    /// Called after the actual request dispatching: writes the teardown
    /// entries to `log`, in order.
    pub fn do_teardown_request(&self, log: &mut Vec<String>)
        ensures
            texts(final(log)@) == texts(old(log)@) + self@.teardown,
    {
        write_lines(log, &self.teardown_request_funcs);
    }

    /// Logs an error: writes its description to `log`.
    pub fn log_error(&self, e: &PencilError, log: &mut Vec<String>)
        ensures
            texts(final(log)@) == texts(old(log)@).push(e@.description()),
    {
        let ghost before = log@;
        log.push(e.description().to_owned());
        proof {
            assert(texts(log@) =~= texts(before).push(e@.description()));
        }
    }

    /// Modify the response object before it's sent to the HTTP server:
    /// appends the text of each after-request entry to its body, in order.
    pub fn process_response(&self, response: &mut Response)
        ensures
            final(response)@ == with_after(old(response)@, self@.after),
    {
        let ghost after = self@.after;
        let mut i: usize = 0;
        while i < self.after_request_funcs.len()
            invariant
                i <= self.after_request_funcs.len(),
                after == texts(self.after_request_funcs@),
                response@ == with_after(old(response)@, after.take(i as int)),
            decreases self.after_request_funcs.len() - i,
        {
            proof {
                assert(after.take(i + 1).drop_last() == after.take(i as int));
                assert(after.take(i + 1).last() == self.after_request_funcs@[i as int]@);
            }
            let mut more = crate::text::bytes_of(self.after_request_funcs[i].as_str());
            let mut body = match response.body.take() {
                Some(bytes) => bytes,
                None => Vec::new(),
            };
            body.append(&mut more);
            response.body = Some(body);
            i += 1;
        }
        proof {
            assert(after.take(self.after_request_funcs.len() as int) == after);
        }
    }

    /// Handles an HTTP error: answers with its handler, or with its own
    /// response where it has none.
    pub fn handle_http_error(&self, e: HTTPError) -> (result: PencilResult)
        ensures
            result_view(result) == first_answer(
                self@,
                Err::<ResponseView, PencilErrorView>(PencilErrorView::Http(e)),
            ),
    {
        match self.find_handler(e.description()) {
            Some(answer) => answer,
            None => Ok(e.to_response()),
        }
    }

    /// This method is called whenever an error occurs that should be
    /// handled: an HTTP error as `handle_http_error` does, a user error by
    /// its handler. A user error without handler is handed back.
    pub fn handle_user_error(&self, e: PencilError) -> (result: PencilResult)
        ensures
            result_view(result) == first_answer(self@, Err::<ResponseView, PencilErrorView>(e@)),
    {
        match e {
            PencilError::PenHTTPError(e) => self.handle_http_error(e),
            PencilError::PenUserError(e) => match self.find_handler(e.desc.as_str()) {
                Some(answer) => answer,
                None => Err(PencilError::PenUserError(e)),
            },
        }
    }

    /// Default error handing that kicks in when an error occurs that is
    /// not handled: logs the error and answers with the response of its
    /// handler, or with the internal server error.
    pub fn handle_error(&self, e: &PencilError, log: &mut Vec<String>) -> (response: Response)
        ensures
            response@ == last_resort(self@, e@),
            texts(final(log)@) == texts(old(log)@).push(e@.description()),
    {
        self.log_error(e, log);
        match self.find_handler(e.description()) {
            Some(Ok(response)) => response,
            _ => HTTPError::InternalServerError.to_response(),
        }
    }
}

/// Whether `outcome` can come out of dispatching `request`: it is what
/// was decided without a view, or what the view returned when it was
/// called with the endpoint of the matching rule and the request.
pub open spec fn may_come<F: FnOnce(String, Request) -> PencilResult>(
    app: PencilView,
    request: Request,
    call_view: F,
    outcome: PencilResult,
) -> bool {
    match decided(app, request@) {
        Some(fixed) => result_view(outcome) == fixed,
        None => exists|endpoint: String|
            endpoint@ == request@.url_rule->0.endpoint && call_view.ensures(
                (endpoint, request),
                outcome,
            ),
    }
}

impl Pencil {
    /// Does the request dispatching. A routing error is handed back as an
    /// HTTP error and a redirect as its response, both without a view.
    /// For a matching rule the view is called through `call_view`, with
    /// the rule's endpoint and the request, and its result returned; an
    /// endpoint without view is answered with `No such handler`.
    pub fn dispatch_request<F: FnOnce(String, Request) -> PencilResult>(
        &self,
        request: Request,
        call_view: F,
    ) -> (result: PencilResult)
        requires
            forall|endpoint: String, r: Request| call_view.requires((endpoint, r)),
        ensures
            may_come(self@, request, call_view, result),
    {
        match request.routing_error() {
            Some(error) => {
                return Err(PencilError::PenHTTPError(error));
            },
            None => {},
        }
        match request.routing_redirect() {
            Some(target) => {
                return redirect(target.0.as_str(), target.1);
            },
            None => {},
        }
        match request.endpoint() {
            Some(endpoint) => {
                if self.has_view(endpoint.as_str()) {
                    call_view(endpoint, request)
                } else {
                    Ok(Response::from("No such handler".to_owned()))
                }
            },
            None => Err(PencilError::PenHTTPError(HTTPError::NotFound)),
        }
    }

    /// Turns the outcome of a dispatch into the response: runs the error
    /// cascade, writes its line to `log`, and applies the after-request
    /// entries.
    pub fn respond_to(&self, outcome: PencilResult, log: &mut Vec<String>) -> (response: Response)
        ensures
            response@ == answer(self@, result_view(outcome)),
            texts(final(log)@) == texts(old(log)@) + error_lines(self@, result_view(outcome)),
    {
        let first = match outcome {
            Ok(response) => Ok(response),
            Err(e) => self.handle_user_error(e),
        };
        let mut response = match first {
            Ok(response) => {
                proof {
                    assert(texts(log@) + Seq::<Seq<char>>::empty() =~= texts(log@));
                }
                response
            },
            Err(e) => {
                let ghost before = texts(log@);
                let response = self.handle_error(&e, log);
                proof {
                    assert(before + seq![e@.description()] =~= before.push(e@.description()));
                }
                response
            },
        };
        self.process_response(&mut response);
        response
    }

    /// Dispatches the request and performs request pre and postprocessing
    /// as well as HTTP error handling. The result is the response with
    /// the after-request entries applied, or the error that the first
    /// step of the error cascade left.
    pub fn full_dispatch_request<F: FnOnce(String, Request) -> PencilResult>(
        &self,
        request: Request,
        call_view: F,
        log: &mut Vec<String>,
    ) -> (result: Result<Response, PencilError>)
        requires
            forall|endpoint: String, r: Request| call_view.requires((endpoint, r)),
        ensures
            texts(final(log)@) == texts(old(log)@) + self@.before,
            exists|outcome: PencilResult|
                may_come(self@, request, call_view, outcome) && result_view(result) == (
                match first_answer(self@, result_view(outcome)) {
                    Ok(response) => Ok(with_after(response, self@.after)),
                    Err(error) => Err(error),
                }),
    {
        self.preprocess_request(log);
        let outcome = self.dispatch_request(request, call_view);
        let ghost seen = outcome;
        let rv = match outcome {
            Ok(response) => Ok(response),
            Err(e) => self.handle_user_error(e),
        };
        let result = match rv {
            Ok(response) => {
                let mut response = response;
                self.process_response(&mut response);
                Ok(response)
            },
            Err(e) => Err(e),
        };
        proof {
            assert(may_come(self@, request, call_view, seen));
        }
        result
    }

    /// The actual application: handles one request from the before-request
    /// entries to the teardown entries and always returns a response.
    /// `log` receives the before-request entries, the line of the error
    /// cascade, and the teardown entries, whatever the outcome was.
    pub fn handle_request<F: FnOnce(String, Request) -> PencilResult>(
        &self,
        request: Request,
        call_view: F,
        log: &mut Vec<String>,
    ) -> (response: Response)
        requires
            forall|endpoint: String, r: Request| call_view.requires((endpoint, r)),
        ensures
            exists|outcome: PencilResult|
                may_come(self@, request, call_view, outcome) && response@ == answer(
                    self@,
                    result_view(outcome),
                ) && texts(final(log)@) == texts(old(log)@) + journal(self@, result_view(outcome)),
            decided(self@, request@) matches Some(fixed) ==> response@ == answer(self@, fixed)
                && texts(final(log)@) == texts(old(log)@) + journal(self@, fixed),
    {
        self.preprocess_request(log);
        let outcome = self.dispatch_request(request, call_view);
        let ghost seen = outcome;
        let ghost l1 = texts(log@);
        let response = self.respond_to(outcome, log);
        let ghost l2 = texts(log@);
        self.do_teardown_request(log);
        proof {
            assert(texts(log@) =~= texts(old(log)@) + journal(self@, result_view(seen)));
            assert(may_come(self@, request, call_view, seen));
        }
        response
    }
}

/// The last registration wins: after an answer is registered for a
/// description, it is the one answer under that description and the one
/// that a lookup finds, and the answers under every other description
/// are as before.
pub proof fn lemma_last_registration_wins(
    handlers: Seq<(Seq<char>, ResultView)>,
    desc: Seq<char>,
    answer: ResultView,
    other: Seq<char>,
)
    ensures
        values_for(without_key(handlers, desc, false).push((desc, answer)), desc, false)
            == seq![answer],
        first_for(without_key(handlers, desc, false).push((desc, answer)), desc, false) == Some(
            answer,
        ),
        other != desc ==> values_for(
            without_key(handlers, desc, false).push((desc, answer)),
            other,
            false,
        ) == values_for(handlers, other, false),
{
    lemma_set_leaves_one(handlers, desc, answer, false);
    if other != desc {
        let kept = without_key(handlers, desc, false);
        lemma_without_key_keeps_others(handlers, desc, other, false);
        assert(kept.push((desc, answer)).drop_last() == kept);
    }
}

/// The teardown entries are written whatever the outcome of a dispatch
/// is, also for an error that no handler answers: the lines of a dispatch
/// end with all of them, in the order of their registration, and begin
/// with the before-request entries.
pub proof fn lemma_teardown_always_runs(app: PencilView, outcome: ResultView)
    ensures
        app.before.is_prefix_of(journal(app, outcome)),
        journal(app, outcome).len() >= app.teardown.len(),
        journal(app, outcome).skip(journal(app, outcome).len() - app.teardown.len())
            == app.teardown,
{
    let lines = journal(app, outcome);
    assert(lines.skip(lines.len() - app.teardown.len()) =~= app.teardown);
}

/// Every outcome is answered: a response or an error, handled or not, the
/// dispatcher settles on a response, and the after-request entries leave
/// its status and its headers as they are.
pub proof fn lemma_answer_keeps_status(app: PencilView, outcome: ResultView)
    ensures
        answer(app, outcome).status_code == settled(app, outcome).status_code,
        answer(app, outcome).headers == settled(app, outcome).headers,
{
}

/// A routing error that has no handler is answered with its own
/// response: a request for which routing found nothing, in an
/// application without handler for `Not Found`, gets the status 404.
pub proof fn lemma_unhandled_routing_error(app: PencilView, request: RequestView, error: HTTPError)
    requires
        request.routing_error == Some(error),
        handler_for(app, error.spec_name()) is None,
    ensures
        decided(app, request) == Some(
            Err::<ResponseView, PencilErrorView>(PencilErrorView::Http(error)),
        ),
        settled(app, decided(app, request)->0) == error.spec_response(),
        answer(app, decided(app, request)->0).status_code == error.spec_code(),
        error == HTTPError::NotFound ==> answer(app, decided(app, request)->0).status_code == 404,
{
}

/// An unhandled user error degrades to the internal server error.
pub proof fn lemma_unhandled_user_error(app: PencilView, desc: Seq<char>)
    requires
        handler_for(app, desc) is None,
    ensures
        settled(app, Err::<ResponseView, PencilErrorView>(PencilErrorView::User(desc)))
            == HTTPError::InternalServerError.spec_response(),
        answer(app, Err::<ResponseView, PencilErrorView>(PencilErrorView::User(desc))).status_code
            == 500,
{
}

} // verus!
