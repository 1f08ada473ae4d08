//! The request object with its caches.

use vstd::prelude::*;
use vstd::string::StringExecFns;
use crate::datastructures::{first_for, MultiDict};
use crate::http_errors::HTTPError;
use crate::routing::{MapAdapterMatched, Rule, RuleView};
use crate::types::ViewArgs;
use crate::wrappers::body::{drain_result, drained, one_more, Body, BodyView};
use crate::wrappers::cell::LazyCell;
use crate::wrappers::headers::Headers;

verus! {

/// `serde_json::Value`, a JSON document.
#[verifier::external_type_specification]
#[verifier::external_body]
pub struct ExJsonValue(serde_json::Value);

/// The document that `serde_json` reads from a byte string, where the
/// bytes are one JSON document.
pub uninterp spec fn json_document(bytes: Seq<u8>) -> Option<serde_json::Value>;

/// `serde_json::from_slice`, read as a `serde_json::Value`, with a failed
/// decoding turned into `None`. The result is named by `json_document`.
#[verifier::external_body]
fn json_from_slice(bytes: &[u8]) -> (document: Option<serde_json::Value>)
    ensures
        document == json_document(bytes@),
{
    serde_json::from_slice(bytes).ok()
}

/// What `headers::Host` makes of the text of a `Host` header: the host
/// with its port if it names one, where the text is an authority.
pub uninterp spec fn host_of(value: Seq<char>) -> Option<Seq<char>>;

/// Decodes `value` as a `headers::Host`, as `HeaderMapExt::typed_get`
/// does for the first `Host` header, and gives its text. `None` where the
/// crate does not take the value. The result is named by `host_of`.
#[verifier::external_body]
fn parse_host(value: &str) -> (host: Option<String>)
    ensures
        host is Some == host_of(value@) is Some,
        host is Some ==> host->0@ == host_of(value@)->0,
{
    let value = http::HeaderValue::from_str(value).ok()?;
    let host: headers::Host = headers::Header::decode(&mut std::iter::once(&value)).ok()?;
    Some(host.to_string())
}

/// What a request is to a contract: the parts of the message, the outcome
/// of routing, and what the caches hold once they are filled.
pub struct RequestView {
    pub method: Seq<char>,
    pub path: Seq<char>,
    pub query: Option<Seq<char>>,
    pub headers: Seq<(Seq<char>, Seq<char>)>,
    pub body: BodyView,
    pub url_rule: Option<RuleView>,
    pub view_args: Seq<(Seq<char>, Seq<char>)>,
    pub routing_redirect: Option<(Seq<char>, u16)>,
    pub routing_error: Option<HTTPError>,
    pub args: Option<Seq<(Seq<char>, Seq<char>)>>,
    pub form: Option<Seq<(Seq<char>, Seq<char>)>>,
    pub files: Option<Seq<(Seq<char>, Seq<u8>)>>,
    pub json: Option<Option<serde_json::Value>>,
}

/// Request type: the parts of an incoming message that views read, the
/// outcome of routing, and the caches, each filled at most once: the query
/// arguments, the form fields together with the uploaded files, and the
/// JSON document.
pub struct Request {
    method: String,
    path: String,
    query: Option<String>,
    headers: Headers,
    body: Body,
    url_rule: Option<Rule>,
    view_args: ViewArgs,
    routing_redirect: Option<(String, u16)>,
    routing_error: Option<HTTPError>,
    args: LazyCell<MultiDict<String>>,
    form_data: LazyCell<(MultiDict<String>, MultiDict<Vec<u8>>)>,
    cached_json: LazyCell<Option<serde_json::Value>>,
}

impl View for Request {
    type V = RequestView;

    closed spec fn view(&self) -> RequestView {
        RequestView {
            method: self.method@,
            path: self.path@,
            query: crate::helpers::text_view(self.query),
            headers: self.headers@,
            body: self.body@,
            url_rule: match self.url_rule {
                Some(rule) => Some(rule@),
                None => None,
            },
            view_args: crate::formparser::pair_views(self.view_args@),
            routing_redirect: match self.routing_redirect {
                Some((location, code)) => Some((location@, code)),
                None => None,
            },
            routing_error: self.routing_error,
            args: match self.args.content() {
                Some(dict) => Some(dict@),
                None => None,
            },
            form: match self.form_data.content() {
                Some(data) => Some(data.0@),
                None => None,
            },
            files: match self.form_data.content() {
                Some(data) => Some(data.1@),
                None => None,
            },
            json: self.cached_json.content(),
        }
    }
}

/// The query arguments of a request with the query string `query`.
pub open spec fn query_args(query: Option<Seq<char>>) -> Seq<(Seq<char>, Seq<char>)> {
    match query {
        Some(q) => crate::formparser::form_pairs(vstd::utf8::encode_utf8(q)),
        None => Seq::empty(),
    }
}

/// The JSON document of a body: what its bytes decode to, or nothing
/// where the drain stops short or the bytes are no document.
pub open spec fn json_of(body: BodyView) -> Option<serde_json::Value> {
    match drain_result(body.pending, body.limit) {
        Ok(bytes) => json_document(bytes),
        Err(_) => None,
    }
}

/// A request as it is made from a message: nothing routed, nothing cached.
pub open spec fn fresh_request(
    method: Seq<char>,
    path: Seq<char>,
    query: Option<Seq<char>>,
    headers: Seq<(Seq<char>, Seq<char>)>,
    body: BodyView,
) -> RequestView {
    RequestView {
        method,
        path,
        query,
        headers,
        body,
        url_rule: None,
        view_args: Seq::empty(),
        routing_redirect: None,
        routing_error: None,
        args: None,
        form: None,
        files: None,
        json: None,
    }
}

/// A request after the outcome `matched` of routing is taken in.
pub open spec fn routed(request: RequestView, matched: MapAdapterMatched) -> RequestView {
    match matched {
        MapAdapterMatched::MatchedRule((rule, view_args)) => RequestView {
            url_rule: Some(rule@),
            view_args: crate::formparser::pair_views(view_args@),
            ..request
        },
        MapAdapterMatched::MatchedRedirect((location, code)) => RequestView {
            routing_redirect: Some((location@, code)),
            ..request
        },
        MapAdapterMatched::MatchedError(error) => RequestView {
            routing_error: Some(error),
            ..request
        },
    }
}

/// The content type of a request: the value of its first `Content-Type`
/// header.
pub open spec fn content_type_of(request: RequestView) -> Option<Seq<char>> {
    first_for(request.headers, "Content-Type"@, true)
}

/// A request after its form data are asked for. With the form cached
/// nothing changes. Else the body is read as the content type calls for,
/// and where the parse succeeds the fields and the files are cached.
pub open spec fn with_form_loaded(request: RequestView) -> RequestView {
    if request.form is Some {
        request
    } else {
        let body = crate::formparser::body_after_parse(content_type_of(request), request.body);
        match crate::formparser::parse_outcome(content_type_of(request), request.body) {
            Ok((form, files)) => RequestView { body, form: Some(form), files: Some(files), ..request },
            Err(_) => RequestView { body, ..request },
        }
    }
}

/// What asking for the form data of a request returns.
pub open spec fn form_load_result(request: RequestView) -> Result<(), crate::formparser::ErrorKind> {
    if request.form is Some {
        Ok(())
    } else {
        match crate::formparser::parse_outcome(content_type_of(request), request.body) {
            Ok(_) => Ok(()),
            Err(kind) => Err(kind),
        }
    }
}

/// A request after its JSON document is asked for. With the document
/// cached nothing changes. Else the body is drained once and what it
/// decodes to is cached.
pub open spec fn with_json_loaded(request: RequestView) -> RequestView {
    if request.json is Some {
        request
    } else {
        RequestView { body: drained(request.body), json: Some(json_of(request.body)), ..request }
    }
}

impl Request {
    /// Create a `Request` from the parts of an incoming message. Nothing
    /// is routed and nothing is cached yet.
    pub fn new(method: String, path: String, query: Option<String>, headers: Headers, body: Body) -> (made:
        Result<Request, Body>)
        ensures
            made is Ok,
            made->Ok_0@ == fresh_request(
                method@,
                path@,
                crate::helpers::text_view(query),
                headers@,
                body@,
            ),
    {
        let request = Request {
            method,
            path,
            query,
            headers,
            body,
            url_rule: None,
            view_args: Vec::new(),
            routing_redirect: None,
            routing_error: None,
            args: LazyCell::new(),
            form_data: LazyCell::new(),
            cached_json: LazyCell::new(),
        };
        proof {
            assert(request@.view_args =~= Seq::empty());
        }
        Ok(request)
    }

    /// Takes the outcome of matching the request against the rules: sets
    /// the rule and the view arguments, the redirect, or the routing
    /// error.
    pub fn match_request(&mut self, matched: MapAdapterMatched)
        ensures
            final(self)@ == routed(old(self)@, matched),
    {
        match matched {
            MapAdapterMatched::MatchedRule((rule, view_args)) => {
                self.url_rule = Some(rule);
                self.view_args = view_args;
            },
            MapAdapterMatched::MatchedRedirect(redirect) => {
                self.routing_redirect = Some(redirect);
            },
            MapAdapterMatched::MatchedError(routing_error) => {
                self.routing_error = Some(routing_error);
            },
        }
    }

    /// The URL rule that matched the request, if one did.
    pub fn url_rule(&self) -> (rule: Option<&Rule>)
        ensures
            rule is Some == self@.url_rule is Some,
            rule is Some ==> rule->0@ == self@.url_rule->0,
    {
        self.url_rule.as_ref()
    }

    /// The view arguments that matched the request.
    pub fn view_args(&self) -> (args: &ViewArgs)
        ensures
            crate::formparser::pair_views(args@) == self@.view_args,
    {
        &self.view_args
    }

    /// If matching the URL requests a redirect, this is the redirect.
    pub fn routing_redirect(&self) -> (redirect: Option<&(String, u16)>)
        ensures
            match redirect {
                Some(pair) => self@.routing_redirect == Some((pair.0@, pair.1)),
                None => self@.routing_redirect is None,
            },
    {
        self.routing_redirect.as_ref()
    }

    /// If matching the URL failed, this is the routing error.
    pub fn routing_error(&self) -> (error: Option<HTTPError>)
        ensures
            error == self@.routing_error,
    {
        self.routing_error
    }

    /// The endpoint that matched the request.
    pub fn endpoint(&self) -> (name: Option<String>)
        ensures
            name is Some == self@.url_rule is Some,
            name is Some ==> name->0@ == self@.url_rule->0.endpoint,
    {
        match &self.url_rule {
            Some(rule) => Some(rule.endpoint.clone()),
            None => None,
        }
    }

    /// The current module name: the part of the endpoint in front of its
    /// last dot.
    pub fn module_name(&self) -> (name: Option<String>)
        ensures
            crate::helpers::text_view(name) == match self@.url_rule {
                Some(rule) => crate::text::before_last(rule.endpoint, '.'),
                None => None,
            },
    {
        match &self.url_rule {
            Some(rule) => crate::text::split_before_last(rule.endpoint.as_str(), '.'),
            None => None,
        }
    }

    /// The parsed URL parameters. They are read from the query string at
    /// the first call and kept from then on.
    pub fn args(&mut self) -> (args: &MultiDict<String>)
        ensures
            final(self)@ == (RequestView { args: Some(args@), ..old(self)@ }),
            args@ == match old(self)@.args {
                Some(cached) => cached,
                None => query_args(old(self)@.query),
            },
    {
        if !self.args.filled() {
            let mut args: MultiDict<String> = MultiDict::new();
            match &self.query {
                Some(query) => {
                    let bytes = crate::text::bytes_of(query.as_str());
                    crate::formparser::add_pairs(
                        &mut args,
                        crate::formparser::urlencoded_pairs(bytes.as_slice()),
                    );
                },
                None => {},
            }
            let _ = self.args.fill(args);
        }
        match self.args.borrow() {
            Some(args) => args,
            None => vstd::pervasive::unreached(),
        }
    }
}

/// The host of a request: what its first `Host` header names, or the
/// empty text where it has none or the header names no host.
pub open spec fn host_text(request: RequestView) -> Seq<char> {
    match first_for(request.headers, "Host"@, true) {
        Some(value) => match host_of(value) {
            Some(host) => host,
            None => Seq::empty(),
        },
        None => Seq::empty(),
    }
}

/// The path of a request with its query string, where it has one.
pub open spec fn full_path_text(request: RequestView) -> Seq<char> {
    match request.query {
        Some(query) => request.path + "?"@ + query,
        None => request.path,
    }
}

/// The scheme and host of a request as the start of a URL.
pub open spec fn host_url_text(request: RequestView) -> Seq<char> {
    "http"@ + "://"@ + host_text(request) + "/"@
}

impl Request {
    /// Parses the incoming JSON request data. The body is drained and
    /// decoded at the first call; what came of it is kept from then on,
    /// `None` where the body could not be read or is no JSON document.
    pub fn get_json(&mut self) -> (document: &Option<serde_json::Value>)
        ensures
            final(self)@ == with_json_loaded(old(self)@),
            Some(*document) == final(self)@.json,
    {
        if !self.cached_json.filled() {
            let rv = match self.body.drain() {
                Ok(bytes) => json_from_slice(bytes.as_slice()),
                Err(_) => None,
            };
            let _ = self.cached_json.fill(rv);
        }
        match self.cached_json.borrow() {
            Some(document) => document,
            None => vstd::pervasive::unreached(),
        }
    }

    /// This method is used internally to retrieve submitted data. With the
    /// form cached it does nothing. Else it parses the body as the content
    /// type calls for and, where that succeeds, caches fields and files
    /// together.
    pub fn load_form_data(&mut self) -> (done: Result<(), crate::formparser::Error>)
        ensures
            final(self)@ == with_form_loaded(old(self)@),
            match done {
                Ok(()) => form_load_result(old(self)@) is Ok && final(self)@.form is Some,
                Err(e) => form_load_result(old(self)@) == Err::<(), crate::formparser::ErrorKind>(
                    e@,
                ),
            },
    {
        if self.form_data.filled() {
            return Ok(());
        }
        let parsed = {
            let content_type = match self.headers.get("Content-Type".to_owned()) {
                Some(value) => Some(value.as_str()),
                None => None,
            };
            crate::formparser::parse(content_type, &mut self.body)
        };
        match parsed {
            Ok(data) => {
                let _ = self.form_data.fill(data);
                Ok(())
            },
            Err(e) => Err(e),
        }
    }

    /// The form parameters.
    pub fn form(&mut self) -> (form: Result<&MultiDict<String>, crate::formparser::Error>)
        ensures
            final(self)@ == with_form_loaded(old(self)@),
            match form {
                Ok(fields) => form_load_result(old(self)@) is Ok && final(self)@.form == Some(
                    fields@,
                ),
                Err(e) => form_load_result(old(self)@) == Err::<(), crate::formparser::ErrorKind>(
                    e@,
                ),
            },
    {
        match self.load_form_data() {
            Ok(()) => {},
            Err(e) => {
                return Err(e);
            },
        }
        match self.form_data.borrow() {
            Some(data) => Ok(&data.0),
            None => vstd::pervasive::unreached(),
        }
    }

    /// All uploaded files.
    pub fn files(&mut self) -> (files: Result<&MultiDict<Vec<u8>>, crate::formparser::Error>)
        ensures
            final(self)@ == with_form_loaded(old(self)@),
            match files {
                Ok(uploads) => form_load_result(old(self)@) is Ok && final(self)@.files == Some(
                    uploads@,
                ),
                Err(e) => form_load_result(old(self)@) == Err::<(), crate::formparser::ErrorKind>(
                    e@,
                ),
            },
    {
        match self.load_form_data() {
            Ok(()) => {},
            Err(e) => {
                return Err(e);
            },
        }
        match self.form_data.borrow() {
            Some(data) => Ok(&data.1),
            None => vstd::pervasive::unreached(),
        }
    }

    /// The headers.
    pub fn headers(&self) -> (headers: &Headers)
        ensures
            headers@ == self@.headers,
    {
        &self.headers
    }

    /// How often the body was drained.
    pub fn body_drains(&self) -> (n: u64)
        ensures
            n == self@.body.drains,
    {
        self.body.drain_count()
    }

    /// Requested path.
    pub fn path(&self) -> (path: String)
        ensures
            path@ == self@.path,
    {
        self.path.clone()
    }

    /// Requested path including the query string.
    pub fn full_path(&self) -> (path: String)
        ensures
            path@ == full_path_text(self@),
    {
        let mut path = self.path.clone();
        match &self.query {
            Some(query) => {
                path.append("?");
                path.append(query.as_str());
            },
            None => {},
        }
        path
    }

    /// The host including the port if available.
    pub fn host(&self) -> (host: String)
        ensures
            host@ == host_text(self@),
    {
        match self.headers.get("Host".to_owned()) {
            Some(value) => match parse_host(value.as_str()) {
                Some(host) => host,
                None => String::new(),
            },
            None => String::new(),
        }
    }

    /// The query string.
    pub fn query_string(&self) -> (query: Option<String>)
        ensures
            crate::helpers::text_view(query) == self@.query,
    {
        match &self.query {
            Some(query) => Some(query.clone()),
            None => None,
        }
    }

    /// The retrieved cookies: the value of the first `Cookie` header.
    pub fn cookies(&self) -> (cookies: Option<String>)
        ensures
            crate::helpers::text_view(cookies) == first_for(self@.headers, "Cookie"@, true),
    {
        match self.headers.get("Cookie".to_owned()) {
            Some(value) => Some(value.clone()),
            None => None,
        }
    }

    /// The request method.
    pub fn method(&self) -> (method: String)
        ensures
            method@ == self@.method,
    {
        self.method.clone()
    }

    /// URL scheme (http or https)
    pub fn scheme(&self) -> (scheme: String)
        ensures
            scheme@ == "http"@,
    {
        "http".to_owned()
    }

    /// Just the host with scheme.
    pub fn host_url(&self) -> (url: String)
        ensures
            url@ == host_url_text(self@),
    {
        let mut url = self.scheme();
        url.append("://");
        url.append(self.host().as_str());
        url.append("/");
        url
    }

    /// The current url.
    pub fn url(&self) -> (url: String)
        ensures
            url@ == host_url_text(self@) + crate::text::without_leading(full_path_text(self@), '/'),
    {
        let mut url = self.host_url();
        url.append(crate::text::strip_leading(self.full_path().as_str(), '/').as_str());
        url
    }

    /// The current url without the query string.
    pub fn base_url(&self) -> (url: String)
        ensures
            url@ == host_url_text(self@) + crate::text::without_leading(self@.path, '/'),
    {
        let mut url = self.host_url();
        url.append(crate::text::strip_leading(self.path.as_str(), '/').as_str());
        url
    }

    /// Whether the request is secure (https).
    pub fn is_secure(&self) -> (secure: bool)
        ensures
            !secure,
    {
        let secure = crate::text::same_text(self.scheme().as_str(), "https");
        proof {
            reveal_strlit("http");
            reveal_strlit("https");
            assert("http"@.len() != "https"@.len());
        }
        secure
    }
}

/// Asking for the form data a second time changes nothing: once a request
/// has loaded its form, loading again leaves the request as it is, body
/// and drain count included, and succeeds.
pub proof fn lemma_form_loads_once(request: RequestView)
    requires
        form_load_result(request) is Ok,
    ensures
        with_form_loaded(request).form is Some,
        with_form_loaded(with_form_loaded(request)) == with_form_loaded(request),
        form_load_result(with_form_loaded(request)) is Ok,
        with_form_loaded(request).body.drains <= one_more(request.body.drains),
{
}

/// Loading the form of a request whose content type calls for the body
/// drains the body exactly once, and a second load does not drain it
/// again.
pub proof fn lemma_form_drains_once(request: RequestView)
    requires
        request.form is None,
        crate::formparser::reads_body(crate::formparser::form_kind(content_type_of(request))),
        form_load_result(request) is Ok,
    ensures
        with_form_loaded(request).body.drains == one_more(request.body.drains),
        with_form_loaded(with_form_loaded(request)).body.drains == one_more(request.body.drains),
{
}

/// Asking for the JSON document a second time changes nothing.
pub proof fn lemma_json_loads_once(request: RequestView)
    ensures
        with_json_loaded(with_json_loaded(request)) == with_json_loaded(request),
{
}

} // verus!
