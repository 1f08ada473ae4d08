//! What the dispatcher takes from the router: rules and the outcome of
//! matching a request against them. How a request is matched is the
//! router's own business.

use vstd::prelude::*;
use crate::http_errors::HTTPError;
use crate::types::ViewArgs;

verus! {

/// A routing entry: a path pattern and the methods it answers to, bound
/// to an endpoint.
pub struct Rule {
    pub rule: String,
    pub methods: Vec<String>,
    pub endpoint: String,
}

/// A rule by its view.
pub struct RuleView {
    pub rule: Seq<char>,
    pub methods: Seq<Seq<char>>,
    pub endpoint: Seq<char>,
}

impl View for Rule {
    type V = RuleView;

    open spec fn view(&self) -> RuleView {
        RuleView {
            rule: self.rule@,
            methods: crate::text::texts(self.methods@),
            endpoint: self.endpoint@,
        }
    }
}

impl Rule {
    /// A rule for the pattern `rule` and the methods `methods`, bound to
    /// `endpoint`.
    pub fn new(rule: String, methods: Vec<String>, endpoint: String) -> (made: Rule)
        ensures
            made@ == (RuleView {
                rule: rule@,
                methods: crate::text::texts(methods@),
                endpoint: endpoint@,
            }),
    {
        Rule { rule, methods, endpoint }
    }
}

/// The outcome of matching a request against the rules.
pub enum MapAdapterMatched {
    /// A rule matched, with the arguments it took from the path.
    MatchedRule((Rule, ViewArgs)),
    /// The client is to be sent elsewhere: the location and the status code.
    MatchedRedirect((String, u16)),
    /// No rule matched, or the matching rule forbids the method.
    MatchedError(HTTPError),
}

} // verus!
