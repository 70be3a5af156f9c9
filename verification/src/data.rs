//! The data a mock is made of: the requirements on requests, the response,
//! and their mathematical views.

use crate::json::{is_json_normal_form, JsonText};
use crate::string_map::StringMap;
use std::rc::Rc;
use vstd::prelude::*;

verus! {

#[verifier::external_type_specification]
#[verifier::external_body]
pub struct ExRegex(regex::Regex);

/// A pattern that a request part (path, body) has to match.
pub enum Pattern {
    StringRegex(regex::Regex),
}

impl Pattern {
    /// The pattern of a compiled regular expression.
    pub fn from_regex(regex: regex::Regex) -> (p: Pattern)
        ensures
            p == Pattern::StringRegex(regex),
    {
        Pattern::StringRegex(regex)
    }
}

/// A request as the mock server received it, handed to custom matchers.
pub struct MockServerHttpRequest {
    pub path: String,
    pub method: String,
    pub headers: Option<StringMap>,
    pub query_params: Option<StringMap>,
    pub body: Option<String>,
}

/// A custom predicate on requests that a mock can require.
pub trait RequestMatcher {
    /// Whether the request meets this requirement.
    fn matches(&self, request: Rc<MockServerHttpRequest>) -> bool;
}

/// A custom request matcher as a mock holds it.
pub struct MockMatcherClosure {
    pub matcher: Box<dyn RequestMatcher>,
}

impl MockMatcherClosure {
    /// Holds `matcher`.
    pub fn new(matcher: Box<dyn RequestMatcher>) -> (c: MockMatcherClosure)
        ensures
            c == (MockMatcherClosure { matcher }),
    {
        MockMatcherClosure { matcher }
    }

    /// Whether `request` meets the held matcher.
    pub fn matches(&self, request: Rc<MockServerHttpRequest>) -> bool {
        self.matcher.matches(request)
    }
}

/// The requirements a request has to meet for the mock to answer it.
/// `None` means that the mock puts no requirement of that kind.
pub struct RequestRequirements {
    pub method: Option<String>,
    pub path: Option<String>,
    pub path_contains: Option<Vec<String>>,
    pub headers: Option<StringMap>,
    pub header_exists: Option<Vec<String>>,
    pub body: Option<String>,
    pub json_body: Option<JsonText>,
    pub json_body_includes: Option<Vec<JsonText>>,
    pub body_contains: Option<Vec<String>>,
    pub path_matches: Option<Vec<Pattern>>,
    pub body_matches: Option<Vec<Pattern>>,
    pub query_param_exists: Option<Vec<String>>,
    pub query_param: Option<StringMap>,
    pub matchers: Option<Vec<MockMatcherClosure>>,
}

/// The response a mock answers with.
pub struct MockServerHttpResponse {
    pub status: u16,
    pub headers: Option<StringMap>,
    pub body: Option<String>,
}

/// What a mock requires of requests and what it answers.
pub struct MockDefinition {
    pub request: RequestRequirements,
    pub response: MockServerHttpResponse,
}

/// The contents of an optional vector, as a sequence.
pub open spec fn opt_seq<T>(o: Option<Vec<T>>) -> Option<Seq<T>> {
    match o {
        Some(v) => Some(v@),
        None => None,
    }
}

/// The view of `RequestRequirements`.
pub struct RequestRequirementsView {
    pub method: Option<Seq<char>>,
    pub path: Option<Seq<char>>,
    pub path_contains: Option<Seq<Seq<char>>>,
    pub headers: Option<Map<Seq<char>, Seq<char>>>,
    pub header_exists: Option<Seq<Seq<char>>>,
    pub body: Option<Seq<char>>,
    pub json_body: Option<Seq<char>>,
    pub json_body_includes: Option<Seq<Seq<char>>>,
    pub body_contains: Option<Seq<Seq<char>>>,
    pub path_matches: Option<Seq<Pattern>>,
    pub body_matches: Option<Seq<Pattern>>,
    pub query_param_exists: Option<Seq<Seq<char>>>,
    pub query_param: Option<Map<Seq<char>, Seq<char>>>,
    pub matchers: Option<Seq<MockMatcherClosure>>,
}

/// The view of `MockServerHttpResponse`.
pub struct ResponseView {
    pub status: u16,
    pub headers: Option<Map<Seq<char>, Seq<char>>>,
    pub body: Option<Seq<char>>,
}

/// The view of `MockDefinition`.
pub struct MockDefinitionView {
    pub request: RequestRequirementsView,
    pub response: ResponseView,
}

impl View for RequestRequirements {
    type V = RequestRequirementsView;

    open spec fn view(&self) -> RequestRequirementsView {
        RequestRequirementsView {
            method: self.method.deep_view(),
            path: self.path.deep_view(),
            path_contains: self.path_contains.deep_view(),
            headers: self.headers.deep_view(),
            header_exists: self.header_exists.deep_view(),
            body: self.body.deep_view(),
            json_body: self.json_body.deep_view(),
            json_body_includes: self.json_body_includes.deep_view(),
            body_contains: self.body_contains.deep_view(),
            path_matches: opt_seq(self.path_matches),
            body_matches: opt_seq(self.body_matches),
            query_param_exists: self.query_param_exists.deep_view(),
            query_param: self.query_param.deep_view(),
            matchers: opt_seq(self.matchers),
        }
    }
}

impl View for MockServerHttpResponse {
    type V = ResponseView;

    open spec fn view(&self) -> ResponseView {
        ResponseView {
            status: self.status,
            headers: self.headers.deep_view(),
            body: self.body.deep_view(),
        }
    }
}

impl View for MockDefinition {
    type V = MockDefinitionView;

    open spec fn view(&self) -> MockDefinitionView {
        MockDefinitionView { request: self.request@, response: self.response@ }
    }
}

/// `o` with `x` appended, where `None` stands for an empty list.
pub open spec fn push_opt<T>(o: Option<Seq<T>>, x: T) -> Option<Seq<T>> {
    match o {
        Some(s) => Some(s.push(x)),
        None => Some(seq![x]),
    }
}

/// `o` with `k` mapped to `v`, where `None` stands for an empty map.
pub open spec fn insert_opt(
    o: Option<Map<Seq<char>, Seq<char>>>,
    k: Seq<char>,
    v: Seq<char>,
) -> Option<Map<Seq<char>, Seq<char>>> {
    match o {
        Some(m) => Some(m.insert(k, v)),
        None => Some(Map::empty().insert(k, v)),
    }
}

/// One step of building a mock: a requirement added or a part of the response set.
pub enum Expectation {
    Method(Seq<char>),
    Path(Seq<char>),
    PathContains(Seq<char>),
    PathMatches(Pattern),
    Header(Seq<char>, Seq<char>),
    HeaderExists(Seq<char>),
    Body(Seq<char>),
    JsonBody(Seq<char>),
    JsonBodyIncludes(Seq<char>),
    BodyContains(Seq<char>),
    BodyMatches(Pattern),
    QueryParam(Seq<char>, Seq<char>),
    QueryParamExists(Seq<char>),
    Matcher(MockMatcherClosure),
    ReturnStatus(u16),
    ReturnBody(Seq<char>),
    ReturnHeader(Seq<char>, Seq<char>),
}

impl Expectation {
    /// The part of a definition that the step changes; no two kinds of step share one.
    pub open spec fn target(self) -> int {
        match self {
            Expectation::Method(_) => 0,
            Expectation::Path(_) => 1,
            Expectation::PathContains(_) => 2,
            Expectation::PathMatches(_) => 3,
            Expectation::Header(_, _) => 4,
            Expectation::HeaderExists(_) => 5,
            Expectation::Body(_) => 6,
            Expectation::JsonBody(_) => 7,
            Expectation::JsonBodyIncludes(_) => 8,
            Expectation::BodyContains(_) => 9,
            Expectation::BodyMatches(_) => 10,
            Expectation::QueryParam(_, _) => 11,
            Expectation::QueryParamExists(_) => 12,
            Expectation::Matcher(_) => 13,
            Expectation::ReturnStatus(_) => 14,
            Expectation::ReturnBody(_) => 15,
            Expectation::ReturnHeader(_, _) => 16,
        }
    }
}

impl Expectation {
    /// Whether the step sets a part that holds a single value (rather than a list or a map).
    pub open spec fn replaces(self) -> bool {
        match self {
            Expectation::Method(_) | Expectation::Path(_) | Expectation::Body(_)
            | Expectation::JsonBody(_) | Expectation::ReturnStatus(_)
            | Expectation::ReturnBody(_) => true,
            _ => false,
        }
    }

    /// Whether the JSON text the step carries, if any, is the form `serde_json` writes
    /// for a JSON value.
    pub open spec fn json_valid(self) -> bool {
        match self {
            Expectation::JsonBody(t) | Expectation::JsonBodyIncludes(t) => is_json_normal_form(t),
            _ => true,
        }
    }
}

/// The contents of an optional list, where `None` stands for an empty list.
pub open spec fn or_empty<T>(o: Option<Seq<T>>) -> Seq<T> {
    match o {
        Some(s) => s,
        None => Seq::empty(),
    }
}

/// The contents of an optional map, where `None` stands for an empty map.
pub open spec fn or_empty_map(o: Option<Map<Seq<char>, Seq<char>>>) -> Map<Seq<char>, Seq<char>> {
    match o {
        Some(m) => m,
        None => Map::empty(),
    }
}

impl RequestRequirementsView {
    /// No requirement at all.
    pub open spec fn none() -> RequestRequirementsView {
        RequestRequirementsView {
            method: None,
            path: None,
            path_contains: None,
            headers: None,
            header_exists: None,
            body: None,
            json_body: None,
            json_body_includes: None,
            body_contains: None,
            path_matches: None,
            body_matches: None,
            query_param_exists: None,
            query_param: None,
            matchers: None,
        }
    }
}

impl MockDefinitionView {
    /// A fresh mock: no requirements, status 200, no headers and no body.
    pub open spec fn initial() -> MockDefinitionView {
        MockDefinitionView {
            request: RequestRequirementsView::none(),
            response: ResponseView { status: 200, headers: None, body: None },
        }
    }

    /// Every list and every map in the definition is either absent or holds at
    /// least one item.
    pub open spec fn lists_and_maps_non_empty(self) -> bool {
        &&& self.request.path_contains matches Some(s) ==> s.len() > 0
        &&& self.request.headers matches Some(h) ==> exists|k: Seq<char>| h.contains_key(k)
        &&& self.request.header_exists matches Some(s) ==> s.len() > 0
        &&& self.request.json_body_includes matches Some(s) ==> s.len() > 0
        &&& self.request.body_contains matches Some(s) ==> s.len() > 0
        &&& self.request.path_matches matches Some(s) ==> s.len() > 0
        &&& self.request.body_matches matches Some(s) ==> s.len() > 0
        &&& self.request.query_param_exists matches Some(s) ==> s.len() > 0
        &&& self.request.query_param matches Some(h) ==> exists|k: Seq<char>| h.contains_key(k)
        &&& self.request.matchers matches Some(s) ==> s.len() > 0
        &&& self.response.headers matches Some(h) ==> exists|k: Seq<char>| h.contains_key(k)
    }

    /// Every JSON text that the requirements hold is the form `serde_json` writes for
    /// a JSON value.
    pub open spec fn json_texts_valid(self) -> bool {
        &&& self.request.json_body matches Some(t) ==> is_json_normal_form(t)
        &&& self.request.json_body_includes matches Some(ts) ==> forall|i: int|
            0 <= i < ts.len() ==> is_json_normal_form(#[trigger] ts[i])
    }

    /// The definition after the building steps `steps`, taken in order.
    pub open spec fn apply_all(self, steps: Seq<Expectation>) -> MockDefinitionView
        decreases steps.len(),
    {
        if steps.len() == 0 {
            self
        } else {
            self.apply_all(steps.drop_last()).apply(steps.last())
        }
    }

    /// The definition after one building step.
    pub open spec fn apply(self, e: Expectation) -> MockDefinitionView {
        MockDefinitionView { request: self.request.apply(e), response: self.response.apply(e) }
    }
}

impl RequestRequirementsView {
    /// The requirements after one building step: each part is changed only by
    /// its own kind of step. A single value is replaced, a list gets the new item
    /// appended, a map gets the new name mapped to the new value.
    pub open spec fn apply(self, e: Expectation) -> RequestRequirementsView {
        RequestRequirementsView {
            method: match e {
                Expectation::Method(x) => Some(x),
                _ => self.method,
            },
            path: match e {
                Expectation::Path(x) => Some(x),
                _ => self.path,
            },
            path_contains: match e {
                Expectation::PathContains(x) => push_opt(self.path_contains, x),
                _ => self.path_contains,
            },
            headers: match e {
                Expectation::Header(k, v) => insert_opt(self.headers, k, v),
                _ => self.headers,
            },
            header_exists: match e {
                Expectation::HeaderExists(x) => push_opt(self.header_exists, x),
                _ => self.header_exists,
            },
            body: match e {
                Expectation::Body(x) => Some(x),
                _ => self.body,
            },
            json_body: match e {
                Expectation::JsonBody(x) => Some(x),
                _ => self.json_body,
            },
            json_body_includes: match e {
                Expectation::JsonBodyIncludes(x) => push_opt(self.json_body_includes, x),
                _ => self.json_body_includes,
            },
            body_contains: match e {
                Expectation::BodyContains(x) => push_opt(self.body_contains, x),
                _ => self.body_contains,
            },
            path_matches: match e {
                Expectation::PathMatches(p) => push_opt(self.path_matches, p),
                _ => self.path_matches,
            },
            body_matches: match e {
                Expectation::BodyMatches(p) => push_opt(self.body_matches, p),
                _ => self.body_matches,
            },
            query_param_exists: match e {
                Expectation::QueryParamExists(x) => push_opt(self.query_param_exists, x),
                _ => self.query_param_exists,
            },
            query_param: match e {
                Expectation::QueryParam(k, v) => insert_opt(self.query_param, k, v),
                _ => self.query_param,
            },
            matchers: match e {
                Expectation::Matcher(f) => push_opt(self.matchers, f),
                _ => self.matchers,
            },
        }
    }
}

impl ResponseView {
    /// The response after one building step: each part is changed only by its
    /// own kind of step.
    pub open spec fn apply(self, e: Expectation) -> ResponseView {
        ResponseView {
            status: match e {
                Expectation::ReturnStatus(c) => c,
                _ => self.status,
            },
            headers: match e {
                Expectation::ReturnHeader(k, v) => insert_opt(self.headers, k, v),
                _ => self.headers,
            },
            body: match e {
                Expectation::ReturnBody(x) => Some(x),
                _ => self.body,
            },
        }
    }
}

} // verus!
