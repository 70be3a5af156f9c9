//! The mock builder.

use crate::data::{
    insert_opt, opt_seq, or_empty, push_opt, Expectation, MockDefinition, MockDefinitionView,
    MockMatcherClosure, MockServerHttpResponse, Pattern, RequestRequirements,
};
use crate::json::{json_normal_form, json_text_is_valid, JsonText};
use crate::method::Method;
use crate::string_map::StringMap;
use vstd::prelude::*;

verus! {

broadcast use vstd::string::to_string_from_display_ensures_for_str;

/// Appends `x` to the list in `slot`, starting the list if there is none.
fn push_deep<T: DeepView>(slot: &mut Option<Vec<T>>, x: T)
    ensures
        final(slot).deep_view() == push_opt(old(slot).deep_view(), x.deep_view()),
{
    let mut list = match slot.take() {
        Some(v) => v,
        None => Vec::new(),
    };
    let ghost before = list.deep_view();
    list.push(x);
    assert(list.deep_view() =~= before.push(x.deep_view()));
    *slot = Some(list);
}

/// Appends `x` to the list in `slot`, starting the list if there is none.
fn push_item<T>(slot: &mut Option<Vec<T>>, x: T)
    ensures
        opt_seq(*final(slot)) == push_opt(opt_seq(*old(slot)), x),
{
    let mut list = match slot.take() {
        Some(v) => v,
        None => Vec::new(),
    };
    let ghost before = list@;
    list.push(x);
    assert(list@ =~= before.push(x));
    *slot = Some(list);
}

/// Maps `name` to `value` in the map in `slot`, starting the map if there is none.
fn insert_entry(slot: &mut Option<StringMap>, name: &str, value: &str)
    ensures
        final(slot).deep_view() == insert_opt(old(slot).deep_view(), name@, value@),
{
    let mut map = match slot.take() {
        Some(m) => m,
        None => StringMap::new(),
    };
    map.insert(name.to_string(), value.to_string());
    *slot = Some(map);
}

/// A mock under construction: what a request must meet, and what the mock answers.
pub struct Mock {
    mock: MockDefinition,
}

impl Mock {
    #[verifier::type_invariant]
    closed spec fn inv(self) -> bool {
        self.mock@.json_texts_valid()
    }
}

impl View for Mock {
    type V = MockDefinitionView;

    closed spec fn view(&self) -> MockDefinitionView {
        self.mock@
    }
}

/// The identifier under which the mock server holds a created mock.
pub struct MockRef {
    id: usize,
}

impl View for MockRef {
    type V = usize;

    closed spec fn view(&self) -> usize {
        self.id
    }
}

impl MockRef {
    /// The reference to the mock that the server created under `id`.
    pub fn new(id: usize) -> (r: MockRef)
        ensures
            r@ == id,
    {
        MockRef { id }
    }

    /// The mock's identifier at the server.
    pub fn id(&self) -> (id: usize)
        ensures
            id == self@,
    {
        self.id
    }
}

impl Mock {
    /// A new mock that answers every request with status 200.
    pub fn new() -> (r: Mock)
        ensures
            r@ == MockDefinitionView::initial(),
    {
        Mock {
            mock: MockDefinition {
                request: RequestRequirements {
                    method: None,
                    path: None,
                    path_contains: None,
                    headers: None,
                    header_exists: None,
                    body: None,
                    json_body: None,
                    json_body_includes: None,
                    body_contains: None,
                    path_matches: None,
                    body_matches: None,
                    query_param_exists: None,
                    query_param: None,
                    matchers: None,
                },
                response: MockServerHttpResponse { status: 200, headers: None, body: None },
            },
        }
    }

    /// The definition built so far, as it is sent to the server.
    pub fn definition(&self) -> (d: &MockDefinition)
        ensures
            d@ == self@,
            d@.json_texts_valid(),
    {
        proof {
            use_type_invariant(self);
        }
        &self.mock
    }

    /// The definition built so far.
    pub fn into_definition(self) -> (d: MockDefinition)
        ensures
            d@ == self@,
            d@.json_texts_valid(),
    {
        proof {
            use_type_invariant(&self);
        }
        self.mock
    }

    /// Requires the request path to equal `path`.
    pub fn expect_path(self, path: &str) -> (r: Mock)
        ensures
            r@ == self@.apply(Expectation::Path(path@)),
            r@.request.path == Some(path@),
    {
        proof {
            use_type_invariant(&self);
        }
        let Mock { mut mock } = self;
        mock.request.path = Some(path.to_string());
        Mock { mock }
    }

    /// Requires the request path to contain `substring`.
    pub fn expect_path_contains(self, substring: &str) -> (r: Mock)
        ensures
            r@ == self@.apply(Expectation::PathContains(substring@)),
    {
        proof {
            use_type_invariant(&self);
        }
        let Mock { mut mock } = self;
        push_deep(&mut mock.request.path_contains, substring.to_string());
        Mock { mock }
    }

    /// Requires the request path to match `regex`.
    pub fn expect_path_matches(self, regex: regex::Regex) -> (r: Mock)
        ensures
            r@ == self@.apply(Expectation::PathMatches(Pattern::StringRegex(regex))),
            r@.request.path_matches == Some(
                or_empty(self@.request.path_matches).push(Pattern::StringRegex(regex)),
            ),
    {
        proof {
            use_type_invariant(&self);
        }
        let Mock { mut mock } = self;
        push_item(&mut mock.request.path_matches, Pattern::from_regex(regex));
        Mock { mock }
    }

    /// Requires the request method to be `method`.
    pub fn expect_method(self, method: Method) -> (r: Mock)
        ensures
            r@ == self@.apply(Expectation::Method(crate::method::method_name(method))),
            r@.request.method == Some(crate::method::method_name(method)),
    {
        proof {
            use_type_invariant(&self);
        }
        let Mock { mut mock } = self;
        mock.request.method = Some(method.to_string());
        Mock { mock }
    }

    /// Requires the request to carry header `name` with value `value`.
    pub fn expect_header(self, name: &str, value: &str) -> (r: Mock)
        ensures
            r@ == self@.apply(Expectation::Header(name@, value@)),
    {
        proof {
            use_type_invariant(&self);
        }
        let Mock { mut mock } = self;
        insert_entry(&mut mock.request.headers, name, value);
        Mock { mock }
    }

    /// Requires the request to carry a header named `name`.
    pub fn expect_header_exists(self, name: &str) -> (r: Mock)
        ensures
            r@ == self@.apply(Expectation::HeaderExists(name@)),
    {
        proof {
            use_type_invariant(&self);
        }
        let Mock { mut mock } = self;
        push_deep(&mut mock.request.header_exists, name.to_string());
        Mock { mock }
    }

    /// Requires the request body to equal `contents`, character for character.
    pub fn expect_body(self, contents: &str) -> (r: Mock)
        ensures
            r@ == self@.apply(Expectation::Body(contents@)),
    {
        proof {
            use_type_invariant(&self);
        }
        let Mock { mut mock } = self;
        mock.request.body = Some(contents.to_string());
        Mock { mock }
    }

    /// Requires the request body to be the JSON value that `body` (a JSON text) denotes;
    /// the mock keeps the value, not the spacing or attribute order of `body`.
    pub fn expect_json_body_text(self, body: &str) -> (r: Mock)
        requires
            json_text_is_valid(body@),
        ensures
            r@ == self@.apply(Expectation::JsonBody(json_normal_form(body@))),
    {
        proof {
            use_type_invariant(&self);
        }
        let Mock { mut mock } = self;
        let value = JsonText::parse(body).unwrap();
        mock.request.json_body = Some(value);
        Mock { mock }
    }

    /// Like `expect_json_body_text`, but hands the mock back unchanged in `Err` where
    /// `body` is not valid JSON.
    pub fn try_expect_json_body_text(self, body: &str) -> (r: Result<Mock, Mock>)
        ensures
            r is Ok <==> json_text_is_valid(body@),
            r matches Ok(m) ==> m@ == self@.apply(Expectation::JsonBody(json_normal_form(body@))),
            r matches Err(m) ==> m@ == self@,
    {
        if JsonText::parse(body).is_some() {
            Ok(self.expect_json_body_text(body))
        } else {
            Err(self)
        }
    }

    /// Requires the request body to be JSON that includes the JSON value `partial`
    /// (given from the root of the document); the mock keeps the value, not the
    /// spacing or attribute order of `partial`.
    pub fn expect_json_body_partial(self, partial: &str) -> (r: Mock)
        requires
            json_text_is_valid(partial@),
        ensures
            r@ == self@.apply(Expectation::JsonBodyIncludes(json_normal_form(partial@))),
    {
        proof {
            use_type_invariant(&self);
        }
        let Mock { mut mock } = self;
        let value = JsonText::parse(partial).unwrap();
        push_deep(&mut mock.request.json_body_includes, value);
        Mock { mock }
    }

    /// Like `expect_json_body_partial`, but hands the mock back unchanged in `Err`
    /// where `partial` is not valid JSON.
    pub fn try_expect_json_body_partial(self, partial: &str) -> (r: Result<Mock, Mock>)
        ensures
            r is Ok <==> json_text_is_valid(partial@),
            r matches Ok(m) ==> m@ == self@.apply(Expectation::JsonBodyIncludes(json_normal_form(partial@))),
            r matches Err(m) ==> m@ == self@,
    {
        if JsonText::parse(partial).is_some() {
            Ok(self.expect_json_body_partial(partial))
        } else {
            Err(self)
        }
    }

    /// Requires the request body to contain `substring`.
    pub fn expect_body_contains(self, substring: &str) -> (r: Mock)
        ensures
            r@ == self@.apply(Expectation::BodyContains(substring@)),
    {
        proof {
            use_type_invariant(&self);
        }
        let Mock { mut mock } = self;
        push_deep(&mut mock.request.body_contains, substring.to_string());
        Mock { mock }
    }

    /// Requires the request body to match `regex`.
    pub fn expect_body_matches(self, regex: regex::Regex) -> (r: Mock)
        ensures
            r@ == self@.apply(Expectation::BodyMatches(Pattern::StringRegex(regex))),
            r@.request.body_matches == Some(
                or_empty(self@.request.body_matches).push(Pattern::StringRegex(regex)),
            ),
    {
        proof {
            use_type_invariant(&self);
        }
        let Mock { mut mock } = self;
        push_item(&mut mock.request.body_matches, Pattern::from_regex(regex));
        Mock { mock }
    }

    /// Requires the query parameter `name` with value `value`.
    pub fn expect_query_param(self, name: &str, value: &str) -> (r: Mock)
        ensures
            r@ == self@.apply(Expectation::QueryParam(name@, value@)),
    {
        proof {
            use_type_invariant(&self);
        }
        let Mock { mut mock } = self;
        insert_entry(&mut mock.request.query_param, name, value);
        Mock { mock }
    }

    /// Requires a query parameter named `name`, whatever its value.
    pub fn expect_query_param_exists(self, name: &str) -> (r: Mock)
        ensures
            r@ == self@.apply(Expectation::QueryParamExists(name@)),
    {
        proof {
            use_type_invariant(&self);
        }
        let Mock { mut mock } = self;
        push_deep(&mut mock.request.query_param_exists, name.to_string());
        Mock { mock }
    }

    /// Answers with HTTP status `status`, taken modulo 2^16 as a `u16`.
    pub fn return_status(self, status: usize) -> (r: Mock)
        ensures
            r@ == self@.apply(Expectation::ReturnStatus((status % 0x10000) as u16)),
            r@.response.status == (status % 0x10000) as u16,
    {
        proof {
            use_type_invariant(&self);
        }
        let Mock { mut mock } = self;
        assert((status as u16) == ((status % 0x10000) as u16)) by (bit_vector);
        mock.response.status = status as u16;
        Mock { mock }
    }

    /// Answers with body `body`.
    pub fn return_body(self, body: &str) -> (r: Mock)
        ensures
            r@ == self@.apply(Expectation::ReturnBody(body@)),
            r@.response.body == Some(body@),
    {
        proof {
            use_type_invariant(&self);
        }
        let Mock { mut mock } = self;
        mock.response.body = Some(body.to_string());
        Mock { mock }
    }

    /// Answers with header `name` set to `value`.
    pub fn return_header(self, name: &str, value: &str) -> (r: Mock)
        ensures
            r@ == self@.apply(Expectation::ReturnHeader(name@, value@)),
    {
        proof {
            use_type_invariant(&self);
        }
        let Mock { mut mock } = self;
        insert_entry(&mut mock.response.headers, name, value);
        Mock { mock }
    }

    /// Requires the request to satisfy the custom matcher `request_matcher`.
    pub fn expect_match(self, request_matcher: MockMatcherClosure) -> (r: Mock)
        ensures
            r@ == self@.apply(Expectation::Matcher(request_matcher)),
    {
        proof {
            use_type_invariant(&self);
        }
        let Mock { mut mock } = self;
        push_item(&mut mock.request.matchers, request_matcher);
        Mock { mock }
    }
}

impl Default for Mock {
    fn default() -> (r: Mock)
        ensures
            r@ == MockDefinitionView::initial(),
    {
        Mock::new()
    }
}

} // verus!
