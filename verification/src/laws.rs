//! Properties of building a mock that hold across calls.

use crate::data::{insert_opt, or_empty, or_empty_map, Expectation, MockDefinitionView, MockMatcherClosure, Pattern};
use crate::method::{method_name, Method};
use crate::json::{json_normal_form, json_reserialized};
use vstd::prelude::*;

verus! {

/// Requirements of different kinds are independent of each other: two building
/// steps that change different parts of a definition can be taken in either order.
pub proof fn law_independent_steps_commute(m: MockDefinitionView, a: Expectation, b: Expectation)
    requires
        a.target() != b.target(),
    ensures
        m.apply(a).apply(b) == m.apply(b).apply(a),
{
}

/// A part that holds a single value (method, path, body, JSON body, status,
/// response body) keeps only the value given last.
pub proof fn law_last_value_wins(m: MockDefinitionView, a: Expectation, b: Expectation)
    requires
        a.replaces(),
        a.target() == b.target(),
    ensures
        m.apply(a).apply(b) == m.apply(b),
{
}

/// In the header, query parameter and response header maps, a name keeps the
/// value given last for it.
pub proof fn law_name_keeps_last_value(
    m: MockDefinitionView,
    name: Seq<char>,
    first: Seq<char>,
    second: Seq<char>,
)
    ensures
        m.apply(Expectation::Header(name, first)).apply(Expectation::Header(name, second))
            == m.apply(Expectation::Header(name, second)),
        m.apply(Expectation::QueryParam(name, first)).apply(Expectation::QueryParam(name, second))
            == m.apply(Expectation::QueryParam(name, second)),
        m.apply(Expectation::ReturnHeader(name, first)).apply(
            Expectation::ReturnHeader(name, second),
        ) == m.apply(Expectation::ReturnHeader(name, second)),
{
    lemma_insert_twice(m.request.headers, name, first, second);
    lemma_insert_twice(m.request.query_param, name, first, second);
    lemma_insert_twice(m.response.headers, name, first, second);
}

/// Values given for different names in the header, query parameter and response
/// header maps do not depend on the order they were given in.
pub proof fn law_distinct_names_commute(
    m: MockDefinitionView,
    name1: Seq<char>,
    value1: Seq<char>,
    name2: Seq<char>,
    value2: Seq<char>,
)
    requires
        name1 != name2,
    ensures
        m.apply(Expectation::Header(name1, value1)).apply(Expectation::Header(name2, value2))
            == m.apply(Expectation::Header(name2, value2)).apply(
            Expectation::Header(name1, value1),
        ),
        m.apply(Expectation::QueryParam(name1, value1)).apply(
            Expectation::QueryParam(name2, value2),
        ) == m.apply(Expectation::QueryParam(name2, value2)).apply(
            Expectation::QueryParam(name1, value1),
        ),
        m.apply(Expectation::ReturnHeader(name1, value1)).apply(
            Expectation::ReturnHeader(name2, value2),
        ) == m.apply(Expectation::ReturnHeader(name2, value2)).apply(
            Expectation::ReturnHeader(name1, value1),
        ),
{
    lemma_insert_commute(m.request.headers, name1, value1, name2, value2);
    lemma_insert_commute(m.request.query_param, name1, value1, name2, value2);
    lemma_insert_commute(m.response.headers, name1, value1, name2, value2);
}

proof fn lemma_insert_twice(
    o: Option<Map<Seq<char>, Seq<char>>>,
    k: Seq<char>,
    v1: Seq<char>,
    v2: Seq<char>,
)
    ensures
        insert_opt(insert_opt(o, k, v1), k, v2) == insert_opt(o, k, v2),
{
    let m = or_empty_map(o);
    assert(m.insert(k, v1).insert(k, v2) =~= m.insert(k, v2));
}

proof fn lemma_insert_commute(
    o: Option<Map<Seq<char>, Seq<char>>>,
    k1: Seq<char>,
    v1: Seq<char>,
    k2: Seq<char>,
    v2: Seq<char>,
)
    requires
        k1 != k2,
    ensures
        insert_opt(insert_opt(o, k1, v1), k2, v2) == insert_opt(insert_opt(o, k2, v2), k1, v1),
{
    let m = or_empty_map(o);
    assert(m.insert(k1, v1).insert(k2, v2) =~= m.insert(k2, v2).insert(k1, v1));
}

/// Every JSON text a definition holds stays valid JSON as long as each step
/// brings only valid JSON.
pub proof fn law_json_texts_stay_valid(m: MockDefinitionView, e: Expectation)
    requires
        m.json_texts_valid(),
        e.json_valid(),
    ensures
        m.apply(e).json_texts_valid(),
{
}

/// Requirements that are lists (path substrings, header names, body substrings,
/// query parameter names, partial JSON bodies) keep every item given, in the
/// order given, after the items they held before.
pub proof fn law_list_requirements_accumulate(m: MockDefinitionView, xs: Seq<Seq<char>>)
    requires
        xs.len() > 0,
    ensures
        m.apply_all(xs.map_values(|x: Seq<char>| Expectation::PathContains(x))).request.path_contains
            == Some(or_empty(m.request.path_contains) + xs),
        m.apply_all(xs.map_values(|x: Seq<char>| Expectation::HeaderExists(x))).request.header_exists
            == Some(or_empty(m.request.header_exists) + xs),
        m.apply_all(xs.map_values(|x: Seq<char>| Expectation::BodyContains(x))).request.body_contains
            == Some(or_empty(m.request.body_contains) + xs),
        m.apply_all(
            xs.map_values(|x: Seq<char>| Expectation::QueryParamExists(x)),
        ).request.query_param_exists == Some(or_empty(m.request.query_param_exists) + xs),
        m.apply_all(
            xs.map_values(|x: Seq<char>| Expectation::JsonBodyIncludes(x)),
        ).request.json_body_includes == Some(or_empty(m.request.json_body_includes) + xs),
    decreases xs.len(),
{
    let last = xs.last();
    let init = xs.drop_last();
    let f1 = |x: Seq<char>| Expectation::PathContains(x);
    let f2 = |x: Seq<char>| Expectation::HeaderExists(x);
    let f3 = |x: Seq<char>| Expectation::BodyContains(x);
    let f4 = |x: Seq<char>| Expectation::QueryParamExists(x);
    let f5 = |x: Seq<char>| Expectation::JsonBodyIncludes(x);
    assert(xs.map_values(f1).drop_last() =~= init.map_values(f1));
    assert(xs.map_values(f2).drop_last() =~= init.map_values(f2));
    assert(xs.map_values(f3).drop_last() =~= init.map_values(f3));
    assert(xs.map_values(f4).drop_last() =~= init.map_values(f4));
    assert(xs.map_values(f5).drop_last() =~= init.map_values(f5));
    if init.len() > 0 {
        law_list_requirements_accumulate(m, init);
        assert(or_empty(m.request.path_contains) + init + seq![last] =~= or_empty(
            m.request.path_contains,
        ) + xs);
        assert(or_empty(m.request.header_exists) + init + seq![last] =~= or_empty(
            m.request.header_exists,
        ) + xs);
        assert(or_empty(m.request.body_contains) + init + seq![last] =~= or_empty(
            m.request.body_contains,
        ) + xs);
        assert(or_empty(m.request.query_param_exists) + init + seq![last] =~= or_empty(
            m.request.query_param_exists,
        ) + xs);
        assert(or_empty(m.request.json_body_includes) + init + seq![last] =~= or_empty(
            m.request.json_body_includes,
        ) + xs);
    } else {
        assert(init.map_values(f1) =~= Seq::<Expectation>::empty());
        assert(init.map_values(f2) =~= Seq::<Expectation>::empty());
        assert(init.map_values(f3) =~= Seq::<Expectation>::empty());
        assert(init.map_values(f4) =~= Seq::<Expectation>::empty());
        assert(init.map_values(f5) =~= Seq::<Expectation>::empty());
        assert(or_empty(m.request.path_contains).push(last) =~= or_empty(m.request.path_contains) + xs);
        assert(or_empty(m.request.header_exists).push(last) =~= or_empty(m.request.header_exists) + xs);
        assert(or_empty(m.request.body_contains).push(last) =~= or_empty(m.request.body_contains) + xs);
        assert(or_empty(m.request.query_param_exists).push(last) =~= or_empty(
            m.request.query_param_exists,
        ) + xs);
        assert(or_empty(m.request.json_body_includes).push(last) =~= or_empty(
            m.request.json_body_includes,
        ) + xs);
    }
}

/// A JSON requirement depends on the JSON text only through the value `serde_json`
/// reads from it: two texts that `serde_json` reads and writes back alike (such as
/// texts that differ in spacing or in the order of object attributes) leave equal
/// requirements.
pub proof fn law_json_requirements_ignore_format(
    m: MockDefinitionView,
    text1: Seq<char>,
    text2: Seq<char>,
)
    requires
        json_reserialized(text1) == json_reserialized(text2),
    ensures
        m.apply(Expectation::JsonBody(json_normal_form(text1))) == m.apply(
            Expectation::JsonBody(json_normal_form(text2)),
        ),
        m.apply(Expectation::JsonBodyIncludes(json_normal_form(text1))) == m.apply(
            Expectation::JsonBodyIncludes(json_normal_form(text2)),
        ),
{
}

/// One building step keeps every list and map of a definition absent or non-empty.
pub proof fn law_step_keeps_lists_and_maps_non_empty(m: MockDefinitionView, e: Expectation)
    requires
        m.lists_and_maps_non_empty(),
    ensures
        m.apply(e).lists_and_maps_non_empty(),
{
    let r = m.apply(e);
    match e {
        Expectation::Header(k, v) => {
            assert(r.request.headers->0.contains_key(k));
        },
        Expectation::QueryParam(k, v) => {
            assert(r.request.query_param->0.contains_key(k));
        },
        Expectation::ReturnHeader(k, v) => {
            assert(r.response.headers->0.contains_key(k));
        },
        _ => {},
    }
}

/// After any sequence of building steps from a fresh mock, every list and map of
/// the definition is either absent or holds at least one item.
pub proof fn law_lists_and_maps_never_empty(steps: Seq<Expectation>)
    ensures
        MockDefinitionView::initial().apply_all(steps).lists_and_maps_non_empty(),
    decreases steps.len(),
{
    if steps.len() > 0 {
        law_lists_and_maps_never_empty(steps.drop_last());
        law_step_keeps_lists_and_maps_non_empty(
            MockDefinitionView::initial().apply_all(steps.drop_last()),
            steps.last(),
        );
    }
}

/// What each building step leaves in the part it changes: a single value becomes
/// exactly the value given, a list gets exactly the item given appended after the
/// items it held, and a map gets exactly the name mapped to the value given.
pub proof fn law_step_sets_its_part(m: MockDefinitionView, e: Expectation)
    ensures
        e matches Expectation::Method(x) ==> m.apply(e).request.method == Some(x),
        e matches Expectation::Path(x) ==> m.apply(e).request.path == Some(x),
        e matches Expectation::PathContains(x) ==> m.apply(e).request.path_contains == Some(
            or_empty(m.request.path_contains).push(x),
        ),
        e matches Expectation::PathMatches(p) ==> m.apply(e).request.path_matches == Some(
            or_empty(m.request.path_matches).push(p),
        ),
        e matches Expectation::Header(k, v) ==> m.apply(e).request.headers == Some(
            or_empty_map(m.request.headers).insert(k, v),
        ),
        e matches Expectation::HeaderExists(x) ==> m.apply(e).request.header_exists == Some(
            or_empty(m.request.header_exists).push(x),
        ),
        e matches Expectation::Body(x) ==> m.apply(e).request.body == Some(x),
        e matches Expectation::JsonBody(x) ==> m.apply(e).request.json_body == Some(x),
        e matches Expectation::JsonBodyIncludes(x) ==> m.apply(e).request.json_body_includes
            == Some(or_empty(m.request.json_body_includes).push(x)),
        e matches Expectation::BodyContains(x) ==> m.apply(e).request.body_contains == Some(
            or_empty(m.request.body_contains).push(x),
        ),
        e matches Expectation::BodyMatches(p) ==> m.apply(e).request.body_matches == Some(
            or_empty(m.request.body_matches).push(p),
        ),
        e matches Expectation::QueryParam(k, v) ==> m.apply(e).request.query_param == Some(
            or_empty_map(m.request.query_param).insert(k, v),
        ),
        e matches Expectation::QueryParamExists(x) ==> m.apply(e).request.query_param_exists
            == Some(or_empty(m.request.query_param_exists).push(x)),
        e matches Expectation::Matcher(f) ==> m.apply(e).request.matchers == Some(
            or_empty(m.request.matchers).push(f),
        ),
        e matches Expectation::ReturnStatus(c) ==> m.apply(e).response.status == c,
        e matches Expectation::ReturnBody(x) ==> m.apply(e).response.body == Some(x),
        e matches Expectation::ReturnHeader(k, v) ==> m.apply(e).response.headers == Some(
            or_empty_map(m.response.headers).insert(k, v),
        ),
{
    match e {
        Expectation::PathContains(x) => assert(seq![x] =~= Seq::<Seq<char>>::empty().push(x)),
        Expectation::PathMatches(p) => assert(seq![p] =~= Seq::<Pattern>::empty().push(p)),
        Expectation::HeaderExists(x) => assert(seq![x] =~= Seq::<Seq<char>>::empty().push(x)),
        Expectation::JsonBodyIncludes(x) => assert(seq![x] =~= Seq::<Seq<char>>::empty().push(x)),
        Expectation::BodyContains(x) => assert(seq![x] =~= Seq::<Seq<char>>::empty().push(x)),
        Expectation::BodyMatches(p) => assert(seq![p] =~= Seq::<Pattern>::empty().push(p)),
        Expectation::QueryParamExists(x) => assert(seq![x] =~= Seq::<Seq<char>>::empty().push(x)),
        Expectation::Matcher(f) => assert(seq![f] =~= Seq::<MockMatcherClosure>::empty().push(f)),
        _ => {},
    }
}

/// A building step changes nothing but the part it targets: every other part of
/// the request requirements and of the response stays as it was.
pub proof fn law_step_changes_only_its_part(m: MockDefinitionView, e: Expectation)
    ensures
        e.target() != 0 ==> m.apply(e).request.method == m.request.method,
        e.target() != 1 ==> m.apply(e).request.path == m.request.path,
        e.target() != 2 ==> m.apply(e).request.path_contains == m.request.path_contains,
        e.target() != 3 ==> m.apply(e).request.path_matches == m.request.path_matches,
        e.target() != 4 ==> m.apply(e).request.headers == m.request.headers,
        e.target() != 5 ==> m.apply(e).request.header_exists == m.request.header_exists,
        e.target() != 6 ==> m.apply(e).request.body == m.request.body,
        e.target() != 7 ==> m.apply(e).request.json_body == m.request.json_body,
        e.target() != 8 ==> m.apply(e).request.json_body_includes == m.request.json_body_includes,
        e.target() != 9 ==> m.apply(e).request.body_contains == m.request.body_contains,
        e.target() != 10 ==> m.apply(e).request.body_matches == m.request.body_matches,
        e.target() != 11 ==> m.apply(e).request.query_param == m.request.query_param,
        e.target() != 12 ==> m.apply(e).request.query_param_exists == m.request.query_param_exists,
        e.target() != 13 ==> m.apply(e).request.matchers == m.request.matchers,
        e.target() != 14 ==> m.apply(e).response.status == m.response.status,
        e.target() != 15 ==> m.apply(e).response.body == m.response.body,
        e.target() != 16 ==> m.apply(e).response.headers == m.response.headers,
{
}

/// Different methods have different names, so a mock never requires one method
/// under the name of another.
pub proof fn law_method_names_distinct(a: Method, b: Method)
    requires
        a != b,
    ensures
        method_name(a) != method_name(b),
{
    reveal_strlit("GET");
    reveal_strlit("HEAD");
    reveal_strlit("POST");
    reveal_strlit("PUT");
    reveal_strlit("DELETE");
    reveal_strlit("CONNECT");
    reveal_strlit("OPTIONS");
    reveal_strlit("TRACE");
    reveal_strlit("PATCH");
    let na = method_name(a);
    let nb = method_name(b);
    if na.len() == nb.len() {
        assert(na[0] != nb[0] || na[1] != nb[1]);
    }
}

/// Regex requirements on path and body, and custom matchers, keep every item given,
/// in the order given, after the items they held before.
pub proof fn law_pattern_requirements_accumulate(
    m: MockDefinitionView,
    ps: Seq<Pattern>,
    fs: Seq<MockMatcherClosure>,
)
    ensures
        ps.len() > 0 ==> m.apply_all(ps.map_values(|p: Pattern| Expectation::PathMatches(p))).request.path_matches
            == Some(or_empty(m.request.path_matches) + ps),
        ps.len() > 0 ==> m.apply_all(ps.map_values(|p: Pattern| Expectation::BodyMatches(p))).request.body_matches
            == Some(or_empty(m.request.body_matches) + ps),
        fs.len() > 0 ==> m.apply_all(
            fs.map_values(|f: MockMatcherClosure| Expectation::Matcher(f)),
        ).request.matchers == Some(or_empty(m.request.matchers) + fs),
    decreases ps.len() + fs.len(),
{
    let g1 = |p: Pattern| Expectation::PathMatches(p);
    let g2 = |p: Pattern| Expectation::BodyMatches(p);
    let g3 = |f: MockMatcherClosure| Expectation::Matcher(f);
    if ps.len() > 0 {
        let init = ps.drop_last();
        assert(ps.map_values(g1).drop_last() =~= init.map_values(g1));
        assert(ps.map_values(g2).drop_last() =~= init.map_values(g2));
        law_pattern_requirements_accumulate(m, init, Seq::empty());
        if init.len() == 0 {
            assert(init.map_values(g1) =~= Seq::<Expectation>::empty());
            assert(init.map_values(g2) =~= Seq::<Expectation>::empty());
        }
        assert(or_empty(m.request.path_matches) + init + seq![ps.last()] =~= or_empty(
            m.request.path_matches,
        ) + ps);
        assert(or_empty(m.request.path_matches).push(ps.last()) =~= or_empty(m.request.path_matches) + ps
            || init.len() > 0);
        assert(or_empty(m.request.body_matches) + init + seq![ps.last()] =~= or_empty(
            m.request.body_matches,
        ) + ps);
        assert(or_empty(m.request.body_matches).push(ps.last()) =~= or_empty(m.request.body_matches) + ps
            || init.len() > 0);
    }
    if fs.len() > 0 {
        let init = fs.drop_last();
        assert(fs.map_values(g3).drop_last() =~= init.map_values(g3));
        law_pattern_requirements_accumulate(m, Seq::empty(), init);
        if init.len() == 0 {
            assert(init.map_values(g3) =~= Seq::<Expectation>::empty());
        }
        assert(or_empty(m.request.matchers) + init + seq![fs.last()] =~= or_empty(m.request.matchers)
            + fs);
        assert(or_empty(m.request.matchers).push(fs.last()) =~= or_empty(m.request.matchers) + fs
            || init.len() > 0);
    }
}

} // verus!
