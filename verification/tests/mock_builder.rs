use httpmock::{
    JsonText, Method, Mock, MockMatcherClosure, MockRef, MockServerHttpRequest, Pattern,
    RequestMatcher, StringMap,
};
use regex::Regex;
use std::rc::Rc;

fn strings(v: &Option<Vec<String>>) -> Vec<&str> {
    v.as_ref().unwrap().iter().map(|s| s.as_str()).collect()
}

fn regex_sources(v: &Option<Vec<Pattern>>) -> Vec<String> {
    v.as_ref()
        .unwrap()
        .iter()
        .map(|p| match p {
            Pattern::StringRegex(r) => r.as_str().to_string(),
        })
        .collect()
}

fn map_get<'a>(m: &'a Option<StringMap>, name: &str) -> Option<&'a str> {
    m.as_ref().unwrap().get(name).map(|s| s.as_str())
}

#[test]
fn new_mock_has_no_requirements_and_answers_200() {
    let mock = Mock::new();
    let d = mock.definition();
    let r = &d.request;
    assert!(r.method.is_none());
    assert!(r.path.is_none());
    assert!(r.path_contains.is_none());
    assert!(r.headers.is_none());
    assert!(r.header_exists.is_none());
    assert!(r.body.is_none());
    assert!(r.json_body.is_none());
    assert!(r.json_body_includes.is_none());
    assert!(r.body_contains.is_none());
    assert!(r.path_matches.is_none());
    assert!(r.body_matches.is_none());
    assert!(r.query_param_exists.is_none());
    assert!(r.query_param.is_none());
    assert!(r.matchers.is_none());
    assert_eq!(d.response.status, 200);
    assert!(d.response.headers.is_none());
    assert!(d.response.body.is_none());
}

#[test]
fn default_is_new() {
    let mock = Mock::default();
    let d = mock.definition();
    assert_eq!(d.response.status, 200);
    assert!(d.request.path.is_none());
    assert!(d.response.body.is_none());
}

#[test]
fn expect_path_sets_the_path() {
    let mock = Mock::new().expect_path("/test");
    assert_eq!(mock.definition().request.path.as_deref(), Some("/test"));
}

#[test]
fn expect_path_keeps_the_last_path() {
    let mock = Mock::new().expect_path("/a").expect_path("/b");
    assert_eq!(mock.definition().request.path.as_deref(), Some("/b"));
}

#[test]
fn expect_path_contains_accumulates_in_order() {
    let mock = Mock::new().expect_path_contains("te").expect_path_contains("st");
    assert_eq!(strings(&mock.definition().request.path_contains), vec!["te", "st"]);
}

#[test]
fn expect_path_matches_keeps_the_regexes() {
    let mock = Mock::new()
        .expect_path_matches(Regex::new(r"test").unwrap())
        .expect_path_matches(Regex::new(r"^/x/\d+$").unwrap());
    assert_eq!(regex_sources(&mock.definition().request.path_matches), vec!["test", r"^/x/\d+$"]);
}

#[test]
fn pattern_from_regex_wraps_it() {
    match Pattern::from_regex(Regex::new("a+b").unwrap()) {
        Pattern::StringRegex(r) => assert_eq!(r.as_str(), "a+b"),
    }
}

#[test]
fn expect_method_stores_the_method_name() {
    let mock = Mock::new().expect_method(Method::POST);
    assert_eq!(mock.definition().request.method.as_deref(), Some("POST"));
}

#[test]
fn method_names() {
    let all = [
        (Method::GET, "GET"),
        (Method::HEAD, "HEAD"),
        (Method::POST, "POST"),
        (Method::PUT, "PUT"),
        (Method::DELETE, "DELETE"),
        (Method::CONNECT, "CONNECT"),
        (Method::OPTIONS, "OPTIONS"),
        (Method::TRACE, "TRACE"),
        (Method::PATCH, "PATCH"),
    ];
    for (m, name) in all.iter() {
        assert_eq!(m.to_string(), *name);
    }
}

#[test]
fn expect_header_records_name_and_value() {
    let mock = Mock::new()
        .expect_header("Content-Type", "application/json")
        .expect_header("Accept", "text/plain");
    let headers = &mock.definition().request.headers;
    assert_eq!(map_get(headers, "Content-Type"), Some("application/json"));
    assert_eq!(map_get(headers, "Accept"), Some("text/plain"));
    assert_eq!(map_get(headers, "Other"), None);
    assert_eq!(headers.as_ref().unwrap().len(), 2);
}

#[test]
fn expect_header_same_name_keeps_last_value() {
    let mock = Mock::new().expect_header("X", "1").expect_header("X", "2");
    let headers = &mock.definition().request.headers;
    assert_eq!(map_get(headers, "X"), Some("2"));
    assert_eq!(headers.as_ref().unwrap().len(), 1);
}

#[test]
fn expect_header_exists_accumulates() {
    let mock = Mock::new().expect_header_exists("A").expect_header_exists("B");
    assert_eq!(strings(&mock.definition().request.header_exists), vec!["A", "B"]);
}

#[test]
fn expect_body_is_exact() {
    let mock = Mock::new().expect_body(" body\twith whitespace ");
    assert_eq!(mock.definition().request.body.as_deref(), Some(" body\twith whitespace "));
}

#[test]
fn expect_json_body_keeps_valid_json() {
    let mock = Mock::new().expect_json_body_text(r#"{"a":1}"#);
    let j = mock.definition().request.json_body.as_ref().unwrap();
    assert_eq!(j.as_str(), r#"{"a":1}"#);
}

#[test]
fn try_expect_json_body_refuses_invalid_json() {
    let res = Mock::new().expect_path("/p").try_expect_json_body_text("{not json");
    match res {
        Ok(_) => panic!("invalid JSON was accepted"),
        Err(m) => {
            assert!(m.definition().request.json_body.is_none());
            assert_eq!(m.definition().request.path.as_deref(), Some("/p"));
        }
    }
}

#[test]
fn try_expect_json_body_accepts_valid_json() {
    let res = Mock::new().try_expect_json_body_text("[1, 2, 3]");
    let m = res.ok().unwrap();
    assert_eq!(m.definition().request.json_body.as_ref().unwrap().as_str(), "[1,2,3]");
}

#[test]
fn expect_json_body_partial_accumulates() {
    let partial = r#"
        {
            "child" : {
                "target_attribute" : "Target value"
            }
        }
    "#;
    let mock = Mock::new().expect_json_body_partial(partial).expect_json_body_partial("{}");
    let list: Vec<&str> = mock
        .definition()
        .request
        .json_body_includes
        .as_ref()
        .unwrap()
        .iter()
        .map(|j| j.as_str())
        .collect();
    assert_eq!(list, vec![r#"{"child":{"target_attribute":"Target value"}}"#, "{}"]);
}

#[test]
fn try_expect_json_body_partial_refuses_invalid_json() {
    assert!(Mock::new().try_expect_json_body_partial("{\"a\": }").is_err());
    assert!(Mock::new().try_expect_json_body_partial("1 2").is_err());
    assert!(Mock::new().try_expect_json_body_partial("").is_err());
    let m = Mock::new().try_expect_json_body_partial("null").ok().unwrap();
    assert_eq!(m.definition().request.json_body_includes.as_ref().unwrap().len(), 1);
}

#[test]
fn json_text_parse() {
    assert!(JsonText::parse("{\"k\": [true, null]}").is_some());
    assert!(JsonText::parse("{\"k\": [true, null]").is_none());
    assert_eq!(JsonText::parse(" 42 ").unwrap().as_str(), "42");
}

#[test]
fn expect_body_contains_accumulates() {
    let mock = Mock::new().expect_body_contains("x").expect_body_contains("y");
    assert_eq!(strings(&mock.definition().request.body_contains), vec!["x", "y"]);
}

#[test]
fn expect_body_matches_keeps_the_regexes() {
    let mock = Mock::new().expect_body_matches(Regex::new(r"\d{3}").unwrap());
    assert_eq!(regex_sources(&mock.definition().request.body_matches), vec![r"\d{3}"]);
}

#[test]
fn expect_query_param_records_name_and_value() {
    let mock = Mock::new()
        .expect_query_param("q", "1")
        .expect_query_param("r", "2")
        .expect_query_param("q", "3");
    let params = &mock.definition().request.query_param;
    assert_eq!(map_get(params, "q"), Some("3"));
    assert_eq!(map_get(params, "r"), Some("2"));
    assert_eq!(params.as_ref().unwrap().len(), 2);
}

#[test]
fn expect_query_param_exists_accumulates() {
    let mock = Mock::new().expect_query_param_exists("a").expect_query_param_exists("a");
    assert_eq!(strings(&mock.definition().request.query_param_exists), vec!["a", "a"]);
}

#[test]
fn return_status_sets_the_status() {
    let mock = Mock::new().return_status(404);
    assert_eq!(mock.definition().response.status, 404);
}

#[test]
fn return_status_truncates_to_u16() {
    let mock = Mock::new().return_status(65536 + 201);
    assert_eq!(mock.definition().response.status, 201);
    let mock = Mock::new().return_status(65535);
    assert_eq!(mock.definition().response.status, 65535);
}

#[test]
fn return_body_sets_the_body() {
    let mock = Mock::new().return_body("first").return_body("ok");
    assert_eq!(mock.definition().response.body.as_deref(), Some("ok"));
}

#[test]
fn return_header_records_name_and_value() {
    let mock = Mock::new()
        .return_header("Content-Type", "text/plain")
        .return_header("Content-Type", "application/json");
    let headers = &mock.definition().response.headers;
    assert_eq!(map_get(headers, "Content-Type"), Some("application/json"));
    assert_eq!(headers.as_ref().unwrap().len(), 1);
    assert!(mock.definition().request.headers.is_none());
}

struct PathIsRoot;

impl RequestMatcher for PathIsRoot {
    fn matches(&self, request: Rc<MockServerHttpRequest>) -> bool {
        request.path == "/"
    }
}

fn request(path: &str) -> Rc<MockServerHttpRequest> {
    Rc::new(MockServerHttpRequest {
        path: path.to_string(),
        method: "GET".to_string(),
        headers: None,
        query_params: None,
        body: None,
    })
}

#[test]
fn expect_match_keeps_the_matchers() {
    let mock = Mock::new()
        .expect_match(MockMatcherClosure::new(Box::new(PathIsRoot)))
        .expect_match(MockMatcherClosure::new(Box::new(PathIsRoot)));
    let matchers = mock.definition().request.matchers.as_ref().unwrap();
    assert_eq!(matchers.len(), 2);
    assert!(matchers[0].matches(request("/")));
    assert!(!matchers[1].matches(request("/other")));
}

#[test]
fn mock_ref_holds_its_id() {
    let r = MockRef::new(17);
    assert_eq!(r.id(), 17);
}

#[test]
fn independent_steps_commute() {
    let a = Mock::new().expect_path("/p").expect_method(Method::GET).return_status(201);
    let b = Mock::new().return_status(201).expect_method(Method::GET).expect_path("/p");
    let (da, db) = (a.definition(), b.definition());
    assert_eq!(da.request.path, db.request.path);
    assert_eq!(da.request.method, db.request.method);
    assert_eq!(da.response.status, db.response.status);
}

#[test]
fn distinct_header_names_commute() {
    let a = Mock::new().expect_header("A", "1").expect_header("B", "2");
    let b = Mock::new().expect_header("B", "2").expect_header("A", "1");
    for name in ["A", "B"].iter() {
        assert_eq!(
            map_get(&a.definition().request.headers, name),
            map_get(&b.definition().request.headers, name)
        );
    }
}

#[test]
fn into_definition_gives_the_definition() {
    let d = Mock::new().expect_body("b").return_body("r").into_definition();
    assert_eq!(d.request.body.as_deref(), Some("b"));
    assert_eq!(d.response.body.as_deref(), Some("r"));
}

#[test]
fn string_map_insert_get_entries() {
    let mut m = StringMap::new();
    assert_eq!(m.len(), 0);
    m.insert("b".to_string(), "1".to_string());
    m.insert("a".to_string(), "2".to_string());
    m.insert("b".to_string(), "3".to_string());
    assert_eq!(m.len(), 2);
    assert_eq!(m.get("b").map(|s| s.as_str()), Some("3"));
    assert_eq!(m.get("a").map(|s| s.as_str()), Some("2"));
    assert_eq!(m.get("c"), None);
    let es: Vec<(&str, &str)> = m.entries().iter().map(|(k, v)| (k.as_str(), v.as_str())).collect();
    assert_eq!(es, vec![("b", "3"), ("a", "2")]);
}

#[test]
fn json_partials_ignore_spacing_and_attribute_order() {
    let a = Mock::new()
        .expect_json_body_partial("{}")
        .expect_json_body_partial(r#"{"b": 1, "a": [true, null]}"#);
    let b = Mock::new()
        .expect_json_body_partial("{ }")
        .expect_json_body_partial("{\n  \"a\" : [ true , null ],\n  \"b\" : 1\n}");
    let texts = |m: &Mock| -> Vec<String> {
        m.definition()
            .request
            .json_body_includes
            .as_ref()
            .unwrap()
            .iter()
            .map(|j| j.as_str().to_string())
            .collect()
    };
    assert_eq!(texts(&a), texts(&b));
    assert_eq!(texts(&a), vec!["{}".to_string(), r#"{"a":[true,null],"b":1}"#.to_string()]);
}

#[test]
fn json_body_ignores_spacing_and_attribute_order() {
    let a = Mock::new().expect_json_body_text(r#"{"x": {"z": 2, "y": 1}}"#);
    let b = Mock::new().expect_json_body_text(r#"{ "x" : { "y" : 1 , "z" : 2 } }"#);
    assert_eq!(
        a.definition().request.json_body.as_ref().unwrap().as_str(),
        b.definition().request.json_body.as_ref().unwrap().as_str()
    );
}

#[test]
fn lists_and_maps_are_absent_or_non_empty() {
    let m = Mock::new().expect_header("A", "1").expect_path_contains("p");
    let d = m.definition();
    assert!(d.request.headers.as_ref().unwrap().len() > 0);
    assert!(!d.request.path_contains.as_ref().unwrap().is_empty());
    assert!(d.request.query_param.is_none());
    assert!(d.response.headers.is_none());
}
