//! A builder for HTTP mock definitions: the requirements a request must meet
//! for a mock to answer it, and the response the mock answers with.
//!
//! `Mock` collects requirements (path, method, headers, body, query parameters,
//! custom matchers) and the response (status, headers, body). Its view is a
//! `MockDefinitionView`, and each builder method is one `Expectation` step on it.

pub mod data;
pub mod json;
pub mod laws;
pub mod method;
pub mod mock;
pub mod string_map;

pub use data::{
    MockDefinition, MockMatcherClosure, MockServerHttpRequest, MockServerHttpResponse, Pattern,
    RequestMatcher, RequestRequirements,
};
pub use json::JsonText;
pub use method::Method;
pub use mock::{Mock, MockRef};
pub use string_map::StringMap;
