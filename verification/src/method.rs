//! HTTP request methods.

use vstd::prelude::*;

verus! {

/// An HTTP request method.
#[derive(Debug, Clone, Copy, PartialEq, Eq, Structural)]
#[allow(non_camel_case_types)]
pub enum Method {
    GET,
    HEAD,
    POST,
    PUT,
    DELETE,
    CONNECT,
    OPTIONS,
    TRACE,
    PATCH,
}

/// The name of a method as it appears in an HTTP request line.
pub open spec fn method_name(m: Method) -> Seq<char> {
    match m {
        Method::GET => "GET"@,
        Method::HEAD => "HEAD"@,
        Method::POST => "POST"@,
        Method::PUT => "PUT"@,
        Method::DELETE => "DELETE"@,
        Method::CONNECT => "CONNECT"@,
        Method::OPTIONS => "OPTIONS"@,
        Method::TRACE => "TRACE"@,
        Method::PATCH => "PATCH"@,
    }
}

impl Method {
    /// The method's name, such as `"GET"`.
    pub fn to_string(&self) -> (s: String)
        ensures
            s@ == method_name(*self),
    {
        broadcast use vstd::string::to_string_from_display_ensures_for_str;
        let name: &str = match self {
            Method::GET => "GET",
            Method::HEAD => "HEAD",
            Method::POST => "POST",
            Method::PUT => "PUT",
            Method::DELETE => "DELETE",
            Method::CONNECT => "CONNECT",
            Method::OPTIONS => "OPTIONS",
            Method::TRACE => "TRACE",
            Method::PATCH => "PATCH",
        };
        name.to_string()
    }
}

} // verus!
