//! JSON values that the expectations of a mock hold, kept in the one text form
//! that `serde_json` writes for them.

use vstd::prelude::*;

verus! {

/// The text that `serde_json` writes for the JSON value it reads from `text`
/// (`serde_json::from_str::<Value>(text)`, then the value's compact `to_string`),
/// or `None` where `text` is not one JSON value. Texts that denote the same value,
/// whatever their spacing or the order of object attributes, give the same result.
pub uninterp spec fn json_reserialized(text: Seq<char>) -> Option<Seq<char>>;

/// Whether `serde_json` accepts `text` as one JSON value.
pub open spec fn json_text_is_valid(text: Seq<char>) -> bool {
    json_reserialized(text) is Some
}

/// The form in which a mock keeps the JSON value of a valid `text`.
pub open spec fn json_normal_form(text: Seq<char>) -> Seq<char> {
    match json_reserialized(text) {
        Some(t) => t,
        None => Seq::empty(),
    }
}

/// Whether `text` is the form that `serde_json` writes for some JSON value.
pub open spec fn is_json_normal_form(text: Seq<char>) -> bool {
    exists|source: Seq<char>| json_text_is_valid(source) && #[trigger] json_normal_form(source) == text
}

/// Trusted: parses `text` with `serde_json::from_str::<serde_json::Value>` and, where
/// that gives `Ok(v)`, returns `v.to_string()`. The claim is that the answer is
/// `json_reserialized(text@)`: it depends on the text alone (the value's objects are
/// ordered maps and its compact form is fixed), and neither call panics.
#[verifier::external_body]
fn serde_json_reserialize(text: &str) -> (r: Option<String>)
    ensures
        r.deep_view() == json_reserialized(text@),
{
    match serde_json::from_str::<serde_json::Value>(text) {
        Ok(v) => Some(v.to_string()),
        Err(_) => None,
    }
}

/// A JSON value, held as the text that `serde_json` writes for it.
pub struct JsonText {
    text: String,
}

impl View for JsonText {
    type V = Seq<char>;

    closed spec fn view(&self) -> Seq<char> {
        self.text@
    }
}

impl DeepView for JsonText {
    type V = Seq<char>;

    open spec fn deep_view(&self) -> Seq<char> {
        self@
    }
}

impl JsonText {
    #[verifier::type_invariant]
    closed spec fn inv(self) -> bool {
        is_json_normal_form(self.text@)
    }

    /// The JSON value of `text`, if `text` is valid JSON.
    pub fn parse(text: &str) -> (r: Option<JsonText>)
        ensures
            r is Some <==> json_text_is_valid(text@),
            r matches Some(j) ==> j@ == json_normal_form(text@),
    {
        match serde_json_reserialize(text) {
            Some(t) => {
                assert(is_json_normal_form(t@)) by {
                    assert(json_text_is_valid(text@) && json_normal_form(text@) == t@);
                }
                Some(JsonText { text: t })
            },
            None => None,
        }
    }

    /// The JSON text.
    pub fn as_str(&self) -> (s: &str)
        ensures
            s@ == self@,
            is_json_normal_form(s@),
    {
        proof {
            use_type_invariant(self);
        }
        self.text.as_str()
    }
}

} // verus!
