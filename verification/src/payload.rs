//! The response payload and its JSON form.

use vstd::prelude::*;
use vstd::string::*;
use crate::json::{is_literal, json_string_text, quoted, to_json_string};

verus! {

/// The greeting that every payload carries.
pub open spec fn greeting() -> Seq<char> {
    "Hello, World!"@
}

/// The name of the payload's only field.
pub open spec fn field_name() -> Seq<char> {
    "message"@
}

/// A JSON object with one member, given the encoded name and value.
pub open spec fn object_text(name: Seq<char>, value: Seq<char>) -> Seq<char> {
    seq!['{'] + name + seq![':'] + value + seq!['}']
}

/// The body of a successful response, byte for byte.
pub open spec fn greeting_body() -> Seq<char> {
    "{\"message\":\"Hello, World!\"}"@
}

/// The payload: an object with the single field `message`.
#[derive(Debug)]
pub struct HelloWorld {
    pub message: String,
}

impl View for HelloWorld {
    type V = Seq<char>;

    open spec fn view(&self) -> Seq<char> {
        self.message@
    }
}

/// The greeting is free of characters that JSON escapes.
pub proof fn lemma_greeting_is_literal()
    ensures
        is_literal(greeting()),
        is_literal(field_name()),
{
    reveal_strlit("Hello, World!");
    reveal_strlit("message");
}

/// The object built from the quoted field name and the quoted greeting is the
/// canonical body.
pub proof fn lemma_greeting_body()
    ensures
        object_text(quoted(field_name()), quoted(greeting())) == greeting_body(),
{
    reveal_strlit("Hello, World!");
    reveal_strlit("message");
    reveal_strlit("{\"message\":\"Hello, World!\"}");
    assert(object_text(quoted(field_name()), quoted(greeting())) =~= greeting_body());
}

/// The handler of the only route: a fresh payload with the greeting.
pub fn api() -> (payload: HelloWorld)
    ensures
        payload@ == greeting(),
{
    HelloWorld { message: String::from_str("Hello, World!") }
}

impl HelloWorld {
    /// The JSON text of one encoded string.
    fn encode(s: &str) -> (text: String)
        ensures
            text@ == json_string_text(s@),
            is_literal(s@) ==> text@ == quoted(s@),
    {
        match to_json_string(s) {
            Ok(text) => text,
            Err(_) => vstd::pervasive::unreached(),
        }
    }

    /// Serialises the payload as a JSON object.
    pub fn to_json(&self) -> (body: String)
        ensures
            body@ == object_text(json_string_text(field_name()), json_string_text(self@)),
            is_literal(self@) ==> body@ == object_text(quoted(field_name()), quoted(self@)),
            self@ == greeting() ==> body@ == greeting_body(),
    {
        let name = Self::encode("message");
        let value = Self::encode(self.message.as_str());
        proof {
            lemma_greeting_is_literal();
            lemma_greeting_body();
        }
        let mut body = String::from_str("{");
        body.append(name.as_str());
        body.append(":");
        body.append(value.as_str());
        body.append("}");
        proof {
            reveal_strlit("{");
            reveal_strlit(":");
            reveal_strlit("}");
            assert(body@ =~= object_text(json_string_text(field_name()), json_string_text(self@)));
        }
        body
    }
}

} // verus!
