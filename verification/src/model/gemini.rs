use vstd::prelude::*;
use vstd::string::StringExecFns;

use crate::json::{
    field, json_string, json_string_literal, text_or_default, text_or_empty,
    then_element, then_field, then_get_element, then_get_field, JsonValue,
};

verus! {

/// A question for Google's Gemini model.
#[derive(Debug)]
pub struct Gemini {
    message: String,
}

impl View for Gemini {
    type V = Seq<char>;

    closed spec fn view(&self) -> Seq<char> {
        self.message@
    }
}

/// The JSON body of a Gemini request whose text is the JSON string literal
/// `text_literal`: `{"contents":[{"parts":[{"text":...}]}]}`.
pub open spec fn gemini_body(text_literal: Seq<char>) -> Seq<char> {
    "{\"contents\":[{\"parts\":[{\"text\":"@ + text_literal + "}]}]}"@
}

/// The text a Gemini reply is read as:
/// `reply["candidates"][0]["content"]["parts"][0]["text"]`, or the empty text
/// when that is not a string.
pub open spec fn gemini_reply_of(reply: JsonValue) -> Seq<char> {
    text_or_empty(
        then_field(
            then_element(
                then_field(then_field(then_element(field(reply, "candidates"@), 0), "content"@), "parts"@),
                0,
            ),
            "text"@,
        ),
    )
}

impl Gemini {
    /// A question holding `message`.
    pub fn new(message: &str) -> (r: Gemini)
        ensures
            r@ == message@,
    {
        Gemini { message: message.to_owned() }
    }

    /// The JSON body posted for this question.
    pub fn request_body(&self) -> (r: Option<String>)
        ensures
            r is Some,
            r matches Some(body) ==> body@ == gemini_body(json_string_literal(self@)),
    {
        match json_string(self.message.as_str()) {
            Some(literal) => Some(gemini_body_from_literal(literal.as_str())),
            None => None,
        }
    }
}

/// The JSON body of a Gemini request around an already written JSON string
/// literal.
pub fn gemini_body_from_literal(text_literal: &str) -> (r: String)
    ensures
        r@ == gemini_body(text_literal@),
{
    let mut body = "{\"contents\":[{\"parts\":[{\"text\":".to_owned();
    body.append(text_literal);
    body.append("}]}]}");
    body
}

/// The URL a Gemini question is posted to, with the API key as query parameter.
pub fn gemini_endpoint(api_key: &str) -> (r: String)
    ensures
        r@ == "https://generativelanguage.googleapis.com/v1beta/models/gemini-1.5-flash:generateContent?key="@
            + api_key@,
{
    let mut url =
        "https://generativelanguage.googleapis.com/v1beta/models/gemini-1.5-flash:generateContent?key=".to_owned();
    url.append(api_key);
    url
}

/// The text of a Gemini reply.
pub fn gemini_reply_text(reply: &JsonValue) -> (r: String)
    ensures
        r@ == gemini_reply_of(*reply),
{
    let candidates = reply.get_field("candidates");
    let first = then_get_element(candidates, 0);
    let content = then_get_field(first, "content");
    let parts = then_get_field(content, "parts");
    let part = then_get_element(parts, 0);
    let text = then_get_field(part, "text");
    text_or_default(text)
}

} // verus!
