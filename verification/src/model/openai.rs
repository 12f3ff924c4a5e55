use vstd::prelude::*;

use crate::model::request::{single_user_request, user_request, CompletionRequest};

verus! {

/// A question for OpenAI's chat model.
#[derive(Debug)]
pub struct OPENAI {
    message: String,
}

impl View for OPENAI {
    type V = Seq<char>;

    closed spec fn view(&self) -> Seq<char> {
        self.message@
    }
}

impl OPENAI {
    /// A question holding `message`.
    pub fn new(message: &str) -> (r: OPENAI)
        ensures
            r@ == message@,
    {
        OPENAI { message: message.to_owned() }
    }

    /// The request sent for this question: the message as the single user
    /// turn, to `gpt-3.5-turbo`.
    pub fn completion_request(&self) -> (r: CompletionRequest)
        ensures
            r@ == single_user_request("gpt-3.5-turbo"@, self@),
    {
        user_request("gpt-3.5-turbo", self.message.as_str())
    }
}

} // verus!
