use vstd::prelude::*;

use crate::model::request::{single_user_request, user_request, CompletionRequest};

verus! {

/// A bare chat request: one message for OpenAI's chat model.
#[derive(Debug, Clone)]
pub struct AIChatRequest {
    pub message: String,
}

impl AIChatRequest {
    /// The request sent for this message: the message as the single user
    /// turn, to `gpt-3.5-turbo`.
    pub fn completion_request(&self) -> (r: CompletionRequest)
        ensures
            r@ == single_user_request("gpt-3.5-turbo"@, self.message@),
    {
        user_request("gpt-3.5-turbo", self.message.as_str())
    }
}

} // verus!
