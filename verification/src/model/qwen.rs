use vstd::prelude::*;

use crate::model::request::{single_user_request, user_request, CompletionRequest};

verus! {

/// The OpenAI-compatible endpoint of DashScope, which serves the Qwen models.
pub fn dashscope_api_base() -> (r: String)
    ensures
        r@ == "https://dashscope.aliyuncs.com/compatible-mode/v1"@,
{
    "https://dashscope.aliyuncs.com/compatible-mode/v1".to_owned()
}

/// The request sent to Qwen for `message`: the message as the single user
/// turn, to `qwen-turbo`.
pub fn qwen_request(message: &str) -> (r: CompletionRequest)
    ensures
        r@ == single_user_request("qwen-turbo"@, message@),
{
    user_request("qwen-turbo", message)
}

} // verus!
