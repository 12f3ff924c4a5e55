use vstd::prelude::*;

use crate::model::request::{chat_turn, CompletionRequest, CompletionRequestView};
use vstd::string::StringExecFns;

verus! {

/// A question for Zhipu's GLM model.
#[derive(Debug)]
pub struct GLM {
    message: String,
}

impl View for GLM {
    type V = Seq<char>;

    closed spec fn view(&self) -> Seq<char> {
        self.message@
    }
}

/// The instruction that opens every GLM conversation.
pub open spec fn glm_system_prompt() -> Seq<char> {
    "你是一个有帮助的AI助手"@
}

/// The text a GLM reply is read as: the content of the first choice, or a
/// notice when there is none.
pub open spec fn glm_reply_of(contents: Seq<String>) -> Seq<char> {
    if contents.len() > 0 {
        contents[0]@
    } else {
        "No response from GLM"@
    }
}

impl GLM {
    /// A question holding `message`.
    pub fn new(message: &str) -> (r: GLM)
        ensures
            r@ == message@,
    {
        GLM { message: message.to_owned() }
    }

    /// The request sent for this question: the system instruction, then the
    /// message as the user turn, to `glm-4`.
    pub fn chat_request(&self) -> (r: CompletionRequest)
        ensures
            r@ == (CompletionRequestView {
                model: "glm-4"@,
                messages: seq![("system"@, glm_system_prompt()), ("user"@, self@)],
            }),
    {
        let mut messages = Vec::new();
        messages.push(chat_turn("system", "你是一个有帮助的AI助手"));
        messages.push(chat_turn("user", self.message.as_str()));
        let r = CompletionRequest { model: "glm-4".to_owned(), messages };
        assert(r@.messages =~= seq![("system"@, glm_system_prompt()), ("user"@, self@)]);
        r
    }
}

/// Where GLM chat completions are posted.
pub fn glm_endpoint() -> (r: String)
    ensures
        r@ == "https://open.bigmodel.cn/api/paas/v4/chat/completions"@,
{
    "https://open.bigmodel.cn/api/paas/v4/chat/completions".to_owned()
}

/// The `Authorization` header value for `api_key`.
pub fn bearer_authorization(api_key: &str) -> (r: String)
    ensures
        r@ == "Bearer "@ + api_key@,
{
    let mut r = "Bearer ".to_owned();
    r.append(api_key);
    r
}

/// The text of a GLM reply, given the contents of its choices in order.
pub fn glm_reply(contents: &Vec<String>) -> (r: String)
    ensures
        r@ == glm_reply_of(contents@),
{
    if contents.len() > 0 {
        contents[0].clone()
    } else {
        "No response from GLM".to_owned()
    }
}

/// A GLM reply with at least one choice reads as the content of its first
/// choice; only a reply without choices reads as the notice.
pub proof fn law_glm_reply_is_first_choice(contents: Seq<String>)
    ensures
        contents.len() >= 1 ==> glm_reply_of(contents) == contents[0]@,
        contents.len() == 0 ==> glm_reply_of(contents) == "No response from GLM"@,
{
}

} // verus!
