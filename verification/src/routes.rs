use vstd::prelude::*;
use vstd::string::StringExecFns;

use crate::json::{json_string, json_string_literal};
use crate::text::same_text;

verus! {

/// The HTTP status of a refused login or token.
pub const STATUS_UNAUTHORIZED: u16 = 401;

/// The HTTP status of a request the server could not answer.
pub const STATUS_INTERNAL_SERVER_ERROR: u16 = 500;

/// The answer to an upload: where the stored file can be fetched, or `error`.
#[derive(Debug, Clone)]
pub struct UploadResponse {
    url: String,
}

impl View for UploadResponse {
    type V = Seq<char>;

    closed spec fn view(&self) -> Seq<char> {
        self.url@
    }
}

impl UploadResponse {
    /// The answer for a file stored under the name `filename`.
    pub fn for_file(filename: &str) -> (r: UploadResponse)
        ensures
            r@ == "/uploads/"@ + filename@,
    {
        let mut url = "/uploads/".to_owned();
        url.append(filename);
        UploadResponse { url }
    }

    /// The answer when the upload held no file.
    pub fn failed() -> (r: UploadResponse)
        ensures
            r@ == "error"@,
    {
        UploadResponse { url: "error".to_owned() }
    }

    /// Where the file can be fetched, or `error`.
    pub fn url(&self) -> (r: &str)
        ensures
            r@ == self@,
    {
        self.url.as_str()
    }
}

/// Whether a form field of an upload carries the file.
pub fn is_upload_field(name: &str) -> (r: bool)
    ensures
        r == (name@ == "file"@),
{
    same_text(name, "file")
}

/// The path an uploaded file is stored at.
pub fn upload_file_path(upload_dir: &str, filename: &str) -> (r: String)
    ensures
        r@ == upload_dir@ + "/"@ + filename@,
{
    let mut path = upload_dir.to_owned();
    path.append("/");
    path.append(filename);
    path
}

/// A chat message sent over the websocket: who sent it and what it says.
#[derive(Debug, Clone)]
pub struct ChatMessage {
    pub user_id: String,
    pub message: String,
}

/// The parameters of a websocket connection: the login token and the user's name.
#[derive(Debug, Clone)]
pub struct WsQuery {
    pub token: String,
    pub username: String,
}

/// The JSON text of a chat message around already written JSON string literals:
/// `{"userId":...,"message":...}`.
pub open spec fn chat_message_body(user_literal: Seq<char>, message_literal: Seq<char>) -> Seq<
    char,
> {
    "{\"userId\":"@ + user_literal + ",\"message\":"@ + message_literal + "}"@
}

/// The JSON text of a chat message around already written JSON string literals.
pub fn chat_message_json(user_literal: &str, message_literal: &str) -> (r: String)
    ensures
        r@ == chat_message_body(user_literal@, message_literal@),
{
    let mut body = "{\"userId\":".to_owned();
    body.append(user_literal);
    body.append(",\"message\":");
    body.append(message_literal);
    body.append("}");
    body
}

impl ChatMessage {
    /// A message from `user_id` saying `message`.
    pub fn new(user_id: &str, message: &str) -> (r: ChatMessage)
        ensures
            r.user_id@ == user_id@,
            r.message@ == message@,
    {
        ChatMessage { user_id: user_id.to_owned(), message: message.to_owned() }
    }

    /// The JSON text of this message, as it is broadcast to every client.
    pub fn to_json(&self) -> (r: Option<String>)
        ensures
            r is Some,
            r matches Some(text) ==> text@ == chat_message_body(
                json_string_literal(self.user_id@),
                json_string_literal(self.message@),
            ),
    {
        let user = json_string(self.user_id.as_str());
        let message = json_string(self.message.as_str());
        match (user, message) {
            (Some(u), Some(m)) => Some(chat_message_json(u.as_str(), m.as_str())),
            _ => None,
        }
    }
}

/// What is broadcast for a text frame from a client: the frame read as a chat
/// message, written back as JSON; nothing when the frame was not a chat message.
pub fn broadcast_payload(parsed: Option<ChatMessage>) -> (r: Option<String>)
    ensures
        r is Some <==> parsed is Some,
        parsed matches Some(m) ==> (r matches Some(text) ==> text@ == chat_message_body(
            json_string_literal(m.user_id@),
            json_string_literal(m.message@),
        )),
{
    match parsed {
        Some(m) => m.to_json(),
        None => None,
    }
}

/// The JSON body answering an AI chat request around an already written JSON
/// string literal: `{"response":...}`.
pub open spec fn ai_chat_body(response_literal: Seq<char>) -> Seq<char> {
    "{\"response\":"@ + response_literal + "}"@
}

/// The JSON body answering an AI chat request around an already written JSON
/// string literal.
pub fn ai_chat_json(response_literal: &str) -> (r: String)
    ensures
        r@ == ai_chat_body(response_literal@),
{
    let mut body = "{\"response\":".to_owned();
    body.append(response_literal);
    body.append("}");
    body
}

/// The answer to an AI chat request: the model's text as a JSON body, or the
/// status 500 when the model failed (`None`).
pub fn ai_chat_reply(answer: Option<&str>) -> (r: Result<String, u16>)
    ensures
        answer is None ==> r == Err::<String, u16>(STATUS_INTERNAL_SERVER_ERROR),
        answer is Some ==> r is Ok,
        answer matches Some(text) ==> (r matches Ok(body) && body@ == ai_chat_body(
            json_string_literal(text@),
        )),
{
    match answer {
        Some(text) => match json_string(text) {
            Some(literal) => Ok(ai_chat_json(literal.as_str())),
            None => Err(STATUS_INTERNAL_SERVER_ERROR),
        },
        None => Err(STATUS_INTERNAL_SERVER_ERROR),
    }
}

/// What a login request is answered with.
#[derive(Debug, Clone, Copy, PartialEq, Eq, Structural)]
pub enum LoginDecision {
    /// The request is refused with 401.
    Unauthorized,
    /// A token is issued for the user.
    IssueToken,
}

/// A login with a non-empty user name gets a token; an empty one is refused.
pub fn login_decision(username: &str) -> (r: LoginDecision)
    ensures
        r == (if username@.len() > 0 {
            LoginDecision::IssueToken
        } else {
            LoginDecision::Unauthorized
        }),
{
    if username.is_empty() {
        LoginDecision::Unauthorized
    } else {
        LoginDecision::IssueToken
    }
}

/// The JSON body answering a successful login around already written JSON
/// string literals: `{"token":...,"username":...}`.
pub open spec fn login_body_of(token_literal: Seq<char>, username_literal: Seq<char>) -> Seq<char> {
    "{\"token\":"@ + token_literal + ",\"username\":"@ + username_literal + "}"@
}

/// The JSON body answering a successful login around already written JSON
/// string literals.
pub fn login_json(token_literal: &str, username_literal: &str) -> (r: String)
    ensures
        r@ == login_body_of(token_literal@, username_literal@),
{
    let mut body = "{\"token\":".to_owned();
    body.append(token_literal);
    body.append(",\"username\":");
    body.append(username_literal);
    body.append("}");
    body
}

/// The JSON body answering a successful login.
pub fn login_body(token: &str, username: &str) -> (r: Option<String>)
    ensures
        r is Some,
        r matches Some(body) ==> body@ == login_body_of(
            json_string_literal(token@),
            json_string_literal(username@),
        ),
{
    match (json_string(token), json_string(username)) {
        (Some(t), Some(u)) => Some(login_json(t.as_str(), u.as_str())),
        _ => None,
    }
}

} // verus!
