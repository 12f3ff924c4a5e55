use vstd::prelude::*;

verus! {

/// One turn of a chat-completion request: who speaks and what is said.
#[derive(Debug, Clone)]
pub struct ChatTurn {
    pub role: String,
    pub content: String,
}

/// A text chat-completion request: the model to ask and the turns to send.
#[derive(Debug, Clone)]
pub struct CompletionRequest {
    pub model: String,
    pub messages: Vec<ChatTurn>,
}

/// A request as plain text: the model, and each turn as (role, content).
pub struct CompletionRequestView {
    pub model: Seq<char>,
    pub messages: Seq<(Seq<char>, Seq<char>)>,
}

impl View for ChatTurn {
    type V = (Seq<char>, Seq<char>);

    open spec fn view(&self) -> (Seq<char>, Seq<char>) {
        (self.role@, self.content@)
    }
}

impl View for CompletionRequest {
    type V = CompletionRequestView;

    open spec fn view(&self) -> CompletionRequestView {
        CompletionRequestView {
            model: self.model@,
            messages: self.messages@.map_values(|t: ChatTurn| t@),
        }
    }
}

/// A request to `model` holding the single user turn `text`.
pub open spec fn single_user_request(model: Seq<char>, text: Seq<char>) -> CompletionRequestView {
    CompletionRequestView { model, messages: seq![("user"@, text)] }
}

/// A turn with the given role and content.
pub fn chat_turn(role: &str, content: &str) -> (r: ChatTurn)
    ensures
        r@ == (role@, content@),
{
    ChatTurn { role: role.to_owned(), content: content.to_owned() }
}

/// A request to `model` holding the single user turn `text`.
pub fn user_request(model: &str, text: &str) -> (r: CompletionRequest)
    ensures
        r@ == single_user_request(model@, text@),
{
    let mut messages: Vec<ChatTurn> = Vec::new();
    messages.push(chat_turn("user", text));
    let r = CompletionRequest { model: model.to_owned(), messages };
    assert(r@.messages =~= seq![("user"@, text@)]);
    r
}

/// The content of the first choice, or `fallback` when there is no choice or
/// the first one has no content.
pub open spec fn first_content_or(contents: Seq<Option<String>>, fallback: Seq<char>) -> Seq<
    char,
> {
    if contents.len() > 0 {
        match contents[0] {
            Some(text) => text@,
            None => fallback,
        }
    } else {
        fallback
    }
}

/// The content of the first choice of a reply, or `fallback` when there is
/// none.
pub fn first_choice_or(contents: &Vec<Option<String>>, fallback: &str) -> (r: String)
    ensures
        r@ == first_content_or(contents@, fallback@),
{
    if contents.len() > 0 {
        match &contents[0] {
            Some(text) => text.clone(),
            None => fallback.to_owned(),
        }
    } else {
        fallback.to_owned()
    }
}

/// The content of the first choice of a reply, empty when it has none. A
/// reply without choices is not accepted.
pub fn first_choice_content(contents: &Vec<Option<String>>) -> (r: String)
    requires
        contents@.len() > 0,
    ensures
        r@ == first_content_or(contents@, Seq::empty()),
{
    match &contents[0] {
        Some(text) => text.clone(),
        None => String::new(),
    }
}

/// A reply whose first choice has content reads as that content, whatever
/// follows it; the fallback is read only when there is no choice or the first
/// one is empty of content.
pub proof fn law_first_choice_is_read(contents: Seq<Option<String>>, fallback: Seq<char>)
    ensures
        contents.len() >= 1 && contents[0] is Some ==> first_content_or(contents, fallback)
            == contents[0]->Some_0@,
        contents.len() == 0 || contents[0] is None ==> first_content_or(contents, fallback)
            == fallback,
{
}

} // verus!
