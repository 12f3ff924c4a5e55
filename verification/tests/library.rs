use netchat::ai_chat;
use netchat::assistant::{AIChatRequest, ModelCall};
use netchat::context::{ChatContext, ChatManager, Message, MAX_CONTEXT_LENGTH};
use netchat::json::{json_string, JsonMember, JsonValue};
use netchat::mime::Mime;
use netchat::model::gemini::{gemini_body_from_literal, gemini_endpoint, gemini_reply_text, Gemini};
use netchat::model::glm::{bearer_authorization, glm_endpoint, glm_reply, GLM};
use netchat::model::openai::OPENAI;
use netchat::model::qwen::{dashscope_api_base, qwen_request};
use netchat::model::qwen_vl::{
    data_url_from_base64, image_data_url, qwen_vl_reply, ImageDetail, QwenVl,
};
use netchat::model::request::{first_choice_content, first_choice_or, CompletionRequest};
use netchat::routes::{
    ai_chat_reply, broadcast_payload, chat_message_json, is_upload_field, login_body,
    login_decision, upload_file_path, ChatMessage, LoginDecision, UploadResponse, WsQuery,
    STATUS_INTERNAL_SERVER_ERROR,
};
use netchat::text::same_text;

fn turns(request: &CompletionRequest) -> Vec<(String, String)> {
    request
        .messages
        .iter()
        .map(|t| (t.role.clone(), t.content.clone()))
        .collect()
}

fn texts(history: &[Message]) -> Vec<(String, String)> {
    history
        .iter()
        .map(|m| (m.role.clone(), m.content.clone()))
        .collect()
}

#[test]
fn mime_recognises_known_types() {
    assert_eq!(Mime::parse("application/pdf"), Ok(Mime::Pdf));
    assert_eq!(
        Mime::parse("application/vnd.openxmlformats-officedocument.wordprocessingml.document"),
        Ok(Mime::Docx)
    );
    assert_eq!(Mime::parse("text/csv"), Ok(Mime::Csv));
    assert_eq!(
        Mime::parse("application/vnd.openxmlformats-officedocument.spreadsheetml.sheet"),
        Ok(Mime::Excel)
    );
    assert_eq!(Mime::parse("application/vnd.ms-excel"), Ok(Mime::Excel));
}

#[test]
fn mime_refuses_other_types() {
    assert_eq!(Mime::parse("image/png"), Err(()));
    assert_eq!(Mime::parse(""), Err(()));
    assert_eq!(Mime::parse("text/CSV"), Err(()));
    assert_eq!("text/csv".parse::<Mime>(), Ok(Mime::Csv));
    assert_eq!("application/json".parse::<Mime>(), Err(()));
}

#[test]
fn context_starts_empty() {
    let context = ChatContext::new();
    assert!(context.get_history().is_empty());
}

#[test]
fn context_keeps_messages_in_order() {
    let mut context = ChatContext::new();
    context.add_message_at("user", "hello", 1);
    context.add_message_at("assistant", "hi there", 2);
    let history = context.get_history();
    assert_eq!(history.len(), 2);
    assert_eq!(history[0].role, "user");
    assert_eq!(history[0].content, "hello");
    assert_eq!(history[0].timestamp, 1);
    assert_eq!(history[1].role, "assistant");
    assert_eq!(history[1].content, "hi there");
    assert_eq!(history[1].timestamp, 2);
}

#[test]
fn context_keeps_only_the_most_recent_messages() {
    let mut context = ChatContext::new();
    for i in 0..13i64 {
        context.add_message_at("user", &format!("m{}", i), i);
    }
    let history = context.get_history();
    assert_eq!(history.len(), MAX_CONTEXT_LENGTH);
    let expected: Vec<String> = (3..13).map(|i| format!("m{}", i)).collect();
    let got: Vec<String> = history.iter().map(|m| m.content.clone()).collect();
    assert_eq!(got, expected);
    assert_eq!(history[0].timestamp, 3);
    assert_eq!(history[9].timestamp, 12);
}

#[test]
fn context_at_exactly_full_drops_nothing() {
    let mut context = ChatContext::new();
    for i in 0..10i64 {
        context.add_message_at("user", &format!("m{}", i), i);
    }
    let history = context.get_history();
    assert_eq!(history.len(), 10);
    assert_eq!(history[0].content, "m0");
    context.add_message_at("user", "m10", 10);
    let history = context.get_history();
    assert_eq!(history.len(), 10);
    assert_eq!(history[0].content, "m1");
    assert_eq!(history[9].content, "m10");
}

#[test]
fn context_add_message_stamps_current_time() {
    let mut context = ChatContext::new();
    context.add_message("user", "now");
    let history = context.get_history();
    assert_eq!(texts(&history), vec![("user".to_string(), "now".to_string())]);
    assert!(history[0].timestamp > 1_600_000_000);
}

#[test]
fn context_clear_forgets_everything() {
    let mut context = ChatContext::new();
    context.add_message_at("user", "a", 1);
    context.add_message_at("user", "b", 2);
    context.clear();
    assert!(context.get_history().is_empty());
    context.add_message_at("user", "c", 3);
    assert_eq!(texts(&context.get_history()), vec![("user".to_string(), "c".to_string())]);
}

#[test]
fn context_snapshot_is_a_copy() {
    let mut context = ChatContext::new();
    context.add_message_at("user", "a", 1);
    let copy = context.snapshot();
    context.add_message_at("user", "b", 2);
    assert_eq!(copy.get_history().len(), 1);
    assert_eq!(context.get_history().len(), 2);
}

#[test]
fn message_new_and_duplicate() {
    let m = Message::new("system", "rules", 42);
    let d = m.duplicate();
    assert_eq!(d.role, "system");
    assert_eq!(d.content, "rules");
    assert_eq!(d.timestamp, 42);
}

#[test]
fn manager_unknown_conversation_has_no_history() {
    let manager = ChatManager::new();
    assert!(manager.get_conversation_history("c1").is_none());
}

#[test]
fn manager_creates_empty_context() {
    let mut manager = ChatManager::new();
    let context = manager.get_or_create_context("c1");
    assert!(context.get_history().is_empty());
    let history = manager.get_conversation_history("c1").unwrap();
    assert!(history.is_empty());
}

#[test]
fn manager_update_then_read() {
    let mut manager = ChatManager::new();
    manager.get_or_create_context("c1");
    manager.update_context_at("c1", "user", "hello", 5);
    manager.update_context("c1", "assistant", "hi");
    let history = manager.get_conversation_history("c1").unwrap();
    assert_eq!(
        texts(&history),
        vec![
            ("user".to_string(), "hello".to_string()),
            ("assistant".to_string(), "hi".to_string())
        ]
    );
    assert_eq!(history[0].timestamp, 5);
    let again = manager.get_or_create_context("c1");
    assert_eq!(again.get_history().len(), 2);
}

#[test]
fn manager_update_of_unknown_conversation_is_dropped() {
    let mut manager = ChatManager::new();
    manager.update_context("ghost", "user", "hello");
    assert!(manager.get_conversation_history("ghost").is_none());
    manager.get_or_create_context("ghost");
    assert!(manager.get_conversation_history("ghost").unwrap().is_empty());
}

#[test]
fn manager_keeps_conversations_apart() {
    let mut manager = ChatManager::new();
    manager.get_or_create_context("a");
    manager.get_or_create_context("b");
    manager.update_context_at("a", "user", "for a", 1);
    manager.update_context_at("b", "user", "for b", 2);
    manager.clear_context("a");
    assert!(manager.get_conversation_history("a").unwrap().is_empty());
    assert_eq!(
        texts(&manager.get_conversation_history("b").unwrap()),
        vec![("user".to_string(), "for b".to_string())]
    );
}

#[test]
fn manager_clear_of_unknown_conversation_changes_nothing() {
    let mut manager = ChatManager::new();
    manager.clear_context("nobody");
    assert!(manager.get_conversation_history("nobody").is_none());
}

#[test]
fn manager_create_twice_keeps_messages() {
    let mut manager = ChatManager::new();
    manager.get_or_create_context("c");
    manager.update_context_at("c", "user", "kept", 7);
    manager.get_or_create_context("c");
    let history = manager.get_conversation_history("c").unwrap();
    assert_eq!(texts(&history), vec![("user".to_string(), "kept".to_string())]);
}

#[test]
fn manager_histories_stay_bounded() {
    let mut manager = ChatManager::new();
    manager.get_or_create_context("c");
    for i in 0..25i64 {
        manager.update_context_at("c", "user", &format!("m{}", i), i);
    }
    let history = manager.get_conversation_history("c").unwrap();
    assert_eq!(history.len(), MAX_CONTEXT_LENGTH);
    assert_eq!(history[0].content, "m15");
    assert_eq!(history[9].content, "m24");
}

#[test]
fn openai_request_holds_one_user_turn() {
    let request = OPENAI::new("What is Rust?").completion_request();
    assert_eq!(request.model, "gpt-3.5-turbo");
    assert_eq!(turns(&request), vec![("user".to_string(), "What is Rust?".to_string())]);
}

#[test]
fn bare_chat_request_goes_to_gpt() {
    let request = ai_chat::AIChatRequest { message: "hey".to_string() }.completion_request();
    assert_eq!(request.model, "gpt-3.5-turbo");
    assert_eq!(turns(&request), vec![("user".to_string(), "hey".to_string())]);
}

#[test]
fn qwen_request_goes_to_qwen_turbo() {
    let request = qwen_request("你好");
    assert_eq!(request.model, "qwen-turbo");
    assert_eq!(turns(&request), vec![("user".to_string(), "你好".to_string())]);
    assert_eq!(dashscope_api_base(), "https://dashscope.aliyuncs.com/compatible-mode/v1");
}

#[test]
fn glm_request_opens_with_system_prompt() {
    let request = GLM::new("hello").chat_request();
    assert_eq!(request.model, "glm-4");
    assert_eq!(
        turns(&request),
        vec![
            ("system".to_string(), "你是一个有帮助的AI助手".to_string()),
            ("user".to_string(), "hello".to_string())
        ]
    );
    assert_eq!(glm_endpoint(), "https://open.bigmodel.cn/api/paas/v4/chat/completions");
    assert_eq!(bearer_authorization("k-123"), "Bearer k-123");
}

#[test]
fn glm_reply_takes_first_choice() {
    assert_eq!(glm_reply(&vec!["one".to_string(), "two".to_string()]), "one");
    assert_eq!(glm_reply(&vec![]), "No response from GLM");
}

#[test]
fn first_choice_helpers() {
    let contents = vec![Some("a".to_string()), Some("b".to_string())];
    assert_eq!(first_choice_or(&contents, "none"), "a");
    assert_eq!(first_choice_or(&vec![None], "none"), "none");
    assert_eq!(first_choice_or(&vec![], "none"), "none");
    assert_eq!(first_choice_content(&contents), "a");
    assert_eq!(first_choice_content(&vec![None]), "");
}

#[test]
fn gemini_endpoint_and_body() {
    assert_eq!(
        gemini_endpoint("KEY"),
        "https://generativelanguage.googleapis.com/v1beta/models/gemini-1.5-flash:generateContent?key=KEY"
    );
    assert_eq!(
        Gemini::new("Say \"hi\"").request_body().unwrap(),
        r#"{"contents":[{"parts":[{"text":"Say \"hi\""}]}]}"#
    );
    assert_eq!(
        gemini_body_from_literal("\"x\""),
        r#"{"contents":[{"parts":[{"text":"x"}]}]}"#
    );
}

fn obj(members: Vec<(&str, JsonValue)>) -> JsonValue {
    JsonValue::Object(
        members
            .into_iter()
            .map(|(k, v)| JsonMember { key: k.to_string(), value: v })
            .collect(),
    )
}

fn gemini_reply(text: JsonValue) -> JsonValue {
    obj(vec![(
        "candidates",
        JsonValue::Array(vec![obj(vec![
            ("content", obj(vec![("parts", JsonValue::Array(vec![obj(vec![("text", text)])])), ("role", JsonValue::Str("model".to_string()))])),
            ("finishReason", JsonValue::Str("STOP".to_string())),
        ])]),
    )])
}

#[test]
fn gemini_reply_reads_first_part_text() {
    let reply = gemini_reply(JsonValue::Str("Hello!".to_string()));
    assert_eq!(gemini_reply_text(&reply), "Hello!");
}

#[test]
fn gemini_reply_without_text_is_empty() {
    assert_eq!(gemini_reply_text(&gemini_reply(JsonValue::Number("3".to_string()))), "");
    assert_eq!(gemini_reply_text(&gemini_reply(JsonValue::Null)), "");
    assert_eq!(gemini_reply_text(&obj(vec![("error", JsonValue::Bool(true))])), "");
    assert_eq!(gemini_reply_text(&JsonValue::Array(vec![])), "");
    assert_eq!(
        gemini_reply_text(&obj(vec![("candidates", JsonValue::Array(vec![]))])),
        ""
    );
}

#[test]
fn json_lookup_takes_first_member() {
    let v = obj(vec![("a", JsonValue::Str("1".to_string())), ("a", JsonValue::Str("2".to_string()))]);
    match v.get_field("a") {
        Some(JsonValue::Str(s)) => assert_eq!(s, "1"),
        _ => panic!("missing member"),
    }
    assert!(v.get_field("b").is_none());
    assert!(v.get_element(0).is_none());
    let a = JsonValue::Array(vec![JsonValue::Null, JsonValue::Bool(false)]);
    assert!(matches!(a.get_element(1), Some(JsonValue::Bool(false))));
    assert!(a.get_element(2).is_none());
}

#[test]
fn json_string_escapes() {
    assert_eq!(json_string("plain").unwrap(), "\"plain\"");
    assert_eq!(json_string("a\"b\\c\n").unwrap(), "\"a\\\"b\\\\c\\n\"");
}

#[test]
fn qwen_vl_reads_uploaded_image_from_working_directory() {
    let q = QwenVl::new("What is this?".to_string(), "/uploads/cat.jpg".to_string());
    assert_eq!(q.local_image_path(), "./uploads/cat.jpg");
    let q = QwenVl::new("What is this?".to_string(), "cat.jpg".to_string());
    assert_eq!(q.local_image_path(), "cat.jpg");
    let q = QwenVl::new("p".to_string(), String::new());
    assert_eq!(q.local_image_path(), "");
}

#[test]
fn qwen_vl_data_url_and_request() {
    assert_eq!(image_data_url(b"abc"), "data:image/jpeg;base64,YWJj");
    assert_eq!(image_data_url(b"ab"), "data:image/jpeg;base64,YWI=");
    assert_eq!(data_url_from_base64("QQ=="), "data:image/jpeg;base64,QQ==");
    let q = QwenVl::new("Describe".to_string(), "/uploads/x.jpg".to_string());
    let request = q.vision_request("data:image/jpeg;base64,QQ==");
    assert_eq!(request.model, "qwen-vl-plus");
    assert_eq!(request.max_tokens, 300);
    assert_eq!(request.prompt, "Describe");
    assert_eq!(request.image_url, "data:image/jpeg;base64,QQ==");
    assert_eq!(request.detail, ImageDetail::High);
    assert_eq!(qwen_vl_reply(&vec![Some("a cat".to_string())]), "a cat");
    assert_eq!(qwen_vl_reply(&vec![None]), "No response from Qwen-VL");
    assert_eq!(qwen_vl_reply(&vec![]), "No response from Qwen-VL");
}

#[test]
fn ai_chat_request_new_has_no_image() {
    let r = AIChatRequest::new("hi".to_string(), "glm".to_string());
    assert_eq!(r.message, "hi");
    assert_eq!(r.model, "glm");
    assert!(r.image_path.is_none());
}

#[test]
fn route_picks_the_named_model() {
    let call = AIChatRequest::new("hi".to_string(), "openai".to_string()).route();
    match call {
        ModelCall::OpenAi(q) => assert_eq!(turns(&q.completion_request())[0].1, "hi"),
        _ => panic!("expected openai"),
    }
    match AIChatRequest::new("hi".to_string(), "qwen".to_string()).route() {
        ModelCall::Qwen(m) => assert_eq!(m, "hi"),
        _ => panic!("expected qwen"),
    }
    match AIChatRequest::new("hi".to_string(), "glm".to_string()).route() {
        ModelCall::Glm(q) => assert_eq!(turns(&q.chat_request())[1].1, "hi"),
        _ => panic!("expected glm"),
    }
    match AIChatRequest::new("hi".to_string(), "gemini".to_string()).route() {
        ModelCall::Gemini(q) => assert_eq!(
            q.request_body().unwrap(),
            r#"{"contents":[{"parts":[{"text":"hi"}]}]}"#
        ),
        _ => panic!("expected gemini"),
    }
}

#[test]
fn route_qwen_vl_needs_an_image() {
    match AIChatRequest::new("look".to_string(), "qwen_vl".to_string()).route() {
        ModelCall::Reply(text) => assert_eq!(text, "需要上传图片才能使用 Qwen VL 模型"),
        _ => panic!("expected a reply"),
    }
    let mut request = AIChatRequest::new("look".to_string(), "qwen_vl".to_string());
    request.image_path = Some("/uploads/a.jpg".to_string());
    match request.route() {
        ModelCall::QwenVl(q) => {
            assert_eq!(q.local_image_path(), "./uploads/a.jpg");
            assert_eq!(q.vision_request("u").prompt, "look");
        }
        _ => panic!("expected qwen_vl"),
    }
}

#[test]
fn route_unknown_model_is_answered_directly() {
    match AIChatRequest::new("hi".to_string(), "llama".to_string()).route() {
        ModelCall::Reply(text) => assert_eq!(text, "不支持的模型类型"),
        _ => panic!("expected a reply"),
    }
    match AIChatRequest::new("hi".to_string(), "OpenAI".to_string()).route() {
        ModelCall::Reply(text) => assert_eq!(text, "不支持的模型类型"),
        _ => panic!("expected a reply"),
    }
}

#[test]
fn upload_answers() {
    assert_eq!(UploadResponse::for_file("a.png").url(), "/uploads/a.png");
    assert_eq!(UploadResponse::failed().url(), "error");
    assert_eq!(upload_file_path("uploads", "a.png"), "uploads/a.png");
    assert!(is_upload_field("file"));
    assert!(!is_upload_field("files"));
}

#[test]
fn chat_message_json_uses_user_id_key() {
    let m = ChatMessage::new("u1", "hello");
    assert_eq!(m.to_json().unwrap(), r#"{"userId":"u1","message":"hello"}"#);
    let m = ChatMessage::new("a\"b", "line\nbreak");
    assert_eq!(m.to_json().unwrap(), r#"{"userId":"a\"b","message":"line\nbreak"}"#);
    assert_eq!(chat_message_json("1", "2"), r#"{"userId":1,"message":2}"#);
}

#[test]
fn broadcast_payload_only_for_chat_messages() {
    assert_eq!(broadcast_payload(None), None);
    assert_eq!(
        broadcast_payload(Some(ChatMessage::new("u", "m"))),
        Some(r#"{"userId":"u","message":"m"}"#.to_string())
    );
}

#[test]
fn ai_chat_reply_status() {
    assert_eq!(ai_chat_reply(Some("hi")), Ok(r#"{"response":"hi"}"#.to_string()));
    assert_eq!(ai_chat_reply(None), Err(STATUS_INTERNAL_SERVER_ERROR));
    assert_eq!(STATUS_INTERNAL_SERVER_ERROR, 500);
}

#[test]
fn login_needs_a_user_name() {
    assert_eq!(login_decision(""), LoginDecision::Unauthorized);
    assert_eq!(login_decision("alice"), LoginDecision::IssueToken);
    assert_eq!(
        login_body("t.k", "alice").unwrap(),
        r#"{"token":"t.k","username":"alice"}"#
    );
}

#[test]
fn ws_query_holds_token_and_name() {
    let q = WsQuery { token: "t".to_string(), username: "bob".to_string() };
    assert_eq!(q.token, "t");
    assert_eq!(q.username, "bob");
}

#[test]
fn text_helpers() {
    assert!(same_text("abc", "abc"));
    assert!(!same_text("abc", "abd"));
}
