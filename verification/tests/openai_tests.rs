use cursor_brain::cursor::CompletionOutput;
use cursor_brain::json::JsonValue;
use cursor_brain::openai::{
    build_completion_response, extract_user_message, format_messages_as_prompt,
    message_content_to_string, sse_done, sse_frame, stream_chunk, stream_chunk_reasoning,
    ChatMessage,
};

fn msg(role: &str, content: &str) -> ChatMessage {
    ChatMessage { role: role.to_string(), content: Some(JsonValue::Str(content.to_string())) }
}

fn part(ty: &str, text: &str) -> JsonValue {
    JsonValue::Object(vec![
        ("type".to_string(), JsonValue::Str(ty.to_string())),
        ("text".to_string(), JsonValue::Str(text.to_string())),
    ])
}

#[test]
fn content_string_and_parts() {
    assert_eq!(message_content_to_string(&Some(JsonValue::Str("hi".into()))), "hi");
    let parts = JsonValue::Array(vec![
        part("text", "one"),
        part("image_url", "x"),
        JsonValue::Str("loose".into()),
        part("text", "two"),
    ]);
    assert_eq!(message_content_to_string(&Some(parts)), "one\ntwo");
    assert_eq!(message_content_to_string(&None), "");
    assert_eq!(message_content_to_string(&Some(JsonValue::Number(Some(3)))), "");
}

#[test]
fn last_user_message_is_extracted() {
    let ms = vec![msg("system", "s"), msg("USER", "first"), msg("assistant", "a"), msg("User", "second"), msg("assistant", "b")];
    assert_eq!(extract_user_message(&ms), "second");
    assert_eq!(extract_user_message(&[msg("system", "s")]), "");
    assert_eq!(extract_user_message(&[]), "");
}

#[test]
fn conversation_prompt_blocks() {
    let ms = vec![
        msg("System", "be brief"),
        msg("user", "hi"),
        msg("assistant", ""),
        msg("ASSISTANT", "hello"),
        msg("tool", "42"),
        msg("Critic", "meh"),
    ];
    assert_eq!(
        format_messages_as_prompt(&ms),
        "System:\nbe brief\n\n---\n\nUser:\nhi\n\n---\n\nAssistant:\nhello\n\n---\n\nTool result:\n42\n\n---\n\nCritic:\nmeh"
    );
    assert_eq!(format_messages_as_prompt(&[]), "");
}

fn out(content: &str, thinking: &str, reasoning: Option<&str>) -> CompletionOutput {
    CompletionOutput {
        content: content.into(),
        thinking_text: thinking.into(),
        reasoning_content: reasoning.map(String::from),
        finish_reason: "stop".into(),
    }
}

#[test]
fn response_in_content_mode_quotes_thinking() {
    let r = build_completion_response("id-1", "auto", &out("Answer", " step one\nstep two \n", None), "content");
    assert_eq!(r.id, "id-1");
    assert_eq!(r.object, "chat.completion");
    assert_eq!(r.model, "auto");
    assert_eq!(r.choices.len(), 1);
    let c = &r.choices[0];
    assert_eq!(c.index, 0);
    assert_eq!(c.message.role, "assistant");
    assert_eq!(c.message.content, "> \u{1F4AD} > step one\n> step two\n\n---\n\nAnswer");
    assert!(c.message.reasoning_content.is_none());
    assert_eq!(c.finish_reason, "stop");
    assert_eq!((r.usage.prompt_tokens, r.usage.completion_tokens, r.usage.total_tokens), (0, 0, 0));
}

#[test]
fn response_in_other_modes() {
    let r = build_completion_response("i", "m", &out("A", "t", Some("R")), "reasoning_content");
    assert_eq!(r.choices[0].message.content, "A");
    assert_eq!(r.choices[0].message.reasoning_content.as_deref(), Some("R"));
    let r = build_completion_response("i", "m", &out("A", "t", Some("R")), "off");
    assert_eq!(r.choices[0].message.content, "A");
    assert!(r.choices[0].message.reasoning_content.is_none());
    let r = build_completion_response("i", "m", &out("A", "", None), "content");
    assert_eq!(r.choices[0].message.content, "A");
}

#[test]
fn stream_chunks_and_frames() {
    let c = stream_chunk("id", "m", Some("hi"), None);
    assert_eq!(c.object, "chat.completion.chunk");
    assert_eq!(c.choices[0].delta.content.as_deref(), Some("hi"));
    assert!(c.choices[0].finish_reason.is_none());
    let c = stream_chunk("id", "m", None, Some("stop"));
    assert!(c.choices[0].delta.content.is_none());
    assert_eq!(c.choices[0].finish_reason.as_deref(), Some("stop"));
    let c = stream_chunk_reasoning("id", "m", "why");
    assert_eq!(c.choices[0].delta.reasoning_content.as_deref(), Some("why"));
    assert!(c.choices[0].delta.content.is_none());
    assert_eq!(sse_frame("{}"), "data: {}\n\n");
    assert_eq!(sse_done(), "data: [DONE]\n\n");
}
