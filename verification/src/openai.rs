//! The OpenAI chat protocol: request messages and how they become the prompt,
//! and the response and stream-chunk values the service answers with.

use vstd::prelude::*;
use crate::cursor::{opt_view, CompletionOutput, OutputView};
use crate::json::{get_str, str_field, JsonValue};
use crate::text::{eq_ignore_ascii_case, lines, lines_of, str_eq, str_eq_ignore_ascii_case, str_views, trim, trim_str};
use vstd::string::StringExecFns;

verus! {

/// One message of a chat request.
#[derive(Debug)]
pub struct ChatMessage {
    pub role: String,
    pub content: Option<JsonValue>,
}

/// A chat completion request, as far as the service reads it.
#[derive(Debug)]
pub struct ChatCompletionRequest {
    pub model: Option<String>,
    pub messages: Vec<ChatMessage>,
    pub stream: Option<bool>,
    pub max_tokens: Option<u32>,
    pub tools: Option<JsonValue>,
    pub tool_choice: Option<JsonValue>,
}

/// `sep` between the pieces of `parts`.
pub open spec fn join(parts: Seq<Seq<char>>, sep: Seq<char>) -> Seq<char>
    decreases parts.len(),
{
    if parts.len() == 0 {
        Seq::<char>::empty()
    } else if parts.len() == 1 {
        parts[0]
    } else {
        join(parts.drop_last(), sep) + sep + parts.last()
    }
}

/// The text of one content part: a `{"type": "text", "text": ...}` object.
pub open spec fn part_text(c: JsonValue) -> Option<Seq<char>> {
    if str_field(c, "type"@) == Some("text"@) {
        str_field(c, "text"@)
    } else {
        None
    }
}

/// The texts of the text parts of a content array, in order.
pub open spec fn part_texts(parts: Seq<JsonValue>) -> Seq<Seq<char>>
    decreases parts.len(),
{
    if parts.len() == 0 {
        seq![]
    } else {
        part_texts(parts.drop_last()) + match part_text(parts.last()) {
            Some(t) => seq![t],
            None => Seq::<Seq<char>>::empty(),
        }
    }
}

/// The text of a message's content: a string as it is, the text parts of an
/// array joined by newlines, and nothing for anything else.
pub open spec fn content_text(content: Option<JsonValue>) -> Seq<char> {
    match content {
        Some(JsonValue::Str(s)) => s@,
        Some(JsonValue::Array(parts)) => join(part_texts(parts@), "\n"@),
        _ => Seq::<char>::empty(),
    }
}

fn append_joined(acc: &mut String, first: bool, sep: &str, piece: &str)
    ensures
        final(acc)@ == if first {
            old(acc)@ + piece@
        } else {
            old(acc)@ + sep@ + piece@
        },
{
    if !first {
        acc.append(sep);
    }
    acc.append(piece);
}

/// The text of one message's content.
pub fn message_content_to_string(content: &Option<JsonValue>) -> (r: String)
    ensures
        r@ == content_text(*content),
{
    match content {
        Some(JsonValue::Str(s)) => s.clone(),
        Some(JsonValue::Array(parts)) => {
            let mut acc = String::new();
            let mut count: usize = 0;
            let mut i: usize = 0;
            while i < parts.len()
                invariant
                    i <= parts@.len(),
                    count == part_texts(parts@.take(i as int)).len(),
                    count <= i,
                    acc@ == join(part_texts(parts@.take(i as int)), "\n"@),
                decreases parts@.len() - i,
            {
                assert(parts@.take(i + 1).drop_last() =~= parts@.take(i as int));
                let is_text = match get_str(&parts[i], "type") {
                    Some(t) => str_eq(t.as_str(), "text"),
                    None => false,
                };
                if is_text {
                    match get_str(&parts[i], "text") {
                        Some(t) => {
                            let ghost prev = part_texts(parts@.take(i as int));
                            append_joined(&mut acc, count == 0, "\n", t.as_str());
                            count += 1;
                            proof {
                                let now = part_texts(parts@.take(i + 1));
                                assert(now == prev + seq![t@]);
                                assert(now.drop_last() =~= prev);
                            }
                        },
                        None => {},
                    }
                }
                i += 1;
            }
            assert(parts@.take(parts@.len() as int) =~= parts@);
            acc
        },
        _ => String::new(),
    }
}

/// The content of the last message whose role is "user" (in any ASCII case),
/// or nothing.
pub open spec fn spec_extract_user_message(ms: Seq<ChatMessage>) -> Seq<char>
    decreases ms.len(),
{
    if ms.len() == 0 {
        Seq::<char>::empty()
    } else if eq_ignore_ascii_case(ms.last().role@, "user"@) {
        content_text(ms.last().content)
    } else {
        spec_extract_user_message(ms.drop_last())
    }
}

/// The text of the last user message.
pub fn extract_user_message(messages: &[ChatMessage]) -> (r: String)
    ensures
        r@ == spec_extract_user_message(messages@),
{
    let mut i: usize = messages.len();
    assert(messages@.take(i as int) =~= messages@);
    while i > 0
        invariant
            i <= messages@.len(),
            spec_extract_user_message(messages@) == spec_extract_user_message(messages@.take(i as int)),
        decreases i,
    {
        assert(messages@.take(i as int).drop_last() =~= messages@.take(i - 1));
        if str_eq_ignore_ascii_case(messages[i - 1].role.as_str(), "user") {
            return message_content_to_string(&messages[i - 1].content);
        }
        i -= 1;
    }
    String::new()
}

/// The heading of a message in the prompt: "System", "User", "Assistant" or
/// "Tool result" for those roles (in any case), else the role as it was sent.
pub open spec fn role_label(role: Seq<char>) -> Seq<char> {
    if eq_ignore_ascii_case(role, "system"@) {
        "System"@
    } else if eq_ignore_ascii_case(role, "user"@) {
        "User"@
    } else if eq_ignore_ascii_case(role, "assistant"@) {
        "Assistant"@
    } else if eq_ignore_ascii_case(role, "tool"@) {
        "Tool result"@
    } else {
        role
    }
}

/// The prompt blocks of the messages with non-empty content, in order.
pub open spec fn prompt_blocks(ms: Seq<ChatMessage>) -> Seq<Seq<char>>
    decreases ms.len(),
{
    if ms.len() == 0 {
        seq![]
    } else {
        let c = content_text(ms.last().content);
        prompt_blocks(ms.drop_last()) + if c.len() == 0 {
            Seq::<Seq<char>>::empty()
        } else {
            seq![role_label(ms.last().role@) + ":\n"@ + c]
        }
    }
}

/// A whole conversation as one prompt.
pub open spec fn spec_format_messages_as_prompt(ms: Seq<ChatMessage>) -> Seq<char> {
    join(prompt_blocks(ms), "\n\n---\n\n"@)
}

fn append_role_label(acc: &mut String, role: &str)
    ensures
        final(acc)@ == old(acc)@ + role_label(role@),
{
    if str_eq_ignore_ascii_case(role, "system") {
        acc.append("System");
    } else if str_eq_ignore_ascii_case(role, "user") {
        acc.append("User");
    } else if str_eq_ignore_ascii_case(role, "assistant") {
        acc.append("Assistant");
    } else if str_eq_ignore_ascii_case(role, "tool") {
        acc.append("Tool result");
    } else {
        acc.append(role);
    }
}

/// The conversation rendered as one prompt: a "Role:\n<content>" block for each
/// message with content, blocks separated by a horizontal rule.
pub fn format_messages_as_prompt(messages: &[ChatMessage]) -> (r: String)
    ensures
        r@ == spec_format_messages_as_prompt(messages@),
{
    let mut acc = String::new();
    let mut count: usize = 0;
    let mut i: usize = 0;
    while i < messages.len()
        invariant
            i <= messages@.len(),
            count == prompt_blocks(messages@.take(i as int)).len(),
            count <= i,
            acc@ == join(prompt_blocks(messages@.take(i as int)), "\n\n---\n\n"@),
        decreases messages@.len() - i,
    {
        assert(messages@.take(i + 1).drop_last() =~= messages@.take(i as int));
        let content = message_content_to_string(&messages[i].content);
        if !content.as_str().is_empty() {
            let ghost prev = prompt_blocks(messages@.take(i as int));
            let mut block = String::new();
            append_role_label(&mut block, messages[i].role.as_str());
            block.append(":\n");
            block.append(content.as_str());
            append_joined(&mut acc, count == 0, "\n\n---\n\n", block.as_str());
            count += 1;
            proof {
                let now = prompt_blocks(messages@.take(i + 1));
                assert(now == prev + seq![block@]);
                assert(now.drop_last() =~= prev);
            }
        }
        i += 1;
    }
    assert(messages@.take(messages@.len() as int) =~= messages@);
    acc
}


/// A non-streamed chat completion.
#[derive(Debug)]
pub struct ChatCompletionResponse {
    pub id: String,
    pub object: String,
    pub created: u64,
    pub model: String,
    pub choices: Vec<Choice>,
    pub usage: Usage,
}

#[derive(Debug)]
pub struct Choice {
    pub index: u32,
    pub message: Message,
    pub finish_reason: String,
}

#[derive(Debug)]
pub struct Message {
    pub role: String,
    pub content: String,
    pub reasoning_content: Option<String>,
}

#[derive(Debug)]
pub struct Usage {
    pub prompt_tokens: u32,
    pub completion_tokens: u32,
    pub total_tokens: u32,
}

/// Seconds since the Unix epoch (0 when the clock reads earlier), as
/// `SystemTime::now().duration_since(UNIX_EPOCH)` gives it. Nothing is claimed
/// of the value: it is the machine's clock.
#[verifier::external_body]
fn unix_time_secs() -> u64 {
    std::time::SystemTime::now().duration_since(std::time::UNIX_EPOCH).unwrap_or_default().as_secs()
}

/// Each line with "> " in front.
pub open spec fn quote_lines(ls: Seq<Seq<char>>) -> Seq<Seq<char>> {
    ls.map_values(|l: Seq<char>| "> "@ + l)
}

/// The message content of a completion: with `forward_thinking` "content" and
/// some thinking, the trimmed thinking quoted line by line under a thought
/// bubble, a rule, then the answer; otherwise the answer alone.
pub open spec fn spec_response_content(o: OutputView, forward_thinking: Seq<char>) -> Seq<char> {
    if forward_thinking != "reasoning_content"@ && forward_thinking == "content"@ && o.thinking_text.len() > 0 {
        "> \u{1F4AD} "@ + join(quote_lines(lines(trim(o.thinking_text))), "\n"@) + "\n\n---\n\n"@ + o.content
    } else {
        o.content
    }
}

/// The `reasoning_content` of a completion: the collected reasoning in the
/// "reasoning_content" mode, nothing otherwise.
pub open spec fn spec_response_reasoning(o: OutputView, forward_thinking: Seq<char>) -> Option<Seq<char>> {
    if forward_thinking == "reasoning_content"@ {
        o.reasoning_content
    } else {
        None
    }
}

/// The thinking block of the "content" mode.
fn thinking_block(thinking: &str) -> (r: String)
    ensures
        r@ == join(quote_lines(lines(trim(thinking@))), "\n"@),
{
    let ls = lines_of(trim_str(thinking));
    let ghost all = quote_lines(str_views(ls@));
    let mut acc = String::new();
    let mut i: usize = 0;
    while i < ls.len()
        invariant
            i <= ls@.len(),
            all == quote_lines(str_views(ls@)),
            acc@ == join(all.take(i as int), "\n"@),
        decreases ls@.len() - i,
    {
        let mut q = "> ".to_owned();
        q.append(ls[i]);
        assert(all[i as int] == q@);
        assert(all.take(i + 1).drop_last() =~= all.take(i as int));
        append_joined(&mut acc, i == 0, "\n", q.as_str());
        i += 1;
    }
    assert(all.take(ls@.len() as int) =~= all);
    acc
}

/// The OpenAI response for a finished run; `created` is the current time.
pub fn build_completion_response(id: &str, model: &str, out: &CompletionOutput, forward_thinking: &str) -> (r: ChatCompletionResponse)
    ensures
        r.id@ == id@,
        r.object@ == "chat.completion"@,
        r.model@ == model@,
        r.choices@.len() == 1,
        r.choices@[0].index == 0,
        r.choices@[0].message.role@ == "assistant"@,
        r.choices@[0].message.content@ == spec_response_content(out@, forward_thinking@),
        opt_view(r.choices@[0].message.reasoning_content) == spec_response_reasoning(out@, forward_thinking@),
        r.choices@[0].finish_reason@ == out.finish_reason@,
        r.usage.prompt_tokens == 0,
        r.usage.completion_tokens == 0,
        r.usage.total_tokens == 0,
{
    let (content, reasoning_content) = if str_eq(forward_thinking, "reasoning_content") {
        (out.content.clone(), out.reasoning_content.clone())
    } else if str_eq(forward_thinking, "content") && !out.thinking_text.as_str().is_empty() {
        let mut c = "> \u{1F4AD} ".to_owned();
        let block = thinking_block(out.thinking_text.as_str());
        c.append(block.as_str());
        c.append("\n\n---\n\n");
        c.append(out.content.as_str());
        (c, None)
    } else {
        (out.content.clone(), None)
    };
    let mut choices: Vec<Choice> = Vec::new();
    choices.push(
        Choice {
            index: 0,
            message: Message { role: "assistant".to_owned(), content, reasoning_content },
            finish_reason: out.finish_reason.clone(),
        },
    );
    ChatCompletionResponse {
        id: id.to_owned(),
        object: "chat.completion".to_owned(),
        created: unix_time_secs(),
        model: model.to_owned(),
        choices,
        usage: Usage { prompt_tokens: 0, completion_tokens: 0, total_tokens: 0 },
    }
}

/// The thinking modes: "off" returns no thinking; "reasoning_content" keeps
/// the answer alone in `content` and the thinking in `reasoning_content`;
/// "content" merges thinking into `content` and sets no `reasoning_content`.
pub proof fn law_forward_thinking_modes(o: OutputView)
    ensures
        spec_response_content(o, "off"@) == o.content,
        spec_response_reasoning(o, "off"@) is None,
        spec_response_content(o, "reasoning_content"@) == o.content,
        spec_response_reasoning(o, "reasoning_content"@) == o.reasoning_content,
        spec_response_reasoning(o, "content"@) is None,
        o.thinking_text.len() == 0 ==> spec_response_content(o, "content"@) == o.content,
{
    reveal_strlit("off");
    reveal_strlit("content");
    reveal_strlit("reasoning_content");
    assert("off"@.len() == 3);
    assert("content"@.len() == 7);
    assert("reasoning_content"@.len() == 17);
}

/// One chunk of a streamed completion.
#[derive(Debug)]
pub struct StreamChunk {
    pub id: String,
    pub object: String,
    pub created: u64,
    pub model: String,
    pub choices: Vec<StreamChoice>,
}

#[derive(Debug)]
pub struct StreamChoice {
    pub index: u32,
    pub delta: StreamDelta,
    pub finish_reason: Option<String>,
}

#[derive(Debug)]
pub struct StreamDelta {
    pub content: Option<String>,
    pub reasoning_content: Option<String>,
}

/// The view of an optional string slice.
pub open spec fn opt_str_view(s: Option<&str>) -> Option<Seq<char>> {
    match s {
        Some(x) => Some(x@),
        None => None,
    }
}

fn owned_opt(s: Option<&str>) -> (r: Option<String>)
    ensures
        opt_view(r) == opt_str_view(s),
{
    match s {
        Some(x) => Some(x.to_owned()),
        None => None,
    }
}

/// A stream chunk carrying `content` and/or `finish_reason`; `created` is the
/// current time.
pub fn stream_chunk(id: &str, model: &str, content: Option<&str>, finish_reason: Option<&str>) -> (r: StreamChunk)
    ensures
        r.id@ == id@,
        r.object@ == "chat.completion.chunk"@,
        r.model@ == model@,
        r.choices@.len() == 1,
        r.choices@[0].index == 0,
        opt_view(r.choices@[0].delta.content) == opt_str_view(content),
        r.choices@[0].delta.reasoning_content is None,
        opt_view(r.choices@[0].finish_reason) == opt_str_view(finish_reason),
{
    let mut choices: Vec<StreamChoice> = Vec::new();
    choices.push(
        StreamChoice {
            index: 0,
            delta: StreamDelta { content: owned_opt(content), reasoning_content: None },
            finish_reason: owned_opt(finish_reason),
        },
    );
    StreamChunk {
        id: id.to_owned(),
        object: "chat.completion.chunk".to_owned(),
        created: unix_time_secs(),
        model: model.to_owned(),
        choices,
    }
}

/// A stream chunk carrying only reasoning; `created` is the current time.
pub fn stream_chunk_reasoning(id: &str, model: &str, reasoning_content: &str) -> (r: StreamChunk)
    ensures
        r.id@ == id@,
        r.object@ == "chat.completion.chunk"@,
        r.model@ == model@,
        r.choices@.len() == 1,
        r.choices@[0].index == 0,
        r.choices@[0].delta.content is None,
        opt_view(r.choices@[0].delta.reasoning_content) == Some(reasoning_content@),
        r.choices@[0].finish_reason is None,
{
    let mut choices: Vec<StreamChoice> = Vec::new();
    choices.push(
        StreamChoice {
            index: 0,
            delta: StreamDelta { content: None, reasoning_content: Some(reasoning_content.to_owned()) },
            finish_reason: None,
        },
    );
    StreamChunk {
        id: id.to_owned(),
        object: "chat.completion.chunk".to_owned(),
        created: unix_time_secs(),
        model: model.to_owned(),
        choices,
    }
}

/// One server-sent event carrying `json`.
pub fn sse_frame(json: &str) -> (r: String)
    ensures
        r@ == "data: "@ + json@ + "\n\n"@,
{
    let mut r = "data: ".to_owned();
    r.append(json);
    r.append("\n\n");
    r
}

/// The event that ends a stream.
pub fn sse_done() -> (r: &'static str)
    ensures
        r@ == "data: [DONE]\n\n"@,
{
    "data: [DONE]\n\n"
}

} // verus!
