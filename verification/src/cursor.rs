//! The cursor-agent protocol: the `stream-json` events it prints, the command
//! line it is started with, how its output is folded into a completion, and how
//! its `--list-models` output is read.

use vstd::prelude::*;
use crate::json::{get, get_str, json_get, json_parse, parse_json, str_field, JsonValue};
use crate::text::{
    eq_ignore_ascii_case, leading_word, leading_word_of, lines, lines_of, str_eq,
    str_eq_ignore_ascii_case, str_views, trim, trim_str,
};
use vstd::string::StringExecFns;

verus! {

/// One event of cursor-agent's `stream-json` output.
#[derive(Debug, Clone)]
pub enum CursorEvent {
    SessionId(String),
    Thinking { text: String },
    Text(String),
    Result(String),
    ToolCall { subtype: String, tool: String },
}

/// The mathematical content of a `CursorEvent`.
pub enum EventView {
    SessionId(Seq<char>),
    Thinking(Seq<char>),
    Text(Seq<char>),
    Result(Seq<char>),
    ToolCall(Seq<char>, Seq<char>),
}

impl View for CursorEvent {
    type V = EventView;

    open spec fn view(&self) -> EventView {
        match self {
            CursorEvent::SessionId(s) => EventView::SessionId(s@),
            CursorEvent::Thinking { text } => EventView::Thinking(text@),
            CursorEvent::Text(s) => EventView::Text(s@),
            CursorEvent::Result(s) => EventView::Result(s@),
            CursorEvent::ToolCall { subtype, tool } => EventView::ToolCall(subtype@, tool@),
        }
    }
}

/// The view of an optional event.
pub open spec fn event_view(e: Option<CursorEvent>) -> Option<EventView> {
    match e {
        Some(ev) => Some(ev@),
        None => None,
    }
}

/// The event that one parsed `stream-json` line stands for, if any.
pub open spec fn spec_event_from_json(v: JsonValue) -> Option<EventView> {
    match str_field(v, "type"@) {
        None => None,
        Some(ty) => if ty == "session_id"@ {
            match str_field(v, "session_id"@) {
                Some(s) => Some(EventView::SessionId(s)),
                None => None,
            }
        } else if ty == "thinking"@ {
            let text = match str_field(v, "text"@) {
                Some(t) => t,
                None => Seq::<char>::empty(),
            };
            if text.len() == 0 && str_field(v, "subtype"@) != Some("completed"@) {
                None
            } else {
                Some(EventView::Thinking(text))
            }
        } else if ty == "text"@ {
            match str_field(v, "text"@) {
                Some(s) => Some(EventView::Text(s)),
                None => None,
            }
        } else if ty == "result"@ {
            match str_field(v, "result"@) {
                Some(s) => Some(EventView::Result(s)),
                None => None,
            }
        } else if ty == "tool_call"@ {
            let subtype = match str_field(v, "subtype"@) {
                Some(s) => s,
                None => Seq::<char>::empty(),
            };
            match json_get(v, "tool_call"@) {
                Some(JsonValue::Object(members)) => Some(
                    EventView::ToolCall(
                        subtype,
                        if members@.len() > 0 {
                            members@[0].0@
                        } else {
                            Seq::<char>::empty()
                        },
                    ),
                ),
                _ => None,
            }
        } else {
            None
        },
    }
}

/// How a parsed line's members decide its event: a "text", "result" or
/// "session_id" line carries exactly its string member of that name (and is no
/// event without one); a "thinking" line with non-empty text carries exactly
/// that text; a line with no string "type", or a type that is none of the five
/// kinds, is no event.
pub open spec fn event_fields_hold(v: JsonValue, e: Option<EventView>) -> bool {
    &&& (str_field(v, "type"@) is None ==> e is None)
    &&& (str_field(v, "type"@) == Some("text"@) ==> e == match str_field(v, "text"@) {
        Some(s) => Some(EventView::Text(s)),
        None => None,
    })
    &&& (str_field(v, "type"@) == Some("result"@) ==> e == match str_field(v, "result"@) {
        Some(s) => Some(EventView::Result(s)),
        None => None,
    })
    &&& (str_field(v, "type"@) == Some("session_id"@) ==> e == match str_field(v, "session_id"@) {
        Some(s) => Some(EventView::SessionId(s)),
        None => None,
    })
    &&& (str_field(v, "type"@) == Some("thinking"@) ==> match str_field(v, "text"@) {
        Some(t) => t.len() > 0 ==> e == Some(EventView::Thinking(t)),
        None => true,
    })
    &&& match str_field(v, "type"@) {
        Some(ty) => (ty != "text"@ && ty != "result"@ && ty != "session_id"@ && ty != "thinking"@ && ty != "tool_call"@)
            ==> e is None,
        None => true,
    }
}

/// A line's event takes its text from the line's own member, character for
/// character: a "text" line is the text event of exactly its "text" string, a
/// "result" line the result event of exactly its "result" string, and so on;
/// lines of no known kind are no event.
pub proof fn law_event_fields(v: JsonValue)
    ensures
        event_fields_hold(v, spec_event_from_json(v)),
{
    reveal_strlit("text");
    reveal_strlit("result");
    reveal_strlit("session_id");
    reveal_strlit("thinking");
    reveal_strlit("tool_call");
    assert("text"@.len() == 4);
    assert("result"@.len() == 6);
    assert("session_id"@.len() == 10);
    assert("thinking"@.len() == 8);
    assert("tool_call"@.len() == 9);
    assert("result"@[0] != "text"@[0]);
}

/// The event that a raw line of cursor-agent output stands for, if any.
pub open spec fn spec_parse_stream_json_line(line: Seq<char>) -> Option<EventView> {
    let t = trim(line);
    if t.len() == 0 {
        None
    } else {
        match json_parse(t) {
            Some(v) => spec_event_from_json(v),
            None => None,
        }
    }
}

fn owned_or_empty(s: Option<&String>) -> (r: String)
    ensures
        r@ == match s {
            Some(x) => x@,
            None => Seq::<char>::empty(),
        },
{
    match s {
        Some(x) => x.clone(),
        None => String::new(),
    }
}

/// The event that one parsed `stream-json` line stands for.
pub fn event_from_json(v: &JsonValue) -> (r: Option<CursorEvent>)
    ensures
        event_view(r) == spec_event_from_json(*v),
        event_fields_hold(*v, event_view(r)),
{
    proof {
        law_event_fields(*v);
    }
    let ty = match get_str(v, "type") {
        Some(t) => t,
        None => return None,
    };
    if str_eq(ty.as_str(), "session_id") {
        match get_str(v, "session_id") {
            Some(s) => Some(CursorEvent::SessionId(s.clone())),
            None => None,
        }
    } else if str_eq(ty.as_str(), "thinking") {
        let text = owned_or_empty(get_str(v, "text"));
        let completed = match get_str(v, "subtype") {
            Some(s) => str_eq(s.as_str(), "completed"),
            None => false,
        };
        if text.as_str().is_empty() && !completed {
            None
        } else {
            Some(CursorEvent::Thinking { text })
        }
    } else if str_eq(ty.as_str(), "text") {
        match get_str(v, "text") {
            Some(s) => Some(CursorEvent::Text(s.clone())),
            None => None,
        }
    } else if str_eq(ty.as_str(), "result") {
        match get_str(v, "result") {
            Some(s) => Some(CursorEvent::Result(s.clone())),
            None => None,
        }
    } else if str_eq(ty.as_str(), "tool_call") {
        let subtype = owned_or_empty(get_str(v, "subtype"));
        match get(v, "tool_call") {
            Some(JsonValue::Object(members)) => {
                let tool = if members.len() > 0 {
                    members[0].0.clone()
                } else {
                    String::new()
                };
                Some(CursorEvent::ToolCall { subtype, tool })
            },
            _ => None,
        }
    } else {
        None
    }
}

/// Reads one line of cursor-agent's `stream-json` output.
pub fn parse_stream_json_line(line: &str) -> (r: Option<CursorEvent>)
    ensures
        event_view(r) == spec_parse_stream_json_line(line@),
        trim(line@).len() == 0 ==> r is None,
        trim(line@).len() > 0 ==> match json_parse(trim(line@)) {
            Some(v) => event_fields_hold(v, event_view(r)),
            None => r is None,
        },
{
    proof {
        if trim(line@).len() > 0 {
            if let Some(v) = json_parse(trim(line@)) {
                law_event_fields(v);
            }
        }
    }
    let t = trim_str(line);
    if t.is_empty() {
        return None;
    }
    match parse_json(t) {
        Some(v) => event_from_json(&v),
        None => None,
    }
}


/// The views of a sequence of owned strings.
pub open spec fn string_views(v: Seq<String>) -> Seq<Seq<char>> {
    v.map_values(|s: String| s@)
}

/// What one cursor-agent run produced.
#[derive(Debug)]
pub struct CompletionOutput {
    pub content: String,
    pub thinking_text: String,
    /// Thinking, when `forward_thinking` is "reasoning_content".
    pub reasoning_content: Option<String>,
    pub finish_reason: String,
}

/// The mathematical content of a `CompletionOutput`.
pub struct OutputView {
    pub content: Seq<char>,
    pub thinking_text: Seq<char>,
    pub reasoning_content: Option<Seq<char>>,
    pub finish_reason: Seq<char>,
}

/// The view of an optional string.
pub open spec fn opt_view(s: Option<String>) -> Option<Seq<char>> {
    match s {
        Some(x) => Some(x@),
        None => None,
    }
}

impl View for CompletionOutput {
    type V = OutputView;

    open spec fn view(&self) -> OutputView {
        OutputView {
            content: self.content@,
            thinking_text: self.thinking_text@,
            reasoning_content: opt_view(self.reasoning_content),
            finish_reason: self.finish_reason@,
        }
    }
}

impl Default for CompletionOutput {
    fn default() -> (r: Self)
        ensures
            r.content@ == Seq::<char>::empty(),
            r.thinking_text@ == Seq::<char>::empty(),
            r.reasoning_content is None,
            r.finish_reason@ == Seq::<char>::empty(),
    {
        CompletionOutput {
            content: String::new(),
            thinking_text: String::new(),
            reasoning_content: None,
            finish_reason: String::new(),
        }
    }
}

impl CompletionOutput {
    /// The output of a run before its first line: nothing yet, finishing with
    /// "stop" unless something else happens.
    pub fn started() -> (r: Self)
        ensures
            r.content@ == Seq::<char>::empty(),
            r.thinking_text@ == Seq::<char>::empty(),
            r.reasoning_content is None,
            r.finish_reason@ == "stop"@,
    {
        CompletionOutput {
            content: String::new(),
            thinking_text: String::new(),
            reasoning_content: None,
            finish_reason: "stop".to_owned(),
        }
    }
}

/// A run that the request timeout cut off.
pub open spec fn output_timed_out(o: OutputView) -> bool {
    o.finish_reason == "timeout"@
}

impl CompletionOutput {
    /// Records that the request timeout cut the run off; what it produced so
    /// far stays.
    pub fn mark_timed_out(&mut self)
        ensures
            final(self).content == old(self).content,
            final(self).thinking_text == old(self).thinking_text,
            final(self).reasoning_content == old(self).reasoning_content,
            final(self).finish_reason@ == "timeout"@,
    {
        self.finish_reason = "timeout".to_owned();
    }

    /// Whether the request timeout cut the run off.
    pub fn timed_out(&self) -> (r: bool)
        ensures
            r == output_timed_out(self@),
    {
        crate::text::str_eq(self.finish_reason.as_str(), "timeout")
    }
}

/// A run that produced neither content, nor thinking, nor reasoning.
pub open spec fn output_is_empty(o: OutputView) -> bool {
    &&& o.content.len() == 0
    &&& o.thinking_text.len() == 0
    &&& match o.reasoning_content {
        Some(r) => r.len() == 0,
        None => true,
    }
}

impl CompletionOutput {
    /// Whether the run produced nothing to answer with.
    pub fn has_no_content(&self) -> (r: bool)
        ensures
            r == output_is_empty(self@),
    {
        self.content.as_str().is_empty() && self.thinking_text.as_str().is_empty() && match &self.reasoning_content {
            Some(x) => x.as_str().is_empty(),
            None => true,
        }
    }
}

/// The output after one more event of a run, with thinking routed by
/// `forward_thinking` ("off", "reasoning_content", or anything else for content).
pub open spec fn spec_apply_event(o: OutputView, ev: EventView, forward_thinking: Seq<char>) -> OutputView {
    match ev {
        EventView::Text(s) => OutputView { content: o.content + s, ..o },
        EventView::Result(s) => OutputView { content: s, ..o },
        EventView::Thinking(t) => if forward_thinking == "off"@ {
            o
        } else if forward_thinking == "reasoning_content"@ {
            OutputView {
                reasoning_content: Some(
                    match o.reasoning_content {
                        Some(r) => r,
                        None => Seq::<char>::empty(),
                    } + t,
                ),
                ..o
            }
        } else {
            OutputView { thinking_text: o.thinking_text + t, ..o }
        },
        EventView::SessionId(_) => o,
        EventView::ToolCall(_, _) => o,
    }
}

/// The session id that an event reports, if it is one.
pub open spec fn event_session_id(ev: EventView) -> Option<Seq<char>> {
    match ev {
        EventView::SessionId(s) => Some(s),
        _ => None,
    }
}

/// Folds one event into the output of a buffered run; returns the cursor
/// session id when the event reports one.
pub fn apply_event(out: &mut CompletionOutput, ev: CursorEvent, forward_thinking: &str) -> (r: Option<String>)
    ensures
        final(out)@ == spec_apply_event(old(out)@, ev@, forward_thinking@),
        opt_view(r) == event_session_id(ev@),
{
    match ev {
        CursorEvent::Text(s) => {
            out.content.append(s.as_str());
            None
        },
        CursorEvent::Result(s) => {
            out.content = s;
            None
        },
        CursorEvent::Thinking { text } => {
            if str_eq(forward_thinking, "off") {
            } else if str_eq(forward_thinking, "reasoning_content") {
                let mut acc = match &out.reasoning_content {
                    Some(x) => x.clone(),
                    None => String::new(),
                };
                acc.append(text.as_str());
                out.reasoning_content = Some(acc);
            } else {
                out.thinking_text.append(text.as_str());
            }
            None
        },
        CursorEvent::SessionId(s) => Some(s),
        CursorEvent::ToolCall { .. } => None,
    }
}

/// Thinking never reaches the answer text of a buffered run: with "off" it is
/// dropped, with "reasoning_content" it is collected apart; content comes only
/// from text (appended) and result (replacing) events.
pub proof fn law_thinking_routing(o: OutputView, ev: EventView, forward_thinking: Seq<char>)
    ensures
        spec_apply_event(o, ev, forward_thinking).content == match ev {
            EventView::Text(s) => o.content + s,
            EventView::Result(s) => s,
            _ => o.content,
        },
        forward_thinking == "off"@ ==> spec_apply_event(o, ev, forward_thinking).thinking_text == o.thinking_text
            && spec_apply_event(o, ev, forward_thinking).reasoning_content == o.reasoning_content,
        forward_thinking == "reasoning_content"@ ==> spec_apply_event(o, ev, forward_thinking).thinking_text
            == o.thinking_text,
        spec_apply_event(o, ev, forward_thinking).finish_reason == o.finish_reason,
{
    reveal_strlit("off");
    reveal_strlit("reasoning_content");
}

/// The command line always asks for `stream-json` output with partial output,
/// trust and MCP approval; `--force` comes exactly when writes are allowed,
/// and the mode and sandbox follow.
pub proof fn law_agent_args_fixed(model: Option<Seq<char>>, resume: Option<Seq<char>>, agent_mode: Seq<char>, sandbox: Seq<char>, allow_agent_write: bool)
    ensures
        spec_agent_args(model, resume, agent_mode, sandbox, allow_agent_write).take(6) == seq![
            "-p"@,
            "--output-format"@,
            "stream-json"@,
            "--stream-partial-output"@,
            "--trust"@,
            "--approve-mcps"@,
        ],
        ({
            let k: int = if allow_agent_write { 7 } else { 6 };
            let a = spec_agent_args(model, resume, agent_mode, sandbox, allow_agent_write);
            &&& allow_agent_write ==> a[6] == "--force"@
            &&& a[k] == "--mode"@ && a[k + 1] == agent_mode
            &&& a[k + 2] == "--sandbox"@ && a[k + 3] == sandbox
        }),
{
    let a = spec_agent_args(model, resume, agent_mode, sandbox, allow_agent_write);
    assert(a.take(6) =~= seq![
        "-p"@,
        "--output-format"@,
        "stream-json"@,
        "--stream-partial-output"@,
        "--trust"@,
        "--approve-mcps"@,
    ]);
}

/// One piece of a streamed completion.
#[derive(Debug, Clone)]
pub enum StreamDelta {
    Content(String),
    /// Thinking in its own field, for the "reasoning_content" mode.
    ReasoningContent(String),
    Done { finish_reason: String },
}

/// The mathematical content of a `StreamDelta`.
pub enum DeltaView {
    Content(Seq<char>),
    ReasoningContent(Seq<char>),
    Done(Seq<char>),
}

impl View for StreamDelta {
    type V = DeltaView;

    open spec fn view(&self) -> DeltaView {
        match self {
            StreamDelta::Content(s) => DeltaView::Content(s@),
            StreamDelta::ReasoningContent(s) => DeltaView::ReasoningContent(s@),
            StreamDelta::Done { finish_reason } => DeltaView::Done(finish_reason@),
        }
    }
}

/// The last delta of a streamed run: it finishes with "timeout" when the run
/// was cut off, else with "stop".
pub fn run_end_delta(timed_out: bool) -> (r: StreamDelta)
    ensures
        r@ == DeltaView::Done(if timed_out {
            "timeout"@
        } else {
            "stop"@
        }),
{
    if timed_out {
        StreamDelta::Done { finish_reason: "timeout".to_owned() }
    } else {
        StreamDelta::Done { finish_reason: "stop".to_owned() }
    }
}

/// The view of an optional delta.
pub open spec fn delta_view(d: Option<StreamDelta>) -> Option<DeltaView> {
    match d {
        Some(x) => Some(x@),
        None => None,
    }
}

/// The delta that a streamed run sends for one event.
pub open spec fn spec_stream_delta(ev: EventView, forward_thinking: Seq<char>) -> Option<DeltaView> {
    match ev {
        EventView::Text(s) => Some(DeltaView::Content(s)),
        EventView::Result(s) => Some(DeltaView::Content(s)),
        EventView::Thinking(t) => if t.len() == 0 || forward_thinking == "off"@ {
            None
        } else if forward_thinking == "reasoning_content"@ {
            Some(DeltaView::ReasoningContent(t))
        } else {
            Some(DeltaView::Content("\n\n> \u{1F4AD} "@ + trim(t) + "\n\n"@))
        },
        EventView::SessionId(_) => None,
        EventView::ToolCall(_, _) => None,
    }
}

/// How a streamed run routes an event, whatever the mode: a text or result
/// event goes out as content carrying exactly its text; only a thinking event
/// may go out as reasoning, and only in the "reasoning_content" mode, with
/// exactly its text; in the "off" mode thinking sends nothing; and session-id
/// and tool-call events send nothing.
pub open spec fn stream_routing_holds(ev: EventView, forward_thinking: Seq<char>, d: Option<DeltaView>) -> bool {
    &&& (ev matches EventView::Text(s) ==> d == Some(DeltaView::Content(s)))
    &&& (ev matches EventView::Result(s) ==> d == Some(DeltaView::Content(s)))
    &&& (d matches Some(DeltaView::ReasoningContent(x)) ==> forward_thinking == "reasoning_content"@ && ev == EventView::Thinking(x))
    &&& (ev matches EventView::Thinking(t) ==> (forward_thinking == "reasoning_content"@ && t.len() > 0 ==> d == Some(DeltaView::ReasoningContent(t))))
    &&& (ev is Thinking && forward_thinking == "off"@ ==> d is None)
    &&& (ev is SessionId || ev is ToolCall ==> d is None)
}

/// A streamed run never mixes the answer and the thinking: text and result
/// events are content with exactly their text in every mode, and reasoning
/// comes only from thinking, only in the "reasoning_content" mode.
pub proof fn law_stream_routing(ev: EventView, forward_thinking: Seq<char>)
    ensures
        stream_routing_holds(ev, forward_thinking, spec_stream_delta(ev, forward_thinking)),
{
    reveal_strlit("off");
    reveal_strlit("reasoning_content");
    assert("off"@.len() == 3);
    assert("reasoning_content"@.len() == 17);
    assert("off"@ != "reasoning_content"@);
    let d = spec_stream_delta(ev, forward_thinking);
    match ev {
        EventView::Text(s) => assert(d == Some(DeltaView::Content(s))),
        EventView::Result(s) => assert(d == Some(DeltaView::Content(s))),
        EventView::Thinking(t) => {
            if forward_thinking == "reasoning_content"@ && t.len() > 0 {
                assert(d == Some(DeltaView::ReasoningContent(t)));
            }
        },
        _ => {},
    }
}

/// What a streamed run sends for one event, and the cursor session id that the
/// event reports, if it is one.
pub fn stream_delta_for_event(ev: CursorEvent, forward_thinking: &str) -> (r: (Option<StreamDelta>, Option<String>))
    ensures
        delta_view(r.0) == spec_stream_delta(ev@, forward_thinking@),
        opt_view(r.1) == event_session_id(ev@),
        stream_routing_holds(ev@, forward_thinking@, delta_view(r.0)),
{
    proof {
        law_stream_routing(ev@, forward_thinking@);
    }
    match ev {
        CursorEvent::Text(s) => (Some(StreamDelta::Content(s)), None),
        CursorEvent::Result(s) => (Some(StreamDelta::Content(s)), None),
        CursorEvent::Thinking { text } => {
            if text.as_str().is_empty() || str_eq(forward_thinking, "off") {
                (None, None)
            } else if str_eq(forward_thinking, "reasoning_content") {
                (Some(StreamDelta::ReasoningContent(text)), None)
            } else {
                let mut block = "\n\n> \u{1F4AD} ".to_owned();
                block.append(trim_str(text.as_str()));
                block.append("\n\n");
                (Some(StreamDelta::Content(block)), None)
            }
        },
        CursorEvent::SessionId(s) => (None, Some(s)),
        CursorEvent::ToolCall { .. } => (None, None),
    }
}


/// How cursor-agent is started.
#[derive(Clone, Debug)]
pub struct SpawnOptions {
    pub workspace_dir: Option<String>,
    /// "ask" | "agent"
    pub agent_mode: String,
    /// "enabled" | "disabled"
    pub sandbox: String,
    pub allow_agent_write: bool,
}

impl Default for SpawnOptions {
    fn default() -> (r: Self)
        ensures
            r.workspace_dir is None,
            r.agent_mode@ == "agent"@,
            r.sandbox@ == "enabled"@,
            r.allow_agent_write,
    {
        SpawnOptions {
            workspace_dir: None,
            agent_mode: "agent".to_owned(),
            sandbox: "enabled".to_owned(),
            allow_agent_write: true,
        }
    }
}

/// The model that cursor-agent is asked for: blank and the aliases "cursor",
/// "cursor-default" and "default" (in any ASCII case) mean "auto"; anything
/// else is passed on trimmed.
pub open spec fn spec_agent_model(m: Seq<char>) -> Seq<char> {
    let t = trim(m);
    if t.len() == 0 || eq_ignore_ascii_case(t, "cursor"@) || eq_ignore_ascii_case(t, "cursor-default"@)
        || eq_ignore_ascii_case(t, "default"@) {
        "auto"@
    } else {
        t
    }
}

/// The command line of a cursor-agent run.
pub open spec fn spec_agent_args(
    model: Option<Seq<char>>,
    resume: Option<Seq<char>>,
    agent_mode: Seq<char>,
    sandbox: Seq<char>,
    allow_agent_write: bool,
) -> Seq<Seq<char>> {
    seq![
        "-p"@,
        "--output-format"@,
        "stream-json"@,
        "--stream-partial-output"@,
        "--trust"@,
        "--approve-mcps"@,
    ] + (if allow_agent_write {
        seq!["--force"@]
    } else {
        Seq::<Seq<char>>::empty()
    }) + seq!["--mode"@, agent_mode, "--sandbox"@, sandbox] + (match model {
        Some(m) => if spec_agent_model(m).len() > 0 && spec_agent_model(m) != "auto"@ {
            seq!["--model"@, spec_agent_model(m)]
        } else {
            Seq::<Seq<char>>::empty()
        },
        None => Seq::<Seq<char>>::empty(),
    }) + (match resume {
        Some(r) => if r.len() > 0 {
            seq!["--resume"@, r]
        } else {
            Seq::<Seq<char>>::empty()
        },
        None => Seq::<Seq<char>>::empty(),
    })
}

/// The view of an optional string slice.
pub open spec fn opt_str_view(s: Option<&str>) -> Option<Seq<char>> {
    match s {
        Some(x) => Some(x@),
        None => None,
    }
}

fn push_owned(v: &mut Vec<String>, s: &str)
    ensures
        string_views(final(v)@) == string_views(old(v)@).push(s@),
{
    let ghost before = v@;
    v.push(s.to_owned());
    assert(string_views(v@) =~= string_views(before).push(s@));
}

/// The arguments cursor-agent is started with for one run.
pub fn agent_args(model: Option<&str>, resume_session_id: Option<&str>, options: &SpawnOptions) -> (r: Vec<String>)
    ensures
        string_views(r@) == spec_agent_args(
            opt_str_view(model),
            opt_str_view(resume_session_id),
            options.agent_mode@,
            options.sandbox@,
            options.allow_agent_write,
        ),
{
    let mut args: Vec<String> = Vec::new();
    push_owned(&mut args, "-p");
    push_owned(&mut args, "--output-format");
    push_owned(&mut args, "stream-json");
    push_owned(&mut args, "--stream-partial-output");
    push_owned(&mut args, "--trust");
    push_owned(&mut args, "--approve-mcps");
    let ghost base = string_views(args@);
    if options.allow_agent_write {
        push_owned(&mut args, "--force");
    }
    let ghost with_force = string_views(args@);
    push_owned(&mut args, "--mode");
    push_owned(&mut args, options.agent_mode.as_str());
    push_owned(&mut args, "--sandbox");
    push_owned(&mut args, options.sandbox.as_str());
    let ghost with_mode = string_views(args@);
    match model {
        Some(m) => {
            let t = trim_str(m);
            let chosen: &str = if t.is_empty() || str_eq_ignore_ascii_case(t, "cursor")
                || str_eq_ignore_ascii_case(t, "cursor-default") || str_eq_ignore_ascii_case(t, "default") {
                "auto"
            } else {
                t
            };
            assert(chosen@ == spec_agent_model(m@));
            if !chosen.is_empty() && !str_eq(chosen, "auto") {
                push_owned(&mut args, "--model");
                push_owned(&mut args, chosen);
            }
        },
        None => {},
    }
    let ghost with_model = string_views(args@);
    match resume_session_id {
        Some(r) => {
            if !r.is_empty() {
                push_owned(&mut args, "--resume");
                push_owned(&mut args, r);
            }
        },
        None => {},
    }
    assert(string_views(args@) =~= spec_agent_args(
        opt_str_view(model),
        opt_str_view(resume_session_id),
        options.agent_mode@,
        options.sandbox@,
        options.allow_agent_write,
    ));
    args
}

/// The directory cursor-agent runs in: the workspace directory, when one is set
/// and not blank.
pub fn spawn_working_dir(options: &SpawnOptions) -> (r: Option<String>)
    ensures
        opt_view(r) == match options.workspace_dir {
            Some(d) => if d@.len() > 0 {
                Some(d@)
            } else {
                None
            },
            None => None,
        },
{
    match &options.workspace_dir {
        Some(d) => if d.as_str().is_empty() {
            None
        } else {
            Some(d.clone())
        },
        None => None,
    }
}


/// The non-empty strings of a JSON array, in order.
pub open spec fn json_model_ids(items: Seq<JsonValue>) -> Seq<Seq<char>>
    decreases items.len(),
{
    if items.len() == 0 {
        seq![]
    } else {
        json_model_ids(items.drop_last()) + match items.last() {
            JsonValue::Str(s) => if s@.len() > 0 {
                seq![s@]
            } else {
                Seq::<Seq<char>>::empty()
            },
            _ => Seq::<Seq<char>>::empty(),
        }
    }
}

/// A character a model id may hold: ASCII letters and digits, '-', '.' and '_'.
pub open spec fn is_model_id_char(c: char) -> bool {
    let u = c as u32;
    ||| 48 <= u <= 57
    ||| 65 <= u <= 90
    ||| 97 <= u <= 122
    ||| c == '-'
    ||| c == '.'
    ||| c == '_'
}

/// The model id that one line of a plain-text model list names, if any: the
/// first word of the trimmed line, unless the line is blank, starts a table
/// border ('|' or '-'), or that word holds another character.
pub open spec fn line_model_id(l: Seq<char>) -> Option<Seq<char>> {
    let t = trim(l);
    if t.len() == 0 || t[0] == '|' || t[0] == '-' {
        None
    } else {
        let w = leading_word(t);
        if forall|i: int| 0 <= i < w.len() ==> is_model_id_char(#[trigger] w[i]) {
            Some(w)
        } else {
            None
        }
    }
}

/// The model ids that the lines of a plain-text model list name, in order.
pub open spec fn text_model_ids(ls: Seq<Seq<char>>) -> Seq<Seq<char>>
    decreases ls.len(),
{
    if ls.len() == 0 {
        seq![]
    } else {
        text_model_ids(ls.drop_last()) + match line_model_id(ls.last()) {
            Some(w) => seq![w],
            None => Seq::<Seq<char>>::empty(),
        }
    }
}

/// The model ids read from trimmed `--list-models` output `t`, given what the
/// JSON parser made of it: the non-empty strings of a JSON array when there
/// are any, else the ids named line by line.
pub open spec fn spec_model_ids(t: Seq<char>, parsed: Option<JsonValue>) -> Seq<Seq<char>> {
    let from_json = match parsed {
        Some(JsonValue::Array(items)) => json_model_ids(items@),
        _ => Seq::<Seq<char>>::empty(),
    };
    if from_json.len() > 0 {
        from_json
    } else {
        text_model_ids(lines(t))
    }
}

/// The model ids that cursor-agent's `--list-models` output names.
pub open spec fn spec_parse_list_models_output(out: Seq<char>) -> Seq<Seq<char>> {
    let t = trim(out);
    if t.len() == 0 {
        seq![]
    } else {
        spec_model_ids(t, json_parse(t))
    }
}

fn char_is_model_id_char(c: char) -> (b: bool)
    ensures
        b == is_model_id_char(c),
{
    let u = c as u32;
    (48 <= u && u <= 57) || (65 <= u && u <= 90) || (97 <= u && u <= 122) || c == '-' || c == '.'
        || c == '_'
}

/// The model id one line of a plain-text model list names, if any.
pub fn model_id_of_line(l: &str) -> (r: Option<String>)
    ensures
        opt_view(r) == line_model_id(l@),
{
    let t = trim_str(l);
    let cs = crate::text::chars_of(t);
    if cs.len() == 0 || cs[0] == '|' || cs[0] == '-' {
        return None;
    }
    let w = leading_word_of(t);
    let wc = crate::text::chars_of(w);
    let mut i: usize = 0;
    while i < wc.len()
        invariant
            i <= wc@.len(),
            wc@ == w@,
            w@ == leading_word(trim(l@)),
            trim(l@).len() > 0 && trim(l@)[0] != '|' && trim(l@)[0] != '-',
            forall|j: int| 0 <= j < i ==> is_model_id_char(#[trigger] wc@[j]),
        decreases wc@.len() - i,
    {
        if !char_is_model_id_char(wc[i]) {
            assert(!is_model_id_char(w@[i as int]));
            return None;
        }
        i += 1;
    }
    Some(w.to_owned())
}

/// The model ids read from trimmed `--list-models` output, given what the JSON
/// parser made of it.
pub fn model_ids_from(t: &str, parsed: &Option<JsonValue>) -> (r: Vec<String>)
    ensures
        string_views(r@) == spec_model_ids(t@, *parsed),
{
    let mut ids: Vec<String> = Vec::new();
    if let Some(JsonValue::Array(items)) = parsed {
        let mut i: usize = 0;
        while i < items.len()
            invariant
                i <= items@.len(),
                string_views(ids@) == json_model_ids(items@.take(i as int)),
            decreases items@.len() - i,
        {
            assert(items@.take(i + 1).drop_last() =~= items@.take(i as int));
            let ghost before = ids@;
            match &items[i] {
                JsonValue::Str(s) => {
                    if !s.as_str().is_empty() {
                        ids.push(s.clone());
                        assert(string_views(ids@) =~= string_views(before).push(s@));
                    }
                },
                _ => {},
            }
            assert(string_views(ids@) =~= json_model_ids(items@.take(i + 1)));
            i += 1;
        }
        assert(items@.take(items@.len() as int) =~= items@);
        if ids.len() > 0 {
            return ids;
        }
    }
    let ls = lines_of(t);
    let mut out: Vec<String> = Vec::new();
    let mut k: usize = 0;
    while k < ls.len()
        invariant
            k <= ls@.len(),
            str_views(ls@) == lines(t@),
            string_views(out@) == text_model_ids(str_views(ls@).take(k as int)),
        decreases ls@.len() - k,
    {
        assert(str_views(ls@).take(k + 1).drop_last() =~= str_views(ls@).take(k as int));
        let ghost before = out@;
        match model_id_of_line(ls[k]) {
            Some(w) => {
                out.push(w);
                assert(string_views(out@) =~= string_views(before).push(w@));
            },
            None => {},
        }
        assert(string_views(out@) =~= text_model_ids(str_views(ls@).take(k + 1)));
        k += 1;
    }
    assert(str_views(ls@).take(ls@.len() as int) =~= str_views(ls@));
    out
}

/// The model ids that cursor-agent's `--list-models` output names: a JSON array
/// of strings, or else one id per line of a plain-text table.
pub fn parse_list_models_output(out: &str) -> (r: Vec<String>)
    ensures
        string_views(r@) == spec_parse_list_models_output(out@),
{
    let t = trim_str(out);
    if t.is_empty() {
        let r: Vec<String> = Vec::new();
        assert(string_views(r@) =~= Seq::<Seq<char>>::empty());
        return r;
    }
    let parsed = parse_json(t);
    model_ids_from(t, &parsed)
}

} // verus!
