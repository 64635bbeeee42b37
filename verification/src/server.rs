//! The HTTP surface's decisions: the unified error body and the status of each
//! failure, what the model, health and agent endpoints answer, how a stream of
//! deltas becomes chunks, and which request id a response carries.

use vstd::prelude::*;
use crate::cursor::{opt_view, string_views, StreamDelta as AgentDelta};
use crate::metrics::{next_count, Metrics};
use crate::openai::{opt_str_view, stream_chunk, stream_chunk_reasoning, StreamChunk};
use crate::service::{is_variant_digit, CompletionError};
use crate::text::{str_eq, trim, trim_str};
use vstd::string::StringExecFns;

verus! {

/// The `error` object of an error body.
#[derive(Debug)]
pub struct ErrorDetail {
    pub message: String,
    pub code: Option<String>,
    pub type_: Option<String>,
}

/// `{ "error": { "message", "code", "type" } }`
#[derive(Debug)]
pub struct ErrorBody {
    pub error: ErrorDetail,
}

/// An error answer: HTTP status and body.
#[derive(Debug)]
pub struct ErrorReply {
    pub status: u16,
    pub body: ErrorBody,
}

/// `reply` is the error answer with this status, message, code and type.
pub open spec fn is_error_reply(reply: ErrorReply, status: u16, message: Seq<char>, code: Option<Seq<char>>, type_: Option<Seq<char>>) -> bool {
    &&& reply.status == status
    &&& reply.body.error.message@ == message
    &&& opt_view(reply.body.error.code) == code
    &&& opt_view(reply.body.error.type_) == type_
}

/// The error answer with this status, message, code and type.
pub fn err_response(status: u16, message: &str, code: Option<&str>, type_: Option<&str>) -> (r: ErrorReply)
    ensures
        is_error_reply(r, status, message@, opt_str_view(code), opt_str_view(type_)),
{
    let code = match code {
        Some(c) => Some(c.to_owned()),
        None => None,
    };
    let type_ = match type_ {
        Some(t) => Some(t.to_owned()),
        None => None,
    };
    ErrorReply { status, body: ErrorBody { error: ErrorDetail { message: message.to_owned(), code, type_ } } }
}

/// The answer to a failed completion: 503 when cursor-agent is missing, did
/// not start or said nothing; 504 when a run outlasted the request timeout;
/// 400 for a bad request; 500 when the worker died.
pub open spec fn completion_error_reply(e: CompletionError, r: ErrorReply) -> bool {
    match e {
        CompletionError::CursorNotFound => is_error_reply(
            r,
            503,
            "cursor-agent not found. Set cursor_path in ~/.cursor-brain/config.json or ensure Cursor is installed."@,
            Some("cursor_not_found"@),
            Some("service_unavailable"@),
        ),
        CompletionError::InvalidRequest(m) => is_error_reply(r, 400, m@, Some("invalid_request"@), Some("invalid_request_error"@)),
        CompletionError::NoContent => is_error_reply(
            r,
            503,
            "cursor-agent returned no content. Consider increasing request_timeout_sec."@,
            Some("no_response"@),
            Some("service_unavailable"@),
        ),
        CompletionError::Timeout => is_error_reply(
            r,
            504,
            "cursor-agent did not finish within request_timeout_sec."@,
            Some("timeout"@),
            Some("gateway_timeout"@),
        ),
        CompletionError::SpawnFailed(m) => is_error_reply(
            r,
            503,
            "Failed to start cursor-agent: "@ + m@,
            Some("spawn_failed"@),
            Some("service_unavailable"@),
        ),
        CompletionError::JoinFailed(m) => is_error_reply(r, 500, m@, None, Some("internal_error"@)),
    }
}

/// The error answer to a failed completion.
pub fn completion_error_to_http(e: &CompletionError) -> (r: ErrorReply)
    ensures
        completion_error_reply(*e, r),
{
    match e {
        CompletionError::CursorNotFound => err_response(
            503,
            "cursor-agent not found. Set cursor_path in ~/.cursor-brain/config.json or ensure Cursor is installed.",
            Some("cursor_not_found"),
            Some("service_unavailable"),
        ),
        CompletionError::InvalidRequest(m) => err_response(400, m.as_str(), Some("invalid_request"), Some("invalid_request_error")),
        CompletionError::NoContent => err_response(
            503,
            "cursor-agent returned no content. Consider increasing request_timeout_sec.",
            Some("no_response"),
            Some("service_unavailable"),
        ),
        CompletionError::Timeout => err_response(
            504,
            "cursor-agent did not finish within request_timeout_sec.",
            Some("timeout"),
            Some("gateway_timeout"),
        ),
        CompletionError::SpawnFailed(m) => {
            let mut msg = "Failed to start cursor-agent: ".to_owned();
            msg.append(m.as_str());
            err_response(503, msg.as_str(), Some("spawn_failed"), Some("service_unavailable"))
        },
        CompletionError::JoinFailed(m) => err_response(500, m.as_str(), None, Some("internal_error")),
    }
}

/// The answer to a path that names no endpoint.
pub fn not_found() -> (r: ErrorReply)
    ensures
        is_error_reply(r, 404, "The requested resource was not found."@, Some("not_found"@), Some("invalid_request_error"@)),
{
    err_response(404, "The requested resource was not found.", Some("not_found"), Some("invalid_request_error"))
}

/// The answer to POST /v1/embeddings.
pub fn embeddings_501() -> (r: ErrorReply)
    ensures
        is_error_reply(
            r,
            501,
            "Embeddings are not supported. cursor-agent does not provide this capability."@,
            Some("not_implemented"@),
            Some("api_error"@),
        ),
{
    err_response(
        501,
        "Embeddings are not supported. cursor-agent does not provide this capability.",
        Some("not_implemented"),
        Some("api_error"),
    )
}

/// The answer to POST /v1/completions.
pub fn completions_501() -> (r: ErrorReply)
    ensures
        is_error_reply(
            r,
            501,
            "Legacy completions endpoint is not supported. Use POST /v1/chat/completions instead."@,
            Some("not_implemented"@),
            Some("api_error"@),
        ),
{
    err_response(
        501,
        "Legacy completions endpoint is not supported. Use POST /v1/chat/completions instead.",
        Some("not_implemented"),
        Some("api_error"),
    )
}

/// The answer when no cursor-agent executable can be found for an agent call.
pub fn cursor_unavailable() -> (r: ErrorReply)
    ensures
        is_error_reply(r, 503, "cursor-agent not available."@, Some("cursor_not_found"@), Some("service_unavailable"@)),
{
    err_response(503, "cursor-agent not available.", Some("cursor_not_found"), Some("service_unavailable"))
}

/// The answer to a model id that is not listed.
pub fn model_not_found() -> (r: ErrorReply)
    ensures
        is_error_reply(r, 404, "The model requested was not found."@, Some("model_not_found"@), Some("invalid_request_error"@)),
{
    err_response(404, "The model requested was not found.", Some("model_not_found"), Some("invalid_request_error"))
}

/// How a cursor-agent subcommand call went wrong.
#[derive(Debug, Clone, Copy, PartialEq, Eq, Structural)]
pub enum AgentCallFailure {
    /// It outlasted its time limit.
    TimedOut,
    /// The worker running it died.
    Failed,
}

/// The answer to a failed agent subcommand ("about", "status", "ls", ...):
/// 504 when it timed out, 500 when its worker failed.
pub fn subcommand_error(f: AgentCallFailure) -> (r: ErrorReply)
    ensures
        f == AgentCallFailure::TimedOut ==> is_error_reply(
            r,
            504,
            "cursor-agent subcommand timed out."@,
            Some("timeout"@),
            Some("server_error"@),
        ),
        f == AgentCallFailure::Failed ==> is_error_reply(
            r,
            500,
            "cursor-agent subcommand failed."@,
            Some("internal_error"@),
            Some("server_error"@),
        ),
{
    match f {
        AgentCallFailure::TimedOut => err_response(504, "cursor-agent subcommand timed out.", Some("timeout"), Some("server_error")),
        AgentCallFailure::Failed => err_response(500, "cursor-agent subcommand failed.", Some("internal_error"), Some("server_error")),
    }
}

/// The answer to a failed `create-chat` call: 504 when it timed out, 500 when
/// its worker failed.
pub fn create_chat_error(f: AgentCallFailure) -> (r: ErrorReply)
    ensures
        f == AgentCallFailure::TimedOut ==> is_error_reply(
            r,
            504,
            "cursor-agent create-chat timed out."@,
            Some("timeout"@),
            Some("server_error"@),
        ),
        f == AgentCallFailure::Failed ==> is_error_reply(
            r,
            500,
            "cursor-agent create-chat failed."@,
            Some("internal_error"@),
            Some("server_error"@),
        ),
{
    match f {
        AgentCallFailure::TimedOut => err_response(504, "cursor-agent create-chat timed out.", Some("timeout"), Some("server_error")),
        AgentCallFailure::Failed => err_response(500, "cursor-agent create-chat failed.", Some("internal_error"), Some("server_error")),
    }
}

/// The id of a chat that `create-chat` printed: its trimmed output, or a 503
/// answer when that is empty.
pub fn created_chat_id(stdout: &str) -> (r: Result<String, ErrorReply>)
    ensures
        trim(stdout@).len() > 0 <==> r is Ok,
        match r {
            Ok(id) => id@ == trim(stdout@),
            Err(e) => is_error_reply(
                e,
                503,
                "cursor-agent create-chat returned no id."@,
                Some("no_response"@),
                Some("server_error"@),
            ),
        },
{
    let id = trim_str(stdout);
    if id.is_empty() {
        Err(err_response(503, "cursor-agent create-chat returned no id.", Some("no_response"), Some("server_error")))
    } else {
        Ok(id.to_owned())
    }
}

/// The text an agent subcommand answers with: its error output when it printed
/// nothing else, its output otherwise.
pub fn subcommand_raw<'a>(stdout: &'a str, stderr: &'a str) -> (r: &'a str)
    ensures
        r@ == if stdout@.len() == 0 && stderr@.len() > 0 {
            stderr@
        } else {
            stdout@
        },
{
    if stdout.is_empty() && !stderr.is_empty() {
        stderr
    } else {
        stdout
    }
}

/// The models listed when cursor-agent cannot tell.
pub open spec fn default_model_ids() -> Seq<Seq<char>> {
    seq!["auto"@, "cursor-default"@]
}

/// The default model ids.
pub fn default_models() -> (r: Vec<String>)
    ensures
        string_views(r@) == default_model_ids(),
{
    let mut v: Vec<String> = Vec::new();
    v.push("auto".to_owned());
    v.push("cursor-default".to_owned());
    assert(string_views(v@) =~= default_model_ids());
    v
}

/// The listed models, or the defaults when the list is empty.
pub fn models_or_default(list: Vec<String>) -> (r: Vec<String>)
    ensures
        string_views(r@) == if list@.len() == 0 {
            default_model_ids()
        } else {
            string_views(list@)
        },
{
    if list.len() == 0 {
        default_models()
    } else {
        list
    }
}

/// How asking cursor-agent for its models went.
#[derive(Debug)]
pub enum ModelListing {
    /// No cursor-agent executable was found.
    NoCursor,
    /// It answered with this list (possibly empty).
    Listed(Vec<String>),
    /// The worker asking it failed.
    Failed,
    /// It outlasted its time limit.
    TimedOut,
}

/// The models GET /v1/models reports after a listing attempt, counting the
/// outcome: a list counts as a successful call, a timeout as a timeout,
/// anything else as a failure. An empty or missing list gives the defaults.
pub fn models_after_listing(metrics: &mut Metrics, listing: ModelListing) -> (r: Vec<String>)
    ensures
        string_views(r@) == match listing {
            ModelListing::Listed(l) => if l@.len() == 0 {
                default_model_ids()
            } else {
                string_views(l@)
            },
            _ => default_model_ids(),
        },
        final(metrics).requests_total == old(metrics).requests_total,
        final(metrics).cursor_calls_ok == if listing is Listed {
            next_count(old(metrics).cursor_calls_ok)
        } else {
            old(metrics).cursor_calls_ok
        },
        final(metrics).cursor_calls_fail == if listing is NoCursor || listing is Failed {
            next_count(old(metrics).cursor_calls_fail)
        } else {
            old(metrics).cursor_calls_fail
        },
        final(metrics).cursor_calls_timeout == if listing is TimedOut {
            next_count(old(metrics).cursor_calls_timeout)
        } else {
            old(metrics).cursor_calls_timeout
        },
{
    match listing {
        ModelListing::Listed(l) => {
            metrics.inc_cursor_ok();
            models_or_default(l)
        },
        ModelListing::Failed => {
            metrics.inc_cursor_fail();
            default_models()
        },
        ModelListing::TimedOut => {
            metrics.inc_cursor_timeout();
            default_models()
        },
        ModelListing::NoCursor => {
            metrics.inc_cursor_fail();
            default_models()
        },
    }
}

/// Whether `id` is among the listed models.
pub fn has_model(ids: &Vec<String>, id: &str) -> (r: bool)
    ensures
        r == string_views(ids@).contains(id@),
{
    let mut i: usize = 0;
    while i < ids.len()
        invariant
            i <= ids@.len(),
            forall|j: int| 0 <= j < i ==> ids@[j]@ != id@,
        decreases ids@.len() - i,
    {
        if str_eq(ids[i].as_str(), id) {
            assert(string_views(ids@)[i as int] == id@);
            return true;
        }
        i += 1;
    }
    assert forall|j: int| 0 <= j < string_views(ids@).len() implies string_views(ids@)[j] != id@ by {
        assert(string_views(ids@)[j] == ids@[j]@);
    }
    false
}

/// The answer of GET /v1/health.
#[derive(Debug)]
pub struct HealthReport {
    pub status: String,
    pub cursor: bool,
    pub port: u16,
    pub session_storage: String,
    pub cursor_agent_version: String,
    pub cursor_brain_version: String,
}

/// The health report: "ok" when cursor-agent was found, "degraded" otherwise;
/// an unknown agent version reads "unknown"; sessions are kept in a file.
pub fn health_report(cursor_ok: bool, port: u16, cursor_agent_version: Option<String>, cursor_brain_version: &str) -> (r: HealthReport)
    ensures
        r.status@ == if cursor_ok {
            "ok"@
        } else {
            "degraded"@
        },
        r.cursor == cursor_ok,
        r.port == port,
        r.session_storage@ == "file"@,
        r.cursor_agent_version@ == match cursor_agent_version {
            Some(v) => v@,
            None => "unknown"@,
        },
        r.cursor_brain_version@ == cursor_brain_version@,
{
    HealthReport {
        status: if cursor_ok {
            "ok".to_owned()
        } else {
            "degraded".to_owned()
        },
        cursor: cursor_ok,
        port,
        session_storage: "file".to_owned(),
        cursor_agent_version: match cursor_agent_version {
            Some(v) => v,
            None => "unknown".to_owned(),
        },
        cursor_brain_version: cursor_brain_version.to_owned(),
    }
}

/// The chunk a streamed completion sends for one delta, and whether the stream
/// ends with it (it is then followed by the `[DONE]` event).
pub fn chunk_for_delta(id: &str, model: &str, delta: &AgentDelta) -> (r: (StreamChunk, bool))
    ensures
        r.0.id@ == id@,
        r.0.model@ == model@,
        r.0.object@ == "chat.completion.chunk"@,
        r.0.choices@.len() == 1,
        r.0.choices@[0].index == 0,
        match *delta {
            AgentDelta::Content(s) => {
                &&& opt_view(r.0.choices@[0].delta.content) == Some(s@)
                &&& r.0.choices@[0].delta.reasoning_content is None
                &&& r.0.choices@[0].finish_reason is None
                &&& !r.1
            },
            AgentDelta::ReasoningContent(s) => {
                &&& r.0.choices@[0].delta.content is None
                &&& opt_view(r.0.choices@[0].delta.reasoning_content) == Some(s@)
                &&& r.0.choices@[0].finish_reason is None
                &&& !r.1
            },
            AgentDelta::Done { finish_reason } => {
                &&& r.0.choices@[0].delta.content is None
                &&& r.0.choices@[0].delta.reasoning_content is None
                &&& opt_view(r.0.choices@[0].finish_reason) == Some(finish_reason@)
                &&& r.1
            },
        },
{
    match delta {
        AgentDelta::Content(s) => (stream_chunk(id, model, Some(s.as_str()), None), false),
        AgentDelta::ReasoningContent(s) => (stream_chunk_reasoning(id, model, s.as_str()), false),
        AgentDelta::Done { finish_reason } => (stream_chunk(id, model, None, Some(finish_reason.as_str())), true),
    }
}

/// The delta that ends a stream whose agent could not be started.
pub fn spawn_error_delta(error_text: &str) -> (r: AgentDelta)
    ensures
        r@ == crate::cursor::DeltaView::Done("spawn_error: "@ + error_text@),
{
    let mut reason = "spawn_error: ".to_owned();
    reason.append(error_text);
    AgentDelta::Done { finish_reason: reason }
}

/// The delta that ends a stream whose started agent could not be read.
pub fn run_error_delta(error_text: &str) -> (r: AgentDelta)
    ensures
        r@ == crate::cursor::DeltaView::Done("run_error: "@ + error_text@),
{
    let mut reason = "run_error: ".to_owned();
    reason.append(error_text);
    AgentDelta::Done { finish_reason: reason }
}

/// A lowercase hyphenated UUID: 8-4-4-4-12 lowercase hex digits.
pub open spec fn is_hyphenated_uuid(s: Seq<char>) -> bool {
    &&& s.len() == 36
    &&& forall|i: int| 0 <= i < 36 ==> if i == 8 || i == 13 || i == 18 || i == 23 {
        #[trigger] s[i] == '-'
    } else {
        ('0' <= s[i] <= '9' || 'a' <= s[i] <= 'f')
    }
}

/// A version-4 UUID in hyphenated form: the version digit 4 opens the third
/// group, a variant digit the fourth.
pub open spec fn is_v4_hyphenated(s: Seq<char>) -> bool {
    &&& is_hyphenated_uuid(s)
    &&& s[14] == '4'
    &&& is_variant_digit(s[19])
}

/// `Uuid::new_v4().to_string()`. Claims what the crate fixes: `new_v4` masks in
/// the version nibble 4 and the variant bits `10`, and `Display` writes the
/// lowercase hyphenated form. Which other digits is chance.
#[verifier::external_body]
fn uuid_v4_hyphenated() -> (r: String)
    ensures
        is_v4_hyphenated(r@),
{
    uuid::Uuid::new_v4().to_string()
}

/// The request id a response carries: the `x-request-id` header the client
/// sent, unless it is blank, else a fresh version-4 UUID.
pub fn request_id_for(header: Option<&str>) -> (r: String)
    ensures
        match header {
            Some(h) => if trim(h@).len() > 0 {
                r@ == h@
            } else {
                is_v4_hyphenated(r@)
            },
            None => is_v4_hyphenated(r@),
        },
{
    match header {
        Some(h) => {
            if !trim_str(h).is_empty() {
                return h.to_owned();
            }
        },
        None => {},
    }
    uuid_v4_hyphenated()
}

} // verus!
