//! The completion service: turning a chat request into a cursor-agent run, and
//! the retry rules of a buffered completion.

use vstd::prelude::*;
use crate::config::{is_home_brain_path, resolved_path, Config};
use crate::cursor::{opt_view, SpawnOptions};
use crate::openai::{
    extract_user_message, format_messages_as_prompt, spec_extract_user_message,
    spec_format_messages_as_prompt, ChatCompletionRequest,
};
use crate::text::{str_eq, trim, trim_str};
use std::sync::Arc;
use vstd::string::StringExecFns;

verus! {

/// What one completion request asks cursor-agent for.
#[derive(Clone, Debug)]
pub struct CompletionInput {
    pub user_msg: String,
    pub model: String,
    pub stream: bool,
    pub external_session_id: Option<String>,
}

/// Why a completion failed.
#[derive(Debug)]
pub enum CompletionError {
    CursorNotFound,
    InvalidRequest(String),
    NoContent,
    /// The run did not finish within the request timeout.
    Timeout,
    /// The text of the I/O error that starting or reading cursor-agent gave.
    SpawnFailed(String),
    JoinFailed(String),
}

/// The prompt of a request: the whole conversation when it has more than one
/// message, else the last user message.
pub open spec fn spec_user_msg(body: ChatCompletionRequest) -> Seq<char> {
    if body.messages@.len() > 1 {
        spec_format_messages_as_prompt(body.messages@)
    } else {
        spec_extract_user_message(body.messages@)
    }
}

/// The model of a request: the one it names, unless blank, else the default.
pub open spec fn spec_request_model(body: ChatCompletionRequest, default_model: Seq<char>) -> Seq<char> {
    match body.model {
        Some(m) => if m@.len() > 0 {
            m@
        } else {
            default_model
        },
        None => default_model,
    }
}

/// The external session id a request carries: the header value, trimmed,
/// unless blank.
pub open spec fn spec_external_session(header: Option<Seq<char>>) -> Option<Seq<char>> {
    match header {
        Some(h) => if trim(h).len() > 0 {
            Some(trim(h))
        } else {
            None
        },
        None => None,
    }
}

impl CompletionInput {
    /// The completion input of a request; `session_header` is the value of the
    /// configured session header, where the request has one that is text.
    /// A request without user text is refused.
    pub fn from_request(body: &ChatCompletionRequest, session_header: Option<&str>, default_model: &str) -> (r: Result<Self, CompletionError>)
        ensures
            trim(spec_user_msg(*body)).len() == 0 <==> r is Err,
            match r {
                Ok(input) => {
                    &&& input.user_msg@ == spec_user_msg(*body)
                    &&& input.model@ == spec_request_model(*body, default_model@)
                    &&& input.stream == match body.stream {
                        Some(b) => b,
                        None => false,
                    }
                    &&& opt_view(input.external_session_id) == spec_external_session(
                        match session_header {
                            Some(h) => Some(h@),
                            None => None,
                        },
                    )
                },
                Err(e) => e matches CompletionError::InvalidRequest(m) && m@ == "no user message in messages"@,
            },
    {
        let user_msg = if body.messages.len() > 1 {
            format_messages_as_prompt(body.messages.as_slice())
        } else {
            extract_user_message(body.messages.as_slice())
        };
        if trim_str(user_msg.as_str()).is_empty() {
            return Err(CompletionError::InvalidRequest("no user message in messages".to_owned()));
        }
        let model = match &body.model {
            Some(m) => if m.as_str().is_empty() {
                default_model.to_owned()
            } else {
                m.clone()
            },
            None => default_model.to_owned(),
        };
        let stream = match body.stream {
            Some(b) => b,
            None => false,
        };
        let external_session_id = match session_header {
            Some(h) => {
                let t = trim_str(h);
                if t.is_empty() {
                    None
                } else {
                    Some(t.to_owned())
                }
            },
            None => None,
        };
        Ok(CompletionInput { user_msg, model, stream, external_session_id })
    }
}

/// Where a buffered completion stands between runs of cursor-agent.
#[derive(Debug)]
pub struct RetryState {
    /// The completion id: one per request, the same across all its runs.
    pub id: String,
    /// The cursor session the next run resumes, if any.
    pub resume: Option<String>,
    /// The model the next run asks for.
    pub model: String,
    pub no_content_retried: bool,
    pub fallback_retried: bool,
}

/// What to do after a run of cursor-agent.
#[derive(Debug, PartialEq, Eq, Structural)]
pub enum RetryStep {
    /// The run produced an answer: return it.
    Accept,
    /// The run was cut off by the request timeout: the completion fails with
    /// `Timeout`, whatever part of an answer it had.
    TimedOut,
    /// No answer while resuming a session: forget the session mapping and run
    /// again without resuming.
    DropSessionAndRetry,
    /// No answer: run once more as before.
    RetryOnce,
    /// Still no answer: run again with the fallback model.
    RetryWithFallback,
    /// No answer and no retry left: the completion fails with `NoContent`.
    GiveUp,
}

/// How many more runs the retry rules can still grant.
pub open spec fn retries_left(resume: bool, no_content_retried: bool, fallback_retried: bool) -> nat {
    (if resume {
        1nat
    } else {
        0nat
    }) + (if no_content_retried {
        0nat
    } else {
        1nat
    }) + (if fallback_retried {
        0nat
    } else {
        1nat
    })
}

/// The retry budget of a state.
pub open spec fn state_retries_left(s: RetryState) -> nat {
    retries_left(s.resume is Some, s.no_content_retried, s.fallback_retried)
}

/// The step the retry rules take after a run: a run cut off by the timeout
/// ends the completion; an answer is accepted; a silent run that resumed a
/// session drops the session; then one plain retry; then one retry with a
/// fallback model that differs from the current one.
pub open spec fn spec_retry_step(s: RetryState, timed_out: bool, output_empty: bool, has_external_session: bool, fallback_model: Option<Seq<char>>) -> RetryStep {
    if timed_out {
        RetryStep::TimedOut
    } else if !output_empty {
        RetryStep::Accept
    } else if has_external_session && s.resume is Some {
        RetryStep::DropSessionAndRetry
    } else if !s.no_content_retried {
        RetryStep::RetryOnce
    } else if !s.fallback_retried && match fallback_model {
        Some(fb) => fb != s.model@,
        None => false,
    } {
        RetryStep::RetryWithFallback
    } else {
        RetryStep::GiveUp
    }
}

impl RetryState {
    /// The state before the first run.
    pub fn start(id: String, resume: Option<String>, model: String) -> (r: Self)
        ensures
            r.id == id,
            r.resume == resume,
            r.model == model,
            !r.no_content_retried,
            !r.fallback_retried,
    {
        RetryState { id, resume, model, no_content_retried: false, fallback_retried: false }
    }

    /// Decides what follows a run that was (or was not) cut off by the timeout
    /// and whose output was (or was not) empty, and updates the state for the
    /// next run; the completion id never changes.
    pub fn next_step(&mut self, timed_out: bool, output_empty: bool, has_external_session: bool, fallback_model: Option<&str>) -> (r: RetryStep)
        ensures
            r == spec_retry_step(*old(self), timed_out, output_empty, has_external_session, match fallback_model {
                Some(f) => Some(f@),
                None => None,
            }),
            final(self).id == old(self).id,
            r == RetryStep::Accept || r == RetryStep::GiveUp || r == RetryStep::TimedOut ==> *final(self) == *old(self),
            r == RetryStep::DropSessionAndRetry ==> final(self).resume is None && final(self).model == old(self).model
                && final(self).no_content_retried == old(self).no_content_retried
                && final(self).fallback_retried == old(self).fallback_retried,
            r == RetryStep::RetryOnce ==> final(self).no_content_retried && final(self).resume == old(self).resume
                && final(self).model == old(self).model && final(self).fallback_retried == old(self).fallback_retried,
            r == RetryStep::RetryWithFallback ==> final(self).fallback_retried && Some(final(self).model@) == match fallback_model {
                Some(f) => Some(f@),
                None => None,
            } && final(self).resume == old(self).resume && final(self).no_content_retried == old(self).no_content_retried,
            r != RetryStep::Accept && r != RetryStep::GiveUp && r != RetryStep::TimedOut ==> state_retries_left(*final(self))
                < state_retries_left(*old(self)),
    {
        if timed_out {
            return RetryStep::TimedOut;
        }
        if !output_empty {
            return RetryStep::Accept;
        }
        if has_external_session && self.resume.is_some() {
            self.resume = None;
            return RetryStep::DropSessionAndRetry;
        }
        if !self.no_content_retried {
            self.no_content_retried = true;
            return RetryStep::RetryOnce;
        }
        if !self.fallback_retried {
            match fallback_model {
                Some(fb) => {
                    if !str_eq(fb, self.model.as_str()) {
                        self.fallback_retried = true;
                        self.model = fb.to_owned();
                        return RetryStep::RetryWithFallback;
                    }
                },
                None => {},
            }
        }
        RetryStep::GiveUp
    }
}

/// A buffered completion runs cursor-agent at most four times: each retry
/// spends one of at most three retries.
pub proof fn law_retry_budget(s: RetryState)
    ensures
        state_retries_left(s) <= 3,
{
}

/// A run cut off by the timeout always ends the completion with a timeout;
/// every other run that produced output is accepted; and a silent run is given
/// up only when no retry is left to take.
pub proof fn law_retry_outcomes(s: RetryState, timed_out: bool, output_empty: bool, has_external_session: bool, fallback_model: Option<Seq<char>>)
    ensures
        (spec_retry_step(s, timed_out, output_empty, has_external_session, fallback_model) == RetryStep::TimedOut) <==> timed_out,
        (spec_retry_step(s, timed_out, output_empty, has_external_session, fallback_model) == RetryStep::Accept) <==> (!timed_out && !output_empty),
        spec_retry_step(s, timed_out, output_empty, has_external_session, fallback_model) == RetryStep::GiveUp ==> {
            &&& s.no_content_retried
            &&& !(has_external_session && s.resume is Some)
            &&& (s.fallback_retried || fallback_model is None || fallback_model == Some(s.model@))
        },
{
}

/// The error a step ends the completion with: `Timeout` for a run cut off by
/// the timeout, `NoContent` when no retry is left, none while the completion
/// goes on or is accepted.
pub fn step_failure(step: &RetryStep) -> (r: Option<CompletionError>)
    ensures
        match step {
            RetryStep::TimedOut => r matches Some(CompletionError::Timeout),
            RetryStep::GiveUp => r matches Some(CompletionError::NoContent),
            _ => r is None,
        },
{
    match step {
        RetryStep::TimedOut => Some(CompletionError::Timeout),
        RetryStep::GiveUp => Some(CompletionError::NoContent),
        _ => None,
    }
}

/// Lowercase hexadecimal digits.
pub open spec fn is_lower_hex(s: Seq<char>) -> bool {
    forall|i: int| 0 <= i < s.len() ==> ('0' <= #[trigger] s[i] <= '9' || 'a' <= s[i] <= 'f')
}

/// The digit that marks the RFC 4122 variant: 8, 9, a or b.
pub open spec fn is_variant_digit(c: char) -> bool {
    c == '8' || c == '9' || c == 'a' || c == 'b'
}

/// A version-4 UUID in simple form: 32 lowercase hexadecimal digits, the
/// thirteenth the version digit 4, the seventeenth a variant digit.
pub open spec fn is_v4_simple(u: Seq<char>) -> bool {
    &&& u.len() == 32
    &&& is_lower_hex(u)
    &&& u[12] == '4'
    &&& is_variant_digit(u[16])
}

/// `Uuid::new_v4().simple().to_string()`. Claims what the crate fixes: `new_v4`
/// masks in the version nibble 4 and the variant bits `10`, and the `Simple`
/// formatter writes 32 lowercase hexadecimal digits. Which other digits is
/// chance.
#[verifier::external_body]
fn uuid_v4_simple() -> (r: String)
    ensures
        is_v4_simple(r@),
{
    uuid::Uuid::new_v4().simple().to_string()
}

/// A fresh completion id: "chatcmpl-" and a random version-4 UUID in simple
/// form.
pub fn new_completion_id() -> (r: String)
    ensures
        exists|u: Seq<char>| is_v4_simple(u) && r@ == "chatcmpl-"@ + u,
{
    let u = uuid_v4_simple();
    let mut id = "chatcmpl-".to_owned();
    id.append(u.as_str());
    assert(id@ == "chatcmpl-"@ + u@);
    id
}

/// The completion service: the configuration, the session store it resolves
/// sessions in, and the per-request timeout.
pub struct CompletionService<S> {
    config: Arc<Config>,
    session_store: S,
    timeout_secs: u64,
}

/// The executable a cursor-path lookup found, if any.
pub open spec fn found_path(r: Result<String, CompletionError>) -> Option<String> {
    match r {
        Ok(p) => Some(p),
        Err(_) => None,
    }
}

impl<S> CompletionService<S> {
    /// The configuration the service runs with.
    pub closed spec fn spec_config(&self) -> Config {
        *self.config
    }

    /// The session store.
    pub closed spec fn spec_session_store(&self) -> S {
        self.session_store
    }

    /// The timeout of one run, in seconds.
    pub closed spec fn spec_timeout_secs(&self) -> u64 {
        self.timeout_secs
    }

    /// A service over `config` and `session_store`; runs time out after the
    /// configured `request_timeout_sec`.
    pub fn new(config: Arc<Config>, session_store: S) -> (r: Self)
        ensures
            r.spec_config() == *config,
            r.spec_session_store() == session_store,
            r.spec_timeout_secs() == config.request_timeout_sec,
    {
        let timeout_secs = config.request_timeout_sec;
        CompletionService { config, session_store, timeout_secs }
    }

    /// The configuration.
    pub fn config(&self) -> (r: &Config)
        ensures
            *r == self.spec_config(),
    {
        &self.config
    }

    /// The session store.
    pub fn session_store(&self) -> (r: &S)
        ensures
            *r == self.spec_session_store(),
    {
        &self.session_store
    }

    /// The timeout of one run, in seconds.
    pub fn timeout_secs(&self) -> (r: u64)
        ensures
            r == self.spec_timeout_secs(),
    {
        self.timeout_secs
    }

    /// The cursor-agent executable, or `CursorNotFound` when neither the
    /// configured path nor `detect` yields one; for the disk's answer to
    /// whether the configured path exists, it is what
    /// `Config::resolve_cursor_path_given` returns.
    pub fn cursor_path<F: FnOnce() -> Option<String>>(&self, detect: F) -> (r: Result<String, CompletionError>)
        requires
            detect.requires(()),
        ensures
            exists|configured_exists: bool| resolved_path(opt_view(self.spec_config().cursor_path), configured_exists, detect, found_path(r)),
            r matches Err(e) ==> e is CursorNotFound,
            match r {
                Ok(p) => match self.spec_config().cursor_path {
                    Some(c) => (c@.len() > 0 && p@ == c@) || detect.ensures((), Some(p)),
                    None => detect.ensures((), Some(p)),
                },
                Err(e) => e is CursorNotFound && detect.ensures((), None),
            },
    {
        match self.config.resolve_cursor_path(detect) {
            Some(p) => Ok(p),
            None => Err(CompletionError::CursorNotFound),
        }
    }

    /// How cursor-agent is started: in the configured workspace, with the
    /// configured sandbox, in "agent" mode and without `--force`.
    pub fn spawn_options(&self) -> (r: SpawnOptions)
        ensures
            r.workspace_dir is Some,
            match self.spec_config().minimal_workspace_dir {
                Some(d) => d@.len() > 0 ==> opt_view(r.workspace_dir) == Some(d@),
                None => true,
            },
            match r.workspace_dir {
                Some(x) => match self.spec_config().minimal_workspace_dir {
                    Some(d) => d@.len() > 0 || is_home_brain_path("workspace"@, x@),
                    None => is_home_brain_path("workspace"@, x@),
                },
                None => true,
            },
            r.agent_mode@ == "agent"@,
            r.sandbox@ == self.spec_config().sandbox@,
            !r.allow_agent_write,
    {
        SpawnOptions {
            workspace_dir: self.config.workspace_dir_for_spawn(),
            agent_mode: "agent".to_owned(),
            sandbox: self.config.sandbox.clone(),
            allow_agent_write: false,
        }
    }
}

} // verus!
