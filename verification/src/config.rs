//! Configuration: the built-in defaults, how `config.json` overrides them, and
//! the paths under the `.cursor-brain` directory of the user's home.

use vstd::prelude::*;
use crate::cursor::opt_view;
use crate::json::{bool_field, get_bool, json_get, get_str, get_u64, json_parse, parse_json, str_field, u64_field, JsonValue};
use crate::cursor::string_views;
use crate::text::{eq_ignore_ascii_case, lines, lines_of, str_eq_ignore_ascii_case, str_views, trim, trim_str};

verus! {

/// Default port for the HTTP server.
pub const DEFAULT_PORT: u16 = 3001;

/// Default request timeout in seconds.
pub const DEFAULT_REQUEST_TIMEOUT_SEC: u64 = 300;

/// Default session cache capacity (LRU).
pub const DEFAULT_SESSION_CACHE_MAX: u32 = 1000;

/// Default HTTP header name for the external session id.
pub const DEFAULT_SESSION_HEADER_NAME: &'static str = "x-session-id";

/// The service configuration.
#[derive(Clone, Debug)]
pub struct Config {
    pub cursor_path: Option<String>,
    pub port: u16,
    /// Bind address, e.g. "0.0.0.0" or "127.0.0.1".
    pub bind_address: String,
    pub request_timeout_sec: u64,
    pub session_cache_max: u32,
    pub session_header_name: String,
    pub default_model: Option<String>,
    pub fallback_model: Option<String>,
    /// Workspace dir for cursor-agent; no project MCP.
    pub minimal_workspace_dir: Option<String>,
    /// "ask" | "agent"
    pub agent_mode: String,
    /// "enabled" | "disabled"
    pub sandbox: String,
    /// If false, do not pass --force to cursor-agent.
    pub allow_agent_write: bool,
    /// How to return thinking: "off" | "content" | "reasoning_content".
    pub forward_thinking: String,
}

/// The mathematical content of a `Config`.
pub struct ConfigView {
    pub cursor_path: Option<Seq<char>>,
    pub port: u16,
    pub bind_address: Seq<char>,
    pub request_timeout_sec: u64,
    pub session_cache_max: u32,
    pub session_header_name: Seq<char>,
    pub default_model: Option<Seq<char>>,
    pub fallback_model: Option<Seq<char>>,
    pub minimal_workspace_dir: Option<Seq<char>>,
    pub agent_mode: Seq<char>,
    pub sandbox: Seq<char>,
    pub allow_agent_write: bool,
    pub forward_thinking: Seq<char>,
}

impl View for Config {
    type V = ConfigView;

    open spec fn view(&self) -> ConfigView {
        ConfigView {
            cursor_path: opt_view(self.cursor_path),
            port: self.port,
            bind_address: self.bind_address@,
            request_timeout_sec: self.request_timeout_sec,
            session_cache_max: self.session_cache_max,
            session_header_name: self.session_header_name@,
            default_model: opt_view(self.default_model),
            fallback_model: opt_view(self.fallback_model),
            minimal_workspace_dir: opt_view(self.minimal_workspace_dir),
            agent_mode: self.agent_mode@,
            sandbox: self.sandbox@,
            allow_agent_write: self.allow_agent_write,
            forward_thinking: self.forward_thinking@,
        }
    }
}

/// The configuration in force when `config.json` sets nothing.
pub open spec fn default_config_view() -> ConfigView {
    ConfigView {
        cursor_path: None,
        port: 3001,
        bind_address: "0.0.0.0"@,
        request_timeout_sec: 300,
        session_cache_max: 1000,
        session_header_name: "x-session-id"@,
        default_model: None,
        fallback_model: None,
        minimal_workspace_dir: None,
        agent_mode: "agent"@,
        sandbox: "enabled"@,
        allow_agent_write: true,
        forward_thinking: "content"@,
    }
}

/// The value under a reference, if there is one.
pub open spec fn deref_json(v: Option<&JsonValue>) -> Option<JsonValue> {
    match v {
        Some(x) => Some(*x),
        None => None,
    }
}

/// A string member of an optional document.
pub open spec fn doc_str(v: Option<JsonValue>, key: Seq<char>) -> Option<Seq<char>> {
    match v {
        Some(x) => str_field(x, key),
        None => None,
    }
}

/// An unsigned integer member of an optional document.
pub open spec fn doc_u64(v: Option<JsonValue>, key: Seq<char>) -> Option<u64> {
    match v {
        Some(x) => u64_field(x, key),
        None => None,
    }
}

/// A boolean member of an optional document.
pub open spec fn doc_bool(v: Option<JsonValue>, key: Seq<char>) -> Option<bool> {
    match v {
        Some(x) => bool_field(x, key),
        None => None,
    }
}

/// A string setting: the document's non-empty string, else the default.
pub open spec fn nonempty_or(s: Option<Seq<char>>, d: Seq<char>) -> Seq<char> {
    match s {
        Some(x) => if x.len() > 0 {
            x
        } else {
            d
        },
        None => d,
    }
}

/// An optional string setting: the document's non-empty string, if any.
pub open spec fn nonempty_opt(s: Option<Seq<char>>) -> Option<Seq<char>> {
    match s {
        Some(x) => if x.len() > 0 {
            Some(x)
        } else {
            None
        },
        None => None,
    }
}

/// `forward_thinking`: one of the three modes, compared without regard to ASCII
/// case, else "content".
pub open spec fn forward_thinking_of(s: Option<Seq<char>>) -> Seq<char> {
    match s {
        Some(x) => if eq_ignore_ascii_case(x, "off"@) {
            "off"@
        } else if eq_ignore_ascii_case(x, "content"@) {
            "content"@
        } else if eq_ignore_ascii_case(x, "reasoning_content"@) {
            "reasoning_content"@
        } else {
            "content"@
        },
        None => "content"@,
    }
}

/// The configuration that a parsed `config.json` (or none) gives: each key
/// that holds a value of the right kind overrides its default; numbers are
/// clamped to their ranges.
pub open spec fn spec_config_from_json(v: Option<JsonValue>) -> ConfigView {
    ConfigView {
        cursor_path: doc_str(v, "cursor_path"@),
        port: match doc_u64(v, "port"@) {
            Some(p) => if p < 1 {
                1
            } else if p > 65535 {
                65535
            } else {
                p as u16
            },
            None => 3001,
        },
        bind_address: nonempty_or(doc_str(v, "bind_address"@), "0.0.0.0"@),
        request_timeout_sec: match doc_u64(v, "request_timeout_sec"@) {
            Some(t) => if t < 1 {
                1
            } else {
                t
            },
            None => 300,
        },
        session_cache_max: match doc_u64(v, "session_cache_max"@) {
            Some(n) => if n < 1 {
                1
            } else if n > 1_000_000 {
                1_000_000
            } else {
                n as u32
            },
            None => 1000,
        },
        session_header_name: nonempty_or(doc_str(v, "session_header_name"@), "x-session-id"@),
        default_model: nonempty_opt(doc_str(v, "default_model"@)),
        fallback_model: nonempty_opt(doc_str(v, "fallback_model"@)),
        minimal_workspace_dir: nonempty_opt(doc_str(v, "minimal_workspace_dir"@)),
        agent_mode: nonempty_or(doc_str(v, "agent_mode"@), "agent"@),
        sandbox: nonempty_or(doc_str(v, "sandbox"@), "enabled"@),
        allow_agent_write: match doc_bool(v, "allow_agent_write"@) {
            Some(b) => b,
            None => true,
        },
        forward_thinking: forward_thinking_of(doc_str(v, "forward_thinking"@)),
    }
}

/// The configuration that the text of `config.json` gives (`None` when there is
/// no readable file); text that does not parse gives the defaults.
pub open spec fn spec_config_from_text(text: Option<Seq<char>>) -> ConfigView {
    match text {
        Some(t) => spec_config_from_json(json_parse(t)),
        None => spec_config_from_json(None),
    }
}

fn doc_get_str<'a>(v: Option<&'a JsonValue>, key: &str) -> (r: Option<&'a String>)
    ensures
        match r {
            Some(s) => doc_str(deref_json(v), key@) == Some(s@),
            None => doc_str(deref_json(v), key@) is None,
        },
{
    match v {
        Some(x) => get_str(x, key),
        None => None,
    }
}

fn doc_get_u64(v: Option<&JsonValue>, key: &str) -> (r: Option<u64>)
    ensures
        r == doc_u64(deref_json(v), key@),
{
    match v {
        Some(x) => get_u64(x, key),
        None => None,
    }
}

fn doc_get_bool(v: Option<&JsonValue>, key: &str) -> (r: Option<bool>)
    ensures
        r == doc_bool(deref_json(v), key@),
{
    match v {
        Some(x) => get_bool(x, key),
        None => None,
    }
}

fn setting_or(v: Option<&JsonValue>, key: &str, default: &str) -> (r: String)
    ensures
        r@ == nonempty_or(doc_str(deref_json(v), key@), default@),
{
    match doc_get_str(v, key) {
        Some(s) => if s.as_str().is_empty() {
            default.to_owned()
        } else {
            s.clone()
        },
        None => default.to_owned(),
    }
}

fn optional_setting(v: Option<&JsonValue>, key: &str) -> (r: Option<String>)
    ensures
        opt_view(r) == nonempty_opt(doc_str(deref_json(v), key@)),
{
    match doc_get_str(v, key) {
        Some(s) => if s.as_str().is_empty() {
            None
        } else {
            Some(s.clone())
        },
        None => None,
    }
}

fn forward_thinking_setting(v: Option<&JsonValue>) -> (r: String)
    ensures
        r@ == forward_thinking_of(doc_str(deref_json(v), "forward_thinking"@)),
{
    match doc_get_str(v, "forward_thinking") {
        Some(s) => if str_eq_ignore_ascii_case(s.as_str(), "off") {
            "off".to_owned()
        } else if str_eq_ignore_ascii_case(s.as_str(), "content") {
            "content".to_owned()
        } else if str_eq_ignore_ascii_case(s.as_str(), "reasoning_content") {
            "reasoning_content".to_owned()
        } else {
            "content".to_owned()
        },
        None => "content".to_owned(),
    }
}

/// The configuration that a parsed `config.json` gives (`None`: no document).
pub fn config_from_json(v: Option<&JsonValue>) -> (r: Config)
    ensures
        r@ == spec_config_from_json(deref_json(v)),
{
    let cursor_path = match doc_get_str(v, "cursor_path") {
        Some(s) => Some(s.clone()),
        None => None,
    };
    let port: u16 = match doc_get_u64(v, "port") {
        Some(p) => if p < 1 {
            1
        } else if p > 65535 {
            65535
        } else {
            p as u16
        },
        None => DEFAULT_PORT,
    };
    let request_timeout_sec: u64 = match doc_get_u64(v, "request_timeout_sec") {
        Some(t) => if t < 1 {
            1
        } else {
            t
        },
        None => DEFAULT_REQUEST_TIMEOUT_SEC,
    };
    let session_cache_max: u32 = match doc_get_u64(v, "session_cache_max") {
        Some(n) => if n < 1 {
            1
        } else if n > 1_000_000 {
            1_000_000
        } else {
            n as u32
        },
        None => DEFAULT_SESSION_CACHE_MAX,
    };
    let allow_agent_write = match doc_get_bool(v, "allow_agent_write") {
        Some(b) => b,
        None => true,
    };
    Config {
        cursor_path,
        port,
        bind_address: setting_or(v, "bind_address", "0.0.0.0"),
        request_timeout_sec,
        session_cache_max,
        session_header_name: setting_or(v, "session_header_name", DEFAULT_SESSION_HEADER_NAME),
        default_model: optional_setting(v, "default_model"),
        fallback_model: optional_setting(v, "fallback_model"),
        minimal_workspace_dir: optional_setting(v, "minimal_workspace_dir"),
        agent_mode: setting_or(v, "agent_mode", "agent"),
        sandbox: setting_or(v, "sandbox", "enabled"),
        allow_agent_write,
        forward_thinking: forward_thinking_setting(v),
    }
}

/// The configuration that the text of `config.json` gives; `None` stands for a
/// missing or unreadable file.
pub fn config_from_text(text: Option<&str>) -> (r: Config)
    ensures
        r@ == spec_config_from_text(match text {
            Some(t) => Some(t@),
            None => None,
        }),
{
    match text {
        Some(t) => {
            let parsed = parse_json(t);
            config_from_json(parsed.as_ref())
        },
        None => config_from_json(None),
    }
}


/// The keys that `config.json` may set.
pub open spec fn config_keys() -> Seq<Seq<char>> {
    seq![
        "cursor_path"@,
        "port"@,
        "bind_address"@,
        "request_timeout_sec"@,
        "session_cache_max"@,
        "session_header_name"@,
        "default_model"@,
        "fallback_model"@,
        "minimal_workspace_dir"@,
        "agent_mode"@,
        "sandbox"@,
        "allow_agent_write"@,
        "forward_thinking"@,
    ]
}

/// Missing keys use the built-in defaults: no file, or a document that sets
/// none of the keys, gives the default configuration.
pub proof fn law_missing_keys_use_defaults(v: JsonValue)
    requires
        forall|i: int| 0 <= i < config_keys().len() ==> json_get(v, #[trigger] config_keys()[i]) is None,
    ensures
        spec_config_from_json(Some(v)) == default_config_view(),
        spec_config_from_json(None) == default_config_view(),
        spec_config_from_text(None) == default_config_view(),
{
    assert(json_get(v, config_keys()[0]) is None);
    assert(json_get(v, config_keys()[1]) is None);
    assert(json_get(v, config_keys()[2]) is None);
    assert(json_get(v, config_keys()[3]) is None);
    assert(json_get(v, config_keys()[4]) is None);
    assert(json_get(v, config_keys()[5]) is None);
    assert(json_get(v, config_keys()[6]) is None);
    assert(json_get(v, config_keys()[7]) is None);
    assert(json_get(v, config_keys()[8]) is None);
    assert(json_get(v, config_keys()[9]) is None);
    assert(json_get(v, config_keys()[10]) is None);
    assert(json_get(v, config_keys()[11]) is None);
    assert(json_get(v, config_keys()[12]) is None);
}

/// A configuration as `config.json` can hold it: numbers in their ranges,
/// non-blank strings, optional settings absent or non-blank, and one of the
/// three thinking modes.
pub open spec fn config_is_valid(c: ConfigView) -> bool {
    &&& c.port >= 1
    &&& c.request_timeout_sec >= 1
    &&& 1 <= c.session_cache_max <= 1_000_000
    &&& c.bind_address.len() > 0
    &&& c.session_header_name.len() > 0
    &&& c.agent_mode.len() > 0
    &&& c.sandbox.len() > 0
    &&& (c.default_model matches Some(m) ==> m.len() > 0)
    &&& (c.fallback_model matches Some(m) ==> m.len() > 0)
    &&& (c.minimal_workspace_dir matches Some(m) ==> m.len() > 0)
    &&& (c.forward_thinking == "off"@ || c.forward_thinking == "content"@ || c.forward_thinking == "reasoning_content"@)
}

/// `v` is a `config.json` document that writes `c`: every key holds its
/// setting, and an absent optional setting holds no string.
pub open spec fn document_holds(v: JsonValue, c: ConfigView) -> bool {
    &&& str_field(v, "cursor_path"@) == c.cursor_path
    &&& u64_field(v, "port"@) == Some(c.port as u64)
    &&& str_field(v, "bind_address"@) == Some(c.bind_address)
    &&& u64_field(v, "request_timeout_sec"@) == Some(c.request_timeout_sec)
    &&& u64_field(v, "session_cache_max"@) == Some(c.session_cache_max as u64)
    &&& str_field(v, "session_header_name"@) == Some(c.session_header_name)
    &&& str_field(v, "default_model"@) == c.default_model
    &&& str_field(v, "fallback_model"@) == c.fallback_model
    &&& str_field(v, "minimal_workspace_dir"@) == c.minimal_workspace_dir
    &&& str_field(v, "agent_mode"@) == Some(c.agent_mode)
    &&& str_field(v, "sandbox"@) == Some(c.sandbox)
    &&& bool_field(v, "allow_agent_write"@) == Some(c.allow_agent_write)
    &&& str_field(v, "forward_thinking"@) == Some(c.forward_thinking)
}

/// A written configuration reads back unchanged: the document of a valid
/// configuration gives that configuration again.
pub proof fn law_config_round_trip(c: ConfigView, v: JsonValue)
    requires
        config_is_valid(c),
        document_holds(v, c),
    ensures
        spec_config_from_json(Some(v)) == c,
{
    reveal_strlit("off");
    reveal_strlit("content");
    reveal_strlit("reasoning_content");
    let f = c.forward_thinking;
    assert(eq_ignore_ascii_case(f, f));
    assert(forward_thinking_of(Some(f)) == f);
}

/// Whatever the file says, the settings stay in their ranges: a port in
/// 1..=65535, a timeout of at least a second, a cache of 1 to 1,000,000
/// sessions, and one of the three thinking modes.
pub proof fn law_config_in_range(text: Option<Seq<char>>)
    ensures
        spec_config_from_text(text).port >= 1,
        spec_config_from_text(text).request_timeout_sec >= 1,
        1 <= spec_config_from_text(text).session_cache_max <= 1_000_000,
        spec_config_from_text(text).forward_thinking == "off"@ || spec_config_from_text(text).forward_thinking
            == "content"@ || spec_config_from_text(text).forward_thinking == "reasoning_content"@,
{
}

/// The verbatim path prefix `\\?\`.
pub open spec fn verbatim_prefix() -> Seq<char> {
    seq!['\\', '\\', '?', '\\']
}

/// `p` begins with the verbatim prefix.
pub open spec fn is_verbatim(p: Seq<char>) -> bool {
    p.len() >= 4 && p.take(4) == verbatim_prefix()
}

/// A piece that `Path::join` adjoins rather than substitutes on every
/// platform: it begins with no separator (no root, no UNC prefix) and holds no
/// drive colon.
pub open spec fn is_relative_piece(part: Seq<char>) -> bool {
    &&& !(part.len() > 0 && (part[0] == '/' || part[0] == '\\'))
    &&& !part.contains(':')
}

/// `Path::join` adjoins plainly: the piece is relative and the base is not a
/// verbatim (`\\?\`) path.
pub open spec fn join_is_plain(base: Seq<char>, part: Seq<char>) -> bool {
    &&& is_relative_piece(part)
    &&& !is_verbatim(base)
}

/// `r` is `part` adjoined to `base` as `PathBuf::push` does it: no separator
/// after an empty base or one that ends in `/`; one separator (`/` or `\`, the
/// platform's) after a base that ends in any other character but `\` or `:`;
/// after `\` or `:`, which are separators or drive ends on some platforms
/// only, either.
pub open spec fn joined(base: Seq<char>, part: Seq<char>, r: Seq<char>) -> bool {
    if base.len() == 0 || base.last() == '/' {
        r == base + part
    } else if base.last() == '\\' || base.last() == ':' {
        ||| r == base + part
        ||| r == base + seq!['/'] + part
        ||| r == base + seq!['\\'] + part
    } else {
        ||| r == base + seq!['/'] + part
        ||| r == base + seq!['\\'] + part
    }
}

/// What `path_join(base, part)` is known to give: the plain adjoining where the
/// join is plain; a result that keeps the verbatim prefix of a verbatim base
/// for a relative piece; and a result that ends with `part` when it is one
/// ordinary component.
pub open spec fn join_result(base: Seq<char>, part: Seq<char>, r: Seq<char>) -> bool {
    &&& (join_is_plain(base, part) ==> joined(base, part, r))
    &&& (is_relative_piece(part) && is_verbatim(base) ==> is_verbatim(r))
    &&& (is_plain_component(part) ==> ends_with(r, part))
}

/// One ordinary path component: not empty, no separator or drive colon, and
/// not "." or "..".
pub open spec fn is_plain_component(p: Seq<char>) -> bool {
    &&& p.len() > 0
    &&& !p.contains('/')
    &&& !p.contains('\\')
    &&& !p.contains(':')
    &&& p != seq!['.']
    &&& p != seq!['.', '.']
}

/// `s` ends with `suffix`.
pub open spec fn ends_with(s: Seq<char>, suffix: Seq<char>) -> bool {
    s.len() >= suffix.len() && s.subrange(s.len() - suffix.len(), s.len() as int) == suffix
}

/// `Path::new(base).join(part)` as a string. Claims what the documentation of
/// `PathBuf::push` gives: a relative piece is adjoined to a base that is not
/// verbatim with a separator only where the base does not already end in one
/// (see `joined`); a verbatim base keeps its prefix, the new path only being
/// normalized; and one ordinary component ends the result. Says nothing else
/// of pieces with a root or a drive, nor which separator the platform uses.
#[verifier::external_body]
pub(crate) fn path_join(base: &str, part: &str) -> (r: String)
    ensures
        join_result(base@, part@, r@),
{
    std::path::Path::new(base).join(part).to_string_lossy().into_owned()
}

/// `dirs::home_dir()` as a string. Which directory it is, if any, is the
/// environment's; claimed is only that it is never empty: the crate uses
/// `$HOME` only when it is set and not empty, and otherwise the password
/// entry's home field only when that is not empty (Windows: the profile
/// folder's path), and a lossy conversion of a non-empty path is not empty.
#[verifier::external_body]
fn home_dir() -> (r: Option<String>)
    ensures
        r matches Some(h) ==> h@.len() > 0,
{
    dirs::home_dir().map(|p| p.to_string_lossy().into_owned())
}

/// `Path::new(p).exists()`. Nothing is claimed of the result: it is the disk's.
#[verifier::external_body]
pub(crate) fn path_exists(p: &str) -> bool {
    std::path::Path::new(p).exists()
}

/// The data root for a home directory lookup that gave `home`: that
/// directory, or "." where there is none.
pub fn home_or_current(home: Option<String>) -> (r: String)
    ensures
        r@ == match home {
            Some(h) => h@,
            None => "."@,
        },
{
    match home {
        Some(h) => h,
        None => ".".to_owned(),
    }
}

/// The data root: the user's home directory, or "." where there is none.
/// Whichever it is, it is not empty.
pub fn cursor_brain_home_dir() -> (r: String)
    ensures
        r@.len() > 0,
{
    let home = home_dir();
    proof {
        reveal_strlit(".");
    }
    home_or_current(home)
}

/// `file` in the `.cursor-brain` directory under `home`.
pub open spec fn is_brain_path(home: Seq<char>, file: Seq<char>, r: Seq<char>) -> bool {
    exists|dir: Seq<char>| join_result(home, ".cursor-brain"@, dir) && #[trigger] join_result(dir, file, r)
}

/// `file` in the `.cursor-brain` directory of some non-empty home directory.
pub open spec fn is_home_brain_path(file: Seq<char>, r: Seq<char>) -> bool {
    exists|home: Seq<char>| home.len() > 0 && #[trigger] is_brain_path(home, file, r)
}

proof fn lemma_plain_component_literal_sessions_json()
    ensures
        is_plain_component("sessions.json"@),
{
    reveal_strlit("sessions.json");
    let s = "sessions.json"@;
    assert forall|i: int| 0 <= i < s.len() implies s[i] != '/' && s[i] != '\\' && s[i] != ':' by {
    }
    assert(s.len() == 13);
}

proof fn lemma_plain_component_literal_workspace()
    ensures
        is_plain_component("workspace"@),
{
    reveal_strlit("workspace");
    let s = "workspace"@;
    assert forall|i: int| 0 <= i < s.len() implies s[i] != '/' && s[i] != '\\' && s[i] != ':' by {
    }
    assert(s.len() == 9);
}

proof fn lemma_plain_component_literal_cursor_brain_pid()
    ensures
        is_plain_component("cursor-brain.pid"@),
{
    reveal_strlit("cursor-brain.pid");
    let s = "cursor-brain.pid"@;
    assert forall|i: int| 0 <= i < s.len() implies s[i] != '/' && s[i] != '\\' && s[i] != ':' by {
    }
    assert(s.len() == 16);
}

/// The path of `file` in the `.cursor-brain` directory under `home`.
pub fn brain_path(home: &str, file: &str) -> (r: String)
    ensures
        is_brain_path(home@, file@, r@),
        is_plain_component(file@) ==> ends_with(r@, file@),
{
    let dir = path_join(home, ".cursor-brain");
    let r = path_join(dir.as_str(), file);
    assert(join_result(home@, ".cursor-brain"@, dir@) && join_result(dir@, file@, r@));
    r
}

/// Default session persistence file: `.cursor-brain/sessions.json` under home.
pub fn default_session_file_path() -> (r: String)
    ensures
        ends_with(r@, "sessions.json"@),
        is_home_brain_path("sessions.json"@, r@),
{
    proof {
        lemma_plain_component_literal_sessions_json();
    }
    let home = cursor_brain_home_dir();
    let r = brain_path(home.as_str(), "sessions.json");
    assert(is_brain_path(home@, "sessions.json"@, r@));
    r
}

/// Default minimal workspace dir (no `.cursor/mcp.json`): `.cursor-brain/workspace`.
pub fn default_minimal_workspace_dir() -> (r: String)
    ensures
        ends_with(r@, "workspace"@),
        is_home_brain_path("workspace"@, r@),
{
    proof {
        lemma_plain_component_literal_workspace();
    }
    let home = cursor_brain_home_dir();
    let r = brain_path(home.as_str(), "workspace");
    assert(is_brain_path(home@, "workspace"@, r@));
    r
}

/// PID file path for single-instance detection: `.cursor-brain/cursor-brain.pid`.
pub fn pid_file_path() -> (r: String)
    ensures
        ends_with(r@, "cursor-brain.pid"@),
        is_home_brain_path("cursor-brain.pid"@, r@),
{
    proof {
        lemma_plain_component_literal_cursor_brain_pid();
    }
    let home = cursor_brain_home_dir();
    let r = brain_path(home.as_str(), "cursor-brain.pid");
    assert(is_brain_path(home@, "cursor-brain.pid"@, r@));
    r
}

/// The configured executable is used: it is set, not blank, and the answer to
/// whether it exists was yes.
pub open spec fn configured_path_usable(cursor_path: Option<Seq<char>>, configured_exists: bool) -> bool {
    match cursor_path {
        Some(p) => p.len() > 0 && configured_exists,
        None => false,
    }
}

/// What resolution returns for a given answer to whether the configured path
/// exists: the configured path when it is usable, else what `detect` returned.
pub open spec fn resolved_path<F: FnOnce() -> Option<String>>(cursor_path: Option<Seq<char>>, configured_exists: bool, detect: F, r: Option<String>) -> bool {
    if configured_path_usable(cursor_path, configured_exists) {
        opt_view(r) == cursor_path
    } else {
        detect.ensures((), r)
    }
}

/// A configured path that is set, not blank and exists overrides detection:
/// whatever the detector would find, the configured path is the result.
pub proof fn law_configured_path_overrides<F: FnOnce() -> Option<String>>(p: Seq<char>, detect: F, r: Option<String>)
    requires
        p.len() > 0,
        resolved_path(Some(p), true, detect, r),
    ensures
        opt_view(r) == Some(p),
{
}

/// Detection decides only when the configured path is not usable: then the
/// result is one the detector can give.
pub proof fn law_detection_only_as_fallback<F: FnOnce() -> Option<String>>(cursor_path: Option<Seq<char>>, configured_exists: bool, detect: F, r: Option<String>)
    requires
        resolved_path(cursor_path, configured_exists, detect, r),
        !configured_path_usable(cursor_path, configured_exists),
    ensures
        detect.ensures((), r),
{
}

impl Config {
    /// The cursor-agent executable, given whether the configured `cursor_path`
    /// exists: that path when it is set, not blank, and exists; otherwise
    /// whatever `detect` finds (`detect` runs only then).
    pub fn resolve_cursor_path_given<F: FnOnce() -> Option<String>>(&self, configured_exists: bool, detect: F) -> (r: Option<String>)
        requires
            detect.requires(()),
        ensures
            resolved_path(opt_view(self.cursor_path), configured_exists, detect, r),
            match self.cursor_path {
                Some(p) => p@.len() > 0 && configured_exists ==> opt_view(r) == Some(p@),
                None => true,
            },
            !configured_path_usable(opt_view(self.cursor_path), configured_exists) ==> detect.ensures((), r),
    {
        match &self.cursor_path {
            Some(p) => {
                if !p.as_str().is_empty() && configured_exists {
                    return Some(p.clone());
                }
            },
            None => {},
        }
        detect()
    }

    /// The cursor-agent executable: the configured `cursor_path` when it is set,
    /// not blank, and exists; otherwise whatever `detect` finds. Whether the
    /// configured path exists is the disk's; the result is
    /// `resolve_cursor_path_given`'s for the answer the disk gave.
    pub fn resolve_cursor_path<F: FnOnce() -> Option<String>>(&self, detect: F) -> (r: Option<String>)
        requires
            detect.requires(()),
        ensures
            exists|configured_exists: bool| resolved_path(opt_view(self.cursor_path), configured_exists, detect, r),
            match self.cursor_path {
                Some(p) => if p@.len() > 0 {
                    opt_view(r) == Some(p@) || detect.ensures((), r)
                } else {
                    detect.ensures((), r)
                },
                None => detect.ensures((), r),
            },
    {
        let configured_exists = match &self.cursor_path {
            Some(p) => !p.as_str().is_empty() && path_exists(p.as_str()),
            None => false,
        };
        let r = self.resolve_cursor_path_given(configured_exists, detect);
        assert(resolved_path(opt_view(self.cursor_path), configured_exists, detect, r));
        r
    }

    /// The workspace directory cursor-agent runs in: the configured one when it
    /// is not blank, else the default under home.
    pub fn workspace_dir_for_spawn(&self) -> (r: Option<String>)
        ensures
            r is Some,
            match self.minimal_workspace_dir {
                Some(d) => d@.len() > 0 ==> opt_view(r) == Some(d@),
                None => true,
            },
            match r {
                Some(x) => match self.minimal_workspace_dir {
                    Some(d) => d@.len() > 0 || (ends_with(x@, "workspace"@) && is_home_brain_path("workspace"@, x@)),
                    None => ends_with(x@, "workspace"@) && is_home_brain_path("workspace"@, x@),
                },
                None => true,
            },
    {
        match &self.minimal_workspace_dir {
            Some(d) => if !d.as_str().is_empty() {
                return Some(d.clone());
            },
            None => {},
        }
        Some(default_minimal_workspace_dir())
    }
}


/// Step `i` of a chain of joins: `steps[i + 1]` is `steps[i]` joined with
/// `parts[i]`.
pub open spec fn join_step(steps: Seq<Seq<char>>, parts: Seq<Seq<char>>, i: int) -> bool {
    join_result(steps[i], parts[i], steps[i + 1])
}

/// `r` is `base` with each of `parts` joined on in turn by `path_join`.
pub open spec fn join_chain(base: Seq<char>, parts: Seq<Seq<char>>, r: Seq<char>) -> bool {
    exists|steps: Seq<Seq<char>>|
        {
            &&& #[trigger] steps.len() == parts.len() + 1
            &&& steps[0] == base
            &&& steps.last() == r
            &&& forall|i: int| 0 <= i < parts.len() ==> #[trigger] join_step(steps, parts, i)
        }
}

/// `base` with each of `parts` joined on in turn.
fn join_all(base: &str, parts: &Vec<&str>) -> (r: String)
    ensures
        join_chain(base@, str_views(parts@), r@),
{
    let ghost ps = str_views(parts@);
    let mut acc = base.to_owned();
    let ghost mut steps: Seq<Seq<char>> = seq![base@];
    let mut i: usize = 0;
    while i < parts.len()
        invariant
            i <= parts@.len(),
            ps == str_views(parts@),
            steps.len() == i + 1,
            steps[0] == base@,
            steps[i as int] == acc@,
            forall|j: int| 0 <= j < i ==> #[trigger] join_step(steps, ps, j),
        decreases parts@.len() - i,
    {
        let next = path_join(acc.as_str(), parts[i]);
        proof {
            let old_steps = steps;
            steps = steps.push(next@);
            assert forall|j: int| 0 <= j < i + 1 implies #[trigger] join_step(steps, ps, j) by {
                if j < i {
                    assert(join_step(old_steps, ps, j));
                    assert(steps[j] == old_steps[j]);
                    assert(steps[j + 1] == old_steps[j + 1]);
                } else {
                    assert(ps[j] == parts@[j]@);
                }
            }
        }
        acc = next;
        i += 1;
    }
    assert(steps.len() == ps.len() + 1 && steps[0] == base@ && steps.last() == acc@);
    acc
}

/// The places cursor-agent is looked for on Unix-like systems, in order:
/// `~/.local/bin/agent`, `/usr/local/bin/agent`, `~/.cursor/bin/agent`.
pub open spec fn unix_search_paths(home: Seq<char>, r: Seq<Seq<char>>) -> bool {
    &&& r.len() == 3
    &&& join_chain(home, seq![".local"@, "bin"@, "agent"@], r[0])
    &&& r[1] == "/usr/local/bin/agent"@
    &&& join_chain(home, seq![".cursor"@, "bin"@, "agent"@], r[2])
}

/// The places cursor-agent is looked for on Windows, in order, under the
/// local application data directory `local` and under `home`.
pub open spec fn windows_search_paths(home: Seq<char>, local: Seq<char>, r: Seq<Seq<char>>) -> bool {
    &&& r.len() == 5
    &&& join_chain(local, seq!["Programs"@, "cursor"@, "resources"@, "app"@, "bin"@, "agent.exe"@], r[0])
    &&& join_chain(local, seq!["cursor-agent"@, "agent.cmd"@], r[1])
    &&& join_chain(home, seq![".cursor"@, "bin"@, "agent.exe"@], r[2])
    &&& join_chain(home, seq![".cursor"@, "bin"@, "agent.cmd"@], r[3])
    &&& join_chain(home, seq![".local"@, "bin"@, "agent.exe"@], r[4])
}

/// Where cursor-agent is looked for when it is not on the path: under `home`
/// (and, on Windows, under the local application data directory, which is
/// `local_app_data` where that is set, else `AppData/Local` under `home`).
pub fn cursor_search_paths_in(home: &str, windows: bool, local_app_data: Option<&str>) -> (r: Vec<String>)
    ensures
        if windows {
            exists|local: Seq<char>|
                (match local_app_data {
                    Some(l) => local == l@,
                    None => join_chain(home@, seq!["AppData"@, "Local"@], local),
                }) && #[trigger] windows_search_paths(home@, local, string_views(r@))
        } else {
            unix_search_paths(home@, string_views(r@))
        },
{
    if windows {
        let local = match local_app_data {
            Some(l) => l.to_owned(),
            None => {
                let ps = vec!["AppData", "Local"];
                assert(str_views(ps@) =~= seq!["AppData"@, "Local"@]);
                join_all(home, &ps)
            },
        };
        let ps0 = vec!["Programs", "cursor", "resources", "app", "bin", "agent.exe"];
        let ps1 = vec!["cursor-agent", "agent.cmd"];
        let ps2 = vec![".cursor", "bin", "agent.exe"];
        let ps3 = vec![".cursor", "bin", "agent.cmd"];
        let ps4 = vec![".local", "bin", "agent.exe"];
        assert(str_views(ps0@) =~= seq!["Programs"@, "cursor"@, "resources"@, "app"@, "bin"@, "agent.exe"@]);
        assert(str_views(ps1@) =~= seq!["cursor-agent"@, "agent.cmd"@]);
        assert(str_views(ps2@) =~= seq![".cursor"@, "bin"@, "agent.exe"@]);
        assert(str_views(ps3@) =~= seq![".cursor"@, "bin"@, "agent.cmd"@]);
        assert(str_views(ps4@) =~= seq![".local"@, "bin"@, "agent.exe"@]);
        let p0 = join_all(local.as_str(), &ps0);
        let p1 = join_all(local.as_str(), &ps1);
        let p2 = join_all(home, &ps2);
        let p3 = join_all(home, &ps3);
        let p4 = join_all(home, &ps4);
        let r = vec![p0, p1, p2, p3, p4];
        assert(string_views(r@) =~= seq![p0@, p1@, p2@, p3@, p4@]);
        assert(windows_search_paths(home@, local@, string_views(r@)));
        r
    } else {
        let ps0 = vec![".local", "bin", "agent"];
        let ps2 = vec![".cursor", "bin", "agent"];
        assert(str_views(ps0@) =~= seq![".local"@, "bin"@, "agent"@]);
        assert(str_views(ps2@) =~= seq![".cursor"@, "bin"@, "agent"@]);
        let p0 = join_all(home, &ps0);
        let p1 = "/usr/local/bin/agent".to_owned();
        let p2 = join_all(home, &ps2);
        let r = vec![p0, p1, p2];
        assert(string_views(r@) =~= seq![p0@, p1@, p2@]);
        r
    }
}

/// The first line of a path lookup's output, trimmed.
pub open spec fn first_line_trimmed(out: Seq<char>) -> Option<Seq<char>> {
    if lines(out).len() > 0 {
        Some(trim(lines(out)[0]))
    } else {
        None
    }
}

/// The first candidate from index `i` on that exists, where `exists[j]` tells
/// whether `candidates[j]` does (a candidate without an answer counts as
/// missing).
pub open spec fn first_existing_from(candidates: Seq<Seq<char>>, exists: Seq<bool>, i: int) -> Option<Seq<char>>
    decreases candidates.len() - i,
{
    if i < 0 || i >= candidates.len() {
        None
    } else if i < exists.len() && exists[i] {
        Some(candidates[i])
    } else {
        first_existing_from(candidates, exists, i + 1)
    }
}

/// The first candidate that exists.
pub open spec fn first_existing(candidates: Seq<Seq<char>>, exists: Seq<bool>) -> Option<Seq<char>> {
    first_existing_from(candidates, exists, 0)
}

/// The executable that detection settles on, given the output of a successful
/// `which agent` (or `where agent`), whether its first line names a path that
/// exists, and which candidates exist: that first line, trimmed, when it is not
/// blank and exists, else the first candidate that exists. A successful lookup
/// that printed no line at all settles on nothing.
pub open spec fn spec_detect(lookup_output: Option<Seq<char>>, first_exists: bool, candidates: Seq<Seq<char>>, exists: Seq<bool>) -> Option<Seq<char>> {
    match lookup_output {
        Some(o) => if lines(o).len() == 0 {
            None
        } else if trim(lines(o)[0]).len() > 0 && first_exists {
            Some(trim(lines(o)[0]))
        } else {
            first_existing(candidates, exists)
        },
        None => first_existing(candidates, exists),
    }
}

/// `s` as a sequence, where it is given.
pub open spec fn opt_str_seq(s: Option<&str>) -> Option<Seq<char>> {
    match s {
        Some(x) => Some(x@),
        None => None,
    }
}

/// The detected executable for given answers to the existence checks: see
/// `spec_detect`.
pub fn pick_cursor_path(lookup_output: Option<&str>, first_exists: bool, candidates: &Vec<String>, candidate_exists: &Vec<bool>) -> (r: Option<String>)
    ensures
        opt_view(r) == spec_detect(opt_str_seq(lookup_output), first_exists, string_views(candidates@), candidate_exists@),
{
    match lookup_output {
        Some(o) => {
            let ls = lines_of(o);
            if ls.len() == 0 {
                return None;
            }
            assert(ls@[0]@ == lines(o@)[0]);
            let first = trim_str(ls[0]);
            if !first.is_empty() && first_exists {
                return Some(first.to_owned());
            }
        },
        None => {},
    }
    let ghost cs = string_views(candidates@);
    let ghost es = candidate_exists@;
    let mut i: usize = 0;
    while i < candidates.len()
        invariant
            i <= candidates@.len(),
            cs == string_views(candidates@),
            es == candidate_exists@,
            spec_detect(opt_str_seq(lookup_output), first_exists, cs, es) == first_existing(cs, es),
            first_existing(cs, es) == first_existing_from(cs, es, i as int),
        decreases candidates@.len() - i,
    {
        if i < candidate_exists.len() && candidate_exists[i] {
            assert(cs[i as int] == candidates@[i as int]@);
            return Some(candidates[i].clone());
        }
        i += 1;
    }
    None
}

/// The executable that detection settles on: the first line of the output of
/// a successful `which agent` (or `where agent`), when it is not blank and
/// exists, else the first of the platform's candidate paths that exists. A
/// successful lookup that printed no line at all settles on nothing. Which
/// paths exist is the disk's; the result is `pick_cursor_path`'s for the
/// answers the disk gave.
pub fn detect_cursor_path_from(lookup_output: Option<&str>, candidates: &Vec<String>) -> (r: Option<String>)
    ensures
        exists|first_exists: bool, exists: Seq<bool>|
            opt_view(r) == spec_detect(opt_str_seq(lookup_output), first_exists, string_views(candidates@), exists),
        match r {
            Some(p) => {
                ||| (match lookup_output {
                    Some(o) => first_line_trimmed(o@) == Some(p@) && p@.len() > 0,
                    None => false,
                })
                ||| string_views(candidates@).contains(p@)
            },
            None => true,
        },
        match lookup_output {
            Some(o) => lines(o@).len() == 0 ==> r is None,
            None => true,
        },
{
    let mut first_exists = false;
    let mut settled = false;
    match lookup_output {
        Some(o) => {
            let ls = lines_of(o);
            if ls.len() > 0 {
                let first = trim_str(ls[0]);
                if !first.is_empty() {
                    first_exists = path_exists(first);
                }
            } else {
                settled = true;
            }
        },
        None => {},
    }
    let mut found = first_exists || settled;
    let mut candidate_exists: Vec<bool> = Vec::new();
    let mut i: usize = 0;
    while i < candidates.len()
        invariant
            i <= candidates@.len(),
            candidate_exists@.len() == i,
        decreases candidates@.len() - i,
    {
        let e = if found {
            false
        } else {
            path_exists(candidates[i].as_str())
        };
        if e {
            found = true;
        }
        candidate_exists.push(e);
        i += 1;
    }
    let r = pick_cursor_path(lookup_output, first_exists, candidates, &candidate_exists);
    proof {
        lemma_detect_facts(opt_str_seq(lookup_output), first_exists, string_views(candidates@), candidate_exists@);
    }
    r
}

/// What any detection result is: a non-blank first line of the lookup, or one
/// of the candidates; nothing when the lookup printed no line.
proof fn lemma_detect_facts(lookup_output: Option<Seq<char>>, first_exists: bool, candidates: Seq<Seq<char>>, exists: Seq<bool>)
    ensures
        match spec_detect(lookup_output, first_exists, candidates, exists) {
            Some(p) => {
                ||| (match lookup_output {
                    Some(o) => first_line_trimmed(o) == Some(p) && p.len() > 0,
                    None => false,
                })
                ||| candidates.contains(p)
            },
            None => true,
        },
        match lookup_output {
            Some(o) => lines(o).len() == 0 ==> spec_detect(lookup_output, first_exists, candidates, exists) is None,
            None => true,
        },
{
    lemma_first_existing_member(candidates, exists, 0);
}

/// The first existing candidate from index `i` on is a candidate.
proof fn lemma_first_existing_member(candidates: Seq<Seq<char>>, exists: Seq<bool>, i: int)
    ensures
        first_existing_from(candidates, exists, i) matches Some(p) ==> candidates.contains(p),
    decreases candidates.len() - i,
{
    if 0 <= i < candidates.len() {
        if i < exists.len() && exists[i] {
            assert(candidates[i] == candidates[i]);
        } else {
            lemma_first_existing_member(candidates, exists, i + 1);
        }
    }
}

} // verus!
