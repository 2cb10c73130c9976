//! The structured log of the profile switcher: secrets and paths are masked
//! before an entry is written or shown.

use vstd::prelude::*;

use crate::json::{JsonSpec, JsonValue, json_view, lemma_object_view, members_view};
use crate::paths::AppPaths;
use crate::pattern::{compile, regex_compiles, regex_replace_all, replace_all};
use crate::profiles::models::LogEntry;
use crate::switcher::transaction::{last_n_reversed, take_last_reversed};
use crate::text::{ascii_lowercase, contains, contains_str, copy_str, lower};

verus! {

pub const PATH_PATTERN: &'static str = r#"(?i)(?:[A-Z]:[\\/]|\\\\wsl\$\\|/mnt/[a-z]/|/home/|/Users/)[^\s\"']+"#;

pub const SECRET_PATTERN: &'static str = r#"(?i)(sk-[A-Za-z0-9_-]{10,}|ghp_[A-Za-z0-9]{10,}|github_pat_[A-Za-z0-9_]{20,}|bearer\s+[A-Za-z0-9._-]{10,}|AIza[0-9A-Za-z\-_]{10,}|xox[baprs]-[A-Za-z0-9-]{10,})"#;

pub const HIDDEN_SECRET: &'static str = "[已隐藏敏感值]";

pub const HIDDEN_PATH: &'static str = "[已隐藏路径]";

/// Appends to and reads the structured log.
pub struct LogService<'a> {
    pub paths: &'a AppPaths,
}

impl<'a> LogService<'a> {
    pub fn new(paths: &'a AppPaths) -> (out: Self)
        ensures
            out.paths == paths,
    {
        LogService { paths }
    }
}

/// Keys whose values are never logged: any key that, lower-cased, mentions
/// an API key, a token, a secret, a password or authorization.
pub open spec fn sensitive_key_spec(key: Seq<char>) -> bool {
    let k = lower(key);
    contains(k, "api_key"@) || contains(k, "apikey"@) || contains(k, "token"@) || contains(
        k,
        "secret"@,
    ) || contains(k, "password"@) || contains(k, "authorization"@)
}

/// A logged text: the value of a sensitive key is hidden whole; otherwise
/// secrets (API keys, GitHub, Google and Slack tokens, bearer tokens) and then
/// file paths are masked. Should a pattern not compile, the whole text is
/// hidden.
pub open spec fn log_string_spec(key: Option<Seq<char>>, value: Seq<char>) -> Seq<char> {
    if key is Some && sensitive_key_spec(key->0) {
        HIDDEN_SECRET@
    } else if regex_compiles(SECRET_PATTERN@) && regex_compiles(PATH_PATTERN@) {
        regex_replace_all(
            PATH_PATTERN@,
            regex_replace_all(SECRET_PATTERN@, value, HIDDEN_SECRET@),
            HIDDEN_PATH@,
        )
    } else {
        HIDDEN_SECRET@
    }
}

/// A logged JSON value: every string is masked as `log_string_spec` says,
/// under the key of the nearest enclosing object member.
pub open spec fn json_log_spec(key: Option<Seq<char>>, v: JsonSpec) -> JsonSpec
    decreases v,
{
    match v {
        JsonSpec::Str(t) => JsonSpec::Str(log_string_spec(key, t)),
        JsonSpec::Array(items) => JsonSpec::Array(
            Seq::new(
                items.len(),
                |i: int|
                    if 0 <= i < items.len() {
                        json_log_spec(key, items[i])
                    } else {
                        JsonSpec::Null
                    },
            ),
        ),
        JsonSpec::Object(ms) => JsonSpec::Object(
            Seq::new(
                ms.len(),
                |i: int|
                    if 0 <= i < ms.len() {
                        (ms[i].0, json_log_spec(Some(ms[i].0), ms[i].1))
                    } else {
                        (Seq::empty(), JsonSpec::Null)
                    },
            ),
        ),
        other => other,
    }
}

pub open spec fn opt_key(key: Option<&str>) -> Option<Seq<char>> {
    match key {
        Some(k) => Some(k@),
        None => None,
    }
}

pub fn is_sensitive_key(key: &str) -> (out: bool)
    ensures
        out == sensitive_key_spec(key@),
{
    let normalized = ascii_lowercase(key);
    let k = normalized.as_str();
    contains_str(k, "api_key") || contains_str(k, "apikey") || contains_str(k, "token")
        || contains_str(k, "secret") || contains_str(k, "password") || contains_str(
        k,
        "authorization",
    )
}

pub fn sanitize_log_string(key: Option<&str>, value: &str) -> (out: String)
    ensures
        out@ == log_string_spec(opt_key(key), value@),
{
    match key {
        Some(k) => {
            if is_sensitive_key(k) {
                return copy_str(HIDDEN_SECRET);
            }
        },
        None => {},
    }
    let secret = compile(SECRET_PATTERN);
    let path = compile(PATH_PATTERN);
    match (secret, path) {
        (Some(secret), Some(path)) => {
            let masked = replace_all(&secret, value, HIDDEN_SECRET);
            replace_all(&path, masked.as_str(), HIDDEN_PATH)
        },
        _ => copy_str(HIDDEN_SECRET),
    }
}

pub fn sanitize_json_value(key: Option<&str>, value: &JsonValue) -> (out: JsonValue)
    ensures
        out@ == json_log_spec(opt_key(key), value@),
    decreases value,
{
    match value {
        JsonValue::Str(text) => JsonValue::Str(sanitize_log_string(key, text.as_str())),
        JsonValue::Array(items) => {
            let mut out: Vec<JsonValue> = Vec::new();
            let mut i: usize = 0;
            while i < items.len()
                invariant
                    *value == JsonValue::Array(*items),
                    i <= items.len(),
                    out@.len() == i,
                    forall|k: int|
                        0 <= k < i ==> (#[trigger] out@[k])@ == json_log_spec(
                            opt_key(key),
                            items@[k]@,
                        ),
                decreases items.len() - i,
            {
                proof {
                    assert(decreases_to!(*value => (*value)->Array_0));
                    assert(decreases_to!(*items => items@));
                    assert(decreases_to!(items@ => items@[i as int]));
                }
                out.push(sanitize_json_value(key, &items[i]));
                i = i + 1;
            }
            let r = JsonValue::Array(out);
            assert(json_view(r)->Array_0 =~= json_log_spec(opt_key(key), value@)->Array_0);
            r
        },
        JsonValue::Object(members) => {
            let mut out: Vec<(String, JsonValue)> = Vec::new();
            let mut i: usize = 0;
            proof {
                lemma_object_view(*members);
            }
            while i < members.len()
                invariant
                    *value == JsonValue::Object(*members),
                    value@ == JsonSpec::Object(members_view(members@)),
                    i <= members.len(),
                    out@.len() == i,
                    forall|k: int|
                        0 <= k < i ==> (#[trigger] out@[k]).0@ == members@[k].0@ && out@[k].1@
                            == json_log_spec(Some(members@[k].0@), members@[k].1@),
                decreases members.len() - i,
            {
                proof {
                    assert(decreases_to!(*value => (*value)->Object_0));
                    assert(decreases_to!(*members => members@));
                    assert(decreases_to!(members@ => members@[i as int]));
                    assert(decreases_to!(members@[i as int] => members@[i as int].1));
                }
                let entry_key = copy_str(members[i].0.as_str());
                let sanitized = sanitize_json_value(Some(members[i].0.as_str()), &members[i].1);
                out.push((entry_key, sanitized));
                i = i + 1;
            }
            let r = JsonValue::Object(out);
            proof {
                lemma_object_view(out);
            }
            assert(members_view(out@) =~= json_log_spec(opt_key(key), value@)->Object_0);
            r
        },
        JsonValue::Null => JsonValue::Null,
        JsonValue::Bool(b) => JsonValue::Bool(*b),
        JsonValue::UInt(n) => JsonValue::UInt(*n),
        JsonValue::Int(n) => JsonValue::Int(*n),
        JsonValue::Float(t) => JsonValue::Float(copy_str(t.as_str())),
    }
}

/// An entry as it is written and shown: its message and context masked.
pub fn sanitize_log_entry(entry: LogEntry) -> (out: LogEntry)
    ensures
        out.timestamp == entry.timestamp,
        out.level == entry.level,
        out.action == entry.action,
        out.message@ == log_string_spec(None, entry.message@),
        out.context@ == json_log_spec(None, entry.context@),
{
    let message = sanitize_log_string(None, entry.message.as_str());
    let context = sanitize_json_value(None, &entry.context);
    LogEntry {
        timestamp: entry.timestamp,
        level: entry.level,
        action: entry.action,
        message,
        context,
    }
}

/// The entries that reading the log shows: the latest `limit` of them,
/// newest first, each masked. A limit of zero shows none.
pub fn recent_entries(entries: Vec<LogEntry>, limit: usize) -> (out: Vec<LogEntry>)
    ensures
        out@.len() == last_n_reversed(entries@, limit as nat).len(),
        forall|i: int|
            0 <= i < out@.len() ==> {
                let e = #[trigger] last_n_reversed(entries@, limit as nat)[i];
                &&& out@[i].timestamp == e.timestamp
                &&& out@[i].level == e.level
                &&& out@[i].action == e.action
                &&& out@[i].message@ == log_string_spec(None, e.message@)
                &&& out@[i].context@ == json_log_spec(None, e.context@)
            },
{
    let mut rest = take_last_reversed(entries, limit);
    let ghost all = rest@;
    let mut out: Vec<LogEntry> = Vec::new();
    while rest.len() > 0
        invariant
            rest@.len() + out@.len() == all.len(),
            forall|k: int| 0 <= k < rest@.len() ==> #[trigger] rest@[k] == all[out@.len() + k],
            forall|k: int|
                0 <= k < out@.len() ==> {
                    let e = #[trigger] all[k];
                    &&& out@[k].timestamp == e.timestamp
                    &&& out@[k].level == e.level
                    &&& out@[k].action == e.action
                    &&& out@[k].message@ == log_string_spec(None, e.message@)
                    &&& out@[k].context@ == json_log_spec(None, e.context@)
                },
        decreases rest.len(),
    {
        let ghost n = out@.len();
        let ghost before = rest@;
        assert(before[0] == all[n as int]);
        let e = rest.remove(0);
        assert forall|k: int| 0 <= k < rest@.len() implies #[trigger] rest@[k] == all[n + 1 + k] by {
            assert(rest@[k] == before[k + 1]);
        }
        out.push(sanitize_log_entry(e));
    }
    out
}

} // verus!
