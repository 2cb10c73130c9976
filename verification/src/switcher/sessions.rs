//! The provider recorded in the first line of a Codex session file.

use vstd::prelude::*;

use crate::json::{
    JsonSpec, JsonValue, duplicate, find_member, insert_member, insert_spec, lemma_get_inserted,
    lemma_get_other, lemma_object_view, members_view, get_spec, as_str_spec, json_parse,
    parse_json,
};
use crate::switcher::auth::obj;
use crate::text::{
    chars_of, copy_str, ends_with, ends_with_str, opt_text, push_str, string_of_range, strings_view,
};

verus! {

/// What becomes of a session's metadata line.
pub enum SessionMeta {
    /// The line is not session metadata that names a provider slot.
    Skip,
    /// The session already belongs to the provider.
    Current(Option<String>),
    /// The line with the new provider, to be written back.
    Rewritten(JsonValue, Option<String>),
}

/// The object that holds the session's metadata: `payload` of a
/// `session_meta` line, otherwise the line itself.
pub open spec fn meta_target(v: JsonSpec) -> Option<JsonSpec> {
    if as_str_spec(get_spec(v, "type"@)) == Some("session_meta"@) {
        get_spec(v, "payload"@)
    } else {
        Some(v)
    }
}

/// The session's ID: the metadata's `id`, else the file name without its
/// extension.
pub open spec fn session_id_spec(ms: Seq<(Seq<char>, JsonSpec)>, stem: Option<Seq<char>>) -> Option<
    Seq<char>,
> {
    match as_str_spec(get_spec(obj(ms), "id"@)) {
        Some(id) => Some(id),
        None => stem,
    }
}

/// The metadata line with `model_provider` set to `provider`.
pub open spec fn rewritten_line(v: JsonSpec, provider: Seq<char>) -> JsonSpec {
    let ms = meta_target(v)->Some_0->Object_0;
    let updated = JsonSpec::Object(insert_spec(ms, "model_provider"@, JsonSpec::Str(provider)));
    if as_str_spec(get_spec(v, "type"@)) == Some("session_meta"@) {
        JsonSpec::Object(insert_spec(v->Object_0, "payload"@, updated))
    } else {
        updated
    }
}

pub open spec fn session_meta_spec(
    out: SessionMeta,
    v: JsonSpec,
    provider: Seq<char>,
    stem: Option<Seq<char>>,
) -> bool {
    match meta_target(v) {
        Some(JsonSpec::Object(ms)) => {
            let id = session_id_spec(ms, stem);
            if as_str_spec(get_spec(obj(ms), "model_provider"@)) == Some(provider) {
                out matches SessionMeta::Current(i) && opt_text(i) == id
            } else {
                out matches SessionMeta::Rewritten(line, i) && opt_text(i) == id && line@
                    == rewritten_line(v, provider)
            }
        },
        _ => out is Skip,
    }
}

fn member_str(ms: &Vec<(String, JsonValue)>, key: &str) -> (out: Option<String>)
    ensures
        opt_text(out) == as_str_spec(get_spec(obj(members_view(ms@)), key@)),
{
    proof {
        lemma_object_view(*ms);
    }
    match find_member(ms, key) {
        Some(k) => match &ms[k].1 {
            JsonValue::Str(s) => Some(copy_str(s.as_str())),
            _ => None,
        },
        None => None,
    }
}

fn with_provider(ms: Vec<(String, JsonValue)>, provider: &str) -> (out: Vec<(String, JsonValue)>)
    ensures
        members_view(out@) == insert_spec(
            members_view(ms@),
            "model_provider"@,
            JsonSpec::Str(provider@),
        ),
{
    let mut ms = ms;
    let value = JsonValue::Str(copy_str(provider));
    assert(value@ == JsonSpec::Str(provider@));
    insert_member(&mut ms, copy_str("model_provider"), value);
    ms
}

fn rewrite_object(ms: &Vec<(String, JsonValue)>, provider: &str, stem: Option<String>) -> (out:
    SessionMeta)
    ensures
        match out {
            SessionMeta::Skip => false,
            SessionMeta::Current(i) => opt_text(i) == session_id_spec(members_view(ms@), opt_text(stem))
                && as_str_spec(get_spec(obj(members_view(ms@)), "model_provider"@)) == Some(provider@),
            SessionMeta::Rewritten(line, i) => opt_text(i) == session_id_spec(
                members_view(ms@),
                opt_text(stem),
            ) && as_str_spec(get_spec(obj(members_view(ms@)), "model_provider"@)) != Some(
                provider@,
            ) && line@ == JsonSpec::Object(
                insert_spec(members_view(ms@), "model_provider"@, JsonSpec::Str(provider@)),
            ),
        },
{
    let id = match member_str(ms, "id") {
        Some(id) => Some(id),
        None => stem,
    };
    let current = member_str(ms, "model_provider");
    let same = match &current {
        Some(c) => *c == copy_str(provider),
        None => false,
    };
    if same {
        return SessionMeta::Current(id);
    }
    let mut copy: Vec<(String, JsonValue)> = Vec::new();
    let mut i: usize = 0;
    while i < ms.len()
        invariant
            i <= ms.len(),
            copy@.len() == i,
            forall|k: int|
                0 <= k < i ==> (#[trigger] copy@[k]).0@ == ms@[k].0@ && copy@[k].1@ == ms@[k].1@,
        decreases ms.len() - i,
    {
        copy.push((copy_str(ms[i].0.as_str()), duplicate(&ms[i].1)));
        i = i + 1;
    }
    assert(members_view(copy@) =~= members_view(ms@));
    let updated = with_provider(copy, provider);
    proof {
        lemma_object_view(updated);
    }
    SessionMeta::Rewritten(JsonValue::Object(updated), id)
}

/// Points a session's metadata line at `provider_id`.
pub fn rewrite_session_meta(value: &JsonValue, provider_id: &str, file_stem: Option<String>) -> (out:
    SessionMeta)
    ensures
        session_meta_spec(out, value@, provider_id@, opt_text(file_stem)),
{
    match value {
        JsonValue::Object(members) => {
            proof {
                lemma_object_view(*members);
            }
            let kind = member_str(members, "type");
            let is_meta = match &kind {
                Some(k) => *k == copy_str("session_meta"),
                None => false,
            };
            if is_meta {
                match find_member(members, "payload") {
                    Some(p) => match &members[p].1 {
                        JsonValue::Object(inner) => {
                            proof {
                                lemma_object_view(*inner);
                            }
                            match rewrite_object(inner, provider_id, file_stem) {
                                SessionMeta::Rewritten(line, id) => {
                                    let mut outer: Vec<(String, JsonValue)> = Vec::new();
                                    let mut i: usize = 0;
                                    while i < members.len()
                                        invariant
                                            i <= members.len(),
                                            outer@.len() == i,
                                            forall|k: int|
                                                0 <= k < i ==> (#[trigger] outer@[k]).0@
                                                    == members@[k].0@ && outer@[k].1@
                                                    == members@[k].1@,
                                        decreases members.len() - i,
                                    {
                                        outer.push(
                                            (copy_str(members[i].0.as_str()), duplicate(&members[i].1)),
                                        );
                                        i = i + 1;
                                    }
                                    assert(members_view(outer@) =~= members_view(members@));
                                    insert_member(&mut outer, copy_str("payload"), line);
                                    proof {
                                        lemma_object_view(outer);
                                    }
                                    SessionMeta::Rewritten(JsonValue::Object(outer), id)
                                },
                                other => other,
                            }
                        },
                        _ => SessionMeta::Skip,
                    },
                    None => SessionMeta::Skip,
                }
            } else {
                rewrite_object(members, provider_id, file_stem)
            }
        },
        _ => SessionMeta::Skip,
    }
}

/// Pointing a session at a provider a second time changes nothing: the
/// rewritten line already names the provider, and the session keeps its ID.
pub proof fn lemma_rewrite_idempotent(
    v: JsonSpec,
    provider: Seq<char>,
    stem: Option<Seq<char>>,
    out: SessionMeta,
    again: SessionMeta,
)
    requires
        session_meta_spec(out, v, provider, stem),
        out matches SessionMeta::Rewritten(line, _) && session_meta_spec(again, line@, provider, stem),
    ensures
        (out, again) matches (SessionMeta::Rewritten(_, id), SessionMeta::Current(i)) && opt_text(i)
            == opt_text(id),
{
    reveal_strlit("type");
    reveal_strlit("payload");
    reveal_strlit("model_provider");
    reveal_strlit("id");
    assert("id"@.len() != "model_provider"@.len());
    assert("type"@.len() != "model_provider"@.len());
    let ms = meta_target(v)->Some_0->Object_0;
    let updated = insert_spec(ms, "model_provider"@, JsonSpec::Str(provider));
    let line = rewritten_line(v, provider);
    lemma_get_inserted(ms, "model_provider"@, JsonSpec::Str(provider));
    lemma_get_other(ms, "model_provider"@, JsonSpec::Str(provider), "id"@);
    if as_str_spec(get_spec(v, "type"@)) == Some("session_meta"@) {
        let vs = v->Object_0;
        lemma_get_other(vs, "payload"@, JsonSpec::Object(updated), "type"@);
        lemma_get_inserted(vs, "payload"@, JsonSpec::Object(updated));
        assert(meta_target(line) == Some(JsonSpec::Object(updated)));
    } else {
        lemma_get_other(ms, "model_provider"@, JsonSpec::Str(provider), "type"@);
        assert(meta_target(line) == Some(JsonSpec::Object(updated)));
    }
}


/// The index of the first newline in `s` at or after `i`, or `s.len()`.
pub open spec fn newline_from(s: Seq<char>, i: int) -> int
    decreases s.len() - i,
{
    if i >= s.len() || i < 0 {
        s.len() as int
    } else if s[i] == '\n' {
        i
    } else {
        newline_from(s, i + 1)
    }
}

proof fn lemma_newline_from(s: Seq<char>, i: int)
    requires
        0 <= i <= s.len(),
    ensures
        i <= newline_from(s, i) <= s.len(),
        newline_from(s, i) < s.len() ==> s[newline_from(s, i)] == '\n',
        forall|k: int| i <= k < newline_from(s, i) ==> s[k] != '\n',
    decreases s.len() - i,
{
    if i < s.len() && s[i] != '\n' {
        lemma_newline_from(s, i + 1);
    }
}

/// `text.split_once('\n')`, with the whole text as the first line when
/// there is no newline: a session file's metadata line and the rest.
pub open spec fn first_line_split(s: Seq<char>) -> (Seq<char>, Option<Seq<char>>) {
    let k = newline_from(s, 0);
    if k < s.len() {
        (s.take(k), Some(s.skip(k + 1)))
    } else {
        (s, None)
    }
}

/// The session text with its first line replaced by `first`.
pub open spec fn rejoined(first: Seq<char>, rest: Option<Seq<char>>) -> Seq<char> {
    match rest {
        Some(r) => first + seq!['\n'] + r,
        None => first,
    }
}

pub fn split_first_line(text: &str) -> (out: (String, Option<String>))
    ensures
        (out.0@, opt_text(out.1)) == first_line_split(text@),
{
    let chars = chars_of(text);
    let n = chars.len();
    let mut i: usize = 0;
    proof {
        lemma_newline_from(text@, 0);
    }
    while i < n && chars[i] != '\n'
        invariant
            i <= n,
            n == chars@.len(),
            chars@ == text@,
            newline_from(text@, 0) == newline_from(text@, i as int),
        decreases n - i,
    {
        i = i + 1;
    }
    if i < n {
        let first = string_of_range(&chars, 0, i);
        let rest = string_of_range(&chars, i + 1, n);
        proof {
            assert(text@.take(i as int) =~= chars@.subrange(0, i as int));
            assert(text@.skip(i + 1) =~= chars@.subrange(i + 1, n as int));
        }
        (first, Some(rest))
    } else {
        (copy_str(text), None)
    }
}

pub fn rejoin_session(first: &str, rest: Option<&str>) -> (out: String)
    ensures
        out@ == rejoined(
            first@,
            match rest {
                Some(r) => Some(r@),
                None => None,
            },
        ),
{
    let mut out = copy_str(first);
    match rest {
        Some(r) => {
            out.push('\n');
            push_str(&mut out, r);
        },
        None => {},
    }
    out
}

/// Putting back the first line that was split off gives the text again, so
/// rewriting a session's metadata leaves the rest of the file as it was.
pub proof fn lemma_split_rejoin(s: Seq<char>)
    ensures
        rejoined(first_line_split(s).0, first_line_split(s).1) == s,
{
    lemma_newline_from(s, 0);
    let k = newline_from(s, 0);
    if k < s.len() {
        assert(s.take(k) + seq!['\n'] + s.skip(k + 1) =~= s);
    }
}

/// The first line that is split off holds no newline.
pub proof fn lemma_first_line_has_no_newline(s: Seq<char>)
    ensures
        forall|k: int| 0 <= k < first_line_split(s).0.len() ==> first_line_split(s).0[k] != '\n',
{
    lemma_newline_from(s, 0);
}


/// The directories under CODEX_HOME whose conversations a transaction backs
/// up and moves: all active and all archived sessions, whatever their age.
pub open spec fn session_roots_spec() -> Seq<Seq<char>> {
    seq!["sessions"@, "archived_sessions"@]
}

pub fn session_roots() -> (out: Vec<String>)
    ensures
        strings_view(out@) == session_roots_spec(),
{
    let mut out: Vec<String> = Vec::new();
    out.push(copy_str("sessions"));
    out.push(copy_str("archived_sessions"));
    proof {
        assert(strings_view(out@) =~= session_roots_spec());
    }
    out
}

/// A session file is named `<stem>.jsonl` with a non-empty stem, which is
/// when `Path::extension` of the name is `jsonl`.
pub open spec fn is_session_file_spec(name: Seq<char>) -> bool {
    name.len() > 6 && ends_with(name, ".jsonl"@)
}

pub fn is_session_file(name: &str) -> (out: bool)
    ensures
        out == is_session_file_spec(name@),
{
    proof {
        reveal_strlit(".jsonl");
    }
    name.unicode_len() > 6 && ends_with_str(name, ".jsonl")
}

/// Points the metadata line of a session, given as text, at `provider_id`:
/// a line that is no JSON is skipped; otherwise as `rewrite_session_meta`.
pub fn rewrite_session_meta_text(line: &str, provider_id: &str, file_stem: Option<String>) -> (out:
    SessionMeta)
    ensures
        match json_parse(line@) {
            Ok(value) => session_meta_spec(out, value, provider_id@, opt_text(file_stem)),
            Err(_) => out is Skip,
        },
{
    match parse_json(line) {
        Ok(value) => rewrite_session_meta(&value, provider_id, file_stem),
        Err(_) => SessionMeta::Skip,
    }
}

} // verus!
