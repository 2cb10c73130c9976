//! Selection of the official ChatGPT sign-in for Codex's `auth.json`.

use vstd::prelude::*;

use crate::json::{
    JsonSpec, JsonValue, as_str, as_str_spec, duplicate, find_member, get_spec, insert_member,
    insert_spec, json_parse, lemma_get_inserted, lemma_get_other, lemma_get_removed,
    lemma_get_removed_other, lemma_object_view, members_view, object_in_text, parse_json,
    parse_json_object, remove_member, remove_spec,
};
use crate::switcher::{ApiError, ApiResult, detailed_spec, error_spec};
use crate::text::{ascii_lowercase, copy_str, lower, same_text, trim, trim_str};

verus! {

pub type Members = Vec<(String, JsonValue)>;

pub open spec fn obj(ms: Seq<(Seq<char>, JsonSpec)>) -> JsonSpec {
    JsonSpec::Object(ms)
}

/// `auth_mode` is `chatgpt`, in any ASCII case.
pub open spec fn is_chatgpt_spec(ms: Seq<(Seq<char>, JsonSpec)>) -> bool {
    match as_str_spec(get_spec(obj(ms), "auth_mode"@)) {
        Some(mode) => lower(mode) == "chatgpt"@,
        None => false,
    }
}

pub open spec fn nonblank_member(ms: Seq<(Seq<char>, JsonSpec)>, key: Seq<char>) -> bool {
    match as_str_spec(get_spec(obj(ms), key)) {
        Some(s) => trim(s).len() > 0,
        None => false,
    }
}

/// A ChatGPT sign-in with both an access and a refresh token.
pub open spec fn has_tokens_spec(ms: Seq<(Seq<char>, JsonSpec)>) -> bool {
    is_chatgpt_spec(ms) && match get_spec(obj(ms), "tokens"@) {
        Some(JsonSpec::Object(t)) => nonblank_member(t, "access_token"@) && nonblank_member(
            t,
            "refresh_token"@,
        ),
        _ => false,
    }
}


pub fn is_chatgpt_auth(auth: &Members) -> (b: bool)
    ensures
        b == is_chatgpt_spec(members_view(auth@)),
{
    match find_member(auth, "auth_mode") {
        Some(k) => {
            proof {
                lemma_object_view(*auth);
            }
            match &auth[k].1 {
                JsonValue::Str(mode) => {
                    let m = ascii_lowercase(mode.as_str());
                    same_text(m.as_str(), "chatgpt")
                },
                _ => false,
            }
        },
        None => false,
    }
}

fn nonblank(ms: &Members, key: &str) -> (b: bool)
    ensures
        b == nonblank_member(members_view(ms@), key@),
{
    match find_member(ms, key) {
        Some(k) => match &ms[k].1 {
            JsonValue::Str(s) => {
                let t = trim_str(s.as_str());
                !t.as_str().is_empty()
            },
            _ => false,
        },
        None => false,
    }
}

pub fn has_chatgpt_tokens(auth: &Members) -> (b: bool)
    ensures
        b == has_tokens_spec(members_view(auth@)),
{
    if !is_chatgpt_auth(auth) {
        return false;
    }
    match find_member(auth, "tokens") {
        Some(k) => match &auth[k].1 {
            JsonValue::Object(tokens) => {
                proof {
                    lemma_object_view(*tokens);
                }
                nonblank(tokens, "access_token") && nonblank(tokens, "refresh_token")
            },
            _ => false,
        },
        None => false,
    }
}

/// Copies member `key` of `from` into `into` when `from` has it.
pub open spec fn carry_spec(
    into: Seq<(Seq<char>, JsonSpec)>,
    from: Seq<(Seq<char>, JsonSpec)>,
    key: Seq<char>,
) -> Seq<(Seq<char>, JsonSpec)> {
    match get_spec(obj(from), key) {
        Some(v) => insert_spec(into, key, v),
        None => into,
    }
}

fn carry(into: &mut Members, from: &Members, key: &str)
    ensures
        members_view(final(into)@) == carry_spec(members_view(old(into)@), members_view(from@), key@),
{
    proof {
        lemma_object_view(*from);
    }
    match find_member(from, key) {
        Some(k) => {
            let v = duplicate(&from[k].1);
            insert_member(into, copy_str(key), v);
        },
        None => {},
    }
}

/// The sign-in that official mode uses. When the current `auth.json` holds a
/// ChatGPT sign-in with tokens, that sign-in (`auth_mode`, `tokens`,
/// `last_refresh`) is laid over the saved official snapshot; otherwise the
/// snapshot is used, and without a snapshot the current file.
pub open spec fn select_spec(
    current: Seq<(Seq<char>, JsonSpec)>,
    baseline: Option<Seq<(Seq<char>, JsonSpec)>>,
) -> Seq<(Seq<char>, JsonSpec)> {
    if has_tokens_spec(current) {
        let base = match baseline {
            Some(b) => b,
            None => Seq::empty(),
        };
        carry_spec(
            carry_spec(carry_spec(base, current, "auth_mode"@), current, "tokens"@),
            current,
            "last_refresh"@,
        )
    } else {
        match baseline {
            Some(b) => b,
            None => current,
        }
    }
}

pub open spec fn opt_members_view(o: Option<Members>) -> Option<Seq<(Seq<char>, JsonSpec)>> {
    match o {
        Some(m) => Some(members_view(m@)),
        None => None,
    }
}

pub fn select_official_auth(current: Members, baseline: Option<Members>) -> (out: Members)
    ensures
        members_view(out@) == select_spec(members_view(current@), opt_members_view(baseline)),
{
    if has_chatgpt_tokens(&current) {
        let mut selected = match baseline {
            Some(b) => b,
            None => Vec::new(),
        };
        assert(baseline is None ==> members_view(selected@) =~= Seq::<(Seq<char>, JsonSpec)>::empty());
        carry(&mut selected, &current, "auth_mode");
        carry(&mut selected, &current, "tokens");
        carry(&mut selected, &current, "last_refresh");
        return selected;
    }
    match baseline {
        Some(b) => b,
        None => current,
    }
}

/// A ChatGPT sign-in never keeps an `OPENAI_API_KEY`.
pub open spec fn without_stale_key(ms: Seq<(Seq<char>, JsonSpec)>) -> Seq<(Seq<char>, JsonSpec)> {
    if is_chatgpt_spec(ms) {
        remove_spec(ms, "OPENAI_API_KEY"@)
    } else {
        ms
    }
}

pub fn drop_stale_api_key(auth: &mut Members)
    ensures
        members_view(final(auth)@) == without_stale_key(members_view(old(auth)@)),
{
    if is_chatgpt_auth(auth) {
        remove_member(auth, "OPENAI_API_KEY");
    }
}

/// The `auth.json` that official mode writes.
pub fn official_auth(current: Members, baseline: Option<Members>) -> (out: Members)
    ensures
        members_view(out@) == without_stale_key(
            select_spec(members_view(current@), opt_members_view(baseline)),
        ),
{
    let mut selected = select_official_auth(current, baseline);
    drop_stale_api_key(&mut selected);
    selected
}

pub const AUTH_JSON_INVALID: &'static str = "auth_json_invalid";

pub const AUTH_NOT_OBJECT_MSG: &'static str = "auth.json 必须是 JSON 对象。";

/// The official sign-in as it is kept in the snapshot: the `auth.json`
/// object without a stale `OPENAI_API_KEY`.
pub fn canonical_official_auth(value: JsonValue) -> (out: ApiResult<Members>)
    ensures
        match out {
            Ok(m) => value@ is Object && members_view(m@) == without_stale_key(value@->Object_0),
            Err(e) => !(value@ is Object) && e@ == error_spec(
                AUTH_JSON_INVALID@,
                AUTH_NOT_OBJECT_MSG@,
            ),
        },
{
    match value {
        JsonValue::Object(members) => {
            proof {
                lemma_object_view(members);
            }
            let mut members = members;
            drop_stale_api_key(&mut members);
            Ok(members)
        },
        _ => Err(ApiError::new(AUTH_JSON_INVALID, AUTH_NOT_OBJECT_MSG)),
    }
}

/// The object members a text holds, when there is a text and it holds an
/// object.
pub open spec fn members_in(text: Option<&str>) -> Option<Seq<(Seq<char>, JsonSpec)>> {
    match text {
        Some(t) => object_in_text(t@),
        None => None,
    }
}

/// The `auth.json` that official mode writes, from the texts of the current
/// `auth.json` and of the saved official one: a text that is missing, no
/// JSON or no object counts as no object (the current one as empty).
pub fn official_auth_from_texts(current: Option<&str>, baseline: Option<&str>) -> (out: Members)
    ensures
        members_view(out@) == without_stale_key(
            select_spec(
                match members_in(current) {
                    Some(ms) => ms,
                    None => Seq::empty(),
                },
                members_in(baseline),
            ),
        ),
{
    let current_members: Members = match current {
        Some(text) => match parse_json_object(text) {
            Some(ms) => ms,
            None => Vec::new(),
        },
        None => Vec::new(),
    };
    let baseline_members: Option<Members> = match baseline {
        Some(text) => parse_json_object(text),
        None => None,
    };
    assert(members_in(current) is None ==> members_view(current_members@) =~= Seq::<
        (Seq<char>, JsonSpec),
    >::empty());
    official_auth(current_members, baseline_members)
}

pub const AUTH_TEXT_INVALID_MSG: &'static str = "现有 auth.json 不是有效 JSON，无法保存官方快照。";

/// The official sign-in to keep in the snapshot, from the text of the
/// current `auth.json`: a text that is no JSON is an error carrying the
/// parser's message; otherwise as `canonical_official_auth`.
pub fn canonical_official_auth_text(text: &str) -> (out: ApiResult<Members>)
    ensures
        match json_parse(text@) {
            Ok(value) => match out {
                Ok(m) => value is Object && members_view(m@) == without_stale_key(value->Object_0),
                Err(e) => !(value is Object) && e@ == error_spec(
                    AUTH_JSON_INVALID@,
                    AUTH_NOT_OBJECT_MSG@,
                ),
            },
            Err(message) => out matches Err(e) && e@ == detailed_spec(
                AUTH_JSON_INVALID@,
                AUTH_TEXT_INVALID_MSG@,
                message,
            ),
        },
{
    match parse_json(text) {
        Ok(value) => canonical_official_auth(value),
        Err(message) => Err(ApiError::detailed(AUTH_JSON_INVALID, AUTH_TEXT_INVALID_MSG, message.as_str())),
    }
}

/// The sign-in mode an `auth.json` object names, lower-cased, if it names
/// one.
pub open spec fn auth_mode_lower(ms: Seq<(Seq<char>, JsonSpec)>) -> Option<Seq<char>> {
    match get_spec(JsonSpec::Object(ms), "auth_mode"@) {
        Some(JsonSpec::Str(mode)) => Some(lower(mode)),
        _ => None,
    }
}

/// Official mode keeps an `auth.json` that is no ChatGPT sign-in exactly as
/// it is, its `OPENAI_API_KEY` included; from a ChatGPT sign-in (in any
/// ASCII case) it removes the `OPENAI_API_KEY` member, so none is left, and
/// keeps every other member. This holds of the snapshot that is saved
/// (`canonical_official_auth`) and of the file that is written back
/// (`official_auth`), which both end with this step.
pub proof fn lemma_only_chatgpt_loses_the_api_key(ms: Seq<(Seq<char>, JsonSpec)>)
    ensures
        auth_mode_lower(ms) != Some("chatgpt"@) ==> without_stale_key(ms) == ms,
        auth_mode_lower(ms) == Some("chatgpt"@) ==> without_stale_key(ms) == remove_spec(
            ms,
            "OPENAI_API_KEY"@,
        ),
        forall|key: Seq<char>|
            key != "OPENAI_API_KEY"@ ==> #[trigger] get_spec(
                JsonSpec::Object(without_stale_key(ms)),
                key,
            ) == get_spec(JsonSpec::Object(ms), key),
        auth_mode_lower(ms) == Some("chatgpt"@) && (forall|i: int, j: int|
            0 <= i < j < ms.len() ==> ms[i].0 != ms[j].0) ==> get_spec(
            JsonSpec::Object(without_stale_key(ms)),
            "OPENAI_API_KEY"@,
        ) is None,
{
    assert forall|key: Seq<char>| key != "OPENAI_API_KEY"@ implies #[trigger] get_spec(
        JsonSpec::Object(without_stale_key(ms)),
        key,
    ) == get_spec(JsonSpec::Object(ms), key) by {
        lemma_get_removed_other(ms, "OPENAI_API_KEY"@, key);
    }
    if auth_mode_lower(ms) == Some("chatgpt"@) && (forall|i: int, j: int|
        0 <= i < j < ms.len() ==> ms[i].0 != ms[j].0) {
        lemma_get_removed(ms, "OPENAI_API_KEY"@);
    }
}

/// Official mode keeps a current ChatGPT subscription sign-in: when the
/// current `auth.json` is a ChatGPT sign-in with an access and a refresh
/// token, the written `auth.json` has its `auth_mode` and its `tokens`,
/// whatever the saved snapshot holds.
pub proof fn lemma_official_auth_keeps_subscription(
    current: Seq<(Seq<char>, JsonSpec)>,
    baseline: Option<Seq<(Seq<char>, JsonSpec)>>,
)
    requires
        auth_mode_lower(current) == Some("chatgpt"@),
        get_spec(JsonSpec::Object(current), "tokens"@) matches Some(JsonSpec::Object(t))
            && nonblank_member(t, "access_token"@) && nonblank_member(t, "refresh_token"@),
    ensures
        ({
            let out = without_stale_key(select_spec(current, baseline));
            &&& get_spec(JsonSpec::Object(out), "tokens"@) == get_spec(JsonSpec::Object(current), "tokens"@)
            &&& get_spec(JsonSpec::Object(out), "auth_mode"@) == get_spec(
                JsonSpec::Object(current),
                "auth_mode"@,
            )
        }),
{
    reveal_strlit("tokens");
    reveal_strlit("auth_mode");
    reveal_strlit("last_refresh");
    reveal_strlit("OPENAI_API_KEY");
    assert(has_tokens_spec(current));
    let base = match baseline {
        Some(b) => b,
        None => Seq::empty(),
    };
    let mode = get_spec(obj(current), "auth_mode"@)->Some_0;
    let tokens = get_spec(obj(current), "tokens"@)->Some_0;
    let a = insert_spec(base, "auth_mode"@, mode);
    let b = insert_spec(a, "tokens"@, tokens);
    let c = carry_spec(b, current, "last_refresh"@);
    assert(select_spec(current, baseline) == c);
    assert("tokens"@ != "auth_mode"@ && "tokens"@ != "last_refresh"@ && "auth_mode"@
        != "last_refresh"@ && "tokens"@ != "OPENAI_API_KEY"@ && "auth_mode"@ != "OPENAI_API_KEY"@) by {
        assert("tokens"@.len() == 6 && "auth_mode"@.len() == 9 && "last_refresh"@.len() == 12);
        assert("OPENAI_API_KEY"@.len() == 14);
    }
    lemma_get_inserted(base, "auth_mode"@, mode);
    lemma_get_inserted(a, "tokens"@, tokens);
    lemma_get_other(a, "tokens"@, tokens, "auth_mode"@);
    match get_spec(obj(current), "last_refresh"@) {
        Some(r) => {
            lemma_get_other(b, "last_refresh"@, r, "tokens"@);
            lemma_get_other(b, "last_refresh"@, r, "auth_mode"@);
        },
        None => {},
    }
    lemma_only_chatgpt_loses_the_api_key(c);
    assert(get_spec(JsonSpec::Object(without_stale_key(c)), "tokens"@) == get_spec(
        JsonSpec::Object(c),
        "tokens"@,
    ));
    assert(get_spec(JsonSpec::Object(without_stale_key(c)), "auth_mode"@) == get_spec(
        JsonSpec::Object(c),
        "auth_mode"@,
    ));
}

/// The saved official snapshot of an object that is no ChatGPT sign-in is
/// the object itself.
pub proof fn lemma_api_key_sign_in_snapshot_is_kept(value: JsonSpec)
    requires
        value is Object,
        auth_mode_lower(value->Object_0) != Some("chatgpt"@),
    ensures
        without_stale_key(value->Object_0) == value->Object_0,
{
    lemma_only_chatgpt_loses_the_api_key(value->Object_0);
}

} // verus!
