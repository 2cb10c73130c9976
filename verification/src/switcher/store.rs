//! Validation and editing of the provider database.

use vstd::prelude::*;

use crate::switcher::models::{
    ModelEntry, ModelSpec, ProfileSpec, ProviderProfile, SaveProviderInput, SaveSettingsInput,
    StoredProviderProfile, SwitcherDatabase, duplicate_models, duplicate_opt, models_view,
    profiles_view,
};

use crate::json::{JsonSpec, JsonValue, json_view, lemma_object_view, members_view};
use crate::fresh::{random_uuid, random_uuid_simple, utc_now_nanos};
use crate::paths::path_is_absolute;
use crate::pattern::{compile, regex_compiles, regex_replace_all, replace_all};
use crate::switcher::url::{UrlPartsView, parse_url, url_parse};
use crate::switcher::{ApiError, ApiResult, ErrorSpec, detailed_spec, error_spec};
use crate::text::{
    ascii_lowercase, chars_of, copy_str, decimal, decimal_string, lower, opt_text, push_str,
    same_text, trim, trim_end_char, trim_end_char_str, trim_str,
};

verus! {

/// The provider database kept under the switcher's data directory.
pub struct SwitcherStore<'a> {
    pub paths: &'a crate::paths::SwitcherPaths,
}

impl<'a> SwitcherStore<'a> {
    pub fn new(paths: &'a crate::paths::SwitcherPaths) -> (out: Self)
        ensures
            out.paths == paths,
    {
        SwitcherStore { paths }
    }
}

pub const BASE_URL_INVALID: &'static str = "base_url_invalid";

pub const BASE_URL_INVALID_MSG: &'static str = "API 地址格式无效。";

pub const BASE_URL_INSECURE: &'static str = "base_url_insecure";

pub const BASE_URL_INSECURE_MSG: &'static str = "远程 API 地址必须使用 HTTPS；仅 localhost/127.0.0.1 可以使用 HTTP。";

pub const BASE_URL_QUERY: &'static str = "base_url_query_not_allowed";

pub const BASE_URL_QUERY_MSG: &'static str = "API 地址不能包含查询参数或锚点。";

pub const NAME_MISSING: &'static str = "provider_name_missing";

pub const NAME_MISSING_MSG: &'static str = "Provider 名称不能为空。";

pub const NAME_TOO_LONG: &'static str = "provider_name_too_long";

pub const NAME_TOO_LONG_MSG: &'static str = "Provider 名称不能超过 80 个字符。";

pub const ID_INVALID: &'static str = "provider_id_invalid";

pub const ID_INVALID_MSG: &'static str = "Provider ID 只能包含小写字母、数字、下划线和短横线，最长 48 位。";

pub const ID_RESERVED: &'static str = "provider_id_reserved";

pub const ID_RESERVED_MSG: &'static str = "openai 是 Codex 内置 Provider ID，请换一个名称。";

/// The host that `url_host_str().unwrap_or_default()` yields.
pub open spec fn host_or_empty(p: UrlPartsView) -> Seq<char> {
    match p.host {
        Some(h) => h,
        None => Seq::empty(),
    }
}

/// Plain HTTP is accepted for the loopback hosts only: `localhost`,
/// `127.0.0.1` and `::1`, which the URL parser reports in brackets.
pub open spec fn is_local_http(p: UrlPartsView) -> bool {
    p.scheme == "http"@ && (host_or_empty(p) == "localhost"@ || host_or_empty(p) == "127.0.0.1"@
        || host_or_empty(p) == "[::1]"@)
}

/// What `normalize_base_url` makes of a raw base URL: the text with
/// surrounding white space and trailing slashes removed, provided it parses
/// as an HTTPS URL (or loopback HTTP) without query or fragment.
pub open spec fn base_url_outcome(raw: Seq<char>) -> Result<Seq<char>, ErrorSpec> {
    let value = trim_end_char(trim(raw), '/');
    match url_parse(value) {
        Err(text) => Err(detailed_spec(BASE_URL_INVALID@, BASE_URL_INVALID_MSG@, text)),
        Ok(p) => if p.scheme != "https"@ && !is_local_http(p) {
            Err(error_spec(BASE_URL_INSECURE@, BASE_URL_INSECURE_MSG@))
        } else if p.query is Some || p.fragment is Some {
            Err(error_spec(BASE_URL_QUERY@, BASE_URL_QUERY_MSG@))
        } else {
            Ok(value)
        },
    }
}

pub open spec fn api_outcome_view(r: ApiResult<String>) -> Result<Seq<char>, ErrorSpec> {
    match r {
        Ok(s) => Ok(s@),
        Err(e) => Err(e@),
    }
}


pub fn normalize_base_url(raw: &str) -> (out: ApiResult<String>)
    ensures
        api_outcome_view(out) == base_url_outcome(raw@),
{
    let trimmed = trim_str(raw);
    let value = trim_end_char_str(trimmed.as_str(), '/');
    let parts = match parse_url(value.as_str()) {
        Ok(p) => p,
        Err(text) => {
            return Err(ApiError::detailed(BASE_URL_INVALID, BASE_URL_INVALID_MSG, text.as_str()));
        },
    };
    let host = match &parts.host {
        Some(h) => copy_str(h.as_str()),
        None => String::new(),
    };
    let local_http = same_text(parts.scheme.as_str(), "http") && (same_text(host.as_str(), "localhost")
        || same_text(host.as_str(), "127.0.0.1") || same_text(host.as_str(), "[::1]"));
    if !same_text(parts.scheme.as_str(), "https") && !local_http {
        return Err(ApiError::new(BASE_URL_INSECURE, BASE_URL_INSECURE_MSG));
    }
    if parts.query.is_some() || parts.fragment.is_some() {
        return Err(ApiError::new(BASE_URL_QUERY, BASE_URL_QUERY_MSG));
    }
    Ok(value)
}


/// A character allowed in a provider ID after lower-casing.
pub open spec fn is_id_char(c: char) -> bool {
    ('a' <= c <= 'z') || ('A' <= c <= 'Z') || ('0' <= c <= '9') || c == '_' || c == '-'
}

/// A provider ID is one to 48 characters from `is_id_char` (all of them are
/// ASCII, so the count of characters is also the count of bytes).
pub open spec fn provider_id_ok(id: Seq<char>) -> bool {
    &&& 0 < id.len() <= 48
    &&& forall|i: int| 0 <= i < id.len() ==> is_id_char(#[trigger] id[i])
}

pub open spec fn has_model_id(models: Seq<ModelSpec>, id: Seq<char>) -> bool {
    exists|j: int| 0 <= j < models.len() && (#[trigger] models[j]).id == id
}

/// One model entry of a draft after trimming; a blank display name falls
/// back to the ID and a zero context window counts as unknown.
pub open spec fn normalized_entry(m: ModelSpec) -> ModelSpec {
    let id = trim(m.id);
    ModelSpec {
        id,
        display_name: if trim(m.display_name).len() == 0 {
            id
        } else {
            trim(m.display_name)
        },
        context_window: match m.context_window {
            Some(v) => if v > 0 {
                Some(v)
            } else {
                None
            },
            None => None,
        },
    }
}

/// The entries of a draft in order, blank IDs and repeated IDs dropped (the
/// first entry with an ID wins).
pub open spec fn dedup_models(items: Seq<ModelSpec>) -> Seq<ModelSpec>
    decreases items.len(),
{
    if items.len() == 0 {
        Seq::empty()
    } else {
        let prev = dedup_models(items.drop_last());
        let e = normalized_entry(items.last());
        if e.id.len() == 0 || has_model_id(prev, e.id) {
            prev
        } else {
            prev.push(e)
        }
    }
}

/// A non-blank default model that the list lacks is put first, with a
/// context window of 128000.
pub open spec fn with_default_model(models: Seq<ModelSpec>, default_model: Seq<char>) -> Seq<
    ModelSpec,
> {
    if default_model.len() > 0 && !has_model_id(models, default_model) {
        seq![
            ModelSpec {
                id: default_model,
                display_name: default_model,
                context_window: Some(128000u64),
            },
        ] + models
    } else {
        models
    }
}

pub open spec fn clamp_u64(v: u64, lo: u64, hi: u64) -> u64 {
    if v < lo {
        lo
    } else if v > hi {
        hi
    } else {
        v
    }
}

/// A provider draft after validation.
#[derive(Debug)]
pub struct NormalizedProviderInput {
    pub name: String,
    pub provider_id: String,
    pub base_url: String,
    pub default_model: String,
    pub models: Vec<ModelEntry>,
    pub timeout_seconds: u64,
    pub inject_models: bool,
}

/// The first validation error of a draft, before the base URL is looked at.
pub open spec fn draft_error(input: SaveProviderInput) -> Option<ErrorSpec> {
    let name = trim(input.name@);
    let id = lower(trim(input.provider_id@));
    if name.len() == 0 {
        Some(error_spec(NAME_MISSING@, NAME_MISSING_MSG@))
    } else if name.len() > 80 {
        Some(error_spec(NAME_TOO_LONG@, NAME_TOO_LONG_MSG@))
    } else if !provider_id_ok(id) {
        Some(error_spec(ID_INVALID@, ID_INVALID_MSG@))
    } else if id == "openai"@ {
        Some(error_spec(ID_RESERVED@, ID_RESERVED_MSG@))
    } else {
        None
    }
}

/// `validate_provider_input` accepts a draft exactly when `draft_error` has
/// nothing against it and its base URL normalises.
pub open spec fn draft_valid(input: SaveProviderInput) -> bool {
    draft_error(input) is None && base_url_outcome(input.base_url@) is Ok
}

pub open spec fn normalized_matches(input: SaveProviderInput, n: NormalizedProviderInput) -> bool {
    let default_model = trim(input.default_model@);
    &&& n.name@ == trim(input.name@)
    &&& n.provider_id@ == lower(trim(input.provider_id@))
    &&& base_url_outcome(input.base_url@) == Ok::<Seq<char>, ErrorSpec>(n.base_url@)
    &&& n.default_model@ == default_model
    &&& models_view(n.models@) == with_default_model(
        dedup_models(models_view(input.models@)),
        default_model,
    )
    &&& n.timeout_seconds == clamp_u64(input.timeout_seconds, 5, 180)
    &&& n.inject_models == input.inject_models
}

fn has_model_id_vec(models: &Vec<ModelEntry>, id: &String) -> (b: bool)
    ensures
        b == has_model_id(models_view(models@), id@),
{
    let mut j: usize = 0;
    while j < models.len()
        invariant
            j <= models.len(),
            forall|k: int| 0 <= k < j ==> models@[k].id@ != id@,
        decreases models.len() - j,
    {
        if models[j].id == *id {
            assert(models_view(models@)[j as int].id == id@);
            return true;
        }
        j = j + 1;
    }
    assert forall|k: int| 0 <= k < models_view(models@).len() implies (#[trigger] models_view(
        models@,
    )[k]).id != id@ by {
        assert(models_view(models@)[k] == models@[k]@);
    }
    false
}

fn normalize_entry(item: &ModelEntry) -> (out: ModelEntry)
    ensures
        out@ == normalized_entry(item@),
{
    let id = trim_str(item.id.as_str());
    let display = trim_str(item.display_name.as_str());
    let display_name = if display.as_str().is_empty() {
        copy_str(id.as_str())
    } else {
        display
    };
    let context_window = match item.context_window {
        Some(v) => if v > 0 {
            Some(v)
        } else {
            None
        },
        None => None,
    };
    ModelEntry { id, display_name, context_window }
}

fn normalize_models(items: &Vec<ModelEntry>, default_model: &String) -> (out: Vec<ModelEntry>)
    ensures
        models_view(out@) == with_default_model(dedup_models(models_view(items@)), default_model@),
{
    let mut models: Vec<ModelEntry> = Vec::new();
    let mut i: usize = 0;
    while i < items.len()
        invariant
            i <= items.len(),
            models_view(models@) == dedup_models(models_view(items@).take(i as int)),
        decreases items.len() - i,
    {
        let ghost before = models_view(items@).take(i as int);
        let entry = normalize_entry(&items[i]);
        assert(models_view(items@).take(i + 1).drop_last() =~= before);
        assert(models_view(items@).take(i + 1).last() == items@[i as int]@);
        if entry.id.as_str().is_empty() || has_model_id_vec(&models, &entry.id) {
        } else {
            models.push(entry);
            assert(models_view(models@) =~= dedup_models(models_view(items@).take(i as int)).push(
                normalized_entry(items@[i as int]@),
            ));
        }
        i = i + 1;
    }
    assert(models_view(items@).take(i as int) =~= models_view(items@));
    if !default_model.as_str().is_empty() && !has_model_id_vec(&models, default_model) {
        let ghost tail = models_view(models@);
        let first = ModelEntry {
            id: copy_str(default_model.as_str()),
            display_name: copy_str(default_model.as_str()),
            context_window: Some(128000),
        };
        models.insert(0, first);
        assert(models_view(models@) =~= with_default_model(tail, default_model@));
    }
    models
}

fn validate_provider_id(id: &String) -> (b: bool)
    ensures
        b == provider_id_ok(id@),
{
    let v = chars_of(id.as_str());
    if v.len() == 0 || v.len() > 48 {
        return false;
    }
    let mut i: usize = 0;
    while i < v.len()
        invariant
            i <= v.len(),
            v@ == id@,
            forall|k: int| 0 <= k < i ==> is_id_char(#[trigger] v@[k]),
        decreases v.len() - i,
    {
        let c = v[i];
        if !(('a' <= c && c <= 'z') || ('A' <= c && c <= 'Z') || ('0' <= c && c <= '9') || c == '_'
            || c == '-') {
            return false;
        }
        i = i + 1;
    }
    true
}

/// Validates a provider draft and brings it into the form that is stored.
pub fn validate_provider_input(input: &SaveProviderInput) -> (out: ApiResult<
    NormalizedProviderInput,
>)
    ensures
        match out {
            Ok(n) => draft_valid(*input) && normalized_matches(*input, n),
            Err(e) => match draft_error(*input) {
                Some(spec) => e@ == spec,
                None => base_url_outcome(input.base_url@) == Err::<Seq<char>, ErrorSpec>(e@),
            },
        },
{
    let name = trim_str(input.name.as_str());
    if name.as_str().is_empty() {
        return Err(ApiError::new(NAME_MISSING, NAME_MISSING_MSG));
    }
    let name_chars = chars_of(name.as_str());
    if name_chars.len() > 80 {
        return Err(ApiError::new(NAME_TOO_LONG, NAME_TOO_LONG_MSG));
    }
    let trimmed_id = trim_str(input.provider_id.as_str());
    let provider_id = ascii_lowercase(trimmed_id.as_str());
    if !validate_provider_id(&provider_id) {
        return Err(ApiError::new(ID_INVALID, ID_INVALID_MSG));
    }
    if same_text(provider_id.as_str(), "openai") {
        return Err(ApiError::new(ID_RESERVED, ID_RESERVED_MSG));
    }
    let base_url = normalize_base_url(input.base_url.as_str())?;
    let default_model = trim_str(input.default_model.as_str());
    let models = normalize_models(&input.models, &default_model);
    let timeout_seconds = if input.timeout_seconds < 5 {
        5
    } else if input.timeout_seconds > 180 {
        180
    } else {
        input.timeout_seconds
    };
    Ok(NormalizedProviderInput {
        name,
        provider_id,
        base_url,
        default_model,
        models,
        timeout_seconds,
        inject_models: input.inject_models,
    })
}


pub const NOT_FOUND: &'static str = "provider_not_found";

pub const NOT_FOUND_EDIT_MSG: &'static str = "没有找到要编辑的 Provider。";

pub const NOT_FOUND_COPY_MSG: &'static str = "没有找到要复制的 Provider。";

pub const NOT_FOUND_DELETE_MSG: &'static str = "没有找到要删除的 Provider。";

pub const IS_ACTIVE: &'static str = "provider_is_active";

pub const IS_ACTIVE_MSG: &'static str = "当前正在使用此 Provider，请先恢复官方模式或切换到其他 Provider。";

pub const DUPLICATE_ID: &'static str = "provider_id_duplicate";

pub const DUPLICATE_PREFIX: &'static str = "Provider ID“";

pub const DUPLICATE_SUFFIX: &'static str = "”已存在。";

pub const ENCRYPT_FAILED: &'static str = "api_key_encrypt_failed";

pub const ENCRYPT_FAILED_MSG: &'static str = "API Key 加密失败。";

pub const HOME_NOT_ABSOLUTE: &'static str = "codex_home_not_absolute";

pub const HOME_NOT_ABSOLUTE_MSG: &'static str = "自定义 CODEX_HOME 必须是绝对路径。";

/// Index of the first profile at or after `i` whose ID is `id`, or -1.
pub open spec fn index_with_id_from(ps: Seq<ProfileSpec>, id: Seq<char>, i: int) -> int
    decreases ps.len() - i,
{
    if i < 0 || i >= ps.len() {
        -1
    } else if ps[i].id == id {
        i
    } else {
        index_with_id_from(ps, id, i + 1)
    }
}

pub open spec fn index_with_id(ps: Seq<ProfileSpec>, id: Seq<char>) -> int {
    index_with_id_from(ps, id, 0)
}

pub proof fn lemma_index_with_id(ps: Seq<ProfileSpec>, id: Seq<char>, i: int)
    requires
        0 <= i <= ps.len(),
    ensures
        index_with_id_from(ps, id, i) == -1 || (i <= index_with_id_from(ps, id, i) < ps.len()
            && ps[index_with_id_from(ps, id, i)].id == id),
        index_with_id_from(ps, id, i) == -1 ==> forall|k: int| i <= k < ps.len() ==> (#[trigger] ps[k]).id != id,
        forall|k: int| i <= k < index_with_id_from(ps, id, i) ==> (#[trigger] ps[k]).id != id,
    decreases ps.len() - i,
{
    if i < ps.len() && ps[i].id != id {
        lemma_index_with_id(ps, id, i + 1);
    }
}

/// Finds the first profile with the given ID.
pub fn find_profile_index(profiles: &Vec<StoredProviderProfile>, id: &str) -> (out: Option<usize>)
    ensures
        match out {
            Some(k) => k < profiles.len() && k as int == index_with_id(profiles_view(profiles@), id@),
            None => index_with_id(profiles_view(profiles@), id@) == -1,
        },
{
    let ghost ps = profiles_view(profiles@);
    let mut j: usize = 0;
    while j < profiles.len()
        invariant
            j <= profiles.len(),
            ps == profiles_view(profiles@),
            index_with_id(ps, id@) == index_with_id_from(ps, id@, j as int),
        decreases profiles.len() - j,
    {
        if same_text(profiles[j].id.as_str(), id) {
            assert(ps[j as int] == profiles@[j as int]@);
            return Some(j);
        }
        assert(ps[j as int] == profiles@[j as int]@);
        j = j + 1;
    }
    None
}

/// The trimmed API key of a draft when it has to be encrypted: absent when
/// the key is cleared or the field is blank.
pub open spec fn key_to_protect_spec(input: Option<Seq<char>>, clear: bool) -> Option<Seq<char>> {
    if clear {
        None
    } else {
        match input {
            Some(v) => if trim(v).len() == 0 {
                None
            } else {
                Some(trim(v))
            },
            None => None,
        }
    }
}

pub fn key_to_protect(input: Option<&str>, clear: bool) -> (out: Option<String>)
    ensures
        opt_text(out) == key_to_protect_spec(
            match input {
                Some(v) => Some(v@),
                None => None,
            },
            clear,
        ),
{
    if clear {
        return None;
    }
    match input {
        Some(v) => {
            let t = trim_str(v);
            if t.as_str().is_empty() {
                None
            } else {
                Some(t)
            }
        },
        None => None,
    }
}

/// The key that a profile keeps: none when cleared, the existing one when no
/// key was encrypted, otherwise the encryption's result (whose failure is
/// the error `api_key_encrypt_failed`).
pub open spec fn saved_key(
    existing: Option<Seq<char>>,
    clear: bool,
    protection: Option<Result<String, String>>,
) -> Result<Option<Seq<char>>, ErrorSpec> {
    if clear {
        Ok(None)
    } else {
        match protection {
            None => Ok(existing),
            Some(Ok(p)) => Ok(Some(p@)),
            Some(Err(d)) => Err(detailed_spec(ENCRYPT_FAILED@, ENCRYPT_FAILED_MSG@, d@)),
        }
    }
}

pub fn resolve_saved_api_key(
    existing: Option<String>,
    clear: bool,
    protection: Option<Result<String, String>>,
) -> (out: ApiResult<Option<String>>)
    ensures
        match out {
            Ok(k) => saved_key(opt_text(existing), clear, protection) == Ok::<
                Option<Seq<char>>,
                ErrorSpec,
            >(opt_text(k)),
            Err(e) => saved_key(opt_text(existing), clear, protection) == Err::<
                Option<Seq<char>>,
                ErrorSpec,
            >(e@),
        },
{
    if clear {
        return Ok(None);
    }
    match protection {
        None => Ok(existing),
        Some(Ok(p)) => Ok(Some(p)),
        Some(Err(d)) => Err(ApiError::detailed(ENCRYPT_FAILED, ENCRYPT_FAILED_MSG, d.as_str())),
    }
}

/// Profile `j` repeats the provider ID of an earlier profile.
pub open spec fn repeats_earlier(ps: Seq<ProfileSpec>, j: int) -> bool {
    exists|i: int| 0 <= i < j && (#[trigger] ps[i]).provider_id == ps[j].provider_id
}

/// Index of the first profile at or after `j` that repeats an earlier
/// provider ID, or -1.
pub open spec fn first_repeat_from(ps: Seq<ProfileSpec>, j: int) -> int
    decreases ps.len() - j,
{
    if j < 0 || j >= ps.len() {
        -1
    } else if repeats_earlier(ps, j) {
        j
    } else {
        first_repeat_from(ps, j + 1)
    }
}

/// Requiring every provider ID to be used once: the profiles, or the error
/// that names the first repeated ID.
pub open spec fn unique_ids_outcome(ps: Seq<ProfileSpec>) -> Result<Seq<ProfileSpec>, ErrorSpec> {
    let j = first_repeat_from(ps, 0);
    if j >= 0 {
        Err(error_spec(DUPLICATE_ID@, DUPLICATE_PREFIX@ + ps[j].provider_id + DUPLICATE_SUFFIX@))
    } else {
        Ok(ps)
    }
}

pub proof fn lemma_first_repeat(ps: Seq<ProfileSpec>, j: int)
    requires
        0 <= j <= ps.len(),
    ensures
        first_repeat_from(ps, j) == -1 || (j <= first_repeat_from(ps, j) < ps.len()),
    decreases ps.len() - j,
{
    if j < ps.len() && !repeats_earlier(ps, j) {
        lemma_first_repeat(ps, j + 1);
    }
}

/// No two profiles share a provider ID.
pub open spec fn provider_ids_unique(ps: Seq<ProfileSpec>) -> bool {
    forall|i: int, j: int| 0 <= i < j < ps.len() ==> ps[i].provider_id != ps[j].provider_id
}

proof fn lemma_no_repeat_after(ps: Seq<ProfileSpec>, j: int)
    requires
        0 <= j <= ps.len(),
        first_repeat_from(ps, j) == -1,
    ensures
        forall|k: int| j <= k < ps.len() ==> !repeats_earlier(ps, k),
    decreases ps.len() - j,
{
    if j < ps.len() {
        lemma_no_repeat_after(ps, j + 1);
    }
}

proof fn lemma_first_repeat_found(ps: Seq<ProfileSpec>, j: int)
    requires
        0 <= j <= ps.len(),
    ensures
        first_repeat_from(ps, j) >= 0 ==> repeats_earlier(ps, first_repeat_from(ps, j)),
    decreases ps.len() - j,
{
    if j < ps.len() && !repeats_earlier(ps, j) {
        lemma_first_repeat_found(ps, j + 1);
    }
}

/// Requiring unique provider IDs succeeds exactly on profiles whose IDs are
/// all different.
pub proof fn lemma_unique_ids_outcome(ps: Seq<ProfileSpec>)
    ensures
        unique_ids_outcome(ps) is Ok <==> provider_ids_unique(ps),
        unique_ids_outcome(ps) is Ok ==> unique_ids_outcome(ps) == Ok::<Seq<ProfileSpec>, ErrorSpec>(ps),
{
    lemma_first_repeat(ps, 0);
    if first_repeat_from(ps, 0) == -1 {
        lemma_no_repeat_after(ps, 0);
        assert forall|i: int, j: int| 0 <= i < j < ps.len() implies ps[i].provider_id
            != ps[j].provider_id by {
            assert(!repeats_earlier(ps, j));
            if ps[i].provider_id == ps[j].provider_id {
                assert(repeats_earlier(ps, j));
            }
        }
    } else {
        lemma_first_repeat_found(ps, 0);
        let j = first_repeat_from(ps, 0);
        let i = choose|i: int| 0 <= i < j && (#[trigger] ps[i]).provider_id == ps[j].provider_id;
        assert(ps[i].provider_id == ps[j].provider_id);
    }
}

pub fn ensure_unique_provider_ids(profiles: &Vec<StoredProviderProfile>) -> (out: ApiResult<()>)
    ensures
        out is Ok <==> unique_ids_outcome(profiles_view(profiles@)) is Ok,
        out matches Err(e) ==> unique_ids_outcome(profiles_view(profiles@)) == Err::<
            Seq<ProfileSpec>,
            ErrorSpec,
        >(e@),
{
    let ghost ps = profiles_view(profiles@);
    let mut j: usize = 0;
    while j < profiles.len()
        invariant
            j <= profiles.len(),
            ps == profiles_view(profiles@),
            first_repeat_from(ps, 0) == first_repeat_from(ps, j as int),
        decreases profiles.len() - j,
    {
        let mut i: usize = 0;
        while i < j
            invariant
                i <= j < profiles.len(),
                ps == profiles_view(profiles@),
                first_repeat_from(ps, 0) == first_repeat_from(ps, j as int),
                forall|k: int| 0 <= k < i ==> (#[trigger] ps[k]).provider_id != ps[j as int].provider_id,
            decreases j - i,
        {
            assert(ps[i as int] == profiles@[i as int]@);
            assert(ps[j as int] == profiles@[j as int]@);
            if profiles[i].provider_id == profiles[j].provider_id {
                let mut message = copy_str(DUPLICATE_PREFIX);
                push_str(&mut message, profiles[j].provider_id.as_str());
                push_str(&mut message, DUPLICATE_SUFFIX);
                assert(repeats_earlier(ps, j as int));
                return Err(ApiError::new(DUPLICATE_ID, message.as_str()));
            }
            i = i + 1;
        }
        j = j + 1;
    }
    proof {
        lemma_first_repeat(ps, 0);
    }
    Ok(())
}

/// A profile after a validated draft has been applied to it.
pub open spec fn updated_profile(
    p: ProfileSpec,
    n: NormalizedProviderInput,
    key: Option<Seq<char>>,
    now: i64,
) -> ProfileSpec {
    ProfileSpec {
        name: n.name@,
        provider_id: n.provider_id@,
        base_url: n.base_url@,
        protected_api_key: key,
        default_model: n.default_model@,
        models: models_view(n.models@),
        timeout_seconds: n.timeout_seconds,
        inject_models: n.inject_models,
        updated_at_utc: now,
        ..p
    }
}

/// A profile created from a validated draft.
pub open spec fn created_profile(
    id: Seq<char>,
    n: NormalizedProviderInput,
    key: Option<Seq<char>>,
    now: i64,
) -> ProfileSpec {
    ProfileSpec {
        id,
        name: n.name@,
        provider_id: n.provider_id@,
        base_url: n.base_url@,
        protected_api_key: key,
        default_model: n.default_model@,
        models: models_view(n.models@),
        timeout_seconds: n.timeout_seconds,
        inject_models: n.inject_models,
        created_at_utc: now,
        updated_at_utc: now,
    }
}

/// The profiles after saving a draft: an edit of the profile it names, or a
/// new profile appended; then every provider ID must be unique.
pub open spec fn save_outcome(
    ps: Seq<ProfileSpec>,
    draft_id: Option<Seq<char>>,
    clear: bool,
    n: NormalizedProviderInput,
    protection: Option<Result<String, String>>,
    now: i64,
    new_id: Seq<char>,
) -> Result<Seq<ProfileSpec>, ErrorSpec> {
    match draft_id {
        Some(id) => {
            let k = index_with_id(ps, id);
            if k < 0 {
                Err(error_spec(NOT_FOUND@, NOT_FOUND_EDIT_MSG@))
            } else {
                match saved_key(ps[k].protected_api_key, clear, protection) {
                    Err(e) => Err(e),
                    Ok(key) => unique_ids_outcome(ps.update(k, updated_profile(ps[k], n, key, now))),
                }
            }
        },
        None => match saved_key(None, clear, protection) {
            Err(e) => Err(e),
            Ok(key) => unique_ids_outcome(ps.push(created_profile(new_id, n, key, now))),
        },
    }
}

/// Saving a draft never leaves two profiles with the same provider ID.
pub proof fn lemma_saved_ids_unique(
    ps: Seq<ProfileSpec>,
    draft_id: Option<Seq<char>>,
    clear: bool,
    n: NormalizedProviderInput,
    protection: Option<Result<String, String>>,
    now: i64,
    new_id: Seq<char>,
)
    ensures
        save_outcome(ps, draft_id, clear, n, protection, now, new_id) matches Ok(out)
            ==> provider_ids_unique(out),
{
    match draft_id {
        Some(id) => {
            let k = index_with_id(ps, id);
            if k >= 0 {
                if let Ok(key) = saved_key(ps[k].protected_api_key, clear, protection) {
                    lemma_unique_ids_outcome(ps.update(k, updated_profile(ps[k], n, key, now)));
                }
            }
        },
        None => {
            if let Ok(key) = saved_key(None, clear, protection) {
                lemma_unique_ids_outcome(ps.push(created_profile(new_id, n, key, now)));
            }
        },
    }
}

pub open spec fn same_except_profiles(a: SwitcherDatabase, b: SwitcherDatabase) -> bool {
    &&& a.schema_version == b.schema_version
    &&& a.settings == b.settings
    &&& a.active_profile_id == b.active_profile_id
    &&& a.active_provider_id == b.active_provider_id
    &&& a.official_snapshot == b.official_snapshot
}

/// Applies a validated draft to the database. `protection` is the outcome of
/// encrypting `key_to_protect` of the draft, when there was a key to encrypt;
/// `now` and `new_id` are used for a new profile.
pub fn save_provider_into(
    database: SwitcherDatabase,
    input: &SaveProviderInput,
    normalized: NormalizedProviderInput,
    protection: Option<Result<String, String>>,
    now: i64,
    new_id: String,
) -> (out: ApiResult<SwitcherDatabase>)
    ensures
        match out {
            Ok(d) => same_except_profiles(d, database) && save_outcome(
                profiles_view(database.profiles@),
                opt_text(input.id),
                input.clear_api_key,
                normalized,
                protection,
                now,
                new_id@,
            ) == Ok::<Seq<ProfileSpec>, ErrorSpec>(profiles_view(d.profiles@)),
            Err(e) => save_outcome(
                profiles_view(database.profiles@),
                opt_text(input.id),
                input.clear_api_key,
                normalized,
                protection,
                now,
                new_id@,
            ) == Err::<Seq<ProfileSpec>, ErrorSpec>(e@),
        },
{
    let ghost ps = profiles_view(database.profiles@);
    let ghost n = normalized;
    let mut database = database;
    let ghost before = database;
    match &input.id {
        Some(id) => {
            let k = match find_profile_index(&database.profiles, id.as_str()) {
                Some(k) => k,
                None => {
                    return Err(ApiError::new(NOT_FOUND, NOT_FOUND_EDIT_MSG));
                },
            };
            let old = database.profiles[k].duplicate();
            assert(old@ == ps[k as int]);
            let key = resolve_saved_api_key(
                duplicate_opt(&old.protected_api_key),
                input.clear_api_key,
                protection,
            )?;
            let updated = StoredProviderProfile {
                id: old.id,
                name: normalized.name,
                provider_id: normalized.provider_id,
                base_url: normalized.base_url,
                protected_api_key: key,
                default_model: normalized.default_model,
                models: normalized.models,
                timeout_seconds: normalized.timeout_seconds,
                inject_models: normalized.inject_models,
                created_at_utc: old.created_at_utc,
                updated_at_utc: now,
            };
            assert(updated@ == updated_profile(ps[k as int], n, opt_text(key), now));
            database.profiles.set(k, updated);
            assert(profiles_view(database.profiles@) =~= ps.update(
                k as int,
                updated_profile(ps[k as int], n, opt_text(key), now),
            ));
        },
        None => {
            let key = resolve_saved_api_key(None, input.clear_api_key, protection)?;
            let created = StoredProviderProfile {
                id: new_id,
                name: normalized.name,
                provider_id: normalized.provider_id,
                base_url: normalized.base_url,
                protected_api_key: key,
                default_model: normalized.default_model,
                models: normalized.models,
                timeout_seconds: normalized.timeout_seconds,
                inject_models: normalized.inject_models,
                created_at_utc: now,
                updated_at_utc: now,
            };
            database.profiles.push(created);
            assert(profiles_view(database.profiles@) =~= ps.push(
                created_profile(new_id@, n, opt_text(key), now),
            ));
        },
    }
    ensure_unique_provider_ids(&database.profiles)?;
    Ok(database)
}


/// The provider ID tried after `k` collisions: the wanted ID itself, then
/// the wanted ID with `_1`, `_2`, ... appended.
pub open spec fn candidate_id(desired: Seq<char>, k: nat) -> Seq<char> {
    if k == 0 {
        desired
    } else {
        desired + seq!['_'] + decimal(k)
    }
}

pub open spec fn provider_id_used(ps: Seq<ProfileSpec>, id: Seq<char>) -> bool {
    exists|i: int| 0 <= i < ps.len() && (#[trigger] ps[i]).provider_id == id
}

/// The first of the thousand candidates at or after `k` that no profile
/// uses, or -1.
pub open spec fn first_free_from(ps: Seq<ProfileSpec>, desired: Seq<char>, k: int) -> int
    decreases 1000 - k,
{
    if k < 0 || k >= 1000 {
        -1
    } else if !provider_id_used(ps, candidate_id(desired, k as nat)) {
        k
    } else {
        first_free_from(ps, desired, k + 1)
    }
}

/// The provider ID a copy gets: the first free candidate, and after a
/// thousand collisions `provider_` followed by a fresh token.
pub open spec fn unique_id_spec(ps: Seq<ProfileSpec>, desired: Seq<char>, token: Seq<char>) -> Seq<
    char,
> {
    let k = first_free_from(ps, desired, 0);
    if k >= 0 {
        candidate_id(desired, k as nat)
    } else {
        "provider_"@ + token
    }
}

fn provider_id_in_use(profiles: &Vec<StoredProviderProfile>, id: &String) -> (b: bool)
    ensures
        b == provider_id_used(profiles_view(profiles@), id@),
{
    let ghost ps = profiles_view(profiles@);
    let mut i: usize = 0;
    while i < profiles.len()
        invariant
            i <= profiles.len(),
            ps == profiles_view(profiles@),
            forall|k: int| 0 <= k < i ==> (#[trigger] ps[k]).provider_id != id@,
        decreases profiles.len() - i,
    {
        assert(ps[i as int] == profiles@[i as int]@);
        if profiles[i].provider_id == *id {
            return true;
        }
        i = i + 1;
    }
    false
}

/// A provider ID that no profile uses yet, derived from `desired`;
/// `fallback_token` is used only when a thousand candidates are taken.
pub fn unique_provider_id(
    profiles: &Vec<StoredProviderProfile>,
    desired: &str,
    fallback_token: &str,
) -> (out: String)
    ensures
        out@ == unique_id_spec(profiles_view(profiles@), desired@, fallback_token@),
{
    let ghost ps = profiles_view(profiles@);
    let mut suffix: u128 = 0;
    while suffix < 1000
        invariant
            suffix <= 1000,
            ps == profiles_view(profiles@),
            first_free_from(ps, desired@, 0) == first_free_from(ps, desired@, suffix as int),
        decreases 1000 - suffix,
    {
        let value = if suffix == 0 {
            copy_str(desired)
        } else {
            let mut v = copy_str(desired);
            v.push('_');
            let digits = decimal_string(suffix);
            push_str(&mut v, digits.as_str());
            v
        };
        assert(value@ == candidate_id(desired@, suffix as nat));
        if !provider_id_in_use(profiles, &value) {
            return value;
        }
        suffix = suffix + 1;
    }
    let mut out = copy_str("provider_");
    push_str(&mut out, fallback_token);
    out
}

pub const COPY_SUFFIX: &'static str = " 副本";

/// The profile list after copying the profile with the given ID.
pub open spec fn duplicate_outcome(
    ps: Seq<ProfileSpec>,
    profile_id: Seq<char>,
    now: i64,
    new_id: Seq<char>,
    token: Seq<char>,
) -> Result<Seq<ProfileSpec>, ErrorSpec> {
    let k = index_with_id(ps, profile_id);
    if k < 0 {
        Err(error_spec(NOT_FOUND@, NOT_FOUND_COPY_MSG@))
    } else {
        let src = ps[k];
        Ok(
            ps.push(
                ProfileSpec {
                    id: new_id,
                    name: src.name + COPY_SUFFIX@,
                    provider_id: unique_id_spec(ps, src.provider_id + "_copy"@, token),
                    created_at_utc: now,
                    updated_at_utc: now,
                    ..src
                },
            ),
        )
    }
}

proof fn lemma_first_free(ps: Seq<ProfileSpec>, desired: Seq<char>, k: int)
    requires
        0 <= k <= 1000,
    ensures
        first_free_from(ps, desired, k) >= 0 ==> !provider_id_used(
            ps,
            candidate_id(desired, first_free_from(ps, desired, k) as nat),
        ),
    decreases 1000 - k,
{
    if k < 1000 && provider_id_used(ps, candidate_id(desired, k as nat)) {
        lemma_first_free(ps, desired, k + 1);
    }
}

/// Copying a profile keeps provider IDs unique: the copy's provider ID is
/// one that no profile uses. (After a thousand taken candidates the copy
/// falls back to `provider_` and the token, which must then be free too.)
pub proof fn lemma_duplicate_ids_unique(
    ps: Seq<ProfileSpec>,
    profile_id: Seq<char>,
    now: i64,
    new_id: Seq<char>,
    token: Seq<char>,
)
    requires
        provider_ids_unique(ps),
        !provider_id_used(ps, "provider_"@ + token),
    ensures
        duplicate_outcome(ps, profile_id, now, new_id, token) matches Ok(out)
            ==> provider_ids_unique(out),
{
    let k = index_with_id(ps, profile_id);
    if k >= 0 {
        let src = ps[k];
        let desired = src.provider_id + "_copy"@;
        lemma_first_free(ps, desired, 0);
        let fresh = unique_id_spec(ps, desired, token);
        assert(!provider_id_used(ps, fresh));
        let out = duplicate_outcome(ps, profile_id, now, new_id, token)->Ok_0;
        assert forall|i: int, j: int| 0 <= i < j < out.len() implies out[i].provider_id
            != out[j].provider_id by {
            if j == ps.len() {
                assert(out[j].provider_id == fresh);
                assert(out[i] == ps[i]);
                if ps[i].provider_id == fresh {
                    assert(provider_id_used(ps, fresh));
                }
            } else {
                assert(out[i] == ps[i] && out[j] == ps[j]);
            }
        }
    }
}

/// Copies a provider profile under a fresh ID, name and provider ID.
pub fn duplicate_provider_into(
    database: SwitcherDatabase,
    profile_id: &str,
    now: i64,
    new_id: String,
    fallback_token: &str,
) -> (out: ApiResult<SwitcherDatabase>)
    ensures
        match out {
            Ok(d) => same_except_profiles(d, database) && duplicate_outcome(
                profiles_view(database.profiles@),
                profile_id@,
                now,
                new_id@,
                fallback_token@,
            ) == Ok::<Seq<ProfileSpec>, ErrorSpec>(profiles_view(d.profiles@)),
            Err(e) => duplicate_outcome(
                profiles_view(database.profiles@),
                profile_id@,
                now,
                new_id@,
                fallback_token@,
            ) == Err::<Seq<ProfileSpec>, ErrorSpec>(e@),
        },
{
    let ghost ps = profiles_view(database.profiles@);
    let mut database = database;
    let k = match find_profile_index(&database.profiles, profile_id) {
        Some(k) => k,
        None => {
            return Err(ApiError::new(NOT_FOUND, NOT_FOUND_COPY_MSG));
        },
    };
    let source = database.profiles[k].duplicate();
    assert(source@ == ps[k as int]);
    let mut desired = copy_str(source.provider_id.as_str());
    push_str(&mut desired, "_copy");
    let provider_id = unique_provider_id(&database.profiles, desired.as_str(), fallback_token);
    let mut name = source.name;
    push_str(&mut name, COPY_SUFFIX);
    let copy = StoredProviderProfile {
        id: new_id,
        name,
        provider_id,
        base_url: source.base_url,
        protected_api_key: source.protected_api_key,
        default_model: source.default_model,
        models: source.models,
        timeout_seconds: source.timeout_seconds,
        inject_models: source.inject_models,
        created_at_utc: now,
        updated_at_utc: now,
    };
    database.profiles.push(copy);
    assert(profiles_view(database.profiles@) =~= duplicate_outcome(
        ps,
        profile_id@,
        now,
        new_id@,
        fallback_token@,
    )->Ok_0);
    Ok(database)
}

/// What saving a validated draft at time `now`, with `new_id` for a new
/// profile, gives.
pub open spec fn saved_as(
    database: SwitcherDatabase,
    input: SaveProviderInput,
    normalized: NormalizedProviderInput,
    protection: Option<Result<String, String>>,
    now: i64,
    new_id: Seq<char>,
    out: ApiResult<SwitcherDatabase>,
) -> bool {
    let outcome = save_outcome(
        profiles_view(database.profiles@),
        opt_text(input.id),
        input.clear_api_key,
        normalized,
        protection,
        now,
        new_id,
    );
    match out {
        Ok(d) => same_except_profiles(d, database) && outcome == Ok::<Seq<ProfileSpec>, ErrorSpec>(
            profiles_view(d.profiles@),
        ),
        Err(e) => outcome == Err::<Seq<ProfileSpec>, ErrorSpec>(e@),
    }
}

/// Saves a validated draft at the time of the call; a new profile gets a
/// random ID.
pub fn save_provider_now(
    database: SwitcherDatabase,
    input: &SaveProviderInput,
    normalized: NormalizedProviderInput,
    protection: Option<Result<String, String>>,
) -> (out: ApiResult<SwitcherDatabase>)
    ensures
        exists|now: i64, new_id: Seq<char>|
            #[trigger] saved_as(database, *input, normalized, protection, now, new_id, out),
{
    let ghost before = database;
    let ghost n = normalized;
    let ghost p = protection;
    let now = utc_now_nanos();
    let new_id = random_uuid();
    let ghost id = new_id@;
    let out = save_provider_into(database, input, normalized, protection, now, new_id);
    assert(saved_as(before, *input, n, p, now, id, out));
    out
}

/// What copying a profile at time `now`, with `new_id` and the fallback
/// `token`, gives.
pub open spec fn duplicated_as(
    database: SwitcherDatabase,
    profile_id: Seq<char>,
    now: i64,
    new_id: Seq<char>,
    token: Seq<char>,
    out: ApiResult<SwitcherDatabase>,
) -> bool {
    let outcome = duplicate_outcome(profiles_view(database.profiles@), profile_id, now, new_id, token);
    match out {
        Ok(d) => same_except_profiles(d, database) && outcome == Ok::<Seq<ProfileSpec>, ErrorSpec>(
            profiles_view(d.profiles@),
        ),
        Err(e) => outcome == Err::<Seq<ProfileSpec>, ErrorSpec>(e@),
    }
}

/// Copies a profile at the time of the call, under a random ID.
pub fn duplicate_provider_now(database: SwitcherDatabase, profile_id: &str) -> (out: ApiResult<
    SwitcherDatabase,
>)
    ensures
        exists|now: i64, new_id: Seq<char>, token: Seq<char>|
            #[trigger] duplicated_as(database, profile_id@, now, new_id, token, out),
{
    let ghost before = database;
    let now = utc_now_nanos();
    let new_id = random_uuid();
    let token = random_uuid_simple();
    let ghost id = new_id@;
    let out = duplicate_provider_into(database, profile_id, now, new_id, token.as_str());
    assert(duplicated_as(before, profile_id@, now, id, token@, out));
    out
}

/// The profiles whose ID differs from `id`, in order.
pub open spec fn without_id(ps: Seq<ProfileSpec>, id: Seq<char>) -> Seq<ProfileSpec>
    decreases ps.len(),
{
    if ps.len() == 0 {
        Seq::empty()
    } else {
        let rest = without_id(ps.drop_last(), id);
        if ps.last().id == id {
            rest
        } else {
            rest.push(ps.last())
        }
    }
}

/// Deleting is refused for the active profile and for an unknown ID.
pub open spec fn delete_outcome(
    ps: Seq<ProfileSpec>,
    active_profile_id: Option<Seq<char>>,
    profile_id: Seq<char>,
) -> Result<Seq<ProfileSpec>, ErrorSpec> {
    if active_profile_id == Some(profile_id) {
        Err(error_spec(IS_ACTIVE@, IS_ACTIVE_MSG@))
    } else if without_id(ps, profile_id).len() == ps.len() {
        Err(error_spec(NOT_FOUND@, NOT_FOUND_DELETE_MSG@))
    } else {
        Ok(without_id(ps, profile_id))
    }
}

pub fn delete_provider_from(database: SwitcherDatabase, profile_id: &str) -> (out: ApiResult<
    SwitcherDatabase,
>)
    ensures
        match out {
            Ok(d) => same_except_profiles(d, database) && delete_outcome(
                profiles_view(database.profiles@),
                opt_text(database.active_profile_id),
                profile_id@,
            ) == Ok::<Seq<ProfileSpec>, ErrorSpec>(profiles_view(d.profiles@)),
            Err(e) => delete_outcome(
                profiles_view(database.profiles@),
                opt_text(database.active_profile_id),
                profile_id@,
            ) == Err::<Seq<ProfileSpec>, ErrorSpec>(e@),
        },
{
    let ghost ps = profiles_view(database.profiles@);
    let mut database = database;
    let is_active = match &database.active_profile_id {
        Some(active) => same_text(active.as_str(), profile_id),
        None => false,
    };
    if is_active {
        return Err(ApiError::new(IS_ACTIVE, IS_ACTIVE_MSG));
    }
    let mut kept: Vec<StoredProviderProfile> = Vec::new();
    let mut i: usize = 0;
    while i < database.profiles.len()
        invariant
            i <= database.profiles.len(),
            ps == profiles_view(database.profiles@),
            profiles_view(kept@) == without_id(ps.take(i as int), profile_id@),
        decreases database.profiles.len() - i,
    {
        assert(ps.take(i + 1).drop_last() =~= ps.take(i as int));
        assert(ps.take(i + 1).last() == database.profiles@[i as int]@);
        if !same_text(database.profiles[i].id.as_str(), profile_id) {
            let p = database.profiles[i].duplicate();
            kept.push(p);
            assert(profiles_view(kept@) =~= without_id(ps.take(i as int), profile_id@).push(
                ps[i as int],
            ));
        }
        i = i + 1;
    }
    assert(ps.take(i as int) =~= ps);
    if kept.len() == database.profiles.len() {
        return Err(ApiError::new(NOT_FOUND, NOT_FOUND_DELETE_MSG));
    }
    database.profiles = kept;
    Ok(database)
}

/// The override of CODEX_HOME that settings keep: the trimmed text, absent
/// when blank.
pub open spec fn override_spec(input: Option<String>) -> Option<Seq<char>> {
    match input {
        Some(v) => if trim(v@).len() == 0 {
            None
        } else {
            Some(trim(v@))
        },
        None => None,
    }
}

pub open spec fn settings_match(d: SwitcherDatabase, database: SwitcherDatabase, input: SaveSettingsInput) -> bool {
    &&& d.schema_version == database.schema_version
    &&& d.profiles == database.profiles
    &&& d.active_profile_id == database.active_profile_id
    &&& d.active_provider_id == database.active_provider_id
    &&& d.official_snapshot == database.official_snapshot
    &&& opt_text(d.settings.codex_home_override) == override_spec(input.codex_home_override)
    &&& d.settings.backup_retention == if input.backup_retention < 1 {
        1
    } else if input.backup_retention > 50 {
        50
    } else {
        input.backup_retention
    }
    &&& d.settings.inject_models_default == input.inject_models_default
}

/// Stores the settings of the form; `override_is_absolute` tells whether the
/// trimmed CODEX_HOME override is an absolute path on this platform.
pub fn apply_settings(
    database: SwitcherDatabase,
    input: SaveSettingsInput,
    override_is_absolute: bool,
) -> (out: ApiResult<SwitcherDatabase>)
    ensures
        match out {
            Ok(d) => (override_spec(input.codex_home_override) is None || override_is_absolute)
                && settings_match(d, database, input),
            Err(e) => override_spec(input.codex_home_override) is Some && !override_is_absolute
                && e@ == error_spec(HOME_NOT_ABSOLUTE@, HOME_NOT_ABSOLUTE_MSG@),
        },
{
    let mut database = database;
    let codex_home_override = match &input.codex_home_override {
        Some(v) => {
            let t = trim_str(v.as_str());
            if t.as_str().is_empty() {
                None
            } else {
                Some(t)
            }
        },
        None => None,
    };
    if codex_home_override.is_some() && !override_is_absolute {
        return Err(ApiError::new(HOME_NOT_ABSOLUTE, HOME_NOT_ABSOLUTE_MSG));
    }
    database.settings.codex_home_override = codex_home_override;
    database.settings.backup_retention = if input.backup_retention < 1 {
        1
    } else if input.backup_retention > 50 {
        50
    } else {
        input.backup_retention
    };
    database.settings.inject_models_default = input.inject_models_default;
    Ok(database)
}

/// Stores the settings of the form, after asking the platform whether the
/// CODEX_HOME override is an absolute path.
pub fn save_settings_into(database: SwitcherDatabase, input: SaveSettingsInput) -> (out: ApiResult<
    SwitcherDatabase,
>)
    ensures
        match out {
            Ok(d) => settings_match(d, database, input),
            Err(e) => override_spec(input.codex_home_override) is Some && e@ == error_spec(
                HOME_NOT_ABSOLUTE@,
                HOME_NOT_ABSOLUTE_MSG@,
            ),
        },
{
    let absolute = match &input.codex_home_override {
        Some(v) => {
            let t = trim_str(v.as_str());
            path_is_absolute(t.as_str())
        },
        None => false,
    };
    apply_settings(database, input, absolute)
}

/// The profile as the user interface shows it, without the key itself.
pub open spec fn ui_profile_matches(u: ProviderProfile, p: ProfileSpec) -> bool {
    &&& u.id@ == p.id
    &&& u.name@ == p.name
    &&& u.provider_id@ == p.provider_id
    &&& u.base_url@ == p.base_url
    &&& u.has_api_key == (p.protected_api_key is Some)
    &&& u.default_model@ == p.default_model
    &&& models_view(u.models@) == p.models
    &&& u.timeout_seconds == p.timeout_seconds
    &&& u.inject_models == p.inject_models
    &&& u.created_at_utc == p.created_at_utc
    &&& u.updated_at_utc == p.updated_at_utc
}

pub fn to_provider_profile(value: &StoredProviderProfile) -> (out: ProviderProfile)
    ensures
        ui_profile_matches(out, value@),
{
    ProviderProfile {
        id: copy_str(value.id.as_str()),
        name: copy_str(value.name.as_str()),
        provider_id: copy_str(value.provider_id.as_str()),
        base_url: copy_str(value.base_url.as_str()),
        has_api_key: value.protected_api_key.is_some(),
        default_model: copy_str(value.default_model.as_str()),
        models: duplicate_models(&value.models),
        timeout_seconds: value.timeout_seconds,
        inject_models: value.inject_models,
        created_at_utc: value.created_at_utc,
        updated_at_utc: value.updated_at_utc,
    }
}

pub fn profiles_for_ui(database: &SwitcherDatabase) -> (out: Vec<ProviderProfile>)
    ensures
        out@.len() == database.profiles@.len(),
        forall|i: int|
            0 <= i < out@.len() ==> ui_profile_matches(#[trigger] out@[i], database.profiles@[i]@),
{
    let mut out: Vec<ProviderProfile> = Vec::new();
    let mut i: usize = 0;
    while i < database.profiles.len()
        invariant
            i <= database.profiles.len(),
            out@.len() == i,
            forall|k: int|
                0 <= k < i ==> ui_profile_matches(#[trigger] out@[k], database.profiles@[k]@),
        decreases database.profiles.len() - i,
    {
        out.push(to_provider_profile(&database.profiles[i]));
        i = i + 1;
    }
    out
}


pub const BEARER_PATTERN: &'static str = r#"(?i)\bBearer\s+[^\s"',}]+"#;

pub const TOKEN_PATTERN: &'static str = r"(?i)\b(?:sk|sess)-[A-Za-z0-9._-]+";

pub const USER_PATH_PATTERN: &'static str = r"(?i)([A-Z]:\\Users\\)[^\\/\s]+";

pub const MASK: &'static str = "***";

pub const BEARER_MASK: &'static str = "Bearer ***";

pub const USER_PATH_MASK: &'static str = "${1}***";

/// Log text with bearer tokens, `sk-` / `sess-` keys and the user name in
/// `X:\Users\<name>` paths masked. Should one of the patterns not compile,
/// the whole text is masked.
pub open spec fn log_text_spec(value: Seq<char>) -> Seq<char> {
    if regex_compiles(BEARER_PATTERN@) && regex_compiles(TOKEN_PATTERN@) && regex_compiles(
        USER_PATH_PATTERN@,
    ) {
        regex_replace_all(
            USER_PATH_PATTERN@,
            regex_replace_all(
                TOKEN_PATTERN@,
                regex_replace_all(BEARER_PATTERN@, value, BEARER_MASK@),
                MASK@,
            ),
            USER_PATH_MASK@,
        )
    } else {
        MASK@
    }
}

pub fn sanitize_log_text(value: &str) -> (out: String)
    ensures
        out@ == log_text_spec(value@),
{
    let bearer = compile(BEARER_PATTERN);
    let token = compile(TOKEN_PATTERN);
    let user_path = compile(USER_PATH_PATTERN);
    match (bearer, token, user_path) {
        (Some(bearer), Some(token), Some(user_path)) => {
            let output = replace_all(&bearer, value, BEARER_MASK);
            let output = replace_all(&token, output.as_str(), MASK);
            replace_all(&user_path, output.as_str(), USER_PATH_MASK)
        },
        _ => copy_str(MASK),
    }
}

/// Keys whose values a log context never shows.
pub open spec fn is_context_secret_key(key: Seq<char>) -> bool {
    let k = lower(key);
    k == "apikey"@ || k == "api_key"@ || k == "authorization"@ || k == "token"@ || k == "secret"@
}

/// A log context with secret members replaced by `***` and every text
/// sanitised.
pub open spec fn context_spec(v: JsonSpec) -> JsonSpec
    decreases v,
{
    match v {
        JsonSpec::Str(t) => JsonSpec::Str(log_text_spec(t)),
        JsonSpec::Array(items) => JsonSpec::Array(
            Seq::new(
                items.len(),
                |i: int|
                    if 0 <= i < items.len() {
                        context_spec(items[i])
                    } else {
                        JsonSpec::Null
                    },
            ),
        ),
        JsonSpec::Object(ms) => JsonSpec::Object(
            Seq::new(
                ms.len(),
                |i: int|
                    if 0 <= i < ms.len() {
                        (
                            ms[i].0,
                            if is_context_secret_key(ms[i].0) {
                                JsonSpec::Str(MASK@)
                            } else {
                                context_spec(ms[i].1)
                            },
                        )
                    } else {
                        (Seq::empty(), JsonSpec::Null)
                    },
            ),
        ),
        other => other,
    }
}

fn is_context_secret(key: &str) -> (b: bool)
    ensures
        b == is_context_secret_key(key@),
{
    let k = ascii_lowercase(key);
    same_text(k.as_str(), "apikey") || same_text(k.as_str(), "api_key") || same_text(
        k.as_str(),
        "authorization",
    ) || same_text(k.as_str(), "token") || same_text(k.as_str(), "secret")
}

pub fn sanitize_context(value: &JsonValue) -> (out: JsonValue)
    ensures
        out@ == context_spec(value@),
    decreases value,
{
    match value {
        JsonValue::Str(text) => JsonValue::Str(sanitize_log_text(text.as_str())),
        JsonValue::Array(items) => {
            let mut out: Vec<JsonValue> = Vec::new();
            let mut i: usize = 0;
            while i < items.len()
                invariant
                    *value == JsonValue::Array(*items),
                    i <= items.len(),
                    out@.len() == i,
                    forall|k: int|
                        0 <= k < i ==> (#[trigger] out@[k])@ == context_spec(items@[k]@),
                decreases items.len() - i,
            {
                proof {
                    assert(decreases_to!(*value => (*value)->Array_0));
                    assert(decreases_to!(*items => items@));
                    assert(decreases_to!(items@ => items@[i as int]));
                }
                out.push(sanitize_context(&items[i]));
                i = i + 1;
            }
            let r = JsonValue::Array(out);
            assert(json_view(r)->Array_0 =~= context_spec(value@)->Array_0);
            r
        },
        JsonValue::Object(members) => {
            let mut out: Vec<(String, JsonValue)> = Vec::new();
            let mut i: usize = 0;
            proof {
                lemma_object_view(*members);
            }
            while i < members.len()
                invariant
                    *value == JsonValue::Object(*members),
                    value@ == JsonSpec::Object(members_view(members@)),
                    i <= members.len(),
                    out@.len() == i,
                    forall|k: int|
                        0 <= k < i ==> (#[trigger] out@[k]).0@ == members@[k].0@ && out@[k].1@ == (
                        if is_context_secret_key(members@[k].0@) {
                            JsonSpec::Str(MASK@)
                        } else {
                            context_spec(members@[k].1@)
                        }),
                decreases members.len() - i,
            {
                proof {
                    assert(decreases_to!(*value => (*value)->Object_0));
                    assert(decreases_to!(*members => members@));
                    assert(decreases_to!(members@ => members@[i as int]));
                    assert(decreases_to!(members@[i as int] => members@[i as int].1));
                }
                let key = copy_str(members[i].0.as_str());
                let sanitized = if is_context_secret(members[i].0.as_str()) {
                    JsonValue::Str(copy_str(MASK))
                } else {
                    sanitize_context(&members[i].1)
                };
                out.push((key, sanitized));
                i = i + 1;
            }
            let r = JsonValue::Object(out);
            proof {
                lemma_object_view(out);
            }
            assert(members_view(out@) =~= context_spec(value@)->Object_0);
            r
        },
        JsonValue::Null => JsonValue::Null,
        JsonValue::Bool(b) => JsonValue::Bool(*b),
        JsonValue::UInt(n) => JsonValue::UInt(*n),
        JsonValue::Int(n) => JsonValue::Int(*n),
        JsonValue::Float(t) => JsonValue::Float(copy_str(t.as_str())),
    }
}

/// How a draft's entry names a stored model: its trimmed ID, its trimmed
/// display name, or the ID when that is blank, and its context window when
/// that is above zero.
pub open spec fn named_from(d: ModelSpec, item: ModelSpec) -> bool {
    &&& d.id == trim(item.id)
    &&& d.id.len() > 0
    &&& trim(item.display_name).len() > 0 ==> d.display_name == trim(item.display_name)
    &&& trim(item.display_name).len() == 0 ==> d.display_name == d.id
    &&& d.context_window == (match item.context_window {
        Some(w) => if w > 0 {
            Some(w)
        } else {
            None
        },
        None => None,
    })
}

/// Every model that a saved draft keeps comes from one of the draft's
/// entries: it has that entry's trimmed ID (never blank) and that entry's
/// trimmed display name, or its ID when the display name is blank; so no
/// kept model has an empty display name.
pub proof fn lemma_kept_models_are_named(items: Seq<ModelSpec>)
    ensures
        forall|k: int|
            0 <= k < dedup_models(items).len() ==> {
                &&& exists|j: int| 0 <= j < items.len() && named_from(#[trigger] dedup_models(items)[k], items[j])
                &&& dedup_models(items)[k].display_name.len() > 0
            },
    decreases items.len(),
{
    if items.len() > 0 {
        let init = items.drop_last();
        lemma_kept_models_are_named(init);
        let prev = dedup_models(init);
        let e = normalized_entry(items.last());
        let out = dedup_models(items);
        assert forall|k: int| 0 <= k < out.len() implies {
            &&& exists|j: int| 0 <= j < items.len() && named_from(#[trigger] out[k], items[j])
            &&& out[k].display_name.len() > 0
        } by {
            if k < prev.len() {
                assert(out[k] == prev[k]);
                let j = choose|j: int| 0 <= j < init.len() && named_from(prev[k], init[j]);
                assert(items[j] == init[j]);
                assert(named_from(out[k], items[j]));
            } else {
                assert(out == prev.push(e));
                assert(out[k] == e);
                assert(named_from(out[k], items[items.len() - 1]));
            }
        }
    }
}

/// Every model of a saved draft has a display name: the kept entries as
/// above, and an added default model named by its ID.
pub proof fn lemma_saved_models_have_names(items: Seq<ModelSpec>, default_model: Seq<char>)
    ensures
        forall|k: int|
            0 <= k < with_default_model(dedup_models(items), default_model).len() ==> (
            #[trigger] with_default_model(dedup_models(items), default_model)[k]).display_name.len()
                > 0,
{
    lemma_kept_models_are_named(items);
    let d = dedup_models(items);
    let w = with_default_model(d, default_model);
    assert forall|k: int| 0 <= k < w.len() implies (#[trigger] w[k]).display_name.len() > 0 by {
        if default_model.len() > 0 && !has_model_id(d, default_model) {
            if k > 0 {
                assert(w[k] == d[k - 1]);
            }
        } else {
            assert(w[k] == d[k]);
        }
    }
}

/// No two models that a saved draft keeps have the same ID.
pub proof fn lemma_kept_model_ids_distinct(items: Seq<ModelSpec>)
    ensures
        forall|a: int, b: int|
            0 <= a < b < dedup_models(items).len() ==> (#[trigger] dedup_models(items)[a]).id
                != (#[trigger] dedup_models(items)[b]).id,
    decreases items.len(),
{
    if items.len() > 0 {
        let init = items.drop_last();
        lemma_kept_model_ids_distinct(init);
        let prev = dedup_models(init);
        let e = normalized_entry(items.last());
        let out = dedup_models(items);
        assert forall|a: int, b: int| 0 <= a < b < out.len() implies (#[trigger] out[a]).id
            != (#[trigger] out[b]).id by {
            if b < prev.len() {
                assert(out[a] == prev[a] && out[b] == prev[b]);
            } else {
                assert(out == prev.push(e));
                assert(out[a] == prev[a]);
                assert(out[b] == e);
                assert(!has_model_id(prev, e.id));
                assert(prev[a].id != e.id);
            }
        }
    }
}

} // verus!
