//! Decisions of the switcher service: lookups, endpoints, previews,
//! interpretation of upstream replies and of Codex's own files.

use vstd::prelude::*;

use crate::json::{
    JsonSpec, JsonValue, as_array, as_str, as_str_spec, as_u64, as_u64_spec, get, get_spec,
    items_view, json_parse, parse_json,
};
use crate::order::{lemma_lex_asymmetric, lemma_lex_transitive, lex_less, lex_lt};
use crate::switcher::store::has_model_id;
use crate::switcher::models::{
    ModelDiscoveryResult, ModelSpec, ModelEntry, ProfileSpec, StoredProviderProfile, SwitchPreview,
    SwitchStep, SwitcherDatabase, ConnectionTestResult, models_view, profiles_view,
};
use crate::switcher::store::{index_with_id, find_profile_index};
use crate::switcher::url::{parse_url, url_parse};
use crate::switcher::{ApiError, ApiResult, detailed_spec, error_spec};
use crate::text::{
    copy_str, opt_str_text, same_text, decimal, decimal_string, ends_with, ends_with_str, push_str,
    strings_view, trim, trim_end_char, trim_end_char_str, trim_str,
};

verus! {

pub const PROFILE_NOT_FOUND: &'static str = "provider_not_found";

pub const PROFILE_NOT_FOUND_MSG: &'static str = "没有找到指定的 Provider。";

pub const DEFAULT_MODEL_MISSING: &'static str = "default_model_missing";

pub const DEFAULT_MODEL_MISSING_MSG: &'static str = "请先获取模型并选择默认模型。";

/// Looks a profile up by its ID.
pub fn find_profile<'a>(database: &'a SwitcherDatabase, profile_id: &str) -> (out: ApiResult<
    &'a StoredProviderProfile,
>)
    ensures
        match out {
            Ok(p) => {
                let k = index_with_id(profiles_view(database.profiles@), profile_id@);
                0 <= k < database.profiles@.len() && *p == database.profiles@[k]
            },
            Err(e) => index_with_id(profiles_view(database.profiles@), profile_id@) == -1 && e@
                == error_spec(PROFILE_NOT_FOUND@, PROFILE_NOT_FOUND_MSG@),
        },
{
    match find_profile_index(&database.profiles, profile_id) {
        Some(k) => Ok(&database.profiles[k]),
        None => Err(ApiError::new(PROFILE_NOT_FOUND, PROFILE_NOT_FOUND_MSG)),
    }
}

/// A switch needs a default model.
pub fn ensure_default_model(profile: &StoredProviderProfile) -> (out: ApiResult<()>)
    ensures
        out is Ok <==> trim(profile.default_model@).len() > 0,
        out matches Err(e) ==> e@ == error_spec(DEFAULT_MODEL_MISSING@, DEFAULT_MODEL_MISSING_MSG@),
{
    let t = trim_str(profile.default_model.as_str());
    if t.as_str().is_empty() {
        return Err(ApiError::new(DEFAULT_MODEL_MISSING, DEFAULT_MODEL_MISSING_MSG));
    }
    Ok(())
}

/// The endpoint of an API route: a base URL that has no path gets `/v1`
/// inserted, any other base URL is used as it is (without trailing slashes).
pub open spec fn endpoint_spec(base_url: Seq<char>, route: Seq<char>) -> Seq<char> {
    let base = trim_end_char(base_url, '/');
    let needs_v1 = match url_parse(base) {
        Ok(p) => p.path == Seq::<char>::empty() || p.path == "/"@,
        Err(_) => false,
    };
    if needs_v1 {
        base + "/v1/"@ + route
    } else {
        base + "/"@ + route
    }
}

pub fn api_endpoint(base_url: &str, route: &str) -> (out: String)
    ensures
        out@ == endpoint_spec(base_url@, route@),
{
    let base = trim_end_char_str(base_url, '/');
    let needs_v1 = match parse_url(base.as_str()) {
        Ok(parts) => {
            let empty = parts.path.as_str().is_empty();
            assert(empty ==> parts.path@ =~= Seq::<char>::empty());
            empty || parts.path == copy_str("/")
        },
        Err(_) => false,
    };
    let mut out = base;
    if needs_v1 {
        push_str(&mut out, "/v1/");
    } else {
        push_str(&mut out, "/");
    }
    push_str(&mut out, route);
    out
}

/// Where the model catalog of a provider lives, relative to CODEX_HOME.
pub open spec fn catalog_path_spec(provider_id: Seq<char>) -> Seq<char> {
    "model-catalogs/"@ + provider_id + ".json"@
}

pub fn catalog_relative_path(provider_id: &str) -> (out: String)
    ensures
        out@ == catalog_path_spec(provider_id@),
{
    let mut out = copy_str("model-catalogs/");
    push_str(&mut out, provider_id);
    push_str(&mut out, ".json");
    out
}

/// The single catalog file shared by all providers, which a switch removes.
pub const SHARED_CATALOG_RELATIVE_PATH: &'static str = "model-catalogs/codex-api-switcher.json";

/// The catalog files that a transaction removes once its own files are
/// written: the catalog of the previously active provider, unless that is
/// the provider being kept, and the shared catalog.
pub open spec fn stale_catalogs_spec(active: Option<Seq<char>>, kept: Option<Seq<char>>) -> Seq<
    Seq<char>,
> {
    let previous = match active {
        Some(a) => if Some(a) != kept {
            seq![catalog_path_spec(a)]
        } else {
            Seq::empty()
        },
        None => Seq::empty(),
    };
    previous.push(SHARED_CATALOG_RELATIVE_PATH@)
}

pub fn stale_catalogs(active: Option<&str>, kept: Option<&str>) -> (out: Vec<String>)
    ensures
        strings_view(out@) == stale_catalogs_spec(opt_str_text(active), opt_str_text(kept)),
{
    let mut out: Vec<String> = Vec::new();
    if let Some(a) = active {
        let same = match kept {
            Some(k) => same_text(a, k),
            None => false,
        };
        if !same {
            out.push(catalog_relative_path(a));
        }
    }
    out.push(copy_str(SHARED_CATALOG_RELATIVE_PATH));
    proof {
        assert(strings_view(out@) =~= stale_catalogs_spec(opt_str_text(active), opt_str_text(kept)));
    }
    out
}

/// The catalog just written for the provider switched to survives the
/// cleanup, unless its ID names the shared catalog.
pub proof fn lemma_new_catalog_kept(active: Option<Seq<char>>, provider_id: Seq<char>)
    requires
        provider_id != "codex-api-switcher"@,
    ensures
        !stale_catalogs_spec(active, Some(provider_id)).contains(catalog_path_spec(provider_id)),
{
    let out = stale_catalogs_spec(active, Some(provider_id));
    let mine = catalog_path_spec(provider_id);
    reveal_strlit("model-catalogs/codex-api-switcher.json");
    reveal_strlit("model-catalogs/");
    reveal_strlit(".json");
    reveal_strlit("codex-api-switcher");
    if out.contains(mine) {
        let k = choose|k: int| 0 <= k < out.len() && out[k] == mine;
        if k == out.len() - 1 {
            assert(mine == SHARED_CATALOG_RELATIVE_PATH@);
            assert(mine.subrange(15, mine.len() - 5) == provider_id);
            assert(SHARED_CATALOG_RELATIVE_PATH@.subrange(15, 33) =~= "codex-api-switcher"@);
            assert(false);
        } else {
            let a = active.unwrap();
            assert(catalog_path_spec(a) == mine);
            assert(catalog_path_spec(a).subrange(15, catalog_path_spec(a).len() - 5) =~= a);
            assert(mine.subrange(15, mine.len() - 5) =~= provider_id);
            assert(false);
        }
    }
}

pub const WARN_HOME_MISSING: &'static str = "CODEX_HOME 尚不存在，首次切换时将自动创建。";

pub const WARN_NO_V1: &'static str = "API 地址未以 /v1 结尾，请确认上游路由格式。";

pub const WARN_NO_MODELS: &'static str = "模型列表为空，将仅写入默认模型。";

pub open spec fn preview_warnings(profile: ProfileSpec, codex_home_exists: bool) -> Seq<Seq<char>> {
    let a: Seq<Seq<char>> = if !codex_home_exists {
        seq![WARN_HOME_MISSING@]
    } else {
        Seq::empty()
    };
    let b = if !ends_with(profile.base_url, "/v1"@) {
        a.push(WARN_NO_V1@)
    } else {
        a
    };
    if profile.models.len() == 0 {
        b.push(WARN_NO_MODELS@)
    } else {
        b
    }
}

/// What the preview lists as backed up: the configuration, the
/// authentication, the provider's catalog, the state database, and every
/// active and archived session file.
pub open spec fn backup_files_spec(provider_id: Seq<char>) -> Seq<Seq<char>> {
    seq![
        "config.toml"@,
        "auth.json"@,
        catalog_path_spec(provider_id),
        "state_5.sqlite"@,
        "sessions/**/*.jsonl"@,
        "archived_sessions/**/*.jsonl"@,
    ]
}

/// The preview of switching to `profile`: what is backed up, what happens to
/// Codex, and warnings about a missing CODEX_HOME, a base URL without `/v1`
/// and an empty model list.
pub fn build_switch_preview(
    profile: &StoredProviderProfile,
    codex_home: String,
    codex_home_exists: bool,
    codex_running: bool,
) -> (out: SwitchPreview)
    ensures
        out.profile_id@ == profile.id@,
        out.profile_name@ == profile.name@,
        out.provider_id@ == profile.provider_id@,
        out.codex_home == codex_home,
        strings_view(out.files_to_backup@) == backup_files_spec(profile.provider_id@),
        out.codex_running == codex_running,
        out.will_restart_codex,
        out.will_inject_models == profile.inject_models,
        strings_view(out.warnings@) == preview_warnings(profile@, codex_home_exists),
{
    let mut warnings: Vec<String> = Vec::new();
    if !codex_home_exists {
        warnings.push(copy_str(WARN_HOME_MISSING));
    }
    if !ends_with_str(profile.base_url.as_str(), "/v1") {
        warnings.push(copy_str(WARN_NO_V1));
    }
    if profile.models.len() == 0 {
        warnings.push(copy_str(WARN_NO_MODELS));
    }
    let mut files: Vec<String> = Vec::new();
    files.push(copy_str("config.toml"));
    files.push(copy_str("auth.json"));
    files.push(catalog_relative_path(profile.provider_id.as_str()));
    files.push(copy_str("state_5.sqlite"));
    files.push(copy_str("sessions/**/*.jsonl"));
    files.push(copy_str("archived_sessions/**/*.jsonl"));
    assert(strings_view(files@) =~= backup_files_spec(profile.provider_id@));
    assert(strings_view(warnings@) =~= preview_warnings(profile@, codex_home_exists));
    SwitchPreview {
        profile_id: copy_str(profile.id.as_str()),
        profile_name: copy_str(profile.name.as_str()),
        provider_id: copy_str(profile.provider_id.as_str()),
        codex_home,
        files_to_backup: files,
        codex_running,
        will_restart_codex: true,
        will_inject_models: profile.inject_models,
        warnings,
    }
}

pub const UPSTREAM_HTTP_ERROR: &'static str = "upstream_http_error";

/// The message for an upstream HTTP failure of `action`.
pub open spec fn status_message(status: u16, action: Seq<char>) -> Seq<char> {
    if status == 401 || status == 403 {
        action + "失败：API Key 未通过认证。"@
    } else if status == 429 {
        action + "失败：上游返回 429 限流。"@
    } else if status == 404 {
        action + "失败：接口地址不存在，请检查 /v1 路径。"@
    } else {
        action + "失败：HTTP "@ + decimal(status as nat) + "。"@
    }
}

/// An upstream HTTP failure: the message names the status, the detail holds
/// at most the first 500 characters of the body.
pub fn status_error(status: u16, body: &str, action: &str) -> (e: ApiError)
    ensures
        e@ == detailed_spec(
            UPSTREAM_HTTP_ERROR@,
            status_message(status, action@),
            if body@.len() <= 500 {
                body@
            } else {
                body@.take(500)
            },
        ),
{
    let mut message = copy_str(action);
    if status == 401 || status == 403 {
        push_str(&mut message, "失败：API Key 未通过认证。");
    } else if status == 429 {
        push_str(&mut message, "失败：上游返回 429 限流。");
    } else if status == 404 {
        push_str(&mut message, "失败：接口地址不存在，请检查 /v1 路径。");
    } else {
        push_str(&mut message, "失败：HTTP ");
        let digits = decimal_string(status as u128);
        push_str(&mut message, digits.as_str());
        push_str(&mut message, "。");
    }
    let chars = crate::text::chars_of(body);
    let end = if chars.len() <= 500 {
        chars.len()
    } else {
        500
    };
    let detail = crate::text::string_of_range(&chars, 0, end);
    assert(chars@.len() <= 500 ==> chars@.subrange(0, end as int) =~= body@);
    assert(chars@.len() > 500 ==> chars@.subrange(0, end as int) =~= body@.take(500));
    ApiError::detailed(UPSTREAM_HTTP_ERROR, message.as_str(), detail.as_str())
}

/// The result of a successful connection test.
pub fn connection_succeeded(endpoint: String, profile: &StoredProviderProfile, latency_ms: u128) -> (out:
    ConnectionTestResult)
    ensures
        out.endpoint == endpoint,
        out.model@ == profile.default_model@,
        out.latency_ms == latency_ms,
        out.status@ == "success"@,
        out.message@ == "连接成功，耗时 "@ + decimal(latency_ms as nat) + " ms。"@,
{
    let mut message = copy_str("连接成功，耗时 ");
    let digits = decimal_string(latency_ms);
    push_str(&mut message, digits.as_str());
    push_str(&mut message, " ms。");
    ConnectionTestResult {
        endpoint,
        model: copy_str(profile.default_model.as_str()),
        latency_ms,
        status: copy_str("success"),
        message,
    }
}

/// A step of the switch report.
pub fn step(phase: &str, status: &str, message: &str) -> (out: SwitchStep)
    ensures
        out.phase@ == phase@,
        out.status@ == status@,
        out.message@ == message@,
{
    SwitchStep { phase: copy_str(phase), status: copy_str(status), message: copy_str(message) }
}


/// `a.get(k1).or_else(|| a.get(k2))`.
pub open spec fn get_either(v: JsonSpec, k1: Seq<char>, k2: Seq<char>) -> Option<JsonSpec> {
    match get_spec(v, k1) {
        Some(x) => Some(x),
        None => get_spec(v, k2),
    }
}

/// `a.get(k1).or_else(|| a.get(k2)).or_else(|| a.get(k3))`.
pub open spec fn get_any(v: JsonSpec, k1: Seq<char>, k2: Seq<char>, k3: Seq<char>) -> Option<
    JsonSpec,
> {
    match get_either(v, k1, k2) {
        Some(x) => Some(x),
        None => get_spec(v, k3),
    }
}

pub fn get_either_exec<'a>(v: &'a JsonValue, k1: &str, k2: &str) -> (out: Option<&'a JsonValue>)
    ensures
        match out {
            Some(x) => get_either(v@, k1@, k2@) == Some(x@),
            None => get_either(v@, k1@, k2@) is None,
        },
{
    match get(v, k1) {
        Some(x) => Some(x),
        None => get(v, k2),
    }
}

pub fn get_any_exec<'a>(v: &'a JsonValue, k1: &str, k2: &str, k3: &str) -> (out: Option<
    &'a JsonValue,
>)
    ensures
        match out {
            Some(x) => get_any(v@, k1@, k2@, k3@) == Some(x@),
            None => get_any(v@, k1@, k2@, k3@) is None,
        },
{
    match get_either_exec(v, k1, k2) {
        Some(x) => Some(x),
        None => get(v, k3),
    }
}

pub open spec fn opt_json_view(o: Option<&JsonValue>) -> Option<JsonSpec> {
    match o {
        Some(x) => Some(x@),
        None => None,
    }
}

/// The model ID of one entry of a model list: `id`, else `slug`, else
/// `model`, trimmed; absent when that member is not text or is blank.
pub open spec fn listed_model_id(item: JsonSpec) -> Option<Seq<char>> {
    match as_str_spec(get_any(item, "id"@, "slug"@, "model"@)) {
        Some(s) => if trim(s).len() > 0 {
            Some(trim(s))
        } else {
            None
        },
        None => None,
    }
}

/// One entry of a model list as a model: the display name is
/// `display_name`, `displayName` or `name`, else the ID; the context window
/// is `context_window` or `contextWindow` when it is a non-negative integer.
pub open spec fn listed_model(item: JsonSpec, id: Seq<char>) -> ModelSpec {
    ModelSpec {
        id,
        display_name: match as_str_spec(get_any(item, "display_name"@, "displayName"@, "name"@)) {
            Some(d) => d,
            None => id,
        },
        context_window: as_u64_spec(get_either(item, "context_window"@, "contextWindow"@)),
    }
}

/// The models of a model list in order of appearance, entries without an ID
/// and repeated IDs skipped.
pub open spec fn discovered(items: Seq<JsonSpec>) -> Seq<ModelSpec>
    decreases items.len(),
{
    if items.len() == 0 {
        Seq::empty()
    } else {
        let prev = discovered(items.drop_last());
        match listed_model_id(items.last()) {
            None => prev,
            Some(id) => if has_model_id(prev, id) {
                prev
            } else {
                prev.push(listed_model(items.last(), id))
            },
        }
    }
}

/// Index of the first model at or after `i` whose ID sorts after `id`.
pub open spec fn first_after_id(s: Seq<ModelSpec>, id: Seq<char>, i: int) -> int
    decreases s.len() - i,
{
    if i < 0 || i >= s.len() {
        s.len() as int
    } else if lex_lt(id, s[i].id) {
        i
    } else {
        first_after_id(s, id, i + 1)
    }
}

pub proof fn lemma_first_after_id(s: Seq<ModelSpec>, id: Seq<char>, i: int)
    requires
        0 <= i <= s.len(),
    ensures
        i <= first_after_id(s, id, i) <= s.len(),
        forall|k: int| i <= k < first_after_id(s, id, i) ==> !lex_lt(id, (#[trigger] s[k]).id),
        first_after_id(s, id, i) < s.len() ==> lex_lt(id, s[first_after_id(s, id, i)].id),
    decreases s.len() - i,
{
    if i < s.len() && !lex_lt(id, s[i].id) {
        lemma_first_after_id(s, id, i + 1);
    }
}

/// Stable insertion sort by ID (the order of `sort_by` on `id`).
pub open spec fn sort_by_id(s: Seq<ModelSpec>) -> Seq<ModelSpec>
    decreases s.len(),
{
    if s.len() == 0 {
        Seq::empty()
    } else {
        let sorted = sort_by_id(s.drop_last());
        sorted.insert(first_after_id(sorted, s.last().id, 0), s.last())
    }
}

pub proof fn lemma_sort_by_id_len(s: Seq<ModelSpec>)
    ensures
        sort_by_id(s).len() == s.len(),
    decreases s.len(),
{
    if s.len() > 0 {
        lemma_sort_by_id_len(s.drop_last());
        lemma_first_after_id(sort_by_id(s.drop_last()), s.last().id, 0);
    }
}

/// The models named by a model-list reply: the array under `data` (or, when
/// there is no `data`, under `models`), or the reply itself when it is an
/// array.
pub open spec fn model_list_items(v: JsonSpec) -> Option<Seq<JsonSpec>> {
    match get_either(v, "data"@, "models"@) {
        Some(JsonSpec::Array(items)) => Some(items),
        _ => match v {
            JsonSpec::Array(items) => Some(items),
            _ => None,
        },
    }
}

pub const MODEL_LIST_MISSING: &'static str = "model_list_missing";

pub const MODEL_LIST_MISSING_MSG: &'static str = "响应中没有找到 data 或 models 数组。";

fn model_id_of(item: &JsonValue) -> (out: Option<String>)
    ensures
        match out {
            Some(s) => listed_model_id(item@) == Some(s@),
            None => listed_model_id(item@) is None,
        },
{
    match as_str(get_any_exec(item, "id", "slug", "model")) {
        Some(s) => {
            let t = trim_str(s.as_str());
            if t.as_str().is_empty() {
                None
            } else {
                Some(t)
            }
        },
        None => None,
    }
}

fn listed_model_exec(item: &JsonValue, id: String) -> (out: ModelEntry)
    ensures
        out@ == listed_model(item@, id@),
{
    let display_name = match as_str(get_any_exec(item, "display_name", "displayName", "name")) {
        Some(d) => copy_str(d.as_str()),
        None => copy_str(id.as_str()),
    };
    let context_window = as_u64(get_either_exec(item, "context_window", "contextWindow"));
    ModelEntry { id, display_name, context_window }
}

fn contains_model_id(models: &Vec<ModelEntry>, id: &String) -> (b: bool)
    ensures
        b == has_model_id(models_view(models@), id@),
{
    let mut j: usize = 0;
    while j < models.len()
        invariant
            j <= models.len(),
            forall|k: int| 0 <= k < j ==> models@[k].id@ != id@,
        decreases models.len() - j,
    {
        if models[j].id == *id {
            assert(models_view(models@)[j as int].id == id@);
            return true;
        }
        j = j + 1;
    }
    assert forall|k: int| 0 <= k < models_view(models@).len() implies (#[trigger] models_view(
        models@,
    )[k]).id != id@ by {
        assert(models_view(models@)[k] == models@[k]@);
    }
    false
}

/// Inserts `m` after every model whose ID does not sort after it.
fn insert_sorted(sorted: &mut Vec<ModelEntry>, m: ModelEntry)
    ensures
        models_view(final(sorted)@) == models_view(old(sorted)@).insert(
            first_after_id(models_view(old(sorted)@), m@.id, 0),
            m@,
        ),
{
    let ghost s = models_view(sorted@);
    let key = crate::text::chars_of(m.id.as_str());
    let mut p: usize = 0;
    while p < sorted.len()
        invariant
            p <= sorted.len(),
            s == models_view(sorted@),
            key@ == m@.id,
            first_after_id(s, m@.id, 0) == first_after_id(s, m@.id, p as int),
        ensures
            p <= sorted.len(),
            s == models_view(sorted@),
            first_after_id(s, m@.id, 0) == p,
        decreases sorted.len() - p,
    {
        let other = crate::text::chars_of(sorted[p].id.as_str());
        assert(s[p as int].id == sorted@[p as int].id@);
        if lex_less(&key, &other) {
            break;
        }
        p = p + 1;
    }
    let ghost mv = m@;
    sorted.insert(p, m);
    assert(models_view(sorted@) =~= s.insert(p as int, mv));
}

/// What a model-list reply of `endpoint` gives: the listed models, without
/// repeats, sorted by ID, or the error for a reply that lists none.
pub open spec fn model_list_spec(
    endpoint: String,
    value: JsonSpec,
    out: ApiResult<ModelDiscoveryResult>,
) -> bool {
    match out {
        Ok(r) => model_list_items(value) is Some && r.endpoint == endpoint && models_view(
            r.models@,
        ) == sort_by_id(discovered(model_list_items(value)->Some_0)) && r.message@ == "发现 "@
            + decimal(r.models@.len() as nat) + " 个模型。"@ && models_from_items(
            models_view(r.models@),
            model_list_items(value)->Some_0,
        ),
        Err(e) => model_list_items(value) is None && e@ == error_spec(
            MODEL_LIST_MISSING@,
            MODEL_LIST_MISSING_MSG@,
        ),
    }
}

/// Interprets a model-list reply of `endpoint`: the listed models, without
/// repeats, sorted by ID.
pub fn parse_model_list(endpoint: String, value: &JsonValue) -> (out: ApiResult<
    ModelDiscoveryResult,
>)
    ensures
        model_list_spec(endpoint, value@, out),
{
    let items = match as_array(get_either_exec(value, "data", "models")) {
        Some(items) => items,
        None => match as_array(Some(value)) {
            Some(items) => items,
            None => {
                return Err(ApiError::new(MODEL_LIST_MISSING, MODEL_LIST_MISSING_MSG));
            },
        },
    };
    let ghost xs = items_view(items@);
    assert(model_list_items(value@) == Some(xs));
    let mut found: Vec<ModelEntry> = Vec::new();
    let mut i: usize = 0;
    while i < items.len()
        invariant
            i <= items.len(),
            xs == items_view(items@),
            models_view(found@) == discovered(xs.take(i as int)),
        decreases items.len() - i,
    {
        assert(xs.take(i + 1).drop_last() =~= xs.take(i as int));
        assert(xs.take(i + 1).last() == items@[i as int]@);
        match model_id_of(&items[i]) {
            Some(id) => {
                if !contains_model_id(&found, &id) {
                    let entry = listed_model_exec(&items[i], id);
                    let ghost prev = models_view(found@);
                    let ghost ev = entry@;
                    found.push(entry);
                    assert(models_view(found@) =~= prev.push(ev));
                }
            },
            None => {},
        }
        i = i + 1;
    }
    assert(xs.take(i as int) =~= xs);
    let mut sorted: Vec<ModelEntry> = Vec::new();
    let mut j: usize = 0;
    let ghost d = models_view(found@);
    while j < found.len()
        invariant
            j <= found.len(),
            d == models_view(found@),
            models_view(sorted@) == sort_by_id(d.take(j as int)),
        decreases found.len() - j,
    {
        assert(d.take(j + 1).drop_last() =~= d.take(j as int));
        assert(d.take(j + 1).last() == found@[j as int]@);
        let m = found[j].duplicate();
        insert_sorted(&mut sorted, m);
        j = j + 1;
    }
    assert(d.take(j as int) =~= d);
    let mut message = copy_str("发现 ");
    let digits = decimal_string(sorted.len() as u128);
    push_str(&mut message, digits.as_str());
    push_str(&mut message, " 个模型。");
    proof {
        lemma_listed_models_keep_windows(value@);
        lemma_sort_by_id_len(d);
        assert(d == discovered(xs));
        assert forall|k: int| 0 <= k < sorted@.len() implies exists|j: int|
            0 <= j < xs.len() && window_from(#[trigger] models_view(sorted@)[k], xs[j]) by {
            assert(model_list_items(value@)->Some_0 == xs);
            assert(models_view(sorted@).len() == sorted@.len());
            assert(models_view(sorted@)[k] == sort_by_id(discovered(xs))[k]);
            assert(0 <= k < sort_by_id(discovered(xs)).len());
            let j = choose|j: int|
                0 <= j < xs.len() && window_from(sort_by_id(discovered(xs))[k], xs[j]);
            assert(window_from(models_view(sorted@)[k], xs[j]));
        }
        assert(models_from_items(models_view(sorted@), xs));
    }
    Ok(ModelDiscoveryResult { endpoint, models: sorted, message })
}

pub const MODEL_RESPONSE_INVALID: &'static str = "model_response_invalid";

pub const MODEL_RESPONSE_INVALID_MSG: &'static str = "模型列表响应不是有效 JSON。";

/// Reads the body of a successful model-list reply of `endpoint`: a body
/// that is no JSON is an error carrying the parser's message; a JSON body is
/// read as `parse_model_list` reads it.
pub fn parse_model_response(endpoint: String, body: &str) -> (out: ApiResult<ModelDiscoveryResult>)
    ensures
        match json_parse(body@) {
            Ok(value) => model_list_spec(endpoint, value, out),
            Err(message) => out matches Err(e) && e@ == detailed_spec(
                MODEL_RESPONSE_INVALID@,
                MODEL_RESPONSE_INVALID_MSG@,
                message,
            ),
        },
{
    match parse_json(body) {
        Ok(value) => parse_model_list(endpoint, &value),
        Err(message) => Err(
            ApiError::detailed(MODEL_RESPONSE_INVALID, MODEL_RESPONSE_INVALID_MSG, message.as_str()),
        ),
    }
}


/// No model is followed by one whose ID sorts before it.
pub open spec fn sorted_by_id(s: Seq<ModelSpec>) -> bool {
    forall|i: int, j: int| 0 <= i < j < s.len() ==> !lex_lt(s[j].id, s[i].id)
}

proof fn lemma_insert_keeps_sorted(s: Seq<ModelSpec>, x: ModelSpec)
    requires
        sorted_by_id(s),
    ensures
        sorted_by_id(s.insert(first_after_id(s, x.id, 0), x)),
{
    let p = first_after_id(s, x.id, 0);
    lemma_first_after_id(s, x.id, 0);
    let t = s.insert(p, x);
    assert forall|i: int, j: int| 0 <= i < j < t.len() implies !lex_lt(t[j].id, t[i].id) by {
        if j < p {
            assert(t[i] == s[i] && t[j] == s[j]);
        } else if j == p {
            assert(t[i] == s[i]);
        } else if i == p {
            assert(t[j] == s[j - 1]);
            if lex_lt(s[j - 1].id, x.id) {
                assert(p < s.len());
                if j - 1 == p {
                    lemma_lex_asymmetric(x.id, s[p].id);
                } else {
                    lemma_lex_transitive(s[j - 1].id, x.id, s[p].id);
                }
            }
        } else if i < p {
            assert(t[i] == s[i] && t[j] == s[j - 1]);
        } else {
            assert(t[i] == s[i - 1] && t[j] == s[j - 1]);
        }
    }
}

/// The models of a discovery reply come out ordered by ID, and they are the
/// discovered models, each as often as it was discovered.
pub proof fn lemma_sort_by_id(s: Seq<ModelSpec>)
    ensures
        sorted_by_id(sort_by_id(s)),
        sort_by_id(s).to_multiset() == s.to_multiset(),
    decreases s.len(),
{
    broadcast use vstd::seq_lib::to_multiset_insert, vstd::seq_lib::to_multiset_build;

    if s.len() == 0 {
        assert(sort_by_id(s) =~= s);
    } else {
        let prev = sort_by_id(s.drop_last());
        lemma_sort_by_id(s.drop_last());
        lemma_insert_keeps_sorted(prev, s.last());
        lemma_sort_by_id_len(s.drop_last());
        lemma_first_after_id(prev, s.last().id, 0);
        assert(s =~= s.drop_last().push(s.last()));
    }
}

/// The context window that a model-list entry states: its
/// `context_window`, else its `contextWindow`, when that is a non-negative
/// integer.
pub open spec fn stated_window(item: JsonSpec) -> Option<u64> {
    let w = match get_spec(item, "context_window"@) {
        Some(x) => Some(x),
        None => get_spec(item, "contextWindow"@),
    };
    match w {
        Some(JsonSpec::UInt(n)) => Some(n),
        _ => None,
    }
}

/// The display name that a model-list entry states: its `display_name`,
/// else `displayName`, else `name`, when that is a string.
pub open spec fn stated_name(item: JsonSpec) -> Option<Seq<char>> {
    let n = match get_spec(item, "display_name"@) {
        Some(x) => Some(x),
        None => match get_spec(item, "displayName"@) {
            Some(x) => Some(x),
            None => get_spec(item, "name"@),
        },
    };
    match n {
        Some(JsonSpec::Str(t)) => Some(t),
        _ => None,
    }
}

/// How an entry of a model list gives a discovered model: the model has the
/// entry's ID, the display name the entry states (else the ID) and the
/// context window the entry states.
pub open spec fn window_from(m: ModelSpec, item: JsonSpec) -> bool {
    &&& listed_model_id(item) == Some(m.id)
    &&& m.context_window == stated_window(item)
    &&& m.display_name == (match stated_name(item) {
        Some(t) => t,
        None => m.id,
    })
}

/// Each model comes from an entry of the list, as `window_from` describes.
pub open spec fn models_from_items(models: Seq<ModelSpec>, items: Seq<JsonSpec>) -> bool {
    forall|k: int|
        0 <= k < models.len() ==> exists|j: int|
            0 <= j < items.len() && window_from(#[trigger] models[k], items[j])
}

/// Every discovered model comes from an entry of the list that gives it its
/// ID, its display name and its context window: what the entry states is
/// kept.
pub proof fn lemma_discovered_keep_windows(items: Seq<JsonSpec>)
    ensures
        forall|k: int|
            0 <= k < discovered(items).len() ==> exists|j: int|
                0 <= j < items.len() && window_from(#[trigger] discovered(items)[k], items[j]),
    decreases items.len(),
{
    if items.len() > 0 {
        let init = items.drop_last();
        lemma_discovered_keep_windows(init);
        let prev = discovered(init);
        let out = discovered(items);
        assert forall|k: int| 0 <= k < out.len() implies exists|j: int|
            0 <= j < items.len() && window_from(#[trigger] out[k], items[j]) by {
            if k < prev.len() {
                assert(out[k] == prev[k]);
                let j = choose|j: int| 0 <= j < init.len() && window_from(prev[k], init[j]);
                assert(items[j] == init[j]);
                assert(window_from(out[k], items[j]));
            } else {
                let id = listed_model_id(items.last())->Some_0;
                assert(out[k] == listed_model(items.last(), id));
                assert(as_u64_spec(get_either(items.last(), "context_window"@, "contextWindow"@))
                    == stated_window(items.last()));
                assert(as_str_spec(get_any(items.last(), "display_name"@, "displayName"@, "name"@))
                    == stated_name(items.last()));
                assert(window_from(out[k], items[items.len() - 1]));
            }
        }
    }
}

/// Sorting keeps the models: each sorted model is one of the input's.
pub proof fn lemma_sort_by_id_keeps(s: Seq<ModelSpec>)
    ensures
        forall|k: int|
            0 <= k < sort_by_id(s).len() ==> exists|j: int|
                0 <= j < s.len() && #[trigger] sort_by_id(s)[k] == s[j],
    decreases s.len(),
{
    lemma_sort_by_id_len(s);
    if s.len() > 0 {
        let init = s.drop_last();
        lemma_sort_by_id_keeps(init);
        lemma_sort_by_id_len(init);
        let sorted = sort_by_id(init);
        let pos = first_after_id(sorted, s.last().id, 0);
        lemma_first_after_id(sorted, s.last().id, 0);
        let out = sort_by_id(s);
        assert(out == sorted.insert(pos, s.last()));
        assert forall|k: int| 0 <= k < out.len() implies exists|j: int|
            0 <= j < s.len() && #[trigger] out[k] == s[j] by {
            if k < pos {
                assert(out[k] == sorted[k]);
                let j = choose|j: int| 0 <= j < init.len() && sorted[k] == init[j];
                assert(s[j] == init[j]);
            } else if k == pos {
                assert(out[k] == s[s.len() - 1]);
            } else {
                assert(out[k] == sorted[k - 1]);
                let j = choose|j: int| 0 <= j < init.len() && sorted[k - 1] == init[j];
                assert(s[j] == init[j]);
            }
        }
    }
}

/// Each model that a model-list reply yields keeps the context window its
/// entry states (`context_window`, else `contextWindow`).
pub proof fn lemma_listed_models_keep_windows(value: JsonSpec)
    requires
        model_list_items(value) is Some,
    ensures
        ({
            let items = model_list_items(value)->Some_0;
            forall|k: int|
                0 <= k < sort_by_id(discovered(items)).len() ==> exists|j: int|
                    0 <= j < items.len() && window_from(
                        #[trigger] sort_by_id(discovered(items))[k],
                        items[j],
                    )
        }),
{
    let items = model_list_items(value)->Some_0;
    let d = discovered(items);
    lemma_discovered_keep_windows(items);
    lemma_sort_by_id_keeps(d);
    assert forall|k: int| 0 <= k < sort_by_id(d).len() implies exists|j: int|
        0 <= j < items.len() && window_from(#[trigger] sort_by_id(d)[k], items[j]) by {
        let i = choose|i: int| 0 <= i < d.len() && sort_by_id(d)[k] == d[i];
        let j = choose|j: int| 0 <= j < items.len() && window_from(d[i], items[j]);
        assert(window_from(sort_by_id(d)[k], items[j]));
    }
}

} // verus!
