//! Testing an API-key profile against its Responses endpoint: which model
//! and endpoint are used, and how the answer is judged.

use vstd::prelude::*;

use crate::json::{JsonSpec, JsonValue, as_str, as_str_spec, get, get_spec, json_parse, parse_json};
use crate::profiles::JSON_ERROR;
use crate::profiles::JSON_ERROR_MSG;
use crate::profiles::models::{
    CodexAuthMode, CodexProfile, CodexProfileSpec, ConnectionTestResultDto, ConnectionTestStatus,
    ProviderCategory,
};
use crate::profiles::{AppError, AppResult, dto_spec, is_validation_error, text_result, validation_spec};
use crate::switcher::ErrorSpec;
use crate::switcher::url::{canonical_reason, http_reason, serialize_url, url_serialization};
use crate::text::{
    contains, contains_str, copy_str, decimal, decimal_string, ends_with, ends_with_str,
    opt_str_text, opt_text, push_str, to_lowercase, trim, trim_end_char, trim_end_char_str,
    trim_str, unicode_lower,
};

verus! {

pub const DEFAULT_CONNECTION_TEST_MODEL: &'static str = "gpt-5.4-mini";

pub const PROVIDER_UNSUPPORTED: &'static str = "connection_test_provider_unsupported";

pub const PROVIDER_UNSUPPORTED_MSG: &'static str = "当前只支持测试 APIKEY 组合。";

pub const BASE_URL_INVALID: &'static str = "base_url_invalid";

pub const BASE_URL_INVALID_MSG: &'static str = "连接失败：Base URL 格式不正确。";

pub const BASE_URL_MISSING: &'static str = "base_url_missing";

pub const BASE_URL_MISSING_MSG: &'static str = "当前组合没有可用的 Base URL。";

pub const API_KEY_MISSING: &'static str = "api_key_missing";

pub const API_KEY_MISSING_MSG: &'static str = "当前组合没有保存 API Key。";

pub const API_KEY_EMPTY: &'static str = "api_key_empty";

pub const API_KEY_EMPTY_MSG: &'static str = "当前组合里的 API Key 为空。";

pub const AUTH_JSON_MISSING: &'static str = "auth_json_missing";

pub const AUTH_JSON_MISSING_MSG: &'static str = "请先选择 auth.json。";

pub const AUTH_JSON_KEY_MISSING: &'static str = "auth_json_key_missing";

pub const AUTH_JSON_KEY_MISSING_MSG: &'static str = "auth.json 里没有找到 OPENAI_API_KEY。";

pub const SUCCESS_MSG: &'static str = "连接成功，测试模型可用。";

pub const MODEL_ISSUE_MSG: &'static str = "已经连到服务，但测试模型不可用。你可以换一个测试模型再试。";

pub const AUTH_FAILED_MSG: &'static str = "连接失败：认证没有通过，请检查 API Key 或 auth.json。";

pub const RATE_LIMITED_MSG: &'static str = "连接到了提供商，但当前被限流。一般说明地址和认证信息是通的。";

pub const NOT_FOUND_MSG: &'static str = "连接失败：没有找到 responses 接口，请检查 Base URL 是否正确。";

pub const UNKNOWN_STATUS_TEXT: &'static str = "<unknown status code>";

/// Only API-key profiles can be tested.
pub fn ensure_testable(profile: &CodexProfile) -> (out: AppResult<()>)
    ensures
        out is Ok <==> profile.provider_category == ProviderCategory::ApiKey,
        out matches Err(e) ==> is_validation_error(
            e,
            
            PROVIDER_UNSUPPORTED@,
            PROVIDER_UNSUPPORTED_MSG@,
        ),
{
    if profile.provider_category != ProviderCategory::ApiKey {
        return Err(AppError::validation(PROVIDER_UNSUPPORTED, PROVIDER_UNSUPPORTED_MSG));
    }
    Ok(())
}

/// The model to test: a non-blank override (trimmed), else the profile's
/// non-blank test model, else the default test model.
pub open spec fn test_model_spec(profile_model: Option<Seq<char>>, override_model: Option<Seq<char>>) -> Seq<
    char,
> {
    if override_model is Some && trim(override_model->0).len() > 0 {
        trim(override_model->0)
    } else if profile_model is Some && trim(profile_model->0).len() > 0 {
        profile_model->0
    } else {
        DEFAULT_CONNECTION_TEST_MODEL@
    }
}

pub fn resolve_test_model(profile: &CodexProfile, override_model: Option<&str>) -> (out: String)
    ensures
        out@ == test_model_spec(opt_text(profile.test_model), opt_str_text(override_model)),
{
    match override_model {
        Some(m) => {
            let t = trim_str(m);
            if !t.as_str().is_empty() {
                return t;
            }
        },
        None => {},
    }
    match &profile.test_model {
        Some(m) => {
            let t = trim_str(m.as_str());
            if !t.as_str().is_empty() {
                return copy_str(m.as_str());
            }
        },
        None => {},
    }
    copy_str(DEFAULT_CONNECTION_TEST_MODEL)
}

/// The Responses endpoint of a base URL: trimmed and without trailing
/// slashes, `/responses` appended unless it is there, then parsed and
/// serialised as a URL.
pub open spec fn endpoint_text_spec(base_url: Seq<char>) -> Seq<char> {
    let normalized = trim_end_char(trim(base_url), '/');
    if ends_with(normalized, "/responses"@) {
        normalized
    } else {
        normalized + "/responses"@
    }
}

pub open spec fn endpoint_spec(base_url: Seq<char>) -> Result<Seq<char>, ErrorSpec> {
    match url_serialization(endpoint_text_spec(base_url)) {
        Some(url) => Ok(url),
        None => Err(validation_spec(BASE_URL_INVALID@, BASE_URL_INVALID_MSG@)),
    }
}

pub fn build_responses_endpoint(base_url: &str) -> (out: AppResult<String>)
    ensures
        text_result(out) == endpoint_spec(base_url@),
{
    let trimmed = trim_str(base_url);
    let normalized = trim_end_char_str(trimmed.as_str(), '/');
    let endpoint = if ends_with_str(normalized.as_str(), "/responses") {
        normalized
    } else {
        let mut e = normalized;
        push_str(&mut e, "/responses");
        e
    };
    match serialize_url(endpoint.as_str()) {
        Some(url) => Ok(url),
        None => Err(AppError::validation(BASE_URL_INVALID, BASE_URL_INVALID_MSG)),
    }
}

/// Where the base URL to test comes from.
#[derive(Debug)]
pub enum BaseUrlSource {
    /// The `config.toml` stored with the profile, at this path.
    ConfigFile(String),
    /// The profile's own base URL, trimmed.
    Direct(String),
}

pub enum BaseUrlSourceSpec {
    ConfigFile(Seq<char>),
    Direct(Seq<char>),
}

pub open spec fn base_url_source_spec(p: CodexProfileSpec) -> Result<BaseUrlSourceSpec, ErrorSpec> {
    if p.stored_config_toml_path is Some && trim(p.stored_config_toml_path->0).len() > 0 {
        Ok(BaseUrlSourceSpec::ConfigFile(p.stored_config_toml_path->0))
    } else if trim(p.base_url).len() == 0 {
        Err(validation_spec(BASE_URL_MISSING@, BASE_URL_MISSING_MSG@))
    } else {
        Ok(BaseUrlSourceSpec::Direct(trim(p.base_url)))
    }
}

pub open spec fn base_url_source_result(r: AppResult<BaseUrlSource>) -> Result<
    BaseUrlSourceSpec,
    ErrorSpec,
> {
    match r {
        Ok(BaseUrlSource::ConfigFile(s)) => Ok(BaseUrlSourceSpec::ConfigFile(s@)),
        Ok(BaseUrlSource::Direct(s)) => Ok(BaseUrlSourceSpec::Direct(s@)),
        Err(e) => Err(dto_spec(e)),
    }
}

/// A stored `config.toml` decides the base URL; otherwise the profile's
/// own base URL, which must not be blank.
pub fn base_url_source(profile: &CodexProfile) -> (out: AppResult<BaseUrlSource>)
    ensures
        base_url_source_result(out) == base_url_source_spec(profile@),
{
    match &profile.stored_config_toml_path {
        Some(path) => {
            let t = trim_str(path.as_str());
            if !t.as_str().is_empty() {
                return Ok(BaseUrlSource::ConfigFile(copy_str(path.as_str())));
            }
        },
        None => {},
    }
    let url = trim_str(profile.base_url.as_str());
    if url.as_str().is_empty() {
        return Err(AppError::validation(BASE_URL_MISSING, BASE_URL_MISSING_MSG));
    }
    Ok(BaseUrlSource::Direct(url))
}

/// Where the API key to test with comes from.
#[derive(Debug)]
pub enum ApiKeySource {
    /// The profile's protected key, to be unprotected.
    Protected(String),
    /// The `auth.json` stored with the profile, at this path.
    AuthFile(String),
}

pub enum ApiKeySourceSpec {
    Protected(Seq<char>),
    AuthFile(Seq<char>),
}

pub open spec fn api_key_source_spec(p: CodexProfileSpec) -> Result<ApiKeySourceSpec, ErrorSpec> {
    match p.auth_mode {
        CodexAuthMode::ApiKey => match p.protected_api_key_base64 {
            Some(k) => Ok(ApiKeySourceSpec::Protected(k)),
            None => Err(validation_spec(API_KEY_MISSING@, API_KEY_MISSING_MSG@)),
        },
        CodexAuthMode::AuthJsonFile => match p.stored_auth_json_path {
            Some(path) => Ok(ApiKeySourceSpec::AuthFile(path)),
            None => Err(validation_spec(AUTH_JSON_MISSING@, AUTH_JSON_MISSING_MSG@)),
        },
    }
}

pub open spec fn api_key_source_result(r: AppResult<ApiKeySource>) -> Result<ApiKeySourceSpec, ErrorSpec> {
    match r {
        Ok(ApiKeySource::Protected(s)) => Ok(ApiKeySourceSpec::Protected(s@)),
        Ok(ApiKeySource::AuthFile(s)) => Ok(ApiKeySourceSpec::AuthFile(s@)),
        Err(e) => Err(dto_spec(e)),
    }
}

pub fn api_key_source(profile: &CodexProfile) -> (out: AppResult<ApiKeySource>)
    ensures
        api_key_source_result(out) == api_key_source_spec(profile@),
{
    match profile.auth_mode {
        CodexAuthMode::ApiKey => match &profile.protected_api_key_base64 {
            Some(k) => Ok(ApiKeySource::Protected(copy_str(k.as_str()))),
            None => Err(AppError::validation(API_KEY_MISSING, API_KEY_MISSING_MSG)),
        },
        CodexAuthMode::AuthJsonFile => match &profile.stored_auth_json_path {
            Some(path) => Ok(ApiKeySource::AuthFile(copy_str(path.as_str()))),
            None => Err(AppError::validation(AUTH_JSON_MISSING, AUTH_JSON_MISSING_MSG)),
        },
    }
}

/// An unprotected key must not be blank; it is used trimmed.
pub fn checked_api_key(api_key: &str) -> (out: AppResult<String>)
    ensures
        text_result(out) == (if trim(api_key@).len() == 0 {
            Err(validation_spec(API_KEY_EMPTY@, API_KEY_EMPTY_MSG@))
        } else {
            Ok::<Seq<char>, ErrorSpec>(trim(api_key@))
        }),
{
    let t = trim_str(api_key);
    if t.as_str().is_empty() {
        return Err(AppError::validation(API_KEY_EMPTY, API_KEY_EMPTY_MSG));
    }
    Ok(t)
}

/// The key in an `auth.json` document: `OPENAI_API_KEY` as a non-blank
/// string, trimmed.
pub open spec fn auth_json_key_spec(doc: JsonSpec) -> Result<Seq<char>, ErrorSpec> {
    match as_str_spec(get_spec(doc, "OPENAI_API_KEY"@)) {
        Some(k) => if trim(k).len() > 0 {
            Ok(trim(k))
        } else {
            Err(validation_spec(AUTH_JSON_KEY_MISSING@, AUTH_JSON_KEY_MISSING_MSG@))
        },
        None => Err(validation_spec(AUTH_JSON_KEY_MISSING@, AUTH_JSON_KEY_MISSING_MSG@)),
    }
}

pub fn api_key_from_auth_json(document: &JsonValue) -> (out: AppResult<String>)
    ensures
        text_result(out) == auth_json_key_spec(document@),
{
    match as_str(get(document, "OPENAI_API_KEY")) {
        Some(k) => {
            let t = trim_str(k.as_str());
            if t.as_str().is_empty() {
                Err(AppError::validation(AUTH_JSON_KEY_MISSING, AUTH_JSON_KEY_MISSING_MSG))
            } else {
                Ok(t)
            }
        },
        None => Err(AppError::validation(AUTH_JSON_KEY_MISSING, AUTH_JSON_KEY_MISSING_MSG)),
    }
}

/// A `400 Bad Request` that complains about `max_output_tokens` or about
/// unknown or extra parameters is retried without that parameter.
pub open spec fn should_retry_spec(status: u16, body: Seq<char>) -> bool {
    let b = unicode_lower(body);
    status == 400 && (contains(b, "max_output_tokens"@) || contains(b, "unknown parameter"@)
        || contains(b, "unknown field"@) || contains(b, "additional properties"@) || contains(
        b,
        "extra inputs are not permitted"@,
    ))
}

pub fn should_retry_without_max_output_tokens(status: u16, body: &str) -> (out: bool)
    ensures
        out == should_retry_spec(status, body@),
{
    if status != 400 {
        return false;
    }
    let normalized = to_lowercase(body);
    let b = normalized.as_str();
    contains_str(b, "max_output_tokens") || contains_str(b, "unknown parameter") || contains_str(
        b,
        "unknown field",
    ) || contains_str(b, "additional properties") || contains_str(
        b,
        "extra inputs are not permitted",
    )
}

/// An answer of 400, 404 or 422 that talks about the model not being found,
/// supported or available.
pub open spec fn model_issue_spec(status: u16, detail: Seq<char>, body: Seq<char>) -> bool {
    let n = unicode_lower(detail + "\n"@ + body);
    (status == 400 || status == 404 || status == 422) && contains(n, "model"@) && (contains(
        n,
        "not found"@,
    ) || contains(n, "does not exist"@) || contains(n, "unknown model"@) || contains(
        n,
        "unsupported"@,
    ) || contains(n, "not available"@) || contains(n, "invalid model"@) || contains(
        n,
        "模型不存在"@,
    ) || contains(n, "不支持"@))
}

pub fn looks_like_model_issue(status: u16, detail: &str, body: &str) -> (out: bool)
    ensures
        out == model_issue_spec(status, detail@, body@),
{
    if !(status == 400 || status == 404 || status == 422) {
        return false;
    }
    let mut joined = copy_str(detail);
    push_str(&mut joined, "\n");
    push_str(&mut joined, body);
    let normalized = to_lowercase(joined.as_str());
    let n = normalized.as_str();
    contains_str(n, "model") && (contains_str(n, "not found") || contains_str(n, "does not exist")
        || contains_str(n, "unknown model") || contains_str(n, "unsupported") || contains_str(
        n,
        "not available",
    ) || contains_str(n, "invalid model") || contains_str(n, "模型不存在") || contains_str(
        n,
        "不支持",
    ))
}

/// The message of an error answer: `error.message`, or `error` itself as
/// text, or `message`, or `detail`.
pub open spec fn response_message_spec(doc: JsonSpec) -> Option<Seq<char>> {
    let error = get_spec(doc, "error"@);
    if error is Some && as_str_spec(get_spec(error->0, "message"@)) is Some {
        as_str_spec(get_spec(error->0, "message"@))
    } else if error is Some && as_str_spec(error) is Some {
        as_str_spec(error)
    } else if as_str_spec(get_spec(doc, "message"@)) is Some {
        as_str_spec(get_spec(doc, "message"@))
    } else {
        as_str_spec(get_spec(doc, "detail"@))
    }
}

/// The message of an error answer parsed as JSON.
pub fn try_get_response_message(document: &JsonValue) -> (out: Option<String>)
    ensures
        opt_text(out) == response_message_spec(document@),
{
    match get(document, "error") {
        Some(error) => {
            match as_str(get(error, "message")) {
                Some(m) => {
                    return Some(copy_str(m.as_str()));
                },
                None => {},
            }
            match as_str(Some(error)) {
                Some(m) => {
                    return Some(copy_str(m.as_str()));
                },
                None => {},
            }
        },
        None => {},
    }
    match as_str(get(document, "message")) {
        Some(m) => Some(copy_str(m.as_str())),
        None => match as_str(get(document, "detail")) {
            Some(m) => Some(copy_str(m.as_str())),
            None => None,
        },
    }
}

/// A message with ` 详情：<detail>` appended when there is a non-blank
/// detail.
pub open spec fn with_detail_spec(message: Seq<char>, detail: Option<Seq<char>>) -> Seq<char> {
    if detail is Some && trim(detail->0).len() > 0 {
        message + " 详情："@ + detail->0
    } else {
        message
    }
}

pub fn append_detail(message: &str, detail: Option<String>) -> (out: String)
    ensures
        out@ == with_detail_spec(message@, opt_text(detail)),
{
    match detail {
        Some(d) => {
            let t = trim_str(d.as_str());
            if t.as_str().is_empty() {
                copy_str(message)
            } else {
                let mut out = copy_str(message);
                push_str(&mut out, " 详情：");
                push_str(&mut out, d.as_str());
                out
            }
        },
        None => copy_str(message),
    }
}

pub open spec fn unwrap_text(o: Option<Seq<char>>) -> Seq<char> {
    match o {
        Some(s) => s,
        None => Seq::empty(),
    }
}

/// `StatusCode`'s text: the code and its reason phrase.
pub open spec fn status_text_spec(status: u16) -> Seq<char> {
    decimal(status as nat) + " "@ + match http_reason(status) {
        Some(r) => r,
        None => UNKNOWN_STATUS_TEXT@,
    }
}

/// The result of a test from the answer's status and body (and the body's
/// message, when it parses as JSON): success for 2xx; otherwise a warning
/// when the model looks unavailable or the provider rate-limits, else a
/// failure, with a message for the case and the answer's detail.
pub open spec fn connection_message_spec(status: u16, body: Seq<char>, detail: Option<Seq<char>>) -> Seq<
    char,
> {
    if model_issue_spec(status, unwrap_text(detail), body) {
        with_detail_spec(MODEL_ISSUE_MSG@, detail)
    } else if status == 401 || status == 403 {
        with_detail_spec(AUTH_FAILED_MSG@, detail)
    } else if status == 429 {
        with_detail_spec(RATE_LIMITED_MSG@, detail)
    } else if status == 404 {
        with_detail_spec(NOT_FOUND_MSG@, detail)
    } else {
        with_detail_spec(
            "连接失败：服务返回 "@ + decimal(status as nat) + " "@ + status_text_spec(status) + "。"@,
            detail,
        )
    }
}

pub open spec fn connection_status_spec(status: u16, body: Seq<char>, detail: Option<Seq<char>>) -> ConnectionTestStatus {
    if 200 <= status <= 299 {
        ConnectionTestStatus::Success
    } else if model_issue_spec(status, unwrap_text(detail), body) || status == 429 {
        ConnectionTestStatus::Warning
    } else {
        ConnectionTestStatus::Failure
    }
}

pub fn create_connection_result(
    status: u16,
    body: &str,
    body_document: Option<&JsonValue>,
    endpoint: String,
    model: String,
) -> (out: ConnectionTestResultDto)
    requires
        100 <= status <= 999,
    ensures
        ({
            let detail = match body_document {
                Some(d) => response_message_spec(d@),
                None => None,
            };
            &&& out.status == connection_status_spec(status, body@, detail)
            &&& out.endpoint == endpoint
            &&& out.model == model
            &&& out.message@ == (if 200 <= status <= 299 {
                SUCCESS_MSG@
            } else {
                connection_message_spec(status, body@, detail)
            })
        }),
{
    if 200 <= status && status <= 299 {
        return ConnectionTestResultDto {
            status: ConnectionTestStatus::Success,
            endpoint,
            model,
            message: copy_str(SUCCESS_MSG),
        };
    }
    let detail = match body_document {
        Some(d) => try_get_response_message(d),
        None => None,
    };
    let detail_text = match &detail {
        Some(d) => copy_str(d.as_str()),
        None => String::new(),
    };
    let model_issue = looks_like_model_issue(status, detail_text.as_str(), body);
    let warning = model_issue || status == 429;
    let message = if model_issue {
        append_detail(MODEL_ISSUE_MSG, detail)
    } else if status == 401 || status == 403 {
        append_detail(AUTH_FAILED_MSG, detail)
    } else if status == 429 {
        append_detail(RATE_LIMITED_MSG, detail)
    } else if status == 404 {
        append_detail(NOT_FOUND_MSG, detail)
    } else {
        let code = decimal_string(status as u128);
        let mut text = copy_str("连接失败：服务返回 ");
        push_str(&mut text, code.as_str());
        push_str(&mut text, " ");
        push_str(&mut text, code.as_str());
        push_str(&mut text, " ");
        match canonical_reason(status) {
            Some(r) => push_str(&mut text, r.as_str()),
            None => push_str(&mut text, UNKNOWN_STATUS_TEXT),
        }
        push_str(&mut text, "。");
        append_detail(text.as_str(), detail)
    };
    ConnectionTestResultDto {
        status: if warning {
            ConnectionTestStatus::Warning
        } else {
            ConnectionTestStatus::Failure
        },
        endpoint,
        model,
        message,
    }
}

pub const BASE_URL_PARSE_FAILED: &'static str = "base_url_parse_failed";

pub const BASE_URL_PARSE_FAILED_MSG: &'static str = "config.toml 里的 base_url 格式不正确。";

pub const BASE_URL_NOT_FOUND: &'static str = "base_url_not_found";

pub const BASE_URL_NOT_FOUND_MSG: &'static str = "没有在 config.toml 里找到 base_url。";

pub const BASE_URL_EMPTY: &'static str = "base_url_empty";

pub const BASE_URL_EMPTY_MSG: &'static str = "config.toml 里的 base_url 为空。";

/// How much of a value's members or items a search from `i` has left.
pub open spec fn url_span(v: JsonSpec, i: int) -> int {
    match v {
        JsonSpec::Object(ms) => ms.len() - i,
        JsonSpec::Array(items) => items.len() - i,
        _ => 0,
    }
}

/// The search for a `base_url` in a TOML value (tables given as JSON
/// objects, in their order), from member or item `i` on; at `i < 0` a
/// table's own text `base_url` comes first.
pub open spec fn url_search(v: JsonSpec, i: int) -> Option<Seq<char>>
    decreases v, url_span(v, i),
{
    match v {
        JsonSpec::Object(ms) => if i < 0 {
            match as_str_spec(get_spec(v, "base_url"@)) {
                Some(u) => Some(u),
                None => url_search(v, 0),
            }
        } else if i >= ms.len() {
            None
        } else {
            match url_search(ms[i].1, -1) {
                Some(u) => Some(u),
                None => url_search(v, i + 1),
            }
        },
        JsonSpec::Array(items) => if i < 0 {
            url_search(v, 0)
        } else if i >= items.len() {
            None
        } else {
            match url_search(items[i], -1) {
                Some(u) => Some(u),
                None => url_search(v, i + 1),
            }
        },
        _ => None,
    }
}

/// The `base_url` of a TOML value: a table's own text `base_url`, else the
/// first found in its values in order; the first found in an array's items;
/// nothing elsewhere.
pub open spec fn base_url_in(v: JsonSpec) -> Option<Seq<char>> {
    url_search(v, -1)
}

/// Searches a TOML value for its `base_url`.
pub fn find_base_url_in_toml(v: &JsonValue) -> (out: Option<String>)
    ensures
        opt_text(out) == base_url_in(v@),
    decreases v,
{
    match v {
        JsonValue::Object(ms) => {
            proof {
                crate::json::lemma_object_view(*ms);
            }
            if let Some(u) = as_str(get(v, "base_url")) {
                return Some(copy_str(u.as_str()));
            }
            let ghost inner = crate::json::members_view(ms@);
            let mut i: usize = 0;
            while i < ms.len()
                invariant
                    i <= ms.len(),
                    *v == JsonValue::Object(*ms),
                    v@ == JsonSpec::Object(inner),
                    inner == crate::json::members_view(ms@),
                    base_url_in(v@) == url_search(v@, i as int),
                decreases ms.len() - i,
            {
                proof {
                    assert(decreases_to!(*v => (*v)->Object_0));
                    assert(decreases_to!(*ms => ms@));
                    assert(decreases_to!(ms@ => ms@[i as int]));
                    assert(decreases_to!(ms@[i as int] => ms@[i as int].1));
                }
                let found = find_base_url_in_toml(&ms[i].1);
                assert(inner[i as int].1 == ms@[i as int].1@);
                if found.is_some() {
                    return found;
                }
                i = i + 1;
            }
            None
        },
        JsonValue::Array(items) => {
            proof {
                crate::json::lemma_array_view(*items);
            }
            let ghost inner = crate::json::items_view(items@);
            let mut i: usize = 0;
            while i < items.len()
                invariant
                    i <= items.len(),
                    *v == JsonValue::Array(*items),
                    v@ == JsonSpec::Array(inner),
                    inner == crate::json::items_view(items@),
                    base_url_in(v@) == url_search(v@, i as int),
                decreases items.len() - i,
            {
                proof {
                    assert(decreases_to!(*v => (*v)->Array_0));
                    assert(decreases_to!(*items => items@));
                    assert(decreases_to!(items@ => items@[i as int]));
                }
                let found = find_base_url_in_toml(&items[i]);
                assert(inner[i as int] == items@[i as int]@);
                if found.is_some() {
                    return found;
                }
                i = i + 1;
            }
            None
        },
        _ => None,
    }
}

/// The base URL that a stored `config.toml` names: a top-level `base_url`,
/// else the first under `model_providers`, else the first anywhere; it must
/// not be blank, and it is trimmed.
pub open spec fn config_base_url_spec(d: JsonSpec) -> Result<Seq<char>, ErrorSpec> {
    let found = match as_str_spec(get_spec(d, "base_url"@)) {
        Some(u) => Some(u),
        None => match get_spec(d, "model_providers"@) {
            Some(p) if base_url_in(p) is Some => base_url_in(p),
            _ => base_url_in(d),
        },
    };
    match found {
        None => Err(validation_spec(BASE_URL_NOT_FOUND@, BASE_URL_NOT_FOUND_MSG@)),
        Some(u) => if trim(u).len() == 0 {
            Err(validation_spec(BASE_URL_EMPTY@, BASE_URL_EMPTY_MSG@))
        } else {
            Ok(trim(u))
        },
    }
}

pub fn config_base_url(document: &JsonValue) -> (out: AppResult<String>)
    ensures
        text_result(out) == config_base_url_spec(document@),
{
    let found = match as_str(get(document, "base_url")) {
        Some(u) => Some(copy_str(u.as_str())),
        None => {
            let nested = match get(document, "model_providers") {
                Some(p) => find_base_url_in_toml(p),
                None => None,
            };
            match nested {
                Some(u) => Some(u),
                None => find_base_url_in_toml(document),
            }
        },
    };
    match found {
        None => Err(AppError::validation(BASE_URL_NOT_FOUND, BASE_URL_NOT_FOUND_MSG)),
        Some(u) => {
            let t = trim_str(u.as_str());
            if t.as_str().is_empty() {
                Err(AppError::validation(BASE_URL_EMPTY, BASE_URL_EMPTY_MSG))
            } else {
                Ok(t)
            }
        },
    }
}

/// The error for a stored `config.toml` that is not valid TOML.
pub fn config_parse_error() -> (out: AppError)
    ensures
        dto_spec(out) == validation_spec(BASE_URL_PARSE_FAILED@, BASE_URL_PARSE_FAILED_MSG@),
{
    AppError::validation(BASE_URL_PARSE_FAILED, BASE_URL_PARSE_FAILED_MSG)
}

/// The API key from the text of an `auth.json`: a text that is no JSON is
/// a JSON error carrying the parser's message; otherwise as
/// `api_key_from_auth_json`.
pub fn api_key_from_auth_text(text: &str) -> (out: AppResult<String>)
    ensures
        match json_parse(text@) {
            Ok(document) => text_result(out) == auth_json_key_spec(document),
            Err(message) => out matches Err(e) && e is Json && dto_spec(e) == (ErrorSpec {
                code: JSON_ERROR@,
                message: JSON_ERROR_MSG@,
                detail: Some(message),
            }),
        },
{
    match parse_json(text) {
        Ok(document) => api_key_from_auth_json(&document),
        Err(message) => Err(AppError::json(message.as_str())),
    }
}

/// The result of a connection test from the status and the body of the
/// reply: as `create_connection_result` judges it, with the body read as
/// JSON where it is JSON.
pub fn connection_result_from_body(status: u16, body: &str, endpoint: String, model: String) -> (out:
    ConnectionTestResultDto)
    requires
        100 <= status <= 999,
    ensures
        ({
            let detail = match json_parse(body@) {
                Ok(d) => response_message_spec(d),
                Err(_) => None,
            };
            &&& out.status == connection_status_spec(status, body@, detail)
            &&& out.endpoint == endpoint
            &&& out.model == model
            &&& out.message@ == (if 200 <= status <= 299 {
                SUCCESS_MSG@
            } else {
                connection_message_spec(status, body@, detail)
            })
        }),
{
    match parse_json(body) {
        Ok(document) => create_connection_result(status, body, Some(&document), endpoint, model),
        Err(_) => create_connection_result(status, body, None, endpoint, model),
    }
}

/// What the `toml` crate reads in a text, as a JSON-shaped value: strings,
/// integers, booleans, arrays and tables as themselves, a float or a date as
/// its text (a date as a string); `None` when the text is no TOML.
pub uninterp spec fn toml_value_parse(text: Seq<char>) -> Option<JsonSpec>;

#[verifier::external_type_specification]
#[verifier::external_body]
pub struct ExTomlValue(toml::Value);

/// A `toml::Value` as a JSON-shaped value, one for one by variant.
#[verifier::external_body]
fn json_from_toml(value: &toml::Value) -> JsonValue {
    match value {
        toml::Value::String(text) => JsonValue::Str(text.clone()),
        toml::Value::Integer(number) => JsonValue::Int(*number),
        toml::Value::Float(number) => JsonValue::Float(number.to_string()),
        toml::Value::Boolean(flag) => JsonValue::Bool(*flag),
        toml::Value::Datetime(moment) => JsonValue::Str(moment.to_string()),
        toml::Value::Array(items) => JsonValue::Array(items.iter().map(json_from_toml).collect()),
        toml::Value::Table(table) => JsonValue::Object(
            table.iter().map(|(key, item)| (key.clone(), json_from_toml(item))).collect(),
        ),
    }
}

/// `toml::from_str::<toml::Value>(text)`, converted one for one. The
/// contract claims that the outcome is the named function of the text.
#[verifier::external_body]
fn parse_toml_value(text: &str) -> (out: Option<JsonValue>)
    ensures
        match out {
            Some(v) => toml_value_parse(text@) == Some(v@),
            None => toml_value_parse(text@) is None,
        },
{
    toml::from_str::<toml::Value>(text).ok().map(|value| json_from_toml(&value))
}

/// The base URL from the text of a `config.toml`: a text that is no TOML is
/// the parse error; otherwise as `config_base_url` finds it.
pub fn base_url_from_config_text(text: &str) -> (out: AppResult<String>)
    ensures
        match toml_value_parse(text@) {
            Some(document) => text_result(out) == config_base_url_spec(document),
            None => out matches Err(e) && is_validation_error(
                e,
                BASE_URL_PARSE_FAILED@,
                BASE_URL_PARSE_FAILED_MSG@,
            ),
        },
{
    match parse_toml_value(text) {
        Some(document) => config_base_url(&document),
        None => Err(AppError::validation(BASE_URL_PARSE_FAILED, BASE_URL_PARSE_FAILED_MSG)),
    }
}

} // verus!
