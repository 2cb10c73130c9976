//! Switching to a profile: validating what will be written to each target,
//! rendering the configuration, and the steps and summary of a run.

use vstd::prelude::*;

use crate::fresh::utc_now_nanos;
use crate::json_text::{
    encode_json_string, json_pretty_member, json_string_literal, pretty_member_object,
};
use crate::paths::AppPaths;
use crate::pattern::{compile, is_match, regex_compiles, regex_is_match};
use crate::profiles::models::{
    CodexAuthMode, CodexProfile, CodexProfileSpec, DEFAULT_APIKEY_PROVIDER_NAME, ProfileDatabase,
    ProviderCategory, StepSpec, SwitchExecutionStatus, SwitchExecutionStep, SwitchExecutionSummary,
    SwitchPreview, SwitchStepStatus, SwitchTargetPreview, codex_profiles_view, steps_view,
};
use crate::profiles::store::{find_codex_profile, profile_index};
use crate::profiles::targets::TargetContext;
use crate::profiles::{AppError, AppResult, dto_spec, is_validation_error, text_result, validation_spec};
use crate::switcher::ErrorSpec;
use crate::text::{
    opt_text,
    copy_str, decimal, decimal_string, ends_with, ends_with_str, push_str, replace_all, replace_str,
    strings_view, trim, trim_str,
};

verus! {

pub const PROFILE_NOT_FOUND_MSG: &'static str = "未找到要操作的组合。";

pub const PROVIDER_NAME_INVALID: &'static str = "provider_name_invalid";

pub const PROVIDER_NAME_INVALID_MSG: &'static str = "设置里的 API Key 提供商名无效。请只使用字母、数字、下划线或短横线。";

pub const PROVIDER_NAME_PATTERN: &'static str = r"^[A-Za-z0-9_-]+$";

pub const TARGET_DIRECTORY_MISSING: &'static str = "target_directory_missing";

pub const AUTH_JSON_MISSING: &'static str = "auth_json_missing";

pub const AUTH_JSON_MISSING_MSG: &'static str = "此组合未保存 auth.json 文件路径。";

pub const AUTH_JSON_SOURCE_MISSING: &'static str = "auth_json_source_missing";

pub const AUTH_JSON_SOURCE_MISSING_MSG: &'static str = "已保存的 auth.json 不存在。";

pub const API_KEY_MISSING: &'static str = "api_key_missing";

pub const API_KEY_MISSING_MSG: &'static str = "此组合未保存 API Key。";

pub const API_KEY_EMPTY: &'static str = "api_key_empty";

pub const API_KEY_EMPTY_MSG: &'static str = "此组合保存的 API Key 为空。";

pub const OPENAI_TEMPLATE_EMPTY: &'static str = "openai_template_empty";

pub const OPENAI_TEMPLATE_EMPTY_MSG: &'static str = "OpenAI 模板不能为空。";

pub const CONFIG_SOURCE_MISSING: &'static str = "config_toml_source_missing";

pub const CONFIG_SOURCE_MISSING_MSG: &'static str = "已保存的 config.toml 不存在。";

pub const BASE_URL_MISSING: &'static str = "base_url_missing";

pub const BASE_URL_MISSING_MSG: &'static str = "当前组合缺少 Base URL。";

pub const APIKEY_TEMPLATE_EMPTY: &'static str = "apikey_template_empty";

pub const APIKEY_TEMPLATE_EMPTY_MSG: &'static str = "APIKEY 模板不能为空。";

pub const API_KEY_FIELD: &'static str = "OPENAI_API_KEY";

pub const AUTH_SERIALIZE_FAILED_MSG: &'static str = "生成 auth.json 失败。";

/// Carries out a switch to a profile on the selected targets.
pub struct CodexSwitchService<'a> {
    pub paths: &'a AppPaths,
}

impl<'a> CodexSwitchService<'a> {
    pub fn new(paths: &'a AppPaths) -> (out: Self)
        ensures
            out.paths == paths,
    {
        CodexSwitchService { paths }
    }
}

/// The profile to switch to, or `profile_not_found`.
pub fn find_profile<'b>(database: &'b ProfileDatabase, profile_id: &str) -> (out: AppResult<
    &'b CodexProfile,
>)
    ensures
        ({
            let ps = codex_profiles_view(database.profiles@);
            let i = profile_index(ps, profile_id@);
            &&& out is Ok <==> i >= 0
            &&& out matches Ok(p) ==> p@ == ps[i]
            &&& out matches Err(e) ==> is_validation_error(
            e,
            
                crate::profiles::store::PROFILE_NOT_FOUND@,
                PROFILE_NOT_FOUND_MSG@,
            )
        }),
{
    match find_codex_profile(&database.profiles, profile_id) {
        Some(i) => {
            proof {
                assert(codex_profiles_view(database.profiles@)[i as int] == database.profiles@[i as int]@);
            }
            Ok(&database.profiles[i])
        },
        None => Err(
            AppError::validation(crate::profiles::store::PROFILE_NOT_FOUND, PROFILE_NOT_FOUND_MSG),
        ),
    }
}

/// The provider name written for API-key profiles: the configured name
/// trimmed, or `apikey` when blank; it must consist of ASCII letters,
/// digits, `_` and `-` (matched with the regex crate; should the pattern
/// not compile, every name is refused).
pub open spec fn provider_name_outcome(configured: Seq<char>) -> Result<Seq<char>, ErrorSpec> {
    let name = if trim(configured).len() == 0 {
        DEFAULT_APIKEY_PROVIDER_NAME@
    } else {
        trim(configured)
    };
    if regex_compiles(PROVIDER_NAME_PATTERN@) && regex_is_match(PROVIDER_NAME_PATTERN@, name) {
        Ok(name)
    } else {
        Err(validation_spec(PROVIDER_NAME_INVALID@, PROVIDER_NAME_INVALID_MSG@))
    }
}

pub fn effective_api_key_provider_name(database: &ProfileDatabase) -> (out: AppResult<String>)
    ensures
        text_result(out) == provider_name_outcome(database.api_key_provider_name@),
{
    let trimmed = trim_str(database.api_key_provider_name.as_str());
    let name = if trimmed.as_str().is_empty() {
        copy_str(DEFAULT_APIKEY_PROVIDER_NAME)
    } else {
        trimmed
    };
    match compile(PROVIDER_NAME_PATTERN) {
        Some(pattern) => {
            if is_match(&pattern, name.as_str()) {
                Ok(name)
            } else {
                Err(AppError::validation(PROVIDER_NAME_INVALID, PROVIDER_NAME_INVALID_MSG))
            }
        },
        None => Err(AppError::validation(PROVIDER_NAME_INVALID, PROVIDER_NAME_INVALID_MSG)),
    }
}

pub fn append_step(
    steps: &mut Vec<SwitchExecutionStep>,
    name: &str,
    detail: String,
    status: SwitchStepStatus,
)
    ensures
        steps_view(final(steps)@) == steps_view(old(steps)@).push(
            StepSpec { name: name@, detail: detail@, status },
        ),
{
    let ghost before = steps@;
    steps.push(SwitchExecutionStep { name: copy_str(name), detail, status });
    assert(steps_view(steps@) =~= steps_view(before).push(
        StepSpec { name: name@, detail: detail@, status },
    ));
}

pub open spec fn newline_terminated(content: Seq<char>) -> Seq<char> {
    if ends_with(content, seq!['\n']) {
        content
    } else {
        content.push('\n')
    }
}

pub fn ensure_trailing_newline(content: &str) -> (out: String)
    ensures
        out@ == newline_terminated(content@),
{
    proof {
        reveal_strlit("\n");
        assert("\n"@ =~= seq!['\n']);
    }
    if ends_with_str(content, "\n") {
        copy_str(content)
    } else {
        let mut out = copy_str(content);
        out.push('\n');
        out
    }
}

/// A text as a TOML basic string: its JSON string literal, or `""` should
/// serialisation fail.
pub open spec fn toml_string_spec(value: Seq<char>) -> Seq<char> {
    match json_string_literal(value) {
        Some(s) => s,
        None => "\"\""@,
    }
}

pub fn to_toml_string(value: &str) -> (out: String)
    ensures
        out@ == toml_string_spec(value@),
{
    match encode_json_string(value) {
        Some(s) => s,
        None => copy_str("\"\""),
    }
}

/// The `config.toml` of an OpenAI profile: the OpenAI template with a
/// final newline; a blank template is refused.
pub open spec fn openai_config_spec(template: Seq<char>) -> Result<Seq<char>, ErrorSpec> {
    if trim(template).len() == 0 {
        Err(validation_spec(OPENAI_TEMPLATE_EMPTY@, OPENAI_TEMPLATE_EMPTY_MSG@))
    } else {
        Ok(newline_terminated(template))
    }
}

pub fn openai_config_payload(template: &str) -> (out: AppResult<String>)
    ensures
        text_result(out) == openai_config_spec(template@),
{
    let t = trim_str(template);
    if t.as_str().is_empty() {
        return Err(AppError::validation(OPENAI_TEMPLATE_EMPTY, OPENAI_TEMPLATE_EMPTY_MSG));
    }
    Ok(ensure_trailing_newline(template))
}

/// The `config.toml` of an API-key profile: the API-key template with
/// `{base_url}` and `{provider_name}` replaced by TOML strings and
/// `{provider_key}` by the bare provider name, with a final newline; a blank
/// template is refused.
pub open spec fn apikey_config_spec(
    template: Seq<char>,
    base_url: Seq<char>,
    provider_name: Seq<char>,
) -> Result<Seq<char>, ErrorSpec> {
    if trim(template).len() == 0 {
        Err(validation_spec(APIKEY_TEMPLATE_EMPTY@, APIKEY_TEMPLATE_EMPTY_MSG@))
    } else {
        Ok(
            newline_terminated(
                replace_all(
                    replace_all(
                        replace_all(template, "{base_url}"@, toml_string_spec(trim(base_url))),
                        "{provider_name}"@,
                        toml_string_spec(provider_name),
                    ),
                    "{provider_key}"@,
                    provider_name,
                ),
            ),
        )
    }
}

pub fn render_apikey_config(template: &str, base_url: &str, provider_name: &str) -> (out: AppResult<
    String,
>)
    ensures
        text_result(out) == apikey_config_spec(template@, base_url@, provider_name@),
{
    let t = trim_str(template);
    if t.as_str().is_empty() {
        return Err(AppError::validation(APIKEY_TEMPLATE_EMPTY, APIKEY_TEMPLATE_EMPTY_MSG));
    }
    proof {
        reveal_strlit("{base_url}");
        reveal_strlit("{provider_name}");
        reveal_strlit("{provider_key}");
    }
    let trimmed_url = trim_str(base_url);
    let url_text = to_toml_string(trimmed_url.as_str());
    let name_text = to_toml_string(provider_name);
    let rendered = replace_str(template, "{base_url}", url_text.as_str());
    let rendered = replace_str(rendered.as_str(), "{provider_name}", name_text.as_str());
    let rendered = replace_str(rendered.as_str(), "{provider_key}", provider_name);
    Ok(ensure_trailing_newline(rendered.as_str()))
}

/// Where the `auth.json` written for a profile comes from.
#[derive(Debug)]
pub enum AuthPayloadSource {
    /// The profile's stored `auth.json`, copied as it is.
    CopyStored(String),
    /// A file holding the profile's API key, once it is unprotected.
    ProtectedKey(String),
}

pub enum AuthSourceSpec {
    CopyStored(Seq<char>),
    ProtectedKey(Seq<char>),
}

/// OpenAI profiles and profiles in `auth.json` mode copy the stored file,
/// which must be named and exist; API-key profiles need a stored key.
pub open spec fn auth_source_spec(p: CodexProfileSpec, stored_auth_exists: bool) -> Result<
    AuthSourceSpec,
    ErrorSpec,
> {
    if p.provider_category == ProviderCategory::OpenAI || p.auth_mode == CodexAuthMode::AuthJsonFile {
        match p.stored_auth_json_path {
            Some(path) => if trim(path).len() == 0 {
                Err(validation_spec(AUTH_JSON_MISSING@, AUTH_JSON_MISSING_MSG@))
            } else if !stored_auth_exists {
                Err(validation_spec(AUTH_JSON_SOURCE_MISSING@, AUTH_JSON_SOURCE_MISSING_MSG@))
            } else {
                Ok(AuthSourceSpec::CopyStored(trim(path)))
            },
            None => Err(validation_spec(AUTH_JSON_MISSING@, AUTH_JSON_MISSING_MSG@)),
        }
    } else {
        match p.protected_api_key_base64 {
            Some(k) => Ok(AuthSourceSpec::ProtectedKey(k)),
            None => Err(validation_spec(API_KEY_MISSING@, API_KEY_MISSING_MSG@)),
        }
    }
}

pub open spec fn auth_source_result(r: AppResult<AuthPayloadSource>) -> Result<AuthSourceSpec, ErrorSpec> {
    match r {
        Ok(AuthPayloadSource::CopyStored(s)) => Ok(AuthSourceSpec::CopyStored(s@)),
        Ok(AuthPayloadSource::ProtectedKey(s)) => Ok(AuthSourceSpec::ProtectedKey(s@)),
        Err(e) => Err(dto_spec(e)),
    }
}

/// Where the `auth.json` for `profile` comes from; `stored_auth_exists`
/// says whether its stored `auth.json` (trimmed) exists.
pub fn auth_payload_source(profile: &CodexProfile, stored_auth_exists: bool) -> (out: AppResult<
    AuthPayloadSource,
>)
    ensures
        auth_source_result(out) == auth_source_spec(profile@, stored_auth_exists),
{
    if profile.provider_category == ProviderCategory::OpenAI || profile.auth_mode
        == CodexAuthMode::AuthJsonFile {
        match &profile.stored_auth_json_path {
            Some(path) => {
                let trimmed = trim_str(path.as_str());
                if trimmed.as_str().is_empty() {
                    Err(AppError::validation(AUTH_JSON_MISSING, AUTH_JSON_MISSING_MSG))
                } else if !stored_auth_exists {
                    Err(AppError::validation(AUTH_JSON_SOURCE_MISSING, AUTH_JSON_SOURCE_MISSING_MSG))
                } else {
                    Ok(AuthPayloadSource::CopyStored(trimmed))
                }
            },
            None => Err(AppError::validation(AUTH_JSON_MISSING, AUTH_JSON_MISSING_MSG)),
        }
    } else {
        match &profile.protected_api_key_base64 {
            Some(k) => Ok(AuthPayloadSource::ProtectedKey(copy_str(k.as_str()))),
            None => Err(AppError::validation(API_KEY_MISSING, API_KEY_MISSING_MSG)),
        }
    }
}

/// The `auth.json` text for an unprotected API key: `{ "OPENAI_API_KEY":
/// key }` pretty-printed; a blank key is refused.
pub open spec fn api_key_auth_spec(api_key: Seq<char>) -> Result<Seq<char>, ErrorSpec> {
    if trim(api_key).len() == 0 {
        Err(validation_spec(API_KEY_EMPTY@, API_KEY_EMPTY_MSG@))
    } else {
        match json_pretty_member(API_KEY_FIELD@, api_key) {
            Some(text) => Ok(text),
            None => Err(
                ErrorSpec {
                    code: crate::profiles::JSON_ERROR@,
                    message: crate::profiles::JSON_ERROR_MSG@,
                    detail: Some(AUTH_SERIALIZE_FAILED_MSG@),
                },
            ),
        }
    }
}

pub fn api_key_auth_payload(api_key: &str) -> (out: AppResult<String>)
    ensures
        text_result(out) == api_key_auth_spec(api_key@),
{
    let t = trim_str(api_key);
    if t.as_str().is_empty() {
        return Err(AppError::validation(API_KEY_EMPTY, API_KEY_EMPTY_MSG));
    }
    match pretty_member_object(API_KEY_FIELD, api_key) {
        Some(text) => Ok(text),
        None => Err(AppError::json(AUTH_SERIALIZE_FAILED_MSG)),
    }
}

/// Where the `config.toml` written for a profile comes from.
#[derive(Debug)]
pub enum ConfigPayloadSource {
    OpenAiTemplate,
    CopyStored(String),
    ApiKeyTemplate,
}

pub enum ConfigSourceSpec {
    OpenAiTemplate,
    CopyStored(Seq<char>),
    ApiKeyTemplate,
}

/// OpenAI profiles use the OpenAI template; API-key profiles copy their
/// stored `config.toml` (which must exist) or, without one, need a base URL
/// and use the API-key template.
pub open spec fn config_source_spec(p: CodexProfileSpec, stored_config_exists: bool) -> Result<
    ConfigSourceSpec,
    ErrorSpec,
> {
    if p.provider_category == ProviderCategory::OpenAI {
        Ok(ConfigSourceSpec::OpenAiTemplate)
    } else if p.stored_config_toml_path is Some && trim(p.stored_config_toml_path->0).len() > 0 {
        if stored_config_exists {
            Ok(ConfigSourceSpec::CopyStored(trim(p.stored_config_toml_path->0)))
        } else {
            Err(validation_spec(CONFIG_SOURCE_MISSING@, CONFIG_SOURCE_MISSING_MSG@))
        }
    } else if trim(p.base_url).len() == 0 {
        Err(validation_spec(BASE_URL_MISSING@, BASE_URL_MISSING_MSG@))
    } else {
        Ok(ConfigSourceSpec::ApiKeyTemplate)
    }
}

pub open spec fn config_source_result(r: AppResult<ConfigPayloadSource>) -> Result<
    ConfigSourceSpec,
    ErrorSpec,
> {
    match r {
        Ok(ConfigPayloadSource::OpenAiTemplate) => Ok(ConfigSourceSpec::OpenAiTemplate),
        Ok(ConfigPayloadSource::CopyStored(s)) => Ok(ConfigSourceSpec::CopyStored(s@)),
        Ok(ConfigPayloadSource::ApiKeyTemplate) => Ok(ConfigSourceSpec::ApiKeyTemplate),
        Err(e) => Err(dto_spec(e)),
    }
}

/// Where the `config.toml` for `profile` comes from; `stored_config_exists`
/// says whether its stored `config.toml` (trimmed) exists.
pub fn config_payload_source(profile: &CodexProfile, stored_config_exists: bool) -> (out: AppResult<
    ConfigPayloadSource,
>)
    ensures
        config_source_result(out) == config_source_spec(profile@, stored_config_exists),
{
    if profile.provider_category == ProviderCategory::OpenAI {
        return Ok(ConfigPayloadSource::OpenAiTemplate);
    }
    match &profile.stored_config_toml_path {
        Some(path) => {
            let trimmed = trim_str(path.as_str());
            if !trimmed.as_str().is_empty() {
                if stored_config_exists {
                    return Ok(ConfigPayloadSource::CopyStored(trimmed));
                } else {
                    return Err(AppError::validation(CONFIG_SOURCE_MISSING, CONFIG_SOURCE_MISSING_MSG));
                }
            }
        },
        None => {},
    }
    let url = trim_str(profile.base_url.as_str());
    if url.as_str().is_empty() {
        return Err(AppError::validation(BASE_URL_MISSING, BASE_URL_MISSING_MSG));
    }
    Ok(ConfigPayloadSource::ApiKeyTemplate)
}

/// The message for a target whose Codex directory is missing.
pub open spec fn target_missing_msg(display_name: Seq<char>) -> Seq<char> {
    "未找到 "@ + display_name + " 的 Codex 配置目录。"@
}

/// Index of the first target whose directory does not exist, or -1.
pub open spec fn first_missing(exists: Seq<bool>, i: int) -> int
    decreases exists.len() - i,
{
    if i < 0 || i >= exists.len() {
        -1
    } else if !exists[i] {
        i
    } else {
        first_missing(exists, i + 1)
    }
}

/// Every target's Codex directory must exist; the first that does not is
/// named in the error. `exists[i]` says whether target `i`'s exists.
pub fn ensure_target_directories(targets: &Vec<TargetContext>, exists: &Vec<bool>) -> (out: AppResult<()>)
    requires
        targets.len() == exists.len(),
    ensures
        ({
            let i = first_missing(exists@, 0);
            &&& out is Ok <==> i == -1
            &&& out matches Err(e) ==> is_validation_error(
            e,
            
                TARGET_DIRECTORY_MISSING@,
                target_missing_msg(targets@[i].display_name@),
            )
        }),
{
    let mut j: usize = 0;
    while j < targets.len()
        invariant
            j <= targets.len(),
            targets.len() == exists.len(),
            first_missing(exists@, 0) == first_missing(exists@, j as int),
        decreases targets.len() - j,
    {
        if !exists[j] {
            let mut message = copy_str("未找到 ");
            push_str(&mut message, targets[j].display_name.as_str());
            push_str(&mut message, " 的 Codex 配置目录。");
            return Err(AppError::validation(TARGET_DIRECTORY_MISSING, message.as_str()));
        }
        j = j + 1;
    }
    Ok(())
}

/// `a、b、c`: the names joined by the ideographic comma.
pub open spec fn joined_names(names: Seq<Seq<char>>) -> Seq<char>
    decreases names.len(),
{
    if names.len() == 0 {
        Seq::empty()
    } else if names.len() == 1 {
        names[0]
    } else {
        joined_names(names.drop_last()) + "、"@ + names.last()
    }
}

pub open spec fn target_names(targets: Seq<TargetContext>) -> Seq<Seq<char>> {
    targets.map_values(|t: TargetContext| t.display_name@)
}

/// The labels of the targets, in order.
pub fn display_names(targets: &Vec<TargetContext>) -> (out: Vec<String>)
    ensures
        strings_view(out@) == target_names(targets@),
{
    let mut out: Vec<String> = Vec::new();
    let mut i: usize = 0;
    while i < targets.len()
        invariant
            i <= targets.len(),
            strings_view(out@) == target_names(targets@).take(i as int),
        decreases targets.len() - i,
    {
        let ghost before = out@;
        out.push(copy_str(targets[i].display_name.as_str()));
        proof {
            assert(strings_view(out@) =~= strings_view(before).push(targets@[i as int].display_name@));
            assert(target_names(targets@).take(i as int + 1) =~= target_names(targets@).take(
                i as int,
            ).push(targets@[i as int].display_name@));
        }
        i = i + 1;
    }
    assert(target_names(targets@).take(i as int) =~= target_names(targets@));
    out
}

/// The message of a successful switch: `切换完成：` and the targets' labels.
pub fn success_message(names: &Vec<String>) -> (out: String)
    ensures
        out@ == "切换完成："@ + joined_names(strings_view(names@)) + "。"@,
{
    let mut joined = String::new();
    let mut i: usize = 0;
    while i < names.len()
        invariant
            i <= names.len(),
            joined@ == joined_names(strings_view(names@).take(i as int)),
        decreases names.len() - i,
    {
        proof {
            assert(strings_view(names@).take(i as int + 1).drop_last() =~= strings_view(names@).take(
                i as int,
            ));
        }
        if i > 0 {
            push_str(&mut joined, "、");
        }
        push_str(&mut joined, names[i].as_str());
        proof {
            if i == 0 {
                assert(joined@ =~= strings_view(names@).take(1)[0]);
            }
        }
        i = i + 1;
    }
    proof {
        assert(strings_view(names@).take(names.len() as int) =~= strings_view(names@));
    }
    let mut out = copy_str("切换完成：");
    push_str(&mut out, joined.as_str());
    push_str(&mut out, "。");
    out
}

fn labelled(display_name: &str, text: &str) -> (out: String)
    ensures
        out@ == display_name@ + text@,
{
    let mut out = copy_str(display_name);
    push_str(&mut out, text);
    out
}

/// The step after validation: `校验完成，共 <n> 个目标。`
pub fn validated_step(target_count: usize) -> (out: SwitchExecutionStep)
    ensures
        out@ == (StepSpec {
            name: "validate"@,
            detail: "校验完成，共 "@ + decimal(target_count as nat) + " 个目标。"@,
            status: SwitchStepStatus::Success,
        }),
{
    let mut detail = copy_str("校验完成，共 ");
    let n = decimal_string(target_count as u128);
    push_str(&mut detail, n.as_str());
    push_str(&mut detail, " 个目标。");
    SwitchExecutionStep { name: copy_str("validate"), detail, status: SwitchStepStatus::Success }
}

/// The backup step of a target: a managed backup was made, or there was
/// nothing to back up.
pub fn backup_step(display_name: &str, created: bool) -> (out: SwitchExecutionStep)
    ensures
        out@ == (if created {
            StepSpec {
                name: "backup"@,
                detail: display_name@ + " 已创建受管备份。"@,
                status: SwitchStepStatus::Success,
            }
        } else {
            StepSpec {
                name: "backup"@,
                detail: display_name@ + " 没有现有 auth/config 文件，跳过备份。"@,
                status: SwitchStepStatus::Skipped,
            }
        }),
{
    if created {
        SwitchExecutionStep {
            name: copy_str("backup"),
            detail: labelled(display_name, " 已创建受管备份。"),
            status: SwitchStepStatus::Success,
        }
    } else {
        SwitchExecutionStep {
            name: copy_str("backup"),
            detail: labelled(display_name, " 没有现有 auth/config 文件，跳过备份。"),
            status: SwitchStepStatus::Skipped,
        }
    }
}

pub fn write_auth_step(display_name: &str) -> (out: SwitchExecutionStep)
    ensures
        out@ == (StepSpec {
            name: "write auth"@,
            detail: display_name@ + " 的 auth.json 已写入。"@,
            status: SwitchStepStatus::Success,
        }),
{
    SwitchExecutionStep {
        name: copy_str("write auth"),
        detail: labelled(display_name, " 的 auth.json 已写入。"),
        status: SwitchStepStatus::Success,
    }
}

pub fn write_config_step(display_name: &str) -> (out: SwitchExecutionStep)
    ensures
        out@ == (StepSpec {
            name: "write config"@,
            detail: display_name@ + " 的 config.toml 已写入。"@,
            status: SwitchStepStatus::Success,
        }),
{
    SwitchExecutionStep {
        name: copy_str("write config"),
        detail: labelled(display_name, " 的 config.toml 已写入。"),
        status: SwitchStepStatus::Success,
    }
}

pub fn migrate_sessions_step(display_name: &str) -> (out: SwitchExecutionStep)
    ensures
        out@ == (StepSpec {
            name: "migrate sessions"@,
            detail: display_name@ + " 的活动对话、归档对话和 state_5.sqlite 迁移完成。"@,
            status: SwitchStepStatus::Success,
        }),
{
    SwitchExecutionStep {
        name: copy_str("migrate sessions"),
        detail: labelled(display_name, " 的活动对话、归档对话和 state_5.sqlite 迁移完成。"),
        status: SwitchStepStatus::Success,
    }
}

pub fn finalize_step() -> (out: SwitchExecutionStep)
    ensures
        out@ == (StepSpec {
            name: "finalize"@,
            detail: "已更新最后选中组合和最近一次执行结果。"@,
            status: SwitchStepStatus::Success,
        }),
{
    SwitchExecutionStep {
        name: copy_str("finalize"),
        detail: copy_str("已更新最后选中组合和最近一次执行结果。"),
        status: SwitchStepStatus::Success,
    }
}

/// The rollback step of a target: restored, nothing to restore, or the
/// restore failed with the given message.
pub fn rollback_step(display_name: &str, outcome: &Result<bool, String>) -> (out: SwitchExecutionStep)
    ensures
        out@ == match *outcome {
            Ok(true) => StepSpec {
                name: "rollback"@,
                detail: display_name@ + " 已回滚到切换前快照。"@,
                status: SwitchStepStatus::Success,
            },
            Ok(false) => StepSpec {
                name: "rollback"@,
                detail: display_name@ + " 无需回滚。"@,
                status: SwitchStepStatus::Skipped,
            },
            Err(m) => StepSpec {
                name: "rollback"@,
                detail: display_name@ + " 回滚失败："@ + m@,
                status: SwitchStepStatus::Failure,
            },
        },
{
    match outcome {
        Ok(true) => SwitchExecutionStep {
            name: copy_str("rollback"),
            detail: labelled(display_name, " 已回滚到切换前快照。"),
            status: SwitchStepStatus::Success,
        },
        Ok(false) => SwitchExecutionStep {
            name: copy_str("rollback"),
            detail: labelled(display_name, " 无需回滚。"),
            status: SwitchStepStatus::Skipped,
        },
        Err(m) => {
            let mut detail = labelled(display_name, " 回滚失败：");
            push_str(&mut detail, m.as_str());
            SwitchExecutionStep { name: copy_str("rollback"), detail, status: SwitchStepStatus::Failure }
        },
    }
}

/// The summary of an aborted switch: the steps so far and a final failed
/// `finalize` step, with the error's message.
pub fn failure_summary(
    profile: &CodexProfile,
    targets: &Vec<TargetContext>,
    steps: Vec<SwitchExecutionStep>,
    message: String,
    now: i64,
) -> (out: SwitchExecutionSummary)
    ensures
        out.executed_at_utc == now,
        out.profile_id@ == profile.id@,
        out.profile_name@ == profile.name@,
        strings_view(out.targets@) == target_names(targets@),
        out.message == message,
        out.status == SwitchExecutionStatus::Failure,
        steps_view(out.steps@) == steps_view(steps@).push(
            StepSpec {
                name: "finalize"@,
                detail: "流程已中止。"@,
                status: SwitchStepStatus::Failure,
            },
        ),
{
    let mut steps = steps;
    append_step(&mut steps, "finalize", copy_str("流程已中止。"), SwitchStepStatus::Failure);
    SwitchExecutionSummary {
        executed_at_utc: now,
        profile_id: copy_str(profile.id.as_str()),
        profile_name: copy_str(profile.name.as_str()),
        targets: display_names(targets),
        message,
        status: SwitchExecutionStatus::Failure,
        steps,
    }
}

/// The summary of a completed switch.
pub fn success_summary(
    profile: &CodexProfile,
    targets: &Vec<TargetContext>,
    steps: Vec<SwitchExecutionStep>,
    now: i64,
) -> (out: SwitchExecutionSummary)
    ensures
        out.executed_at_utc == now,
        out.profile_id@ == profile.id@,
        out.profile_name@ == profile.name@,
        strings_view(out.targets@) == target_names(targets@),
        out.message@ == "切换完成："@ + joined_names(target_names(targets@)) + "。"@,
        out.status == SwitchExecutionStatus::Success,
        out.steps == steps,
{
    let names = display_names(targets);
    let message = success_message(&names);
    SwitchExecutionSummary {
        executed_at_utc: now,
        profile_id: copy_str(profile.id.as_str()),
        profile_name: copy_str(profile.name.as_str()),
        targets: names,
        message,
        status: SwitchExecutionStatus::Success,
        steps,
    }
}

/// The summary of an aborted switch, stamped with the time of the call.
pub fn failure_summary_now(
    profile: &CodexProfile,
    targets: &Vec<TargetContext>,
    steps: Vec<SwitchExecutionStep>,
    message: String,
) -> (out: SwitchExecutionSummary)
    ensures
        out.profile_id@ == profile.id@,
        out.profile_name@ == profile.name@,
        strings_view(out.targets@) == target_names(targets@),
        out.message == message,
        out.status == SwitchExecutionStatus::Failure,
        steps_view(out.steps@) == steps_view(steps@).push(
            StepSpec {
                name: "finalize"@,
                detail: "流程已中止。"@,
                status: SwitchStepStatus::Failure,
            },
        ),
{
    failure_summary(profile, targets, steps, message, utc_now_nanos())
}

/// The summary of a completed switch, stamped with the time of the call.
pub fn success_summary_now(
    profile: &CodexProfile,
    targets: &Vec<TargetContext>,
    steps: Vec<SwitchExecutionStep>,
) -> (out: SwitchExecutionSummary)
    ensures
        out.profile_id@ == profile.id@,
        out.profile_name@ == profile.name@,
        strings_view(out.targets@) == target_names(targets@),
        out.message@ == "切换完成："@ + joined_names(target_names(targets@)) + "。"@,
        out.status == SwitchExecutionStatus::Success,
        out.steps == steps,
{
    success_summary(profile, targets, steps, utc_now_nanos())
}

/// Records a completed switch: the profile becomes the last selected one
/// and the summary the last result; nothing else changes.
pub fn record_switch_success(
    database: &mut ProfileDatabase,
    profile_id: &str,
    summary: SwitchExecutionSummary,
)
    ensures
        opt_text(final(database).last_selected_profile_id) == Some(profile_id@),
        final(database).last_switch_summary == Some(summary),
        *final(database) == (ProfileDatabase {
            last_selected_profile_id: final(database).last_selected_profile_id,
            last_switch_summary: Some(summary),
            ..*old(database)
        }),
{
    database.last_selected_profile_id = Some(copy_str(profile_id));
    database.last_switch_summary = Some(summary);
}

/// Records an aborted switch: its summary becomes the last result; the
/// last selected profile and everything else stay as they were.
pub fn record_switch_failure(database: &mut ProfileDatabase, summary: SwitchExecutionSummary)
    ensures
        *final(database) == (ProfileDatabase { last_switch_summary: Some(summary), ..*old(database) }),
{
    database.last_switch_summary = Some(summary);
}

/// The warning for a target whose directory is not there now.
pub open spec fn unavailable_warning(display_name: Seq<char>) -> Seq<char> {
    display_name + " 的目标目录当前不可用。"@
}

/// The steps that a switch runs, as the preview lists them.
pub open spec fn preview_steps_spec() -> Seq<Seq<char>> {
    seq![
        "validate"@,
        "backup"@,
        "write auth"@,
        "write config"@,
        "migrate sessions"@,
        "finalize"@,
    ]
}

/// The warnings of the targets whose directories do not exist, in order.
pub open spec fn unavailable_warnings(targets: Seq<TargetContext>, exists: Seq<bool>) -> Seq<Seq<char>>
    decreases targets.len(),
{
    if targets.len() == 0 {
        Seq::empty()
    } else {
        let rest = unavailable_warnings(targets.drop_last(), exists.take(targets.len() - 1));
        if exists[targets.len() - 1] {
            rest
        } else {
            rest.push(unavailable_warning(targets.last().display_name@))
        }
    }
}

/// The preview of switching to `profile`: its targets, a warning for each
/// target whose directory does not exist now, and the steps.
pub fn switch_preview(
    profile: &CodexProfile,
    provider_name: String,
    targets: &Vec<TargetContext>,
    exists: &Vec<bool>,
) -> (out: SwitchPreview)
    requires
        targets.len() == exists.len(),
    ensures
        out.profile_id@ == profile.id@,
        out.profile_name@ == profile.name@,
        out.provider_name == provider_name,
        out.targets@.len() == targets.len(),
        forall|i: int|
            0 <= i < targets.len() ==> (#[trigger] out.targets@[i]).target_key@ == targets@[i].target_key@
                && out.targets@[i].display_name@ == targets@[i].display_name@,
        strings_view(out.warnings@) == unavailable_warnings(targets@, exists@),
        strings_view(out.steps@) == preview_steps_spec(),
{
    let mut previews: Vec<SwitchTargetPreview> = Vec::new();
    let mut warnings: Vec<String> = Vec::new();
    let mut i: usize = 0;
    while i < targets.len()
        invariant
            i <= targets.len(),
            targets.len() == exists.len(),
            previews@.len() == i,
            forall|k: int|
                0 <= k < i ==> (#[trigger] previews@[k]).target_key@ == targets@[k].target_key@
                    && previews@[k].display_name@ == targets@[k].display_name@,
            strings_view(warnings@) == unavailable_warnings(targets@.take(i as int), exists@.take(i as int)),
        decreases targets.len() - i,
    {
        proof {
            assert(targets@.take(i as int + 1).drop_last() =~= targets@.take(i as int));
            assert(exists@.take(i as int + 1).take(i as int) =~= exists@.take(i as int));
        }
        previews.push(
            SwitchTargetPreview {
                target_key: copy_str(targets[i].target_key.as_str()),
                display_name: copy_str(targets[i].display_name.as_str()),
            },
        );
        if !exists[i] {
            warnings.push(labelled(targets[i].display_name.as_str(), " 的目标目录当前不可用。"));
        }
        i = i + 1;
        assert(strings_view(warnings@) =~= unavailable_warnings(targets@.take(i as int), exists@.take(i as int)));
    }
    proof {
        assert(targets@.take(i as int) =~= targets@);
        assert(exists@.take(i as int) =~= exists@);
    }
    let mut steps: Vec<String> = Vec::new();
    steps.push(copy_str("validate"));
    steps.push(copy_str("backup"));
    steps.push(copy_str("write auth"));
    steps.push(copy_str("write config"));
    steps.push(copy_str("migrate sessions"));
    steps.push(copy_str("finalize"));
    assert(strings_view(steps@) =~= preview_steps_spec());
    SwitchPreview {
        profile_id: copy_str(profile.id.as_str()),
        profile_name: copy_str(profile.name.as_str()),
        provider_name,
        targets: previews,
        warnings,
        steps,
    }
}

} // verus!
