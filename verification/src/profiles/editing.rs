//! Saving a profile from the editor: which files are copied, which key is
//! protected, and what is kept from the profile's previous state.

use vstd::prelude::*;

use crate::fresh::{random_uuid, utc_now_nanos};
use crate::path_utils::{as_opt_str, normalize_optional_value, normalized_optional};
use crate::profiles::models::{
    CodexAuthMode, CodexProfile, CodexProfileSpec, ProviderCategory, SaveProfileInput,
    copy_opt_text,
};
use crate::profiles::store::validate_profile_name;
use crate::profiles::{AppError, AppResult, dto_spec, validation_spec};
use crate::switcher::ErrorSpec;
use crate::text::{copy_str, opt_text, trim, trim_str};

verus! {

pub const OPENAI_AUTH_MISSING: &'static str = "openai_auth_missing";

pub const OPENAI_AUTH_MISSING_MSG: &'static str = "OpenAI 提供商需要 auth.json 文件。";

pub const CONFIG_TOML_MISSING: &'static str = "config_toml_missing";

pub const CONFIG_TOML_MISSING_MSG: &'static str = "请选择 config.toml。";

pub const BASE_URL_MISSING: &'static str = "base_url_missing";

pub const BASE_URL_MISSING_MSG: &'static str = "请输入 Base URL。";

pub const API_KEY_MISSING: &'static str = "api_key_missing";

pub const API_KEY_MISSING_MSG: &'static str = "请输入 API Key。";

pub const AUTH_JSON_MISSING: &'static str = "auth_json_missing";

pub const AUTH_JSON_MISSING_MSG: &'static str = "请选择 auth.json。";

pub const SOURCE_FILE_MISSING: &'static str = "source_file_missing";

pub const AUTH_SOURCE_MISSING_MSG: &'static str = "auth.json 文件不存在。";

pub const CONFIG_SOURCE_MISSING_MSG: &'static str = "config.toml 文件不存在。";

/// Where a profile's stored file comes from: a chosen file to copy into the
/// profile's directory, or the file that the profile already stores.
#[derive(Debug)]
pub enum AssetSource {
    Copy(String),
    Keep(String),
}

/// Where a profile's protected API key comes from: a new key to protect, or
/// the protected key that the profile already stores.
#[derive(Debug)]
pub enum KeySource {
    Protect(String),
    Keep(String),
}

pub enum AssetSpec {
    Copy(Seq<char>),
    Keep(Seq<char>),
}

/// What saving a profile does, once the input is validated.
#[derive(Debug)]
pub struct ProfilePlan {
    pub provider_category: ProviderCategory,
    pub auth_mode: CodexAuthMode,
    pub test_model: Option<String>,
    pub base_url: String,
    pub auth_json: Option<AssetSource>,
    pub config_toml: Option<AssetSource>,
    pub api_key: Option<KeySource>,
}

pub struct PlanSpec {
    pub provider_category: ProviderCategory,
    pub auth_mode: CodexAuthMode,
    pub test_model: Option<Seq<char>>,
    pub base_url: Seq<char>,
    pub auth_json: Option<AssetSpec>,
    pub config_toml: Option<AssetSpec>,
    pub api_key: Option<AssetSpec>,
}

/// Which of the files that saving may use exist: the chosen `auth.json`
/// and `config.toml`, and those the profile stores already.
#[derive(Debug, Clone, Copy)]
pub struct SourceFacts {
    pub auth_source_exists: bool,
    pub config_source_exists: bool,
    pub previous_auth_exists: bool,
    pub previous_config_exists: bool,
}

pub open spec fn asset_view(a: AssetSource) -> AssetSpec {
    match a {
        AssetSource::Copy(s) => AssetSpec::Copy(s@),
        AssetSource::Keep(s) => AssetSpec::Keep(s@),
    }
}

pub open spec fn key_view(k: KeySource) -> AssetSpec {
    match k {
        KeySource::Protect(s) => AssetSpec::Copy(s@),
        KeySource::Keep(s) => AssetSpec::Keep(s@),
    }
}

impl View for ProfilePlan {
    type V = PlanSpec;

    open spec fn view(&self) -> PlanSpec {
        PlanSpec {
            provider_category: self.provider_category,
            auth_mode: self.auth_mode,
            test_model: opt_text(self.test_model),
            base_url: self.base_url@,
            auth_json: match self.auth_json {
                Some(a) => Some(asset_view(a)),
                None => None,
            },
            config_toml: match self.config_toml {
                Some(a) => Some(asset_view(a)),
                None => None,
            },
            api_key: match self.api_key {
                Some(k) => Some(key_view(k)),
                None => None,
            },
        }
    }
}

/// The file that a profile will store: a chosen file (which must exist), or
/// else the file stored before (which must still exist), or else `missing`.
pub open spec fn asset_spec(
    chosen: Option<Seq<char>>,
    chosen_exists: bool,
    chosen_missing_msg: Seq<char>,
    previous: Option<Seq<char>>,
    previous_exists: bool,
    missing: ErrorSpec,
) -> Result<AssetSpec, ErrorSpec> {
    match normalized_optional(chosen) {
        Some(source) => if chosen_exists {
            Ok(AssetSpec::Copy(source))
        } else {
            Err(validation_spec(SOURCE_FILE_MISSING@, chosen_missing_msg))
        },
        None => match previous {
            Some(p) => if previous_exists {
                Ok(AssetSpec::Keep(p))
            } else {
                Err(missing)
            },
            None => Err(missing),
        },
    }
}

pub open spec fn prev_field(
    previous: Option<CodexProfileSpec>,
    f: spec_fn(CodexProfileSpec) -> Option<Seq<char>>,
) -> Option<Seq<char>> {
    match previous {
        Some(p) => f(p),
        None => None,
    }
}

/// What saving a profile from `input` does. An OpenAI profile keeps only an
/// `auth.json`. An API-key profile takes its base URL from the input or the
/// previous state, imports a `config.toml` or needs a base URL, and then
/// stores either a protected API key or an `auth.json`, as its mode says.
pub open spec fn plan_spec(
    input: SaveProfileInput,
    previous: Option<CodexProfileSpec>,
    facts: SourceFacts,
) -> Result<PlanSpec, ErrorSpec> {
    let chosen_auth = opt_text(input.auth_json_source_path);
    let previous_auth = prev_field(previous, |p: CodexProfileSpec| p.stored_auth_json_path);
    if input.provider_category == ProviderCategory::OpenAI {
        match asset_spec(
            chosen_auth,
            facts.auth_source_exists,
            AUTH_SOURCE_MISSING_MSG@,
            previous_auth,
            facts.previous_auth_exists,
            validation_spec(OPENAI_AUTH_MISSING@, OPENAI_AUTH_MISSING_MSG@),
        ) {
            Err(e) => Err(e),
            Ok(a) => Ok(
                PlanSpec {
                    provider_category: ProviderCategory::OpenAI,
                    auth_mode: CodexAuthMode::AuthJsonFile,
                    test_model: None,
                    base_url: Seq::empty(),
                    auth_json: Some(a),
                    config_toml: None,
                    api_key: None,
                },
            ),
        }
    } else {
        let base_url = match normalized_optional(opt_text(input.base_url)) {
            Some(b) => b,
            None => match previous {
                Some(p) => p.base_url,
                None => Seq::empty(),
            },
        };
        let config: Result<Option<AssetSpec>, ErrorSpec> = if input.import_config_toml {
            match asset_spec(
                opt_text(input.config_toml_source_path),
                facts.config_source_exists,
                CONFIG_SOURCE_MISSING_MSG@,
                prev_field(previous, |p: CodexProfileSpec| p.stored_config_toml_path),
                facts.previous_config_exists,
                validation_spec(CONFIG_TOML_MISSING@, CONFIG_TOML_MISSING_MSG@),
            ) {
                Ok(c) => Ok(Some(c)),
                Err(e) => Err(e),
            }
        } else if trim(base_url).len() == 0 {
            Err(validation_spec(BASE_URL_MISSING@, BASE_URL_MISSING_MSG@))
        } else {
            Ok(None)
        };
        let test_model = normalized_optional(opt_text(input.test_model));
        match config {
            Err(e) => Err(e),
            Ok(c) => match input.auth_mode {
                CodexAuthMode::ApiKey => {
                    let key = match normalized_optional(opt_text(input.api_key)) {
                        Some(k) => Ok(AssetSpec::Copy(k)),
                        None => match prev_field(
                            previous,
                            |p: CodexProfileSpec| p.protected_api_key_base64,
                        ) {
                            Some(k) => Ok(AssetSpec::Keep(k)),
                            None => Err(validation_spec(API_KEY_MISSING@, API_KEY_MISSING_MSG@)),
                        },
                    };
                    match key {
                        Err(e) => Err(e),
                        Ok(k) => Ok(
                            PlanSpec {
                                provider_category: ProviderCategory::ApiKey,
                                auth_mode: CodexAuthMode::ApiKey,
                                test_model,
                                base_url,
                                auth_json: None,
                                config_toml: c,
                                api_key: Some(k),
                            },
                        ),
                    }
                },
                CodexAuthMode::AuthJsonFile => match asset_spec(
                    chosen_auth,
                    facts.auth_source_exists,
                    AUTH_SOURCE_MISSING_MSG@,
                    previous_auth,
                    facts.previous_auth_exists,
                    validation_spec(AUTH_JSON_MISSING@, AUTH_JSON_MISSING_MSG@),
                ) {
                    Err(e) => Err(e),
                    Ok(a) => Ok(
                        PlanSpec {
                            provider_category: ProviderCategory::ApiKey,
                            auth_mode: CodexAuthMode::AuthJsonFile,
                            test_model,
                            base_url,
                            auth_json: Some(a),
                            config_toml: c,
                            api_key: None,
                        },
                    ),
                },
            },
        }
    }
}

pub open spec fn plan_result(r: AppResult<ProfilePlan>) -> Result<PlanSpec, ErrorSpec> {
    match r {
        Ok(p) => Ok(p@),
        Err(e) => Err(dto_spec(e)),
    }
}

pub open spec fn opt_profile(p: Option<&CodexProfile>) -> Option<CodexProfileSpec> {
    match p {
        Some(q) => Some(q@),
        None => None,
    }
}

fn plan_asset(
    chosen: &Option<String>,
    chosen_exists: bool,
    chosen_missing_msg: &str,
    previous: Option<&Option<String>>,
    previous_exists: bool,
    missing_code: &str,
    missing_msg: &str,
) -> (out: AppResult<AssetSource>)
    ensures
        match out {
            Ok(a) => asset_spec(
                opt_text(*chosen),
                chosen_exists,
                chosen_missing_msg@,
                match previous {
                    Some(p) => opt_text(*p),
                    None => None,
                },
                previous_exists,
                validation_spec(missing_code@, missing_msg@),
            ) == Ok::<AssetSpec, ErrorSpec>(asset_view(a)),
            Err(e) => asset_spec(
                opt_text(*chosen),
                chosen_exists,
                chosen_missing_msg@,
                match previous {
                    Some(p) => opt_text(*p),
                    None => None,
                },
                previous_exists,
                validation_spec(missing_code@, missing_msg@),
            ) == Err::<AssetSpec, ErrorSpec>(dto_spec(e)),
        },
{
    match normalize_optional_value(as_opt_str(chosen)) {
        Some(source) => {
            if chosen_exists {
                Ok(AssetSource::Copy(source))
            } else {
                Err(AppError::validation(SOURCE_FILE_MISSING, chosen_missing_msg))
            }
        },
        None => match previous {
            Some(Some(p)) => {
                if previous_exists {
                    Ok(AssetSource::Keep(copy_str(p.as_str())))
                } else {
                    Err(AppError::validation(missing_code, missing_msg))
                }
            },
            _ => Err(AppError::validation(missing_code, missing_msg)),
        },
    }
}

/// Validates a profile input against the profile's previous state (none
/// for a new profile) and the files that exist, and says what saving does.
pub fn plan_profile_input(
    input: &SaveProfileInput,
    previous: Option<&CodexProfile>,
    facts: &SourceFacts,
) -> (out: AppResult<ProfilePlan>)
    ensures
        plan_result(out) == plan_spec(*input, opt_profile(previous), *facts),
{
    let previous_auth: Option<&Option<String>> = match previous {
        Some(p) => Some(&p.stored_auth_json_path),
        None => None,
    };
    if input.provider_category == ProviderCategory::OpenAI {
        let auth = plan_asset(
            &input.auth_json_source_path,
            facts.auth_source_exists,
            AUTH_SOURCE_MISSING_MSG,
            previous_auth,
            facts.previous_auth_exists,
            OPENAI_AUTH_MISSING,
            OPENAI_AUTH_MISSING_MSG,
        )?;
        return Ok(
            ProfilePlan {
                provider_category: ProviderCategory::OpenAI,
                auth_mode: CodexAuthMode::AuthJsonFile,
                test_model: None,
                base_url: String::new(),
                auth_json: Some(auth),
                config_toml: None,
                api_key: None,
            },
        );
    }
    let base_url = match normalize_optional_value(as_opt_str(&input.base_url)) {
        Some(b) => b,
        None => match previous {
            Some(p) => copy_str(p.base_url.as_str()),
            None => String::new(),
        },
    };
    let config_toml = if input.import_config_toml {
        let previous_config: Option<&Option<String>> = match previous {
            Some(p) => Some(&p.stored_config_toml_path),
            None => None,
        };
        let c = plan_asset(
            &input.config_toml_source_path,
            facts.config_source_exists,
            CONFIG_SOURCE_MISSING_MSG,
            previous_config,
            facts.previous_config_exists,
            CONFIG_TOML_MISSING,
            CONFIG_TOML_MISSING_MSG,
        )?;
        Some(c)
    } else {
        let trimmed = trim_str(base_url.as_str());
        if trimmed.as_str().is_empty() {
            return Err(AppError::validation(BASE_URL_MISSING, BASE_URL_MISSING_MSG));
        }
        None
    };
    let test_model = normalize_optional_value(as_opt_str(&input.test_model));
    match input.auth_mode {
        CodexAuthMode::ApiKey => {
            let key = match normalize_optional_value(as_opt_str(&input.api_key)) {
                Some(k) => KeySource::Protect(k),
                None => match previous {
                    Some(p) => match &p.protected_api_key_base64 {
                        Some(k) => KeySource::Keep(copy_str(k.as_str())),
                        None => {
                            return Err(AppError::validation(API_KEY_MISSING, API_KEY_MISSING_MSG));
                        },
                    },
                    None => {
                        return Err(AppError::validation(API_KEY_MISSING, API_KEY_MISSING_MSG));
                    },
                },
            };
            Ok(
                ProfilePlan {
                    provider_category: ProviderCategory::ApiKey,
                    auth_mode: CodexAuthMode::ApiKey,
                    test_model,
                    base_url,
                    auth_json: None,
                    config_toml,
                    api_key: Some(key),
                },
            )
        },
        CodexAuthMode::AuthJsonFile => {
            let auth = plan_asset(
                &input.auth_json_source_path,
                facts.auth_source_exists,
                AUTH_SOURCE_MISSING_MSG,
                previous_auth,
                facts.previous_auth_exists,
                AUTH_JSON_MISSING,
                AUTH_JSON_MISSING_MSG,
            )?;
            Ok(
                ProfilePlan {
                    provider_category: ProviderCategory::ApiKey,
                    auth_mode: CodexAuthMode::AuthJsonFile,
                    test_model,
                    base_url,
                    auth_json: Some(auth),
                    config_toml,
                    api_key: None,
                },
            )
        },
    }
}

/// The stored value that a planned item gives: what was copied or
/// protected for a new item, the previous value for a kept one.
pub open spec fn resolved_spec(item: Option<AssetSpec>, produced: Option<Seq<char>>) -> Option<
    Seq<char>,
> {
    match item {
        Some(AssetSpec::Copy(_)) => produced,
        Some(AssetSpec::Keep(p)) => Some(p),
        None => None,
    }
}

fn resolve_asset(item: &Option<AssetSource>, produced: Option<String>) -> (out: Option<String>)
    ensures
        opt_text(out) == resolved_spec(
            match *item {
                Some(a) => Some(asset_view(a)),
                None => None,
            },
            opt_text(produced),
        ),
{
    match item {
        Some(AssetSource::Copy(_)) => produced,
        Some(AssetSource::Keep(p)) => Some(copy_str(p.as_str())),
        None => None,
    }
}

fn resolve_key(item: &Option<KeySource>, produced: Option<String>) -> (out: Option<String>)
    ensures
        opt_text(out) == resolved_spec(
            match *item {
                Some(k) => Some(key_view(k)),
                None => None,
            },
            opt_text(produced),
        ),
{
    match item {
        Some(KeySource::Protect(_)) => produced,
        Some(KeySource::Keep(p)) => Some(copy_str(p.as_str())),
        None => None,
    }
}

/// Writes a plan into the profile, with the paths of the copied files and
/// the newly protected key that carrying it out produced.
pub fn apply_profile_plan(
    profile: &mut CodexProfile,
    plan: &ProfilePlan,
    copied_auth_path: Option<String>,
    copied_config_path: Option<String>,
    protected_key: Option<String>,
)
    ensures
        final(profile)@ == (CodexProfileSpec {
            provider_category: plan@.provider_category,
            auth_mode: plan@.auth_mode,
            test_model: plan@.test_model,
            base_url: plan@.base_url,
            stored_auth_json_path: resolved_spec(plan@.auth_json, opt_text(copied_auth_path)),
            stored_config_toml_path: resolved_spec(
                plan@.config_toml,
                opt_text(copied_config_path),
            ),
            protected_api_key_base64: resolved_spec(plan@.api_key, opt_text(protected_key)),
            ..old(profile)@
        }),
{
    profile.provider_category = plan.provider_category;
    profile.auth_mode = plan.auth_mode;
    profile.test_model = copy_opt_text(&plan.test_model);
    profile.base_url = copy_str(plan.base_url.as_str());
    profile.stored_auth_json_path = resolve_asset(&plan.auth_json, copied_auth_path);
    profile.stored_config_toml_path = resolve_asset(&plan.config_toml, copied_config_path);
    profile.protected_api_key_base64 = resolve_key(&plan.api_key, protected_key);
}

/// The profile that the editor's input describes, under `id`, created at
/// `now`: the trimmed name, the normalised base URL and test model, and no
/// files yet.
pub open spec fn drafted_profile(id: Seq<char>, input: SaveProfileInput, now: i64) -> CodexProfileSpec {
    CodexProfileSpec {
        id,
        name: trim(input.name@),
        base_url: match normalized_optional(opt_text(input.base_url)) {
            Some(b) => b,
            None => Seq::empty(),
        },
        test_model: normalized_optional(opt_text(input.test_model)),
        auto_disabled: false,
        auto_disabled_reason: None,
        auto_disabled_at_utc: None,
        provider_category: input.provider_category,
        auth_mode: input.auth_mode,
        stored_auth_json_path: None,
        protected_api_key_base64: None,
        stored_config_toml_path: None,
        created_at_utc: now,
        updated_at_utc: now,
    }
}

/// A new profile from the editor, before its files are planned: the trimmed
/// name, the normalised base URL and test model, created now.
pub fn new_profile(id: &str, input: &SaveProfileInput, now: i64) -> (out: AppResult<CodexProfile>)
    ensures
        out is Ok <==> trim(input.name@).len() > 0,
        out matches Err(e) ==> dto_spec(e) == validation_spec(
            crate::profiles::store::PROFILE_NAME_MISSING@,
            crate::profiles::store::PROFILE_NAME_MISSING_MSG@,
        ),
        out matches Ok(p) ==> p@ == drafted_profile(id@, *input, now),
{
    validate_profile_name(input.name.as_str())?;
    Ok(
        CodexProfile {
            id: copy_str(id),
            name: trim_str(input.name.as_str()),
            base_url: match normalize_optional_value(as_opt_str(&input.base_url)) {
                Some(b) => b,
                None => String::new(),
            },
            test_model: normalize_optional_value(as_opt_str(&input.test_model)),
            auto_disabled: false,
            auto_disabled_reason: None,
            auto_disabled_at_utc: None,
            provider_category: input.provider_category,
            auth_mode: input.auth_mode,
            stored_auth_json_path: None,
            protected_api_key_base64: None,
            stored_config_toml_path: None,
            created_at_utc: now,
            updated_at_utc: now,
        },
    )
}

/// A new profile from the editor under a random ID, created at the time of
/// the call.
pub fn new_profile_now(input: &SaveProfileInput) -> (out: AppResult<CodexProfile>)
    ensures
        out is Ok <==> trim(input.name@).len() > 0,
        out matches Err(e) ==> dto_spec(e) == validation_spec(
            crate::profiles::store::PROFILE_NAME_MISSING@,
            crate::profiles::store::PROFILE_NAME_MISSING_MSG@,
        ),
        out matches Ok(p) ==> p@ == drafted_profile(p.id@, *input, p.created_at_utc),
{
    let id = random_uuid();
    new_profile(id.as_str(), input, utc_now_nanos())
}

/// The edits of an existing profile that come before its files are
/// planned: the trimmed name, the category and the update time.
pub fn begin_profile_update(profile: &mut CodexProfile, input: &SaveProfileInput, now: i64)
    ensures
        final(profile)@ == (CodexProfileSpec {
            name: trim(input.name@),
            provider_category: input.provider_category,
            updated_at_utc: now,
            ..old(profile)@
        }),
{
    profile.name = trim_str(input.name.as_str());
    profile.provider_category = input.provider_category;
    profile.updated_at_utc = now;
}

/// `begin_profile_update` at the time of the call.
pub fn begin_profile_update_now(profile: &mut CodexProfile, input: &SaveProfileInput)
    ensures
        final(profile)@ == (CodexProfileSpec {
            name: trim(input.name@),
            provider_category: input.provider_category,
            updated_at_utc: final(profile).updated_at_utc,
            ..old(profile)@
        }),
{
    begin_profile_update(profile, input, utc_now_nanos());
}

} // verus!
