//! The profile switcher's data model. Identifiers are the text form of
//! UUIDs and timestamps are Unix nanoseconds (UTC).

use vstd::prelude::*;

use crate::json::JsonValue;

use crate::text::{copy_str, opt_text, trim};

verus! {

pub const CURRENT_MIGRATION_VERSION: u32 = 1;

pub const DEFAULT_APIKEY_PROVIDER_NAME: &'static str = "apikey";

#[derive(Debug, Clone)]
pub struct UiPreferences {
    pub sidebar_collapsed: bool,
}

impl Default for UiPreferences {
    fn default() -> (out: Self)
        ensures
            !out.sidebar_collapsed,
    {
        UiPreferences { sidebar_collapsed: false }
    }
}

#[derive(Debug, Clone)]
pub struct WslEnvironmentInfo {
    pub distro_name: String,
    pub user_name: String,
    pub home_directory: String,
}

pub struct WslEnvironmentSpec {
    pub distro_name: Seq<char>,
    pub user_name: Seq<char>,
    pub home_directory: Seq<char>,
}

impl View for WslEnvironmentInfo {
    type V = WslEnvironmentSpec;

    open spec fn view(&self) -> WslEnvironmentSpec {
        WslEnvironmentSpec {
            distro_name: self.distro_name@,
            user_name: self.user_name@,
            home_directory: self.home_directory@,
        }
    }
}

#[derive(Debug, Clone)]
pub struct CachedWslEnvironmentInfo {
    pub distro_name: String,
    pub user_name: String,
}

#[derive(Debug, Clone)]
pub struct SettingsSnapshot {
    pub replace_windows_target: bool,
    pub replace_wsl_target: bool,
    pub wsl_distro_name: Option<String>,
    pub wsl_user_name: Option<String>,
    pub cached_default_wsl: Option<CachedWslEnvironmentInfo>,
    pub cached_default_wsl_error_message: Option<String>,
    pub session_migration_days: i32,
    pub api_key_provider_name: String,
    pub ui_preferences: UiPreferences,
    pub migration_version: u32,
}

#[derive(Debug, Clone)]
pub struct SaveSettingsInput {
    pub replace_windows_target: bool,
    pub replace_wsl_target: bool,
    pub wsl_distro_name: Option<String>,
    pub wsl_user_name: Option<String>,
    pub session_migration_days: i32,
    pub api_key_provider_name: String,
    pub ui_preferences: UiPreferences,
}

#[derive(Debug, Clone)]
pub struct PickFileInput {
    pub title: Option<String>,
    pub filter_name: String,
    pub extensions: Vec<String>,
}

#[derive(Debug, Clone)]
pub struct BackupOverview {
    pub target_key: String,
    pub display_name: String,
    pub has_recent_backup: bool,
    pub count: usize,
}

#[derive(Debug, Clone)]
pub struct DashboardSnapshot {
    pub active_profile_id: Option<String>,
    pub active_profile_name: Option<String>,
    pub selected_target_labels: Vec<String>,
    pub wsl_status: String,
    pub backup_overview: Vec<BackupOverview>,
    pub last_switch_summary: Option<SwitchExecutionSummary>,
}

#[derive(Debug, Clone)]
pub struct AppMeta {
    pub version: String,
}

#[derive(Debug)]
pub struct LogEntry {
    pub timestamp: String,
    pub level: String,
    pub action: String,
    pub message: String,
    pub context: JsonValue,
}

#[derive(Debug)]
pub struct AppBootstrap {
    pub profiles: Vec<CodexProfileDto>,
    pub settings: SettingsSnapshot,
    pub dashboard: DashboardSnapshot,
    pub templates: TemplateSnapshot,
    pub backups: Vec<BackupItem>,
    pub app_meta: AppMeta,
}

#[derive(Debug, Clone)]
pub struct BackupItem {
    pub target_key: String,
    pub display_name: String,
    pub directory_name: String,
    pub created_at_label: String,
    pub has_auth_json: bool,
    pub has_config_toml: bool,
}

#[derive(Debug, Clone, Copy, PartialEq, Eq, Structural)]
pub enum ConnectionTestStatus {
    Success,
    Warning,
    Failure,
}

#[derive(Debug, Clone)]
pub struct ConnectionTestResultDto {
    pub status: ConnectionTestStatus,
    pub endpoint: String,
    pub model: String,
    pub message: String,
}

#[derive(Debug, Clone)]
pub struct BatchConnectionTestInput {
    pub profile_ids: Vec<String>,
    pub override_model: Option<String>,
    pub disable_on_failure: bool,
}

#[derive(Debug, Clone)]
pub struct BatchConnectionTestItemDto {
    pub profile_id: String,
    pub profile_name: String,
    pub status: ConnectionTestStatus,
    pub endpoint: String,
    pub model: String,
    pub message: String,
    pub auto_disabled: bool,
}

#[derive(Debug)]
pub struct BatchConnectionTestResponseDto {
    pub results: Vec<BatchConnectionTestItemDto>,
    pub bootstrap: AppBootstrap,
}

#[derive(Debug, Clone, Copy, PartialEq, Eq, Structural)]
pub enum ProviderCategory {
    ApiKey,
    OpenAI,
}

#[derive(Debug, Clone, Copy, PartialEq, Eq, Structural)]
pub enum CodexAuthMode {
    AuthJsonFile,
    ApiKey,
}

#[derive(Debug, Clone)]
pub struct CodexProfile {
    pub id: String,
    pub name: String,
    pub base_url: String,
    pub test_model: Option<String>,
    pub auto_disabled: bool,
    pub auto_disabled_reason: Option<String>,
    pub auto_disabled_at_utc: Option<i64>,
    pub provider_category: ProviderCategory,
    pub auth_mode: CodexAuthMode,
    pub stored_auth_json_path: Option<String>,
    pub protected_api_key_base64: Option<String>,
    pub stored_config_toml_path: Option<String>,
    pub created_at_utc: i64,
    pub updated_at_utc: i64,
}

pub struct CodexProfileSpec {
    pub id: Seq<char>,
    pub name: Seq<char>,
    pub base_url: Seq<char>,
    pub test_model: Option<Seq<char>>,
    pub auto_disabled: bool,
    pub auto_disabled_reason: Option<Seq<char>>,
    pub auto_disabled_at_utc: Option<i64>,
    pub provider_category: ProviderCategory,
    pub auth_mode: CodexAuthMode,
    pub stored_auth_json_path: Option<Seq<char>>,
    pub protected_api_key_base64: Option<Seq<char>>,
    pub stored_config_toml_path: Option<Seq<char>>,
    pub created_at_utc: i64,
    pub updated_at_utc: i64,
}

impl View for CodexProfile {
    type V = CodexProfileSpec;

    open spec fn view(&self) -> CodexProfileSpec {
        CodexProfileSpec {
            id: self.id@,
            name: self.name@,
            base_url: self.base_url@,
            test_model: opt_text(self.test_model),
            auto_disabled: self.auto_disabled,
            auto_disabled_reason: opt_text(self.auto_disabled_reason),
            auto_disabled_at_utc: self.auto_disabled_at_utc,
            provider_category: self.provider_category,
            auth_mode: self.auth_mode,
            stored_auth_json_path: opt_text(self.stored_auth_json_path),
            protected_api_key_base64: opt_text(self.protected_api_key_base64),
            stored_config_toml_path: opt_text(self.stored_config_toml_path),
            created_at_utc: self.created_at_utc,
            updated_at_utc: self.updated_at_utc,
        }
    }
}

pub open spec fn codex_profiles_view(v: Seq<CodexProfile>) -> Seq<CodexProfileSpec> {
    v.map_values(|p: CodexProfile| p@)
}

impl CodexProfile {
    /// A new, empty API-key profile read from an `auth.json` file, with the
    /// given identifier and creation time.
    pub fn blank(id: &str, now: i64) -> (out: Self)
        ensures
            out@ == (CodexProfileSpec {
                id: id@,
                name: Seq::empty(),
                base_url: Seq::empty(),
                test_model: None,
                auto_disabled: false,
                auto_disabled_reason: None,
                auto_disabled_at_utc: None,
                provider_category: ProviderCategory::ApiKey,
                auth_mode: CodexAuthMode::AuthJsonFile,
                stored_auth_json_path: None,
                protected_api_key_base64: None,
                stored_config_toml_path: None,
                created_at_utc: now,
                updated_at_utc: now,
            }),
    {
        CodexProfile {
            id: copy_str(id),
            name: String::new(),
            base_url: String::new(),
            test_model: None,
            auto_disabled: false,
            auto_disabled_reason: None,
            auto_disabled_at_utc: None,
            provider_category: ProviderCategory::ApiKey,
            auth_mode: CodexAuthMode::AuthJsonFile,
            stored_auth_json_path: None,
            protected_api_key_base64: None,
            stored_config_toml_path: None,
            created_at_utc: now,
            updated_at_utc: now,
        }
    }
}

#[derive(Debug, Clone)]
pub struct ProfileDatabase {
    pub profiles: Vec<CodexProfile>,
    pub last_selected_profile_id: Option<String>,
    pub replace_windows_target: bool,
    pub replace_wsl_target: bool,
    pub wsl_distro_name: Option<String>,
    pub wsl_user_name: Option<String>,
    pub cached_default_wsl_distro_name: Option<String>,
    pub cached_default_wsl_user_name: Option<String>,
    pub cached_default_wsl_home_directory: Option<String>,
    pub cached_default_wsl_detected_at_utc: Option<i64>,
    pub cached_default_wsl_error_message: Option<String>,
    pub cached_default_wsl_error_at_utc: Option<i64>,
    pub session_migration_days: i32,
    pub api_key_provider_name: String,
    pub migration_version: u32,
    pub ui_preferences: UiPreferences,
    pub last_switch_summary: Option<SwitchExecutionSummary>,
}

impl Default for ProfileDatabase {
    fn default() -> (out: Self)
        ensures
            out.profiles@.len() == 0,
            out.last_selected_profile_id is None,
            out.replace_windows_target,
            !out.replace_wsl_target,
            out.wsl_distro_name is None,
            out.wsl_user_name is None,
            out.cached_default_wsl_distro_name is None,
            out.cached_default_wsl_user_name is None,
            out.cached_default_wsl_home_directory is None,
            out.cached_default_wsl_detected_at_utc is None,
            out.cached_default_wsl_error_message is None,
            out.cached_default_wsl_error_at_utc is None,
            out.session_migration_days == 3,
            out.api_key_provider_name@ == DEFAULT_APIKEY_PROVIDER_NAME@,
            out.migration_version == 0,
            !out.ui_preferences.sidebar_collapsed,
            out.last_switch_summary is None,
    {
        ProfileDatabase {
            profiles: Vec::new(),
            last_selected_profile_id: None,
            replace_windows_target: true,
            replace_wsl_target: false,
            wsl_distro_name: None,
            wsl_user_name: None,
            cached_default_wsl_distro_name: None,
            cached_default_wsl_user_name: None,
            cached_default_wsl_home_directory: None,
            cached_default_wsl_detected_at_utc: None,
            cached_default_wsl_error_message: None,
            cached_default_wsl_error_at_utc: None,
            session_migration_days: 3,
            api_key_provider_name: copy_str(DEFAULT_APIKEY_PROVIDER_NAME),
            migration_version: 0,
            ui_preferences: UiPreferences::default(),
            last_switch_summary: None,
        }
    }
}

#[derive(Debug, Clone)]
pub struct CodexProfileDto {
    pub id: String,
    pub name: String,
    pub base_url: String,
    pub test_model: Option<String>,
    pub auto_disabled: bool,
    pub auto_disabled_reason: Option<String>,
    pub auto_disabled_at_utc: Option<i64>,
    pub provider_category: ProviderCategory,
    pub auth_mode: CodexAuthMode,
    pub has_stored_auth_json: bool,
    pub has_stored_config_toml: bool,
    pub has_stored_api_key: bool,
    pub created_at_utc: i64,
    pub updated_at_utc: i64,
}

/// Whether an optional text is present and not blank.
pub open spec fn has_text(o: Option<Seq<char>>) -> bool {
    match o {
        Some(s) => trim(s).len() > 0,
        None => false,
    }
}

pub fn has_text_exec(o: &Option<String>) -> (out: bool)
    ensures
        out == has_text(opt_text(*o)),
{
    match o {
        Some(s) => {
            let t = crate::text::trim_str(s.as_str());
            !t.as_str().is_empty()
        },
        None => false,
    }
}

pub fn copy_opt_text(o: &Option<String>) -> (out: Option<String>)
    ensures
        opt_text(out) == opt_text(*o),
{
    match o {
        Some(s) => Some(copy_str(s.as_str())),
        None => None,
    }
}

impl CodexProfileDto {
    /// The profile as the user interface lists it: the stored paths and key
    /// become flags that say whether they are present and not blank.
    pub fn from_profile(value: &CodexProfile) -> (out: Self)
        ensures
            out.id@ == value.id@,
            out.name@ == value.name@,
            out.base_url@ == value.base_url@,
            opt_text(out.test_model) == opt_text(value.test_model),
            out.auto_disabled == value.auto_disabled,
            opt_text(out.auto_disabled_reason) == opt_text(value.auto_disabled_reason),
            out.auto_disabled_at_utc == value.auto_disabled_at_utc,
            out.provider_category == value.provider_category,
            out.auth_mode == value.auth_mode,
            out.has_stored_auth_json == has_text(opt_text(value.stored_auth_json_path)),
            out.has_stored_config_toml == has_text(opt_text(value.stored_config_toml_path)),
            out.has_stored_api_key == has_text(opt_text(value.protected_api_key_base64)),
            out.created_at_utc == value.created_at_utc,
            out.updated_at_utc == value.updated_at_utc,
    {
        CodexProfileDto {
            id: copy_str(value.id.as_str()),
            name: copy_str(value.name.as_str()),
            base_url: copy_str(value.base_url.as_str()),
            test_model: copy_opt_text(&value.test_model),
            auto_disabled: value.auto_disabled,
            auto_disabled_reason: copy_opt_text(&value.auto_disabled_reason),
            auto_disabled_at_utc: value.auto_disabled_at_utc,
            provider_category: value.provider_category,
            auth_mode: value.auth_mode,
            has_stored_auth_json: has_text_exec(&value.stored_auth_json_path),
            has_stored_config_toml: has_text_exec(&value.stored_config_toml_path),
            has_stored_api_key: has_text_exec(&value.protected_api_key_base64),
            created_at_utc: value.created_at_utc,
            updated_at_utc: value.updated_at_utc,
        }
    }
}

#[derive(Debug, Clone)]
pub struct SaveProfileInput {
    pub id: Option<String>,
    pub name: String,
    pub provider_category: ProviderCategory,
    pub import_config_toml: bool,
    pub base_url: Option<String>,
    pub config_toml_source_path: Option<String>,
    pub auth_mode: CodexAuthMode,
    pub auth_json_source_path: Option<String>,
    pub api_key: Option<String>,
    pub test_model: Option<String>,
}

#[derive(Debug, Clone, Copy, PartialEq, Eq, Structural)]
pub enum SwitchExecutionStatus {
    Success,
    Failure,
}

#[derive(Debug, Clone, Copy, PartialEq, Eq, Structural)]
pub enum SwitchStepStatus {
    Success,
    Skipped,
    Failure,
}

#[derive(Debug, Clone)]
pub struct SwitchExecutionStep {
    pub name: String,
    pub detail: String,
    pub status: SwitchStepStatus,
}

pub struct StepSpec {
    pub name: Seq<char>,
    pub detail: Seq<char>,
    pub status: SwitchStepStatus,
}

impl View for SwitchExecutionStep {
    type V = StepSpec;

    open spec fn view(&self) -> StepSpec {
        StepSpec { name: self.name@, detail: self.detail@, status: self.status }
    }
}

pub open spec fn steps_view(v: Seq<SwitchExecutionStep>) -> Seq<StepSpec> {
    v.map_values(|s: SwitchExecutionStep| s@)
}

#[derive(Debug, Clone)]
pub struct SwitchExecutionSummary {
    pub executed_at_utc: i64,
    pub profile_id: String,
    pub profile_name: String,
    pub targets: Vec<String>,
    pub message: String,
    pub status: SwitchExecutionStatus,
    pub steps: Vec<SwitchExecutionStep>,
}

#[derive(Debug, Clone)]
pub struct SwitchTargetPreview {
    pub target_key: String,
    pub display_name: String,
}

#[derive(Debug, Clone)]
pub struct SwitchPreview {
    pub profile_id: String,
    pub profile_name: String,
    pub provider_name: String,
    pub targets: Vec<SwitchTargetPreview>,
    pub warnings: Vec<String>,
    pub steps: Vec<String>,
}

#[derive(Debug, Clone, Copy, PartialEq, Eq, Structural)]
pub enum TemplateKind {
    OpenAi,
    ApiKey,
}

#[derive(Debug, Clone)]
pub struct TemplateSnapshot {
    pub open_ai: String,
    pub api_key: String,
}

#[derive(Debug, Clone)]
pub struct SaveTemplateInput {
    pub kind: TemplateKind,
    pub content: String,
}

} // verus!
