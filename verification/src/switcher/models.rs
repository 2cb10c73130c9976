//! The switcher's data model. Timestamps are Unix nanoseconds (UTC) and
//! identifiers are their text form.

use vstd::prelude::*;

use crate::text::{copy_str, opt_text};

verus! {

#[derive(Debug, Clone)]
pub struct ModelEntry {
    pub id: String,
    pub display_name: String,
    pub context_window: Option<u64>,
}

pub struct ModelSpec {
    pub id: Seq<char>,
    pub display_name: Seq<char>,
    pub context_window: Option<u64>,
}

impl View for ModelEntry {
    type V = ModelSpec;

    open spec fn view(&self) -> ModelSpec {
        ModelSpec { id: self.id@, display_name: self.display_name@, context_window: self.context_window }
    }
}

pub open spec fn models_view(v: Seq<ModelEntry>) -> Seq<ModelSpec> {
    v.map_values(|m: ModelEntry| m@)
}

impl ModelEntry {
    pub fn duplicate(&self) -> (out: Self)
        ensures
            out@ == self@,
    {
        ModelEntry {
            id: copy_str(self.id.as_str()),
            display_name: copy_str(self.display_name.as_str()),
            context_window: self.context_window,
        }
    }
}

pub fn duplicate_models(models: &Vec<ModelEntry>) -> (out: Vec<ModelEntry>)
    ensures
        models_view(out@) == models_view(models@),
{
    let mut out: Vec<ModelEntry> = Vec::new();
    let mut i: usize = 0;
    while i < models.len()
        invariant
            i <= models.len(),
            out@.len() == i,
            forall|k: int| 0 <= k < i ==> (#[trigger] out@[k])@ == models@[k]@,
        decreases models.len() - i,
    {
        out.push(models[i].duplicate());
        i = i + 1;
    }
    assert(models_view(out@) =~= models_view(models@));
    out
}

#[derive(Debug, Clone)]
pub struct StoredProviderProfile {
    pub id: String,
    pub name: String,
    pub provider_id: String,
    pub base_url: String,
    pub protected_api_key: Option<String>,
    pub default_model: String,
    pub models: Vec<ModelEntry>,
    pub timeout_seconds: u64,
    pub inject_models: bool,
    pub created_at_utc: i64,
    pub updated_at_utc: i64,
}

pub struct ProfileSpec {
    pub id: Seq<char>,
    pub name: Seq<char>,
    pub provider_id: Seq<char>,
    pub base_url: Seq<char>,
    pub protected_api_key: Option<Seq<char>>,
    pub default_model: Seq<char>,
    pub models: Seq<ModelSpec>,
    pub timeout_seconds: u64,
    pub inject_models: bool,
    pub created_at_utc: i64,
    pub updated_at_utc: i64,
}

impl View for StoredProviderProfile {
    type V = ProfileSpec;

    open spec fn view(&self) -> ProfileSpec {
        ProfileSpec {
            id: self.id@,
            name: self.name@,
            provider_id: self.provider_id@,
            base_url: self.base_url@,
            protected_api_key: opt_text(self.protected_api_key),
            default_model: self.default_model@,
            models: models_view(self.models@),
            timeout_seconds: self.timeout_seconds,
            inject_models: self.inject_models,
            created_at_utc: self.created_at_utc,
            updated_at_utc: self.updated_at_utc,
        }
    }
}

pub open spec fn profiles_view(v: Seq<StoredProviderProfile>) -> Seq<ProfileSpec> {
    v.map_values(|p: StoredProviderProfile| p@)
}

pub fn duplicate_opt(o: &Option<String>) -> (out: Option<String>)
    ensures
        opt_text(out) == opt_text(*o),
{
    match o {
        Some(s) => Some(copy_str(s.as_str())),
        None => None,
    }
}

impl StoredProviderProfile {
    pub fn duplicate(&self) -> (out: Self)
        ensures
            out@ == self@,
    {
        StoredProviderProfile {
            id: copy_str(self.id.as_str()),
            name: copy_str(self.name.as_str()),
            provider_id: copy_str(self.provider_id.as_str()),
            base_url: copy_str(self.base_url.as_str()),
            protected_api_key: duplicate_opt(&self.protected_api_key),
            default_model: copy_str(self.default_model.as_str()),
            models: duplicate_models(&self.models),
            timeout_seconds: self.timeout_seconds,
            inject_models: self.inject_models,
            created_at_utc: self.created_at_utc,
            updated_at_utc: self.updated_at_utc,
        }
    }
}

#[derive(Debug, Clone)]
pub struct ProviderProfile {
    pub id: String,
    pub name: String,
    pub provider_id: String,
    pub base_url: String,
    pub has_api_key: bool,
    pub default_model: String,
    pub models: Vec<ModelEntry>,
    pub timeout_seconds: u64,
    pub inject_models: bool,
    pub created_at_utc: i64,
    pub updated_at_utc: i64,
}

#[derive(Debug, Clone)]
pub struct SaveProviderInput {
    pub id: Option<String>,
    pub name: String,
    pub provider_id: String,
    pub base_url: String,
    pub api_key: Option<String>,
    pub clear_api_key: bool,
    pub default_model: String,
    pub models: Vec<ModelEntry>,
    pub timeout_seconds: u64,
    pub inject_models: bool,
}

/// The timeout a provider draft gets when it names none.
pub fn default_timeout() -> (t: u64)
    ensures
        t == 30,
{
    30
}

/// Model injection is on unless a draft turns it off.
pub fn default_true() -> (b: bool)
    ensures
        b,
{
    true
}

#[derive(Debug, Clone)]
pub struct SwitcherSettings {
    pub codex_home_override: Option<String>,
    pub backup_retention: usize,
    pub inject_models_default: bool,
}

impl Default for SwitcherSettings {
    fn default() -> (s: Self)
        ensures
            s.codex_home_override is None,
            s.backup_retention == 10,
            s.inject_models_default,
    {
        SwitcherSettings {
            codex_home_override: None,
            backup_retention: 10,
            inject_models_default: true,
        }
    }
}

#[derive(Debug, Clone)]
pub struct SaveSettingsInput {
    pub codex_home_override: Option<String>,
    pub backup_retention: usize,
    pub inject_models_default: bool,
}

#[derive(Debug, Clone)]
pub struct OfficialSnapshot {
    pub config_text: Option<String>,
    pub protected_auth_text: Option<String>,
    pub captured_at_utc: Option<i64>,
}

impl Default for OfficialSnapshot {
    fn default() -> (s: Self)
        ensures
            s.config_text is None,
            s.protected_auth_text is None,
            s.captured_at_utc is None,
    {
        OfficialSnapshot { config_text: None, protected_auth_text: None, captured_at_utc: None }
    }
}

#[derive(Debug, Clone)]
pub struct SwitcherDatabase {
    pub schema_version: u32,
    pub profiles: Vec<StoredProviderProfile>,
    pub settings: SwitcherSettings,
    pub active_profile_id: Option<String>,
    pub active_provider_id: Option<String>,
    pub official_snapshot: OfficialSnapshot,
}

impl Default for SwitcherDatabase {
    fn default() -> (d: Self)
        ensures
            d.schema_version == 1,
            d.profiles@.len() == 0,
            d.settings.codex_home_override is None,
            d.settings.backup_retention == 10,
            d.settings.inject_models_default,
            d.active_profile_id is None,
            d.active_provider_id is None,
            d.official_snapshot.config_text is None,
            d.official_snapshot.protected_auth_text is None,
            d.official_snapshot.captured_at_utc is None,
    {
        SwitcherDatabase {
            schema_version: 1,
            profiles: Vec::new(),
            settings: SwitcherSettings::default(),
            active_profile_id: None,
            active_provider_id: None,
            official_snapshot: OfficialSnapshot::default(),
        }
    }
}

#[derive(Debug, Clone)]
pub struct BackupFileRecord {
    pub relative_path: String,
    pub existed_before: bool,
    pub sha256_before: Option<String>,
    pub sha256_after: Option<String>,
}

#[derive(Debug, Clone)]
pub struct BackupManifest {
    pub id: String,
    pub created_at_utc: i64,
    pub kind: String,
    pub profile_id: Option<String>,
    pub profile_name: Option<String>,
    pub codex_home: String,
    pub status: String,
    pub files: Vec<BackupFileRecord>,
}

#[derive(Debug, Clone)]
pub struct BackupSummary {
    pub id: String,
    pub created_at_utc: i64,
    pub kind: String,
    pub profile_name: Option<String>,
    pub status: String,
    pub file_count: usize,
}

#[derive(Debug, Clone)]
pub struct CodexRuntimeStatus {
    pub installed: bool,
    pub running: bool,
    pub version: Option<String>,
    pub executable_path: Option<String>,
    pub codex_home: String,
    pub active_provider_id: Option<String>,
}

#[derive(Debug, Clone)]
pub struct SwitcherBootstrap {
    pub profiles: Vec<ProviderProfile>,
    pub settings: SwitcherSettings,
    pub active_profile_id: Option<String>,
    pub backups: Vec<BackupSummary>,
    pub runtime: CodexRuntimeStatus,
    pub app_version: String,
}

#[derive(Debug, Clone)]
pub struct ModelDiscoveryResult {
    pub endpoint: String,
    pub models: Vec<ModelEntry>,
    pub message: String,
}

#[derive(Debug, Clone)]
pub struct ConnectionTestResult {
    pub endpoint: String,
    pub model: String,
    pub latency_ms: u128,
    pub status: String,
    pub message: String,
}

#[derive(Debug, Clone)]
pub struct SwitchStep {
    pub phase: String,
    pub status: String,
    pub message: String,
}

#[derive(Debug, Clone)]
pub struct SwitchResult {
    pub success: bool,
    pub profile_id: Option<String>,
    pub profile_name: String,
    pub backup_id: Option<String>,
    pub restarted_codex: bool,
    pub injected_models: bool,
    pub warnings: Vec<String>,
    pub steps: Vec<SwitchStep>,
    pub bootstrap: SwitcherBootstrap,
}

#[derive(Debug, Clone)]
pub struct SwitchPreview {
    pub profile_id: String,
    pub profile_name: String,
    pub provider_id: String,
    pub codex_home: String,
    pub files_to_backup: Vec<String>,
    pub codex_running: bool,
    pub will_restart_codex: bool,
    pub will_inject_models: bool,
    pub warnings: Vec<String>,
}

#[derive(Debug, Clone)]
pub struct ExecuteSwitchInput {
    pub profile_id: String,
    pub force_close: bool,
    pub restart_codex: bool,
}

#[derive(Debug, Clone)]
pub struct RestoreBackupInput {
    pub backup_id: String,
    pub force: bool,
}

} // verus!
