use std::path::PathBuf;

use codex_api_switcher_core::profiles::commands::record_wsl_refresh_now;
use codex_api_switcher_core::profiles::editing::{begin_profile_update_now, new_profile_now};
use codex_api_switcher_core::profiles::models::{
    CodexAuthMode, CodexProfile, ProfileDatabase, ProviderCategory, SaveProfileInput,
    SwitchExecutionStatus, WslEnvironmentInfo,
};
use codex_api_switcher_core::profiles::store::{
    duplicated_profile_now, mark_auto_disabled_now, set_auto_disabled_now,
};
use codex_api_switcher_core::profiles::switch::{failure_summary_now, success_summary_now};
use codex_api_switcher_core::profiles::targets::TargetContext;
use codex_api_switcher_core::profiles::AppError;
use codex_api_switcher_core::switcher::backup::{
    backup_id, backup_record, check_backup_id, in_progress_manifest, new_backup_id,
};
use codex_api_switcher_core::switcher::models::{
    BackupFileRecord, ModelEntry, SaveProviderInput, StoredProviderProfile, SwitcherDatabase,
};
use codex_api_switcher_core::switcher::store::{
    duplicate_provider_now, save_provider_now, validate_provider_input,
};
use codex_api_switcher_core::switcher::transaction::captured_snapshot;

const YEAR_2020_NANOS: i64 = 1_577_836_800_000_000_000;

fn stored(id: &str, provider_id: &str) -> StoredProviderProfile {
    StoredProviderProfile {
        id: id.to_string(),
        name: "Example".to_string(),
        provider_id: provider_id.to_string(),
        base_url: "https://example.com/v1".to_string(),
        protected_api_key: None,
        default_model: "demo".to_string(),
        models: vec![ModelEntry {
            id: "demo".to_string(),
            display_name: "Demo".to_string(),
            context_window: None,
        }],
        timeout_seconds: 30,
        inject_models: true,
        created_at_utc: 0,
        updated_at_utc: 0,
    }
}

fn editor_input(name: &str) -> SaveProfileInput {
    SaveProfileInput {
        id: None,
        name: name.to_string(),
        provider_category: ProviderCategory::ApiKey,
        import_config_toml: false,
        base_url: Some(" https://example.com/v1 ".to_string()),
        config_toml_source_path: None,
        auth_mode: CodexAuthMode::AuthJsonFile,
        auth_json_source_path: None,
        api_key: None,
        test_model: Some(" model-a ".to_string()),
    }
}

fn target(name: &str) -> TargetContext {
    TargetContext {
        target_key: name.to_lowercase(),
        display_name: name.to_string(),
        codex_directory_path: PathBuf::from("/tmp/codex"),
        backups_directory_path: PathBuf::from("/tmp/codex-backups"),
        codex_linux_path: None,
        wsl_environment: None,
    }
}

fn is_uuid(text: &str) -> bool {
    text.len() == 36
        && text.chars().enumerate().all(|(i, c)| {
            if matches!(i, 8 | 13 | 18 | 23) {
                c == '-'
            } else {
                c.is_ascii_hexdigit()
            }
        })
}

#[test]
fn backup_id_joins_stamp_and_token_prefix() {
    assert_eq!(
        backup_id("20240102-030405", "0123456789abcdef0123456789abcdef"),
        "20240102-030405-01234567"
    );
}

#[test]
fn new_backup_id_has_stamp_and_eight_hex_digits() {
    let id = new_backup_id();
    assert_eq!(id.len(), 24);
    let (stamp, token) = id.split_at(15);
    assert!(stamp[..8].chars().all(|c| c.is_ascii_digit()));
    assert_eq!(&stamp[8..9], "-");
    assert!(stamp[9..].chars().all(|c| c.is_ascii_digit()));
    assert!(token.starts_with('-'));
    assert!(token[1..].chars().all(|c| c.is_ascii_hexdigit()));
    assert_ne!(new_backup_id()[16..], id[16..]);
    assert!(check_backup_id(&id).is_ok());
}

#[test]
fn backup_records_use_forward_slashes_and_keep_digests_of_existing_files() {
    let record = backup_record("sessions\\2024\\a.jsonl", true, Some("abc".to_string()));
    assert_eq!(record.relative_path, "sessions/2024/a.jsonl");
    assert!(record.existed_before);
    assert_eq!(record.sha256_before.as_deref(), Some("abc"));
    assert!(record.sha256_after.is_none());
    let missing = backup_record("auth.json", false, Some("ignored".to_string()));
    assert!(!missing.existed_before);
    assert!(missing.sha256_before.is_none());
}

#[test]
fn fresh_manifest_is_in_progress_for_the_profile() {
    let profile = stored("p1", "relay");
    let files = vec![BackupFileRecord {
        relative_path: "config.toml".to_string(),
        existed_before: true,
        sha256_before: None,
        sha256_after: None,
    }];
    let manifest = in_progress_manifest("b1".to_string(), "switch", Some(&profile), std::path::Path::new("/home/u/.codex"), files);
    assert_eq!(manifest.id, "b1");
    assert_eq!(manifest.kind, "switch");
    assert_eq!(manifest.profile_id.as_deref(), Some("p1"));
    assert_eq!(manifest.profile_name.as_deref(), Some("Example"));
    assert_eq!(manifest.codex_home, "/home/u/.codex");
    assert_eq!(manifest.status, "inProgress");
    assert_eq!(manifest.files.len(), 1);
    assert!(manifest.created_at_utc > YEAR_2020_NANOS);
    let official = in_progress_manifest("b2".to_string(), "official", None, std::path::Path::new("/c"), Vec::new());
    assert!(official.profile_id.is_none());
    assert!(official.profile_name.is_none());
}

#[test]
fn saving_now_stamps_a_random_id_and_the_current_time() {
    let input = SaveProviderInput {
        id: None,
        name: "Relay".to_string(),
        provider_id: "relay".to_string(),
        base_url: "https://relay.example.com/v1".to_string(),
        api_key: None,
        clear_api_key: false,
        default_model: "gpt-x".to_string(),
        models: Vec::new(),
        timeout_seconds: 30,
        inject_models: true,
    };
    let normalized = validate_provider_input(&input).unwrap();
    let saved = save_provider_now(SwitcherDatabase::default(), &input, normalized, None).unwrap();
    let profile = &saved.profiles[0];
    assert!(is_uuid(&profile.id));
    assert!(profile.created_at_utc > YEAR_2020_NANOS);
    assert_eq!(profile.created_at_utc, profile.updated_at_utc);
}

#[test]
fn duplicating_now_gives_a_new_random_id() {
    let mut database = SwitcherDatabase::default();
    database.profiles.push(stored("p1", "relay"));
    let copied = duplicate_provider_now(database, "p1").unwrap();
    assert_eq!(copied.profiles.len(), 2);
    assert!(is_uuid(&copied.profiles[1].id));
    assert_eq!(copied.profiles[1].provider_id, "relay_copy");
    assert!(copied.profiles[1].created_at_utc > YEAR_2020_NANOS);
    assert!(duplicate_provider_now(SwitcherDatabase::default(), "p1").is_err());
}

#[test]
fn captured_snapshot_keeps_the_texts_and_records_the_time() {
    let snapshot = captured_snapshot(Some("model = \"o3\"\n".to_string()), None);
    assert_eq!(snapshot.config_text.as_deref(), Some("model = \"o3\"\n"));
    assert!(snapshot.protected_auth_text.is_none());
    assert!(snapshot.captured_at_utc.unwrap() > YEAR_2020_NANOS);
}

#[test]
fn new_profile_now_gets_a_random_id_and_trimmed_fields() {
    let profile = new_profile_now(&editor_input("  Demo  ")).unwrap();
    assert!(is_uuid(&profile.id));
    assert_eq!(profile.name, "Demo");
    assert_eq!(profile.base_url, "https://example.com/v1");
    assert_eq!(profile.test_model.as_deref(), Some("model-a"));
    assert!(profile.created_at_utc > YEAR_2020_NANOS);
    assert_eq!(profile.created_at_utc, profile.updated_at_utc);
    let error = new_profile_now(&editor_input("   ")).unwrap_err();
    assert_eq!(error.to_dto().code, "profile_name_missing");
}

#[test]
fn updating_now_renames_and_touches_the_profile() {
    let mut profile = CodexProfile::blank("p1", 1);
    profile.name = "Old".to_string();
    begin_profile_update_now(&mut profile, &editor_input(" New "));
    assert_eq!(profile.name, "New");
    assert_eq!(profile.id, "p1");
    assert_eq!(profile.created_at_utc, 1);
    assert!(profile.updated_at_utc > YEAR_2020_NANOS);
}

#[test]
fn duplicated_profile_now_is_created_now() {
    let source = CodexProfile::blank("p1", 1);
    let copy = duplicated_profile_now(&source, "p2", None, None);
    assert_eq!(copy.id, "p2");
    assert!(copy.created_at_utc > YEAR_2020_NANOS);
}

#[test]
fn manual_disable_now_records_reason_and_time() {
    let mut database = ProfileDatabase::default();
    database.profiles.push(CodexProfile::blank("p1", 1));
    set_auto_disabled_now(&mut database, "p1", true).unwrap();
    assert!(database.profiles[0].auto_disabled);
    assert!(database.profiles[0].auto_disabled_at_utc.unwrap() > YEAR_2020_NANOS);
    assert!(set_auto_disabled_now(&mut database, "missing", true).is_err());
}

#[test]
fn failed_tests_mark_profiles_now() {
    let mut database = ProfileDatabase::default();
    database.profiles.push(CodexProfile::blank("p1", 1));
    let padded = vec![("p1".to_string(), " timeout ".to_string())];
    assert!(mark_auto_disabled_now(&mut database, &padded).unwrap());
    assert_eq!(database.profiles[0].auto_disabled_reason.as_deref(), Some("timeout"));
    // The stored reason is trimmed, so the padded one differs from it.
    assert!(mark_auto_disabled_now(&mut database, &padded).unwrap());
    let plain = vec![("p1".to_string(), "timeout".to_string())];
    assert!(!mark_auto_disabled_now(&mut database, &plain).unwrap());
}

#[test]
fn wsl_refresh_now_returns_the_recorded_time() {
    let mut database = ProfileDatabase::default();
    let info = WslEnvironmentInfo {
        distro_name: "Ubuntu".to_string(),
        user_name: "dev".to_string(),
        home_directory: "/home/dev".to_string(),
    };
    let when = record_wsl_refresh_now(&mut database, &Ok(info));
    assert_eq!(database.cached_default_wsl_detected_at_utc, Some(when));
    assert_eq!(database.cached_default_wsl_distro_name.as_deref(), Some("Ubuntu"));
    let failed = record_wsl_refresh_now(&mut database, &Err(AppError::validation("wsl", "no wsl")));
    assert_eq!(database.cached_default_wsl_error_at_utc, Some(failed));
    assert_eq!(database.cached_default_wsl_error_message.as_deref(), Some("no wsl"));
    assert_eq!(database.cached_default_wsl_distro_name.as_deref(), Some("Ubuntu"));
}

#[test]
fn switch_summaries_now_carry_the_time() {
    let profile = CodexProfile::blank("p1", 1);
    let targets = vec![target("Windows"), target("WSL")];
    let done = success_summary_now(&profile, &targets, Vec::new());
    assert_eq!(done.status, SwitchExecutionStatus::Success);
    assert_eq!(done.message, "切换完成：Windows、WSL。");
    assert!(done.executed_at_utc > YEAR_2020_NANOS);
    let failed = failure_summary_now(&profile, &targets, Vec::new(), "boom".to_string());
    assert_eq!(failed.status, SwitchExecutionStatus::Failure);
    assert_eq!(failed.steps.len(), 1);
    assert_eq!(failed.steps[0].name, "finalize");
}
