use codex_api_switcher_core::paths::{holds_parent_part, is_one_normal_part, checked_relative, PathPart};
use codex_api_switcher_core::json::JsonValue;
use codex_api_switcher_core::switcher::backup::{
    backup_record, backup_targets, restore_plan, backups_to_prune, check_backup_id, restore_step,
    sort_newest_first,
    RestoreAction,
};
use codex_api_switcher_core::switcher::config::apply_provider_config;
use codex_api_switcher_core::switcher::catalog::{catalog_entries, native_model_templates, ui_models};
use codex_api_switcher_core::switcher::credential::{
    protected_provider_key, provider_token_argument, token_profile,
};
use codex_api_switcher_core::switcher::desktop::{
    classify_reply, injection_commands, injection_timeout, is_running_output, package_install,
    powershell_single_quote, restart_arguments, select_debugger_url, targets_endpoint,
    CommandReply,
};
use codex_api_switcher_core::switcher::models::{
    BackupFileRecord, BackupSummary, ModelEntry, SaveProviderInput, SaveSettingsInput,
    StoredProviderProfile, SwitcherDatabase,
};
use codex_api_switcher_core::switcher::service::{
    build_switch_preview, connection_succeeded, ensure_default_model, find_profile,
    parse_model_list, stale_catalogs, status_error,
};
use codex_api_switcher_core::switcher::sessions::{
    is_session_file, session_roots, rejoin_session, rewrite_session_meta, split_first_line, SessionMeta,
};
use codex_api_switcher_core::switcher::store::{
    delete_provider_from, duplicate_provider_into, key_to_protect, save_provider_into,
    save_settings_into, validate_provider_input,
};
use codex_api_switcher_core::switcher::transaction::{
    after_close_request, after_forced_close, codex_home_source, ensure_codex_closed,
    ensure_official_snapshot, latest_log_values, marker_backup_id, migrate_step, official_steps,
    recovery_needed, restart_report, rollback_outcome, sync_active_profile, CodexHomeSource,
    RestartOutcome,
};
use codex_api_switcher_core::switcher::ApiError;

fn profile(id: &str, provider_id: &str) -> StoredProviderProfile {
    StoredProviderProfile {
        id: id.to_string(),
        name: "Example".to_string(),
        provider_id: provider_id.to_string(),
        base_url: "https://example.com/v1".to_string(),
        protected_api_key: Some("protected".to_string()),
        default_model: "demo".to_string(),
        models: vec![ModelEntry {
            id: "demo".to_string(),
            display_name: "Demo".to_string(),
            context_window: Some(64_000),
        }],
        timeout_seconds: 30,
        inject_models: true,
        created_at_utc: 0,
        updated_at_utc: 0,
    }
}

fn database_with(profiles: Vec<StoredProviderProfile>) -> SwitcherDatabase {
    let mut database = SwitcherDatabase::default();
    database.profiles = profiles;
    database
}

fn draft(id: Option<&str>, provider_id: &str) -> SaveProviderInput {
    SaveProviderInput {
        id: id.map(str::to_string),
        name: " My Relay ".to_string(),
        provider_id: provider_id.to_string(),
        base_url: "https://relay.example.com/v1/".to_string(),
        api_key: Some(" sk-1 ".to_string()),
        clear_api_key: false,
        default_model: "gpt-x".to_string(),
        models: Vec::new(),
        timeout_seconds: 30,
        inject_models: true,
    }
}

fn text(s: &str) -> JsonValue {
    JsonValue::Str(s.to_string())
}

fn object(members: Vec<(&str, JsonValue)>) -> JsonValue {
    JsonValue::Object(members.into_iter().map(|(k, v)| (k.to_string(), v)).collect())
}

fn member<'a>(value: &'a JsonValue, key: &str) -> Option<&'a JsonValue> {
    match value {
        JsonValue::Object(members) => members.iter().find(|(k, _)| k == key).map(|(_, v)| v),
        _ => None,
    }
}

fn summary(id: &str, created: i64) -> BackupSummary {
    BackupSummary {
        id: id.to_string(),
        created_at_utc: created,
        kind: "switch".to_string(),
        profile_name: None,
        status: "complete".to_string(),
        file_count: 1,
    }
}

#[test]
fn saving_a_new_draft_appends_a_normalized_profile() {
    let input = draft(None, "Relay");
    let normalized = validate_provider_input(&input).unwrap();
    assert_eq!(key_to_protect(input.api_key.as_deref(), false), Some("sk-1".to_string()));
    let saved = save_provider_into(
        SwitcherDatabase::default(),
        &input,
        normalized,
        Some(Ok("encrypted".to_string())),
        5,
        "new-id".to_string(),
    )
    .unwrap();
    assert_eq!(saved.profiles.len(), 1);
    let stored = &saved.profiles[0];
    assert_eq!(stored.id, "new-id");
    assert_eq!(stored.name, "My Relay");
    assert_eq!(stored.provider_id, "relay");
    assert_eq!(stored.base_url, "https://relay.example.com/v1");
    assert_eq!(stored.protected_api_key.as_deref(), Some("encrypted"));
    assert_eq!(stored.created_at_utc, 5);
    assert_eq!(stored.models.len(), 1);
    assert_eq!(stored.models[0].id, "gpt-x");
    assert_eq!(stored.models[0].context_window, Some(128_000));
}

#[test]
fn saving_a_second_profile_with_the_same_provider_id_is_refused() {
    let input = draft(None, "relay");
    let normalized = validate_provider_input(&input).unwrap();
    let error = save_provider_into(
        database_with(vec![profile("p1", "relay")]),
        &input,
        normalized,
        None,
        5,
        "new-id".to_string(),
    )
    .unwrap_err();
    assert_eq!(error.code, "provider_id_duplicate");
    assert_eq!(error.message, "Provider ID“relay”已存在。");
}

#[test]
fn saving_reports_a_failed_encryption() {
    let input = draft(None, "relay");
    let normalized = validate_provider_input(&input).unwrap();
    let error = save_provider_into(
        SwitcherDatabase::default(),
        &input,
        normalized,
        Some(Err("boom".to_string())),
        5,
        "new-id".to_string(),
    )
    .unwrap_err();
    assert_eq!(error.code, "api_key_encrypt_failed");
    assert_eq!(error.detail.as_deref(), Some("boom"));
}

#[test]
fn editing_a_missing_profile_is_refused() {
    let input = draft(Some("missing"), "relay");
    let normalized = validate_provider_input(&input).unwrap();
    let error = save_provider_into(
        SwitcherDatabase::default(),
        &input,
        normalized,
        None,
        5,
        "new-id".to_string(),
    )
    .unwrap_err();
    assert_eq!(error.code, "provider_not_found");
    assert_eq!(error.message, "没有找到要编辑的 Provider。");
}

#[test]
fn editing_without_a_new_key_keeps_the_stored_key() {
    let mut input = draft(Some("p1"), "relay");
    input.api_key = Some("   ".to_string());
    assert_eq!(key_to_protect(input.api_key.as_deref(), false), None);
    let normalized = validate_provider_input(&input).unwrap();
    let saved = save_provider_into(
        database_with(vec![profile("p1", "relay")]),
        &input,
        normalized,
        None,
        9,
        "unused".to_string(),
    )
    .unwrap();
    assert_eq!(saved.profiles.len(), 1);
    assert_eq!(saved.profiles[0].protected_api_key.as_deref(), Some("protected"));
    assert_eq!(saved.profiles[0].updated_at_utc, 9);
    assert_eq!(saved.profiles[0].created_at_utc, 0);
}

#[test]
fn duplicating_picks_a_free_provider_id() {
    let once = duplicate_provider_into(
        database_with(vec![profile("p1", "relay")]),
        "p1",
        7,
        "p2".to_string(),
        "token",
    )
    .unwrap();
    assert_eq!(once.profiles[1].provider_id, "relay_copy");
    assert_eq!(once.profiles[1].name, "Example 副本");
    assert_eq!(once.profiles[1].id, "p2");
    assert_eq!(once.profiles[1].created_at_utc, 7);
    let twice = duplicate_provider_into(once, "p1", 8, "p3".to_string(), "token").unwrap();
    assert_eq!(twice.profiles[2].provider_id, "relay_copy_1");
    let error = duplicate_provider_into(twice, "missing", 9, "p4".to_string(), "token").unwrap_err();
    assert_eq!(error.message, "没有找到要复制的 Provider。");
}

#[test]
fn deleting_respects_the_active_profile() {
    let mut database = database_with(vec![profile("p1", "relay")]);
    database.active_profile_id = Some("p1".to_string());
    let error = delete_provider_from(database, "p1").unwrap_err();
    assert_eq!(error.code, "provider_is_active");

    let error = delete_provider_from(database_with(Vec::new()), "p1").unwrap_err();
    assert_eq!(error.code, "provider_not_found");
    assert_eq!(error.message, "没有找到要删除的 Provider。");

    let left = delete_provider_from(database_with(vec![profile("p1", "relay")]), "p1").unwrap();
    assert!(left.profiles.is_empty());
}

#[test]
fn settings_are_clamped_and_blank_override_is_cleared() {
    let saved = save_settings_into(
        SwitcherDatabase::default(),
        SaveSettingsInput {
            codex_home_override: Some("   ".to_string()),
            backup_retention: 0,
            inject_models_default: false,
        },
    )
    .unwrap();
    assert_eq!(saved.settings.codex_home_override, None);
    assert_eq!(saved.settings.backup_retention, 1);
    assert!(!saved.settings.inject_models_default);

    let error = save_settings_into(
        SwitcherDatabase::default(),
        SaveSettingsInput {
            codex_home_override: Some("relative/home".to_string()),
            backup_retention: 10,
            inject_models_default: true,
        },
    )
    .unwrap_err();
    assert_eq!(error.code, "codex_home_not_absolute");
}

#[test]
fn restore_detects_conflicts_unless_forced() {
    let record = BackupFileRecord {
        relative_path: "config.toml".to_string(),
        existed_before: true,
        sha256_before: Some("before".to_string()),
        sha256_after: Some("after".to_string()),
    };
    let error = restore_step(&record, true, Some("changed".to_string()), false).unwrap_err();
    assert_eq!(error.code, "backup_conflict");
    assert_eq!(error.message, "文件 config.toml 在备份后被其他程序修改，需要确认强制恢复。");
    assert!(matches!(
        restore_step(&record, true, Some("changed".to_string()), true),
        Ok(RestoreAction::WriteBackup)
    ));
    assert!(matches!(
        restore_step(&record, true, Some("after".to_string()), false),
        Ok(RestoreAction::WriteBackup)
    ));

    let created = BackupFileRecord {
        relative_path: "model-catalogs/relay.json".to_string(),
        existed_before: false,
        sha256_before: None,
        sha256_after: Some("new".to_string()),
    };
    assert!(matches!(
        restore_step(&created, true, Some("new".to_string()), false),
        Ok(RestoreAction::RemoveCreated)
    ));
    assert!(matches!(restore_step(&created, false, None, true), Ok(RestoreAction::Leave)));
}

#[test]
fn backup_ids_with_path_parts_are_refused() {
    assert_eq!(check_backup_id("../escape").unwrap_err().code, "backup_id_invalid");
    assert_eq!(check_backup_id("a\\b").unwrap_err().code, "backup_id_invalid");
    assert!(check_backup_id("20260101-000000-abcd1234").is_ok());
}

#[test]
fn pruning_keeps_the_newest_backups() {
    let sorted = sort_newest_first(vec![summary("a", 1), summary("c", 3), summary("b", 2)]);
    let ids: Vec<&str> = sorted.iter().map(|b| b.id.as_str()).collect();
    assert_eq!(ids, vec!["c", "b", "a"]);
    assert_eq!(backups_to_prune(&sorted, 1), vec!["b".to_string(), "a".to_string()]);
    assert_eq!(backups_to_prune(&sorted, 0), vec!["b".to_string(), "a".to_string()]);
    assert!(backups_to_prune(&sorted, 10).is_empty());
}

#[test]
fn closing_codex_asks_before_forcing() {
    let error = after_close_request(false, false, "need force").unwrap_err();
    assert_eq!(error.code, "codex_force_close_required");
    assert_eq!(error.message, "need force");
    assert_eq!(after_close_request(false, true, "x").unwrap(), true);
    assert_eq!(after_close_request(true, false, "x").unwrap(), false);
    assert_eq!(after_forced_close(false).unwrap_err().code, "codex_close_failed");
    assert!(after_forced_close(true).is_ok());
}

#[test]
fn official_restore_needs_a_snapshot_and_backup_restore_a_closed_codex() {
    let error = ensure_official_snapshot(&SwitcherDatabase::default()).unwrap_err();
    assert_eq!(error.code, "official_snapshot_missing");
    let mut database = SwitcherDatabase::default();
    database.official_snapshot.captured_at_utc = Some(1);
    assert!(ensure_official_snapshot(&database).is_ok());
    assert_eq!(ensure_codex_closed(true).unwrap_err().code, "codex_must_be_closed");
    assert!(ensure_codex_closed(false).is_ok());
}

#[test]
fn restart_report_lists_steps_and_warnings() {
    let skipped = restart_report(RestartOutcome::NotRequested);
    assert_eq!(skipped.steps.len(), 1);
    assert_eq!(skipped.steps[0].status, "skipped");
    assert!(!skipped.restarted);

    let failed = restart_report(RestartOutcome::Failed(ApiError::new("x", "boom")));
    assert_eq!(failed.warnings, vec!["配置已经生效，但 Codex 重启失败：boom".to_string()]);

    let injected = restart_report(RestartOutcome::Started { injection: Some(Ok(())) });
    assert!(injected.restarted && injected.injected);
    assert_eq!(injected.steps[1].phase, "injectModels");
    assert_eq!(injected.steps[1].status, "success");
}

#[test]
fn rollback_outcome_reports_both_failures() {
    let (status, error) = rollback_outcome(
        ApiError::new("first", "a"),
        Err(ApiError::new("second", "b")),
        "switch_and_rollback_failed",
        "both failed",
        "switch",
    );
    assert_eq!(status, "rollbackFailed");
    assert_eq!(error.code, "switch_and_rollback_failed");
    assert_eq!(error.detail.as_deref(), Some("switch: a; rollback: b"));

    let (status, error) =
        rollback_outcome(ApiError::new("first", "a"), Ok(()), "c", "m", "switch");
    assert_eq!(status, "rolledBack");
    assert_eq!(error.code, "first");
}

#[test]
fn step_messages_count_sessions() {
    assert_eq!(migrate_step(2).message, "已同步 2 个历史会话。");
    let steps = official_steps(3);
    assert_eq!(steps.len(), 3);
    assert_eq!(steps[2].message, "已同步 3 个会话到 openai Provider。");
}

#[test]
fn recent_logs_are_newest_first_and_limited() {
    assert_eq!(latest_log_values(vec![1, 2, 3, 4], 2), vec![4, 3]);
    assert_eq!(latest_log_values(vec![1, 2, 3, 4], 0), vec![4]);
}

#[test]
fn active_profile_follows_the_configured_provider() {
    let mut database = database_with(vec![profile("p1", "relay")]);
    sync_active_profile(&mut database, Some("relay".to_string()));
    assert_eq!(database.active_profile_id.as_deref(), Some("p1"));
    assert_eq!(database.active_provider_id.as_deref(), Some("relay"));
    sync_active_profile(&mut database, Some("openai".to_string()));
    assert_eq!(database.active_profile_id, None);
    assert_eq!(database.active_provider_id, None);
}

#[test]
fn codex_home_prefers_the_override_then_the_environment() {
    let mut database = SwitcherDatabase::default();
    assert!(matches!(
        codex_home_source(&database, Some("/env/home".to_string()), true),
        Ok(CodexHomeSource::Environment(path)) if path == "/env/home"
    ));
    assert!(matches!(
        codex_home_source(&database, Some(String::new()), true),
        Ok(CodexHomeSource::UserHome)
    ));
    assert_eq!(
        codex_home_source(&database, None, false).unwrap_err().code,
        "home_directory_missing"
    );
    database.settings.codex_home_override = Some("/custom".to_string());
    assert!(matches!(
        codex_home_source(&database, Some("/env/home".to_string()), true),
        Ok(CodexHomeSource::Configured(path)) if path == "/custom"
    ));
}

#[test]
fn unfinished_switch_is_recovered_only_with_codex_closed() {
    assert_eq!(recovery_needed(false, true).unwrap(), false);
    assert_eq!(
        recovery_needed(true, true).unwrap_err().code,
        "incomplete_transaction_codex_running"
    );
    assert_eq!(recovery_needed(true, false).unwrap(), true);
    let marker = object(vec![("backupId", text("b1")), ("stage", text("backup-complete"))]);
    assert_eq!(marker_backup_id(&marker).unwrap(), "b1");
    assert_eq!(
        marker_backup_id(&object(Vec::new())).unwrap_err().code,
        "transaction_backup_missing"
    );
}

#[test]
fn session_rewrite_is_idempotent() {
    let line = object(vec![
        ("type", text("session_meta")),
        ("payload", object(vec![("id", text("s1")), ("model_provider", text("openai"))])),
    ]);
    let rewritten = match rewrite_session_meta(&line, "relay", Some("stem".to_string())) {
        SessionMeta::Rewritten(value, id) => {
            assert_eq!(id.as_deref(), Some("s1"));
            value
        }
        _ => panic!("expected a rewritten line"),
    };
    let payload = member(&rewritten, "payload").unwrap();
    assert!(matches!(member(payload, "model_provider"), Some(JsonValue::Str(p)) if p == "relay"));
    assert!(matches!(
        rewrite_session_meta(&rewritten, "relay", Some("stem".to_string())),
        SessionMeta::Current(Some(id)) if id == "s1"
    ));
}

#[test]
fn session_without_id_uses_the_file_stem() {
    let line = object(vec![("model_provider", text("relay"))]);
    assert!(matches!(
        rewrite_session_meta(&line, "relay", Some("stem".to_string())),
        SessionMeta::Current(Some(id)) if id == "stem"
    ));
    assert!(matches!(rewrite_session_meta(&text("x"), "relay", None), SessionMeta::Skip));
}

#[test]
fn credential_helper_finds_its_profile() {
    let args = vec!["--codex-provider-token".to_string(), "p1".to_string()];
    assert_eq!(provider_token_argument(&args), Some("p1".to_string()));
    assert_eq!(provider_token_argument(&vec!["--other".to_string()]), None);
    let mut keyless = profile("p2", "other");
    keyless.protected_api_key = None;
    let database = database_with(vec![profile("p1", "relay"), keyless]);
    assert_eq!(token_profile(&database, "p1").unwrap().provider_id, "relay");
    assert_eq!(token_profile(&database, "nope").unwrap_err(), "没有找到 Provider 凭据。");
    assert_eq!(protected_provider_key(&database.profiles[0]).unwrap(), "protected");
    assert_eq!(
        protected_provider_key(&database.profiles[1]).unwrap_err().code,
        "api_key_missing"
    );
}

#[test]
fn desktop_scripts_and_arguments() {
    assert_eq!(powershell_single_quote("it's"), "it''s");
    assert_eq!(
        restart_arguments(Some(9222)),
        "--remote-debugging-address=127.0.0.1 --remote-debugging-port=9222 --remote-allow-origins=http://127.0.0.1:9222"
    );
    assert_eq!(restart_arguments(None), "");
    assert_eq!(targets_endpoint(9222), "http://127.0.0.1:9222/json");
    assert!(is_running_output(Some(" 1\r\n".to_string())));
    assert!(!is_running_output(Some("0".to_string())));
    assert!(!is_running_output(None));
    let package = object(vec![
        ("Version", text("1.2.3")),
        ("InstallLocation", text("C:\\Apps\\Codex")),
        ("PackageFamilyName", text("OpenAI.Codex_abc")),
    ]);
    assert_eq!(
        package_install(&package),
        Some(("C:\\Apps\\Codex".to_string(), "OpenAI.Codex_abc!App".to_string()))
    );
}

#[test]
fn debugger_url_prefers_pages() {
    let targets = vec![
        object(vec![("type", text("worker")), ("webSocketDebuggerUrl", text("ws://worker"))]),
        object(vec![("type", text("page")), ("webSocketDebuggerUrl", text("ws://page"))]),
    ];
    assert_eq!(select_debugger_url(&targets).unwrap(), "ws://page");
    let workers = vec![object(vec![("webSocketDebuggerUrl", text("ws://worker"))])];
    assert_eq!(select_debugger_url(&workers).unwrap(), "ws://worker");
    assert_eq!(select_debugger_url(&Vec::new()).unwrap_err().code, "cdp_target_missing");
}

#[test]
fn cdp_commands_and_replies() {
    let commands = injection_commands("script");
    let methods: Vec<&str> = commands.iter().map(|c| c.method.as_str()).collect();
    assert_eq!(
        methods,
        vec!["Page.enable", "Page.addScriptToEvaluateOnNewDocument", "Runtime.evaluate"]
    );
    assert_eq!(commands[2].id, 3);
    assert!(matches!(
        classify_reply(&object(vec![("id", JsonValue::UInt(2))]), 2),
        CommandReply::Done
    ));
    assert!(matches!(
        classify_reply(&object(vec![("id", JsonValue::UInt(2)), ("error", text("no"))]), 2),
        CommandReply::Rejected
    ));
    assert!(matches!(
        classify_reply(&object(vec![("id", JsonValue::UInt(3))]), 2),
        CommandReply::Other
    ));
    assert_eq!(injection_timeout(None).code, "cdp_injection_timeout");
    assert_eq!(injection_timeout(Some(ApiError::new("last", "m"))).code, "last");
}

#[test]
fn catalog_entries_fill_the_template() {
    let models = vec![ModelEntry {
        id: "GPT-X".to_string(),
        display_name: "GPT X".to_string(),
        context_window: Some(1000),
    }];
    let template = object(vec![("slug", text("template")), ("shell", JsonValue::Bool(true))]);
    let entries = catalog_entries(&models, &template, &Vec::new());
    assert_eq!(entries.len(), 1);
    let entry = &entries[0];
    assert!(matches!(member(entry, "slug"), Some(JsonValue::Str(s)) if s == "GPT-X"));
    assert!(matches!(member(entry, "display_name"), Some(JsonValue::Str(s)) if s == "GPT X"));
    assert!(matches!(member(entry, "priority"), Some(JsonValue::UInt(1000))));
    assert!(matches!(member(entry, "max_context_window"), Some(JsonValue::UInt(1000))));
    assert!(matches!(member(entry, "shell"), Some(JsonValue::Bool(true))));

    let ui = ui_models(&entries);
    assert!(matches!(member(&ui[0], "id"), Some(JsonValue::Str(s)) if s == "GPT-X"));
    assert!(matches!(member(&ui[0], "name"), Some(JsonValue::Str(s)) if s == "GPT X"));
}

#[test]
fn catalog_inherits_native_templates_by_lowercase_slug() {
    let cache = object(vec![(
        "models",
        JsonValue::Array(vec![object(vec![
            ("slug", text("GPT-X")),
            ("supported_reasoning_levels", text("high")),
        ])]),
    )]);
    let native = native_model_templates(&cache);
    assert_eq!(native.len(), 1);
    assert_eq!(native[0].0, "gpt-x");
    let models = vec![ModelEntry {
        id: "gpt-x".to_string(),
        display_name: "GPT X".to_string(),
        context_window: None,
    }];
    let entries = catalog_entries(&models, &object(Vec::new()), &native);
    assert!(matches!(
        member(&entries[0], "supported_reasoning_levels"),
        Some(JsonValue::Str(s)) if s == "high"
    ));
    assert!(member(&entries[0], "context_window").is_none());
}

#[test]
fn model_list_is_deduplicated_and_sorted() {
    let response = object(vec![(
        "data",
        JsonValue::Array(vec![
            object(vec![("id", text("b"))]),
            object(vec![("id", text("a")), ("display_name", text("A"))]),
            object(vec![("id", text("a"))]),
            object(vec![("id", text("  "))]),
        ]),
    )]);
    let result = parse_model_list("https://x/v1/models".to_string(), &response).unwrap();
    let ids: Vec<&str> = result.models.iter().map(|m| m.id.as_str()).collect();
    assert_eq!(ids, vec!["a", "b"]);
    assert_eq!(result.models[0].display_name, "A");
    assert_eq!(result.message, "发现 2 个模型。");
    assert_eq!(
        parse_model_list("e".to_string(), &object(Vec::new())).unwrap_err().code,
        "model_list_missing"
    );
}

#[test]
fn upstream_errors_name_the_status() {
    let error = status_error(401, "denied", "连接测试");
    assert_eq!(error.code, "upstream_http_error");
    assert_eq!(error.message, "连接测试失败：API Key 未通过认证。");
    assert_eq!(error.detail.as_deref(), Some("denied"));
    assert_eq!(status_error(500, "", "获取模型列表").message, "获取模型列表失败：HTTP 500。");
    let long = "x".repeat(600);
    assert_eq!(status_error(429, &long, "a").detail.unwrap().len(), 500);
}

#[test]
fn connection_result_and_preview() {
    let stored = profile("p1", "relay");
    let result = connection_succeeded("https://x/v1/responses".to_string(), &stored, 12);
    assert_eq!(result.message, "连接成功，耗时 12 ms。");
    assert_eq!(result.status, "success");
    assert_eq!(result.model, "demo");

    let mut bare = profile("p1", "relay");
    bare.base_url = "https://x".to_string();
    bare.models.clear();
    let preview = build_switch_preview(&bare, "/home/.codex".to_string(), false, true);
    assert_eq!(preview.warnings.len(), 3);
    assert_eq!(preview.files_to_backup[2], "model-catalogs/relay.json");
    assert_eq!(preview.files_to_backup[5], "archived_sessions/**/*.jsonl");
    assert!(preview.will_restart_codex && preview.codex_running);
}

#[test]
fn profile_lookup_and_default_model_errors() {
    let database = database_with(vec![profile("p1", "relay")]);
    assert_eq!(find_profile(&database, "p1").unwrap().provider_id, "relay");
    assert_eq!(find_profile(&database, "p9").unwrap_err().code, "provider_not_found");
    let mut blank = profile("p1", "relay");
    blank.default_model = "  ".to_string();
    assert_eq!(ensure_default_model(&blank).unwrap_err().code, "default_model_missing");
}

#[test]
fn provider_config_never_holds_the_api_key() {
    let with_key = profile("p1", "relay");
    let mut without_key = profile("p1", "relay");
    without_key.protected_api_key = None;
    let existing = "approval_policy = \"never\"\n";
    let first = apply_provider_config(existing, None, &with_key, "helper.exe").unwrap();
    let second = apply_provider_config(existing, None, &without_key, "helper.exe").unwrap();
    assert_eq!(first, second);
    assert!(!first.contains("protected"));
    assert!(first.contains("--codex-provider-token"));
}

#[test]
fn backups_cover_config_auth_state_and_both_catalogs() {
    assert_eq!(
        backup_targets(Some("relay"), Some("old")),
        vec![
            "config.toml".to_string(),
            "auth.json".to_string(),
            "model-catalogs/codex-api-switcher.json".to_string(),
            "state_5.sqlite".to_string(),
            "state_5.sqlite-wal".to_string(),
            "state_5.sqlite-shm".to_string(),
            "model-catalogs/relay.json".to_string(),
            "model-catalogs/old.json".to_string(),
        ]
    );
    assert_eq!(backup_targets(None, None).len(), 6);
    assert_eq!(backup_targets(Some("relay"), Some("relay")).len(), 7);
    assert_eq!(backup_targets(Some("codex-api-switcher"), None).len(), 6);
}

#[test]
fn catalog_inherits_native_reasoning_levels_for_matching_model() {
    let level = |effort: &str, description: &str| {
        object(vec![("effort", text(effort)), ("description", text(description))])
    };
    let cache = object(vec![(
        "models",
        JsonValue::Array(vec![object(vec![
            ("slug", text("demo")),
            ("display_name", text("Native Demo")),
            ("default_reasoning_level", text("low")),
            (
                "supported_reasoning_levels",
                JsonValue::Array(vec![
                    level("low", "Low"),
                    level("medium", "Medium"),
                    level("high", "High"),
                    level("xhigh", "Extra high"),
                    level("max", "Maximum"),
                    level("ultra", "Ultra"),
                ]),
            ),
            ("support_verbosity", JsonValue::Bool(true)),
            ("context_window", JsonValue::UInt(256000)),
            ("max_context_window", JsonValue::UInt(256000)),
        ])]),
    )]);
    let mut stored = profile("profile-1", "example");
    stored.models[0].context_window = None;
    let entries = catalog_entries(&stored.models, &object(Vec::new()), &native_model_templates(&cache));
    let model = &entries[0];
    assert!(matches!(member(model, "display_name"), Some(JsonValue::Str(s)) if s == "Demo"));
    assert!(matches!(member(model, "default_reasoning_level"), Some(JsonValue::Str(s)) if s == "low"));
    assert!(matches!(member(model, "context_window"), Some(JsonValue::UInt(256000))));
    let levels: Vec<String> = match member(model, "supported_reasoning_levels") {
        Some(JsonValue::Array(items)) => items
            .iter()
            .filter_map(|item| match member(item, "effort") {
                Some(JsonValue::Str(effort)) => Some(effort.clone()),
                _ => None,
            })
            .collect(),
        _ => Vec::new(),
    };
    assert_eq!(levels, vec!["low", "medium", "high", "xhigh", "max", "ultra"]);
}

#[test]
fn session_text_splits_at_the_first_newline_and_rejoins() {
    let text = "{\"type\":\"session_meta\"}\n{\"a\":1}\n";
    let (first, rest) = split_first_line(text);
    assert_eq!(first, "{\"type\":\"session_meta\"}");
    assert_eq!(rest.as_deref(), Some("{\"a\":1}\n"));
    assert_eq!(rejoin_session(&first, rest.as_deref()), text);
    let (only, none) = split_first_line("single line");
    assert_eq!(only, "single line");
    assert!(none.is_none());
    assert_eq!(rejoin_session("new", Some("")), "new\n");
}

#[test]
fn stale_catalogs_keep_the_new_provider() {
    assert_eq!(
        stale_catalogs(Some("old"), Some("relay")),
        vec![
            "model-catalogs/old.json".to_string(),
            "model-catalogs/codex-api-switcher.json".to_string()
        ]
    );
    assert_eq!(
        stale_catalogs(Some("relay"), Some("relay")),
        vec!["model-catalogs/codex-api-switcher.json".to_string()]
    );
    assert_eq!(
        stale_catalogs(Some("relay"), None),
        vec![
            "model-catalogs/relay.json".to_string(),
            "model-catalogs/codex-api-switcher.json".to_string()
        ]
    );
    assert_eq!(stale_catalogs(None, None).len(), 1);
}

#[test]
fn backup_paths_are_joined_only_when_they_stay_inside() {
    assert_eq!(checked_relative("sessions/2024/a.jsonl").unwrap(), "sessions/2024/a.jsonl");
    assert_eq!(checked_relative("config.toml").unwrap(), "config.toml");
    for refused in ["../auth.json", "sessions/../../x", "a/..", "/etc/passwd"] {
        assert_eq!(checked_relative(refused).unwrap_err().code, "backup_path_invalid");
    }
}

#[test]
fn every_active_and_archived_session_file_is_selected() {
    assert_eq!(session_roots(), vec!["sessions".to_string(), "archived_sessions".to_string()]);
    assert!(is_session_file("rollout-2024-01-01.jsonl"));
    assert!(is_session_file("..jsonl"));
    assert!(!is_session_file(".jsonl"));
    assert!(!is_session_file("notes.json"));
    assert!(!is_session_file("a.jsonl.tmp"));
}

fn apply_restore(action: RestoreAction, backed_up: &[u8], now: Option<Vec<u8>>) -> Option<Vec<u8>> {
    match action {
        RestoreAction::WriteBackup => Some(backed_up.to_vec()),
        RestoreAction::RemoveCreated => None,
        RestoreAction::Leave => now,
    }
}

#[test]
fn forced_restore_returns_each_file_to_its_state_before_the_switch() {
    let config_before = b"model = \"official\"\n".to_vec();
    let mut config = backup_record("config.toml", true, Some("d-before".to_string()));
    config.sha256_after = Some("d-custom".to_string());
    let mut catalog = backup_record("model-catalogs\\relay.json", false, None);
    catalog.sha256_after = Some("d-catalog".to_string());
    assert_eq!(catalog.relative_path, "model-catalogs/relay.json");

    let changed = Some(b"model = \"external-change\"\n".to_vec());
    let conflict = restore_step(&config, true, Some("d-external".to_string()), false).unwrap_err();
    assert_eq!(conflict.code, "backup_conflict");

    let action = restore_step(&config, true, Some("d-external".to_string()), true).unwrap();
    assert_eq!(apply_restore(action, &config_before, changed), Some(config_before.clone()));
    let action = restore_step(&catalog, true, Some("d-catalog".to_string()), false).unwrap();
    assert_eq!(apply_restore(action, &[], Some(b"{}".to_vec())), None);
    let action = restore_step(&catalog, false, None, true).unwrap();
    assert_eq!(apply_restore(action, &[], None), None);
}

fn restore_tree(
    records: &[codex_api_switcher_core::switcher::models::BackupFileRecord],
    saved: &std::collections::HashMap<String, Vec<u8>>,
    tree: &mut std::collections::HashMap<String, Vec<u8>>,
    force: bool,
) -> Result<(), String> {
    for record in records {
        let current = tree.get(&record.relative_path).map(|bytes| format!("d:{}", bytes.len()));
        let now = tree.get(&record.relative_path).cloned();
        let action = restore_step(record, now.is_some(), current, force).map_err(|e| e.code)?;
        let backed = saved.get(&record.relative_path).cloned().unwrap_or_default();
        match apply_restore(action, &backed, now) {
            Some(bytes) => {
                tree.insert(record.relative_path.clone(), bytes);
            }
            None => {
                tree.remove(&record.relative_path);
            }
        }
    }
    Ok(())
}

#[test]
fn manifest_restore_detects_conflict_and_force_restore_is_exact() {
    let official = b"model = \"official\"\n".to_vec();
    let custom = b"model = \"custom\"\n".to_vec();
    let external = b"model = \"external-change\"\n".to_vec();
    let mut saved = std::collections::HashMap::new();
    saved.insert("config.toml".to_string(), official.clone());
    let mut config = backup_record("config.toml", true, Some(format!("d:{}", official.len())));
    let mut catalog = backup_record("model-catalogs/relay.json", false, None);
    config.sha256_after = Some(format!("d:{}", custom.len()));
    catalog.sha256_after = Some("d:2".to_string());
    let records = vec![config, catalog];

    let mut tree = std::collections::HashMap::new();
    tree.insert("config.toml".to_string(), external.clone());
    tree.insert("model-catalogs/relay.json".to_string(), b"{}".to_vec());
    assert_eq!(restore_tree(&records, &saved, &mut tree, false), Err("backup_conflict".to_string()));
    assert_eq!(tree.get("config.toml"), Some(&external));

    assert_eq!(restore_tree(&records, &saved, &mut tree, true), Ok(()));
    assert_eq!(tree.get("config.toml"), Some(&official));
    assert!(!tree.contains_key("model-catalogs/relay.json"));
}

#[test]
fn path_parts_decide_plain_names_and_climbing() {
    let one = vec![(PathPart::Normal, "backup-1".to_string())];
    assert!(is_one_normal_part(&one, "backup-1"));
    assert!(!is_one_normal_part(&one, "backup-1/"));
    let two = vec![(PathPart::Normal, "a".to_string()), (PathPart::Normal, "b".to_string())];
    assert!(!is_one_normal_part(&two, "a"));
    assert!(!is_one_normal_part(&vec![(PathPart::CurDir, ".".to_string())], "."));
    assert!(holds_parent_part(&vec![(PathPart::Normal, "a".to_string()), (PathPart::ParentDir, "..".to_string())]));
    assert!(!holds_parent_part(&two));
}

#[test]
fn restore_plans_stop_at_the_first_changed_file() {
    let mut config = backup_record("config.toml", true, Some("d0".to_string()));
    config.sha256_after = Some("d1".to_string());
    let mut catalog = backup_record("model-catalogs/relay.json", false, None);
    catalog.sha256_after = Some("d2".to_string());
    let mut auth = backup_record("auth.json", true, Some("a0".to_string()));
    auth.sha256_after = Some("a1".to_string());
    let records = vec![config, catalog, auth];

    let unchanged = vec![
        (true, Some("d1".to_string())),
        (true, Some("d2".to_string())),
        (true, Some("a1".to_string())),
    ];
    let (actions, conflict) = restore_plan(&records, &unchanged, false);
    assert!(conflict.is_none());
    assert_eq!(
        actions,
        vec![RestoreAction::WriteBackup, RestoreAction::RemoveCreated, RestoreAction::WriteBackup]
    );

    let changed = vec![
        (true, Some("d1".to_string())),
        (true, Some("other".to_string())),
        (true, Some("a1".to_string())),
    ];
    let (actions, conflict) = restore_plan(&records, &changed, false);
    assert_eq!(actions, vec![RestoreAction::WriteBackup]);
    let error = conflict.unwrap();
    assert_eq!(error.code, "backup_conflict");
    assert!(error.message.contains("model-catalogs/relay.json"));

    let forced = vec![(true, None), (false, None), (false, None)];
    let (actions, conflict) = restore_plan(&records, &forced, true);
    assert!(conflict.is_none());
    assert_eq!(actions, vec![RestoreAction::WriteBackup, RestoreAction::Leave, RestoreAction::WriteBackup]);
}
