use codex_api_switcher_core::dialog::{build_filter_text, from_wide_text, to_wide_text};
use codex_api_switcher_core::json::JsonValue;
use codex_api_switcher_core::profiles::backup::{
    format_backup_label, label_or_name, latest_directory_index, restore_file_action,
    sort_backup_items, validate_backup_directory_name, FileRestore,
};
use codex_api_switcher_core::profiles::commands::{
    apply_settings_input, backup_target_directory, batch_item, recent_log_limit, select_profiles,
};
use codex_api_switcher_core::profiles::connection::{
    append_detail, build_responses_endpoint, create_connection_result, looks_like_model_issue,
    resolve_test_model, should_retry_without_max_output_tokens, try_get_response_message,
};
use codex_api_switcher_core::profiles::editing::{
    plan_profile_input, AssetSource, KeySource, SourceFacts,
};
use codex_api_switcher_core::profiles::logs::{
    is_sensitive_key, recent_entries, sanitize_json_value, sanitize_log_string,
};
use codex_api_switcher_core::profiles::models::{
    BackupItem, CodexAuthMode, CodexProfile, ConnectionTestResultDto, ConnectionTestStatus,
    LogEntry, ProfileDatabase, ProviderCategory, SaveProfileInput, SaveSettingsInput,
    UiPreferences,
};
use codex_api_switcher_core::profiles::sessions::{
    add_session_id, recent_session_day_dirs, session_day_dirs, FirstLineRewrite,
    SessionMigrationService,
};
use codex_api_switcher_core::profiles::store::{
    duplicated_profile, mark_auto_disabled, new_profile_id, profile_directory_name, remove_profile,
    set_auto_disabled, ProfileStore,
};
use codex_api_switcher_core::profiles::switch::{
    api_key_auth_payload, effective_api_key_provider_name, ensure_trailing_newline,
    render_apikey_config, success_message, to_toml_string,
};
use codex_api_switcher_core::profiles::templates::{normalize_line_endings, TemplateService};
use codex_api_switcher_core::profiles::wsl::{
    cleanup_process_text, default_environment_from_output, WslService,
};
use codex_api_switcher_core::profiles::AppError;

fn profile(id: &str, name: &str) -> CodexProfile {
    let mut p = CodexProfile::blank(id, 1);
    p.name = name.to_string();
    p.base_url = "https://example.com/v1".to_string();
    p
}

fn code_of(error: &AppError) -> String {
    error.to_dto().code
}

fn object(members: Vec<(&str, JsonValue)>) -> JsonValue {
    JsonValue::Object(members.into_iter().map(|(k, v)| (k.to_string(), v)).collect())
}

fn text(s: &str) -> JsonValue {
    JsonValue::Str(s.to_string())
}

fn serialized(value: &JsonValue) -> String {
    match value {
        JsonValue::Str(s) => s.clone(),
        JsonValue::Array(items) => items.iter().map(serialized).collect::<Vec<_>>().join(","),
        JsonValue::Object(members) => members
            .iter()
            .map(|(k, v)| format!("{k}:{}", serialized(v)))
            .collect::<Vec<_>>()
            .join(","),
        other => format!("{other:?}"),
    }
}

#[test]
fn sanitize_log_string_hides_paths_and_tokens() {
    let token = ["sk", "1234567890abcdef"].join("-");
    let windows_path = ["X:", "masked", "private", "auth.json"].join("/");
    let wsl_mounted_path = "/mnt/c/Users/demo-user/private/auth.json";
    let text = format!("Bearer {token} {windows_path} {wsl_mounted_path}");
    let sanitized = sanitize_log_string(None, text.as_str());

    assert!(!sanitized.contains(token.as_str()));
    assert!(!sanitized.contains(windows_path.as_str()));
    assert!(!sanitized.contains(wsl_mounted_path));
    assert!(sanitized.contains("[已隐藏敏感值]"));
    assert!(sanitized.contains("[已隐藏路径]"));
}

#[test]
fn sanitize_json_value_hides_sensitive_keys() {
    let api_key = ["sk", "live-secret"].join("-");
    let authorization = ["Bearer", "abcdefghijklmnop"].join(" ");
    let value = object(vec![
        ("apiKey", text(&api_key)),
        ("detail", text("D:/workspace/private/result.json")),
        ("nested", object(vec![("authorization", text(&authorization))])),
    ]);

    let sanitized = sanitize_json_value(None, &value);
    let serialized = serialized(&sanitized);

    assert!(!serialized.contains("live-secret"));
    assert!(!serialized.contains("D:/workspace/private/result.json"));
    assert!(!serialized.contains("abcdefghijklmnop"));
}

#[test]
fn sensitive_keys_are_recognised_in_any_case() {
    assert!(is_sensitive_key("OpenAI_API_KEY"));
    assert!(is_sensitive_key("refreshToken"));
    assert!(is_sensitive_key("Authorization"));
    assert!(!is_sensitive_key("detail"));
    assert_eq!(sanitize_log_string(Some("password"), "plain"), "[已隐藏敏感值]");
    assert_eq!(sanitize_log_string(Some("detail"), "plain"), "plain");
}

#[test]
fn recent_entries_are_latest_first_and_masked() {
    let entries: Vec<LogEntry> = (1..=4)
        .map(|index| LogEntry {
            timestamp: format!("2026-03-28T10:00:0{index}Z"),
            level: "info".to_string(),
            action: format!("step-{index}"),
            message: format!("message-{index} sk-1234567890abcdef"),
            context: object(vec![("index", JsonValue::UInt(index))]),
        })
        .collect();
    let recent = recent_entries(entries, 2);
    assert_eq!(recent.len(), 2);
    assert_eq!(recent[0].action, "step-4");
    assert_eq!(recent[1].action, "step-3");
    assert_eq!(recent[0].message, "message-4 [已隐藏敏感值]");
    assert!(recent_entries(Vec::new(), 5).is_empty());
}

#[test]
fn to_windows_path_converts_linux_home_path() {
    let service = WslService::new();
    let path = service.to_windows_path("Ubuntu-24.04", "/home/workspace/.codex");

    assert_eq!(path, r"\\wsl$\Ubuntu-24.04\home\workspace\.codex");
}

#[test]
fn resolve_environment_uses_cached_default_when_no_override() {
    let mut database = ProfileDatabase::default();
    database.replace_wsl_target = true;
    database.cached_default_wsl_distro_name = Some("Ubuntu-24.04".into());
    database.cached_default_wsl_user_name = Some("workspace".into());
    database.cached_default_wsl_home_directory = Some("/home/workspace".into());

    let service = WslService::new();
    let environment = service.known_environment(&database).unwrap();

    assert_eq!(environment.distro_name, "Ubuntu-24.04");
    assert_eq!(environment.user_name, "workspace");
    assert_eq!(environment.home_directory, "/home/workspace");
}

#[test]
fn resolve_environment_merges_override_and_cached_values() {
    let mut database = ProfileDatabase::default();
    database.replace_wsl_target = true;
    database.wsl_user_name = Some("analyst".into());
    database.cached_default_wsl_distro_name = Some("Ubuntu-24.04".into());
    database.cached_default_wsl_user_name = Some("workspace".into());
    database.cached_default_wsl_home_directory = Some("/home/workspace".into());

    let service = WslService::new();
    let environment = service.known_environment(&database).unwrap();

    assert_eq!(environment.distro_name, "Ubuntu-24.04");
    assert_eq!(environment.user_name, "analyst");
    assert_eq!(environment.home_directory, "/home/analyst");
}

#[test]
fn environment_without_cache_needs_the_default_from_wsl() {
    let mut database = ProfileDatabase::default();
    database.wsl_distro_name = Some("Debian".into());
    let service = WslService::new();
    assert!(service.known_environment(&database).is_none());
    let default = default_environment_from_output(
        "Ubuntu".to_string(),
        "me".to_string(),
        "home\\me".to_string(),
    )
    .unwrap();
    let environment = service.environment_with_default(&database, default);
    assert_eq!(environment.distro_name, "Debian");
    assert_eq!(environment.user_name, "me");
    assert_eq!(environment.home_directory, "/home/me");
    let error =
        default_environment_from_output(String::new(), "me".to_string(), "/home/me".to_string())
            .unwrap_err();
    assert_eq!(code_of(&error), "wsl_distro_missing");
}

#[test]
fn process_text_loses_nul_and_bom() {
    assert_eq!(cleanup_process_text("\u{FEFF} Ubuntu\0\n"), "Ubuntu");
}

#[test]
fn override_model_takes_priority_over_profile_default() {
    let mut profile = CodexProfile::blank("id-1", 0);
    profile.test_model = Some("gpt-4.1-mini".into());

    let model = resolve_test_model(&profile, Some(" custom-model "));

    assert_eq!(model, "custom-model");
    assert_eq!(resolve_test_model(&profile, Some("  ")), "gpt-4.1-mini");
    profile.test_model = None;
    assert_eq!(resolve_test_model(&profile, None), "gpt-5.4-mini");
}

#[test]
fn responses_endpoint_is_appended_once() {
    assert_eq!(
        build_responses_endpoint(" https://example.com/v1/ ").unwrap(),
        "https://example.com/v1/responses"
    );
    assert_eq!(
        build_responses_endpoint("https://example.com/v1/responses").unwrap(),
        "https://example.com/v1/responses"
    );
    let error = build_responses_endpoint("not a url").unwrap_err();
    assert_eq!(code_of(&error), "base_url_invalid");
}

#[test]
fn connection_answers_are_classified() {
    assert!(should_retry_without_max_output_tokens(400, "Unknown parameter: max_output_tokens"));
    assert!(!should_retry_without_max_output_tokens(500, "max_output_tokens"));
    assert!(looks_like_model_issue(404, "The model `x` does not exist", ""));
    assert!(!looks_like_model_issue(500, "model not found", ""));
    assert_eq!(append_detail("失败", Some("  ".to_string())), "失败");
    assert_eq!(append_detail("失败", Some("原因".to_string())), "失败 详情：原因");

    let ok = create_connection_result(200, "{}", None, "e".to_string(), "m".to_string());
    assert_eq!(ok.status, ConnectionTestStatus::Success);
    assert_eq!(ok.message, "连接成功，测试模型可用。");

    let document = object(vec![("error", object(vec![("message", text("bad key"))]))]);
    let denied = create_connection_result(401, "", Some(&document), "e".to_string(), "m".to_string());
    assert_eq!(denied.status, ConnectionTestStatus::Failure);
    assert_eq!(
        denied.message,
        "连接失败：认证没有通过，请检查 API Key 或 auth.json。 详情：bad key"
    );

    let limited = create_connection_result(429, "", None, "e".to_string(), "m".to_string());
    assert_eq!(limited.status, ConnectionTestStatus::Warning);

    let broken = create_connection_result(500, "", None, "e".to_string(), "m".to_string());
    assert_eq!(broken.status, ConnectionTestStatus::Failure);
    assert_eq!(broken.message, "连接失败：服务返回 500 500 Internal Server Error。");

    let detail = object(vec![("detail", text("gone"))]);
    assert_eq!(try_get_response_message(&detail).as_deref(), Some("gone"));
}

#[test]
fn mark_profiles_auto_disabled_writes_reason_and_timestamp() {
    let profile = profile("p-1", "测试 APIKEY");
    let mut database = ProfileDatabase::default();
    database.profiles.push(profile);

    let changed =
        mark_auto_disabled(&mut database, &vec![("p-1".to_string(), "连接失败：超时。".to_string())], 42)
            .unwrap();

    let profile = database.profiles.iter().find(|item| item.id == "p-1").unwrap();
    assert!(changed);
    assert!(profile.auto_disabled);
    assert_eq!(profile.auto_disabled_reason.as_deref(), Some("连接失败：超时。"));
    assert!(profile.auto_disabled_at_utc.is_some());
}

#[test]
fn marking_an_unknown_profile_fails_and_repeating_changes_nothing() {
    let mut database = ProfileDatabase::default();
    database.profiles.push(profile("p-1", "A"));
    let failures = vec![("p-1".to_string(), "超时".to_string())];
    assert!(mark_auto_disabled(&mut database, &failures, 1).unwrap());
    assert!(!mark_auto_disabled(&mut database, &failures, 2).unwrap());
    let error =
        mark_auto_disabled(&mut database, &vec![("nope".to_string(), "x".to_string())], 3).unwrap_err();
    assert_eq!(code_of(&error), "profile_not_found");
}

#[test]
fn set_profile_auto_disabled_false_clears_disable_metadata() {
    let mut disabled = profile("p-1", "测试 APIKEY");
    disabled.auto_disabled = true;
    disabled.auto_disabled_reason = Some("连接失败：认证没有通过。".into());
    disabled.auto_disabled_at_utc = Some(7);
    let mut database = ProfileDatabase::default();
    database.profiles.push(disabled);

    set_auto_disabled(&mut database, "p-1", false, 9).unwrap();
    let profile = database.profiles.iter().find(|item| item.id == "p-1").unwrap();
    assert!(!profile.auto_disabled);
    assert!(profile.auto_disabled_reason.is_none());
    assert!(profile.auto_disabled_at_utc.is_none());
    assert_eq!(profile.updated_at_utc, 9);

    set_auto_disabled(&mut database, "p-1", true, 10).unwrap();
    assert_eq!(database.profiles[0].auto_disabled_reason.as_deref(), Some("手动标记为禁用。"));
    assert_eq!(database.profiles[0].auto_disabled_at_utc, Some(10));
}

#[test]
fn normalizing_a_loaded_database_is_idempotent() {
    let mut database = ProfileDatabase::default();
    database.replace_windows_target = false;
    database.replace_wsl_target = false;
    database.api_key_provider_name = "   ".into();
    database.migration_version = 0;
    let mut stale = profile("p-1", "A");
    stale.auto_disabled_reason = Some("  old  ".into());
    database.profiles.push(stale);

    let paths = test_paths();
    let store = ProfileStore::new(&paths);
    assert!(store.normalize_database(&mut database));
    assert!(database.replace_windows_target);
    assert!(!database.replace_wsl_target);
    assert_eq!(database.api_key_provider_name, "apikey");
    assert_eq!(database.migration_version, 1);
    assert!(database.profiles[0].auto_disabled_reason.is_none());
    assert!(!store.normalize_database(&mut database));
}

fn test_paths() -> codex_api_switcher_core::paths::AppPaths {
    let root = std::path::PathBuf::from("data");
    codex_api_switcher_core::paths::AppPaths {
        data_root: root.clone(),
        profiles_root: root.join("profiles"),
        database_path: root.join("profiles.json"),
        templates_root: root.join("templates"),
        openai_template_path: root.join("templates").join("config_openai.toml"),
        apikey_template_path: root.join("templates").join("config_apikey.toml"),
        backups_root: root.join("backups"),
        logs_root: root.join("logs"),
        structured_log_path: root.join("logs").join("app.jsonl"),
    }
}

#[test]
fn removing_and_duplicating_profiles() {
    let mut database = ProfileDatabase::default();
    database.profiles.push(profile("p-1", "A"));
    database.profiles.push(profile("p-2", "B"));
    database.last_selected_profile_id = Some("p-1".into());
    assert!(remove_profile(&mut database, "p-1"));
    assert_eq!(database.profiles.len(), 1);
    assert!(database.last_selected_profile_id.is_none());
    assert!(!remove_profile(&mut database, "p-1"));

    let copy = duplicated_profile(&database.profiles[0], "p-3", None, None, 5);
    assert_eq!(copy.name, "B 副本");
    assert_eq!(copy.id, "p-3");
    assert!(!copy.auto_disabled);
}

fn input(category: ProviderCategory, mode: CodexAuthMode) -> SaveProfileInput {
    SaveProfileInput {
        id: None,
        name: "Demo".to_string(),
        provider_category: category,
        import_config_toml: false,
        base_url: Some(" https://example.com/v1 ".to_string()),
        config_toml_source_path: None,
        auth_mode: mode,
        auth_json_source_path: None,
        api_key: Some(" sk-new ".to_string()),
        test_model: None,
    }
}

#[test]
fn saving_a_profile_plans_its_files() {
    let facts = SourceFacts {
        auth_source_exists: false,
        config_source_exists: false,
        previous_auth_exists: false,
        previous_config_exists: false,
    };
    let plan = plan_profile_input(&input(ProviderCategory::ApiKey, CodexAuthMode::ApiKey), None, &facts)
        .unwrap();
    assert_eq!(plan.base_url, "https://example.com/v1");
    assert!(matches!(plan.api_key, Some(KeySource::Protect(ref k)) if k == "sk-new"));
    assert!(plan.auth_json.is_none());

    let error = plan_profile_input(&input(ProviderCategory::OpenAI, CodexAuthMode::ApiKey), None, &facts)
        .unwrap_err();
    assert_eq!(code_of(&error), "openai_auth_missing");

    let mut with_auth = input(ProviderCategory::ApiKey, CodexAuthMode::AuthJsonFile);
    with_auth.auth_json_source_path = Some("C:/auth.json".to_string());
    let error = plan_profile_input(&with_auth, None, &facts).unwrap_err();
    assert_eq!(code_of(&error), "source_file_missing");
    let found = SourceFacts { auth_source_exists: true, ..facts };
    let plan = plan_profile_input(&with_auth, None, &found).unwrap();
    assert!(matches!(plan.auth_json, Some(AssetSource::Copy(ref p)) if p == "C:/auth.json"));

    let mut no_url = input(ProviderCategory::ApiKey, CodexAuthMode::ApiKey);
    no_url.base_url = None;
    let error = plan_profile_input(&no_url, None, &facts).unwrap_err();
    assert_eq!(code_of(&error), "base_url_missing");
}

#[test]
fn provider_name_and_templates() {
    let mut database = ProfileDatabase::default();
    assert_eq!(effective_api_key_provider_name(&database).unwrap(), "apikey");
    database.api_key_provider_name = " my-provider ".into();
    assert_eq!(effective_api_key_provider_name(&database).unwrap(), "my-provider");
    database.api_key_provider_name = "bad name".into();
    assert_eq!(
        code_of(&effective_api_key_provider_name(&database).unwrap_err()),
        "provider_name_invalid"
    );

    let rendered = render_apikey_config(
        "base_url = {base_url}\nname = {provider_name}\n[model_providers.{provider_key}]",
        " https://example.com/v1 ",
        "apikey",
    )
    .unwrap();
    assert_eq!(
        rendered,
        "base_url = \"https://example.com/v1\"\nname = \"apikey\"\n[model_providers.apikey]\n"
    );
    assert_eq!(
        code_of(&render_apikey_config("  ", "u", "p").unwrap_err()),
        "apikey_template_empty"
    );
    assert_eq!(ensure_trailing_newline("a\n"), "a\n");
    assert_eq!(normalize_line_endings("a\r\nb\rc"), "a\nb\nc");

    let (current, upgrade) = TemplateService::upgrade_apikey_template("custom\r\n");
    assert_eq!(current, "custom\n");
    assert!(!upgrade);
    let fixed = "model_provider = \"right\"\nmodel = \"gpt-5.4\"\nmodel_reasoning_effort = \"xhigh\"\n\ndisable_response_storage = true\n\n[model_providers.right]\nname = \"right\"\nbase_url = {base_url}\nwire_api = \"responses\"\nrequires_openai_auth = true\n";
    let (upgraded, upgrade) = TemplateService::upgrade_apikey_template(fixed);
    assert!(upgrade);
    assert_eq!(upgraded, TemplateService::default_apikey_template());
}

#[test]
fn switch_messages_join_targets() {
    let names = vec!["Windows".to_string(), "WSL (Ubuntu/me)".to_string()];
    assert_eq!(success_message(&names), "切换完成：Windows、WSL (Ubuntu/me)。");
}

#[test]
fn backups_are_listed_newest_first() {
    let item = |name: &str, key: &str| BackupItem {
        target_key: key.to_string(),
        display_name: key.to_string(),
        directory_name: name.to_string(),
        created_at_label: name.to_string(),
        has_auth_json: true,
        has_config_toml: false,
    };
    let sorted = sort_backup_items(vec![
        item("20260101-000000-000", "a"),
        item("20260301-000000-000", "b"),
        item("20260101-000000-000", "c"),
    ]);
    let names: Vec<&str> = sorted.iter().map(|i| i.target_key.as_str()).collect();
    assert_eq!(names, vec!["b", "a", "c"]);
    let dirs = vec!["1".to_string(), "3".to_string(), "2".to_string(), "3".to_string()];
    assert_eq!(latest_directory_index(&dirs), Some(1));
    assert_eq!(latest_directory_index(&Vec::new()), None);
    assert_eq!(restore_file_action(false, true), (FileRestore::RemoveCurrent, true));
    assert_eq!(restore_file_action(false, false), (FileRestore::Nothing, false));
}

#[test]
fn commands_decide_settings_and_batches() {
    let mut database = ProfileDatabase::default();
    apply_settings_input(
        &mut database,
        &SaveSettingsInput {
            replace_windows_target: false,
            replace_wsl_target: false,
            wsl_distro_name: Some("  ".to_string()),
            wsl_user_name: Some(" me ".to_string()),
            session_migration_days: 99,
            api_key_provider_name: " p ".to_string(),
            ui_preferences: UiPreferences { sidebar_collapsed: true },
        },
    );
    assert!(database.replace_windows_target);
    assert!(database.wsl_distro_name.is_none());
    assert_eq!(database.wsl_user_name.as_deref(), Some("me"));
    assert_eq!(database.session_migration_days, 30);
    assert_eq!(database.api_key_provider_name, "p");

    database.profiles.push(profile("p-1", "A"));
    assert!(select_profiles(&database, &vec!["p-1".to_string()]).is_ok());
    assert_eq!(
        code_of(&select_profiles(&database, &vec!["x".to_string()]).unwrap_err()),
        "profile_not_found"
    );
    let result = ConnectionTestResultDto {
        status: ConnectionTestStatus::Failure,
        endpoint: "e".to_string(),
        model: "m".to_string(),
        message: "down".to_string(),
    };
    let (item, disable) = batch_item(&database.profiles[0], result, true);
    assert!(disable);
    assert!(item.auto_disabled);
    assert_eq!(recent_log_limit(None), 200);
    assert_eq!(recent_log_limit(Some(9999)), 500);
    assert!(backup_target_directory("wsl").is_ok());
    assert_eq!(
        code_of(&backup_target_directory("other").unwrap_err()),
        "invalid_backup_target"
    );
}

#[test]
fn try_get_session_id_falls_back_to_payload_id() {
    let first_line = object(vec![
        ("model_provider", text("legacy")),
        ("payload", object(vec![("id", text("0b6f2d5e-8f7a-4a5b-9c3d-1e2f3a4b5c6d"))])),
    ]);

    let service = SessionMigrationService::new();
    let session_id = service.try_get_session_id(Some("session.jsonl"), Some(&first_line));

    assert!(session_id.is_some());
}

#[test]
fn session_first_line_names_the_new_provider() {
    let service = SessionMigrationService::new();
    let line = r#"{"model_provider":"legacy","payload":{"id":"placeholder"}}"#;
    match service.rewrite_first_line(line, "openai").unwrap() {
        FirstLineRewrite::Rewritten(text) => assert!(text.contains(r#""model_provider":"openai""#)),
        _ => panic!("the first line was not rewritten"),
    }
    assert!(matches!(
        service.rewrite_first_line(r#"{"model_provider":"openai"}"#, "openai").unwrap(),
        FirstLineRewrite::Unchanged
    ));
    assert!(matches!(
        service.rewrite_first_line("{}", "openai").unwrap(),
        FirstLineRewrite::NoProvider
    ));
    let id = service.try_get_session_id(
        Some("0b6f2d5e-8f7a-4a5b-9c3d-1e2f3a4b5c6d.jsonl"),
        None,
    );
    assert_eq!(id.as_deref(), Some("0b6f2d5e-8f7a-4a5b-9c3d-1e2f3a4b5c6d"));
}

#[test]
fn build_filter_text_contains_expected_segments() {
    let text = build_filter_text("JSON", &vec![String::from("json")]);
    let decoded = String::from_utf16_lossy(&text);

    assert!(decoded.contains("JSON 文件 (*.json)"));
    assert!(decoded.contains("*.json"));
    let several = build_filter_text("配置", &vec![" .toml".to_string(), "".to_string(), "json".to_string()]);
    assert_eq!(String::from_utf16_lossy(&several), "配置 文件 (*.toml;*.json)\0*.toml;*.json\0\0");
}

#[test]
fn from_wide_text_reads_until_zero_terminator() {
    let content = vec![65u16, 66u16, 0u16, 67u16];
    assert_eq!(from_wide_text(&content), "AB");
    assert_eq!(to_wide_text("AB"), vec![65u16, 66u16, 0u16]);
}

#[test]
fn session_ids_are_recorded_once() {
    let mut ids: Vec<String> = Vec::new();
    add_session_id(&mut ids, "a".to_string());
    add_session_id(&mut ids, "b".to_string());
    add_session_id(&mut ids, "a".to_string());
    assert_eq!(ids, vec!["a".to_string(), "b".to_string()]);
}

#[test]
fn wide_text_round_trip_keeps_the_text() {
    for text in ["C:\\Users\\测试\\config.toml", "emoji 😀 and 𝄞", ""] {
        assert_eq!(from_wide_text(&to_wide_text(text)), text);
    }
    let lone_surrogate = [0x61u16, 0xD800, 0x62, 0];
    assert_eq!(from_wide_text(&lone_surrogate), "a\u{FFFD}b");
}

#[test]
fn wide_text_uses_surrogate_pairs_above_the_basic_plane() {
    assert_eq!(to_wide_text("\u{1D11E}é"), vec![0xD834u16, 0xDD1E, 0xE9, 0]);
    let units = [0xD834u16, 0xD834, 0xDD1E, 0xDD1E, 0x41, 0];
    assert_eq!(from_wide_text(&units), "\u{FFFD}\u{1D11E}\u{FFFD}A");
    assert_eq!(from_wide_text(&[0xDBFFu16]), "\u{FFFD}");
}

#[test]
fn api_key_payload_is_pretty_json_with_escapes() {
    assert_eq!(
        api_key_auth_payload(" sk-1 ").unwrap(),
        "{\n  \"OPENAI_API_KEY\": \" sk-1 \"\n}"
    );
    assert_eq!(
        api_key_auth_payload("a\"b\\c\u{1}\n").unwrap(),
        "{\n  \"OPENAI_API_KEY\": \"a\\\"b\\\\c\\u0001\\n\"\n}"
    );
    assert_eq!(api_key_auth_payload("  ").unwrap_err().to_dto().code, "api_key_empty");
}

#[test]
fn toml_strings_are_json_string_literals() {
    assert_eq!(to_toml_string("C:\\x \"y\""), "\"C:\\\\x \\\"y\\\"\"");
    assert_eq!(to_toml_string("tab\there"), "\"tab\\there\"");
    assert_eq!(to_toml_string("中文"), "\"中文\"");
}

#[test]
fn validate_backup_directory_name_rejects_nested_paths() {
    let error = validate_backup_directory_name("windows/escape").unwrap_err();

    match error {
        AppError::Validation { code, .. } => {
            assert_eq!(code, "invalid_backup_directory");
        }
        other => panic!("unexpected error: {other:?}"),
    }
}

#[test]
fn backup_directory_names_are_trimmed_plain_names() {
    assert_eq!(validate_backup_directory_name(" 20240101-120000-001 ").unwrap(), "20240101-120000-001");
    for refused in ["", "  ", ".", "..", "../x", "/abs", "a/"] {
        assert!(validate_backup_directory_name(refused).is_err());
    }
}

#[test]
fn format_backup_label_formats_timestamp_directory_name() {
    let label = format_backup_label("20260327-120102-123");

    assert!(label.starts_with("2026-03-27 12:01:02"));
}

#[test]
fn backup_names_that_are_no_timestamp_are_shown_as_they_are() {
    assert_eq!(format_backup_label("manual-copy"), "manual-copy");
    assert_eq!(format_backup_label("20261399-120102-123"), "20261399-120102-123");
    assert_eq!(label_or_name(None, "old"), "old");
    assert_eq!(label_or_name(Some("2026-01-02 03:04:05".to_string()), "old"), "2026-01-02 03:04:05");
}

fn day(y: &str, m: &str, d: &str) -> (String, String, String) {
    (y.to_string(), m.to_string(), d.to_string())
}

#[test]
fn session_day_directories_go_back_from_today() {
    assert_eq!(
        session_day_dirs((2026, 3, 2), 3),
        vec![day("2026", "03", "02"), day("2026", "03", "01"), day("2026", "02", "28")]
    );
    assert_eq!(session_day_dirs((2024, 1, 1), 2), vec![day("2024", "01", "01"), day("2023", "12", "31")]);
    assert!(session_day_dirs((2026, 3, 2), 0).is_empty());
    assert!(session_day_dirs((2026, 3, 2), -4).is_empty());
    assert_eq!(session_day_dirs((2026, 3, 2), 45).len(), 30);
    assert_eq!(recent_session_day_dirs(7).len(), 7);
}

#[test]
fn profile_directories_use_the_simple_uuid_form() {
    assert_eq!(
        profile_directory_name("67E55044-10B1-426F-9247-BB680E5FE0C8"),
        "67e5504410b1426f9247bb680e5fe0c8"
    );
    assert_eq!(profile_directory_name("legacy-profile"), "legacy-profile");
    let id = new_profile_id();
    assert_eq!(id.len(), 36);
    assert_eq!(profile_directory_name(&id), id.replace('-', ""));
}

#[test]
fn stamp_shaped_backup_names_show_their_own_fields() {
    let label = format_backup_label("20240229-235958-001");
    assert!(label == "2024-02-29 23:59:58" || label == "20240229-235958-001");
}
