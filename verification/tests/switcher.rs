use codex_api_switcher_core::json::JsonValue;
use codex_api_switcher_core::switcher::auth::{canonical_official_auth, official_auth};
use codex_api_switcher_core::switcher::config::{
    apply_provider_config, canonical_official_config_snapshot, configured_provider,
    merge_official_config,
};
use codex_api_switcher_core::switcher::models::{
    ModelEntry, SaveProviderInput, StoredProviderProfile, SwitcherDatabase,
};
use codex_api_switcher_core::switcher::service::{api_endpoint, catalog_relative_path};
use codex_api_switcher_core::switcher::store::{
    normalize_base_url, sanitize_log_text, validate_provider_input,
};

fn test_profile(provider_id: &str) -> StoredProviderProfile {
    StoredProviderProfile {
        id: "profile-1".to_string(),
        name: "Example".to_string(),
        provider_id: provider_id.to_string(),
        base_url: "https://example.com/v1".to_string(),
        protected_api_key: Some("protected".to_string()),
        default_model: "demo".to_string(),
        models: vec![ModelEntry {
            id: "demo".to_string(),
            display_name: "Demo".to_string(),
            context_window: Some(64_000),
        }],
        timeout_seconds: 30,
        inject_models: true,
        created_at_utc: 0,
        updated_at_utc: 0,
    }
}

fn text(s: &str) -> JsonValue {
    JsonValue::Str(s.to_string())
}

fn object(members: Vec<(&str, JsonValue)>) -> JsonValue {
    JsonValue::Object(members.into_iter().map(|(k, v)| (k.to_string(), v)).collect())
}

fn member<'a>(members: &'a [(String, JsonValue)], key: &str) -> Option<&'a JsonValue> {
    members.iter().find(|(k, _)| k == key).map(|(_, v)| v)
}

#[test]
fn base_url_accepts_https_and_local_http() {
    assert_eq!(
        normalize_base_url("https://example.com/v1/").unwrap(),
        "https://example.com/v1"
    );
    assert!(normalize_base_url("http://127.0.0.1:8080/v1").is_ok());
}

#[test]
fn base_url_accepts_ipv6_loopback_http() {
    assert_eq!(normalize_base_url("http://[::1]:8080/v1").unwrap(), "http://[::1]:8080/v1");
    assert_eq!(normalize_base_url("http://localhost:8080/v1/").unwrap(), "http://localhost:8080/v1");
    assert_eq!(normalize_base_url("http://[::2]/v1").unwrap_err().code, "base_url_insecure");
}

#[test]
fn base_url_rejects_remote_http() {
    assert!(normalize_base_url("http://example.com/v1").is_err());
}

#[test]
fn base_url_with_query_is_refused_with_its_code() {
    let error = normalize_base_url("https://example.com/v1?x=1").unwrap_err();
    assert_eq!(error.code, "base_url_query_not_allowed");
    let error = normalize_base_url("not a url").unwrap_err();
    assert_eq!(error.code, "base_url_invalid");
    assert!(error.detail.is_some());
    let error = normalize_base_url("http://example.com/v1").unwrap_err();
    assert_eq!(error.code, "base_url_insecure");
}

#[test]
fn provider_draft_allows_empty_default_model_before_discovery() {
    let normalized = validate_provider_input(&SaveProviderInput {
        id: None,
        name: "Local API".to_string(),
        provider_id: "local_api".to_string(),
        base_url: "http://127.0.0.1:8080".to_string(),
        api_key: None,
        clear_api_key: false,
        default_model: String::new(),
        models: Vec::new(),
        timeout_seconds: 30,
        inject_models: true,
    })
    .unwrap();

    assert!(normalized.default_model.is_empty());
    assert!(normalized.models.is_empty());
}

#[test]
fn provider_draft_refuses_the_reserved_id() {
    let error = validate_provider_input(&SaveProviderInput {
        id: None,
        name: "Official".to_string(),
        provider_id: "openai".to_string(),
        base_url: "https://example.com/v1".to_string(),
        api_key: None,
        clear_api_key: false,
        default_model: String::new(),
        models: Vec::new(),
        timeout_seconds: 30,
        inject_models: true,
    })
    .unwrap_err();
    assert_eq!(error.code, "provider_id_reserved");
}

#[test]
fn log_sanitizer_masks_tokens_and_user_paths() {
    let sanitized = sanitize_log_text(
        r#"Authorization: Bearer abc.def, key=sk-example path=C:\Users\test-user\.codex sess-demo"#,
    );
    assert_eq!(
        sanitized,
        r#"Authorization: Bearer ***, key=*** path=C:\Users\***\.codex ***"#
    );
}

#[test]
fn endpoint_preserves_v1_path() {
    assert_eq!(
        api_endpoint("https://example.com/v1/", "models"),
        "https://example.com/v1/models"
    );
    assert_eq!(
        api_endpoint("https://example.com", "responses"),
        "https://example.com/v1/responses"
    );
}

#[test]
fn catalog_path_names_the_provider() {
    assert_eq!(catalog_relative_path("example"), "model-catalogs/example.json");
}

#[test]
fn official_snapshot_of_a_third_party_config_names_openai() {
    let config = r#"
model_provider = "aivr"
model = "gpt-5.6-sol"
model_catalog_json = "model-catalogs/aivr.json"

[model_providers.aivr]
name = "AIVR"

[model_providers.example]
name = "Managed"

[mcp_servers.demo]
command = "demo.exe"
"#;
    let mut database = SwitcherDatabase::default();
    database.profiles.push(test_profile("example"));

    let snapshot = canonical_official_config_snapshot(&database, config).unwrap();

    assert!(snapshot.contains(r#"model_provider = "openai""#));
    assert!(!snapshot.contains("model_catalog_json"));
    assert!(snapshot.contains("[model_providers.aivr]"));
    assert!(!snapshot.contains("[model_providers.example]"));
    assert!(snapshot.contains("[mcp_servers.demo]"));
    assert!(snapshot.contains(r#"model = "gpt-5.6-sol""#));
}

#[test]
fn official_snapshot_refuses_invalid_toml() {
    let database = SwitcherDatabase::default();
    let error = canonical_official_config_snapshot(&database, "model = = broken").unwrap_err();
    assert_eq!(error.code, "config_toml_invalid");
    assert!(error.detail.is_some());
    let blank = canonical_official_config_snapshot(&database, "  \n").unwrap();
    assert!(blank.contains(r#"model_provider = "openai""#));
}

#[test]
fn provider_config_preserves_unrelated_tables() {
    let config = r#"
model_provider = "old_provider"
model = "old-model"

[sandbox_workspace_write]
network_access = true

[mcp_servers.demo]
command = "demo.exe"

[model_providers.old_provider]
name = "Old"
base_url = "https://old.example/v1"
wire_api = "responses"
"#;
    let profile = test_profile("example");
    let written =
        apply_provider_config(config, Some("old_provider"), &profile, "C:/helper.exe").unwrap();

    assert!(written.contains("[mcp_servers.demo]"));
    assert!(written.contains("[sandbox_workspace_write]"));
    assert!(written.contains("network_access = true"));
    assert!(!written.contains("[model_providers.old_provider]"));
    assert!(written.contains("[model_providers.example]"));
    assert!(written.contains("model_catalog_json = \"model-catalogs/example.json\""));
    assert!(written.contains("[model_providers.example.auth]"));
    assert!(written.contains("--codex-provider-token"));
    assert!(!written.contains("requires_openai_auth"));
    assert_eq!(configured_provider(&written).as_deref(), Some("example"));
    assert!(written.contains(r#"model = "demo""#));
}

#[test]
fn provider_config_needs_a_default_model() {
    let mut profile = test_profile("example");
    profile.default_model = "  ".to_string();
    let error = apply_provider_config("", None, &profile, "helper").unwrap_err();
    assert_eq!(error.code, "default_model_missing");
}

#[test]
fn provider_config_refuses_inline_providers() {
    let profile = test_profile("example");
    let error =
        apply_provider_config("model_providers = { a = 1 }\n", None, &profile, "helper")
            .unwrap_err();
    assert_eq!(error.code, "model_providers_not_table");
}

#[test]
fn official_merge_restores_model_and_drops_managed_provider() {
    let current = r#"
model_provider = "example"
model = "custom-model"
model_catalog_json = "model-catalogs/example.json"

[model_providers.aivr]
name = "AIVR"

[model_providers.example]
name = "Managed"

[mcp_servers.demo]
command = "demo.exe"
"#;
    let baseline = r#"
model_provider = "aivr"
model = "gpt-5.6-sol"
model_catalog_json = "model-catalogs/aivr.json"

[model_providers.aivr]
name = "AIVR"
"#;
    let merged = merge_official_config(current, Some(baseline), Some("example")).unwrap();
    assert!(merged.contains(r#"model_provider = "openai""#));
    assert!(merged.contains(r#"model = "gpt-5.6-sol""#));
    assert!(!merged.contains("model_catalog_json"));
    assert!(!merged.contains("[model_providers.example]"));
    assert!(merged.contains("[model_providers.aivr]"));
    assert!(merged.contains("[mcp_servers.demo]"));
}

#[test]
fn switch_then_restore_gives_back_the_user_config() {
    let original = "model = \"gpt-5\"\nfoo = 1\n\n[mcp_servers.demo]\ncommand = \"demo.exe\"\n";
    let profile = test_profile("example");
    let switched = apply_provider_config(original, None, &profile, "helper").unwrap();
    let restored = merge_official_config(&switched, Some(original), Some("example")).unwrap();
    assert!(restored.contains(r#"model = "gpt-5""#));
    assert!(restored.contains("foo = 1"));
    assert!(restored.contains("[mcp_servers.demo]"));
    assert!(restored.contains(r#"model_provider = "openai""#));
    assert!(!restored.contains("model_providers"));
    assert!(!restored.contains("model_catalog_json"));
}

#[test]
fn official_merge_reports_which_text_is_invalid() {
    let error = merge_official_config("a = = b", None, None).unwrap_err();
    assert_eq!(error.code, "config_toml_invalid");
    let error = merge_official_config("a = 1", Some("b = = c"), None).unwrap_err();
    assert_eq!(error.code, "official_config_invalid");
    let merged = merge_official_config("model = \"x\"", None, None).unwrap();
    assert!(!merged.contains("model = "));
}

#[test]
fn configured_provider_reads_model_provider() {
    assert_eq!(
        configured_provider("model_provider = \"aivr\"\n").as_deref(),
        Some("aivr")
    );
    assert_eq!(configured_provider("model_provider = 3\n"), None);
    assert_eq!(configured_provider("= broken"), None);
}

#[test]
fn official_auth_snapshot_drops_stale_key_for_chatgpt() {
    let auth = object(vec![
        ("auth_mode", text("chatgpt")),
        ("OPENAI_API_KEY", text("third-party-key")),
        (
            "tokens",
            object(vec![
                ("access_token", text("official-access")),
                ("refresh_token", text("official-refresh")),
            ]),
        ),
    ]);
    let members = canonical_official_auth(auth).unwrap();
    assert!(member(&members, "OPENAI_API_KEY").is_none());
    assert!(matches!(member(&members, "auth_mode"), Some(JsonValue::Str(s)) if s == "chatgpt"));
    let error = canonical_official_auth(text("not an object")).unwrap_err();
    assert_eq!(error.code, "auth_json_invalid");
}

#[test]
fn official_auth_keeps_current_subscription_tokens() {
    let current = vec![
        ("auth_mode".to_string(), text("chatgpt")),
        (
            "tokens".to_string(),
            object(vec![
                ("access_token", text("new-access")),
                ("refresh_token", text("new-refresh")),
            ]),
        ),
    ];
    let baseline = vec![
        ("auth_mode".to_string(), text("chatgpt")),
        ("OPENAI_API_KEY".to_string(), text("stale")),
        ("account".to_string(), text("kept")),
    ];
    let selected = official_auth(current, Some(baseline));
    assert!(member(&selected, "OPENAI_API_KEY").is_none());
    assert!(matches!(member(&selected, "account"), Some(JsonValue::Str(s)) if s == "kept"));
    match member(&selected, "tokens") {
        Some(JsonValue::Object(tokens)) => {
            assert!(matches!(member(tokens, "access_token"), Some(JsonValue::Str(s)) if s == "new-access"));
        }
        other => panic!("unexpected tokens: {other:?}"),
    }
}
