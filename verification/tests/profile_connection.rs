use codex_api_switcher_core::json::JsonValue;
use codex_api_switcher_core::profiles::connection::{
    api_key_from_auth_text, base_url_from_config_text, config_base_url, config_parse_error,
    connection_result_from_body, find_base_url_in_toml,
};

fn text(s: &str) -> JsonValue {
    JsonValue::Str(s.to_string())
}

fn table(members: Vec<(&str, JsonValue)>) -> JsonValue {
    JsonValue::Object(members.into_iter().map(|(k, v)| (k.to_string(), v)).collect())
}

#[test]
fn read_base_url_from_nested_toml_provider_table() {
    let base_url = base_url_from_config_text(
        "model_provider = \"right\"\n[model_providers.right]\nbase_url = 'https://example.com/v1'\nwire_api = \"responses\"\n",
    )
    .unwrap();
    assert_eq!(base_url, "https://example.com/v1");
}

#[test]
fn read_base_url_returns_validation_error_when_missing() {
    let error = base_url_from_config_text("model = \"gpt-5.4\"\n").unwrap_err();
    assert_eq!(error.to_dto().code, "base_url_not_found");
}

#[test]
fn config_base_url_reads_nested_provider_table() {
    let document = table(vec![
        ("model_provider", text("right")),
        (
            "model_providers",
            table(vec![(
                "right",
                table(vec![
                    ("base_url", text("https://example.com/v1")),
                    ("wire_api", text("responses")),
                ]),
            )]),
        ),
    ]);
    assert_eq!(config_base_url(&document).unwrap(), "https://example.com/v1");
}

#[test]
fn config_base_url_prefers_the_top_level_value_and_trims_it() {
    let document = table(vec![
        ("base_url", text("  https://top.example.com  ")),
        ("model_providers", table(vec![("x", table(vec![("base_url", text("https://nested"))]))])),
    ]);
    assert_eq!(config_base_url(&document).unwrap(), "https://top.example.com");
}

#[test]
fn config_base_url_searches_arrays_and_other_tables() {
    let document = table(vec![
        ("model", text("gpt")),
        ("profiles", JsonValue::Array(vec![table(vec![]), table(vec![("base_url", text("https://in-array"))])])),
    ]);
    assert_eq!(find_base_url_in_toml(&document), Some("https://in-array".to_string()));
    assert_eq!(config_base_url(&document).unwrap(), "https://in-array");
}

#[test]
fn config_base_url_reports_missing_and_blank_values() {
    let missing = config_base_url(&table(vec![("model", text("gpt"))])).unwrap_err();
    assert_eq!(missing.to_dto().code, "base_url_not_found");
    assert_eq!(missing.to_dto().message, "没有在 config.toml 里找到 base_url。");
    let blank = config_base_url(&table(vec![("base_url", text("   "))])).unwrap_err();
    assert_eq!(blank.to_dto().code, "base_url_empty");
    assert_eq!(config_parse_error().to_dto().code, "base_url_parse_failed");
}

#[test]
fn config_texts_that_are_no_toml_are_parse_errors() {
    let error = base_url_from_config_text("base_url = [unclosed").unwrap_err();
    assert_eq!(error.to_dto().code, "base_url_parse_failed");
    assert_eq!(base_url_from_config_text("base_url = '  https://a.example  '").unwrap(), "https://a.example");
}

#[test]
fn auth_texts_give_their_api_key() {
    assert_eq!(api_key_from_auth_text("{\"OPENAI_API_KEY\": \" sk-1 \"}").unwrap(), "sk-1");
    assert_eq!(api_key_from_auth_text("{}").unwrap_err().to_dto().code, "auth_json_key_missing");
    assert_eq!(api_key_from_auth_text("not json").unwrap_err().to_dto().code, "json_error");
}

#[test]
fn connection_results_read_json_bodies() {
    let ok = connection_result_from_body(200, "{}", "e".to_string(), "m".to_string());
    assert_eq!(ok.endpoint, "e");
    let failed = connection_result_from_body(
        400,
        "{\"error\": {\"message\": \"bad model\"}}",
        "e".to_string(),
        "m".to_string(),
    );
    assert!(failed.message.contains("bad model"));
    let plain = connection_result_from_body(500, "oops", "e".to_string(), "m".to_string());
    assert!(!plain.message.is_empty());
}
