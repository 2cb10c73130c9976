use codex_api_switcher_core::json::{parse_json, parse_json_object, JsonValue};
use codex_api_switcher_core::switcher::auth::{canonical_official_auth_text, official_auth_from_texts};
use codex_api_switcher_core::switcher::backup::unique_paths;
use codex_api_switcher_core::switcher::catalog::native_templates_from_text;
use codex_api_switcher_core::switcher::desktop::{
    classify_reply_text, debugger_url_from_text, CommandReply,
};
use codex_api_switcher_core::switcher::service::parse_model_response;
use codex_api_switcher_core::switcher::sessions::{rewrite_session_meta_text, SessionMeta};
use codex_api_switcher_core::switcher::transaction::{log_entries, marker_backup_id_text};

fn member<'a>(members: &'a [(String, JsonValue)], key: &str) -> Option<&'a JsonValue> {
    members.iter().find(|(k, _)| k == key).map(|(_, v)| v)
}

#[test]
fn json_texts_parse_into_the_library_values() {
    match parse_json("{\"a\": [1, -2, 1.5, \"x\", true, null]}").unwrap() {
        JsonValue::Object(members) => match member(&members, "a") {
            Some(JsonValue::Array(items)) => {
                assert!(matches!(items[0], JsonValue::UInt(1)));
                assert!(matches!(items[1], JsonValue::Int(-2)));
                assert!(matches!(&items[2], JsonValue::Float(t) if t == "1.5"));
                assert!(matches!(&items[3], JsonValue::Str(t) if t == "x"));
                assert!(matches!(items[4], JsonValue::Bool(true)));
                assert!(matches!(items[5], JsonValue::Null));
            }
            other => panic!("unexpected {other:?}"),
        },
        other => panic!("unexpected {other:?}"),
    }
    assert!(parse_json("{broken").is_err());
    assert!(parse_json_object("[1]").is_none());
    assert_eq!(parse_json_object("{\"k\": 1}").unwrap().len(), 1);
}

#[test]
fn model_responses_are_read_from_text() {
    let result = parse_model_response(
        "https://x/v1/models".to_string(),
        "{\"data\": [{\"id\": \"b\"}, {\"id\": \"a\"}, {\"id\": \"a\"}]}",
    )
    .unwrap();
    let ids: Vec<&str> = result.models.iter().map(|m| m.id.as_str()).collect();
    assert_eq!(ids, vec!["a", "b"]);
    let error = parse_model_response("e".to_string(), "<html>").unwrap_err();
    assert_eq!(error.code, "model_response_invalid");
    assert_eq!(error.message, "模型列表响应不是有效 JSON。");
    assert!(error.detail.is_some());
    assert_eq!(parse_model_response("e".to_string(), "{}").unwrap_err().code, "model_list_missing");
}

#[test]
fn official_auth_is_chosen_from_texts() {
    let current = "{\"auth_mode\": \"chatgpt\", \"tokens\": {\"access_token\": \"new\"}}";
    let baseline = "{\"auth_mode\": \"chatgpt\", \"OPENAI_API_KEY\": \"stale\", \"account\": \"kept\"}";
    let auth = official_auth_from_texts(Some(current), Some(baseline));
    assert!(member(&auth, "OPENAI_API_KEY").is_none());
    assert!(matches!(member(&auth, "account"), Some(JsonValue::Str(s)) if s == "kept"));
    let fallback = official_auth_from_texts(Some("not json"), Some(baseline));
    assert!(matches!(member(&fallback, "account"), Some(JsonValue::Str(s)) if s == "kept"));
    assert!(official_auth_from_texts(None, None).is_empty());

    let snapshot = canonical_official_auth_text("{\"auth_mode\": \"chatgpt\", \"OPENAI_API_KEY\": \"x\"}").unwrap();
    assert!(member(&snapshot, "OPENAI_API_KEY").is_none());
    let error = canonical_official_auth_text("{oops").unwrap_err();
    assert_eq!(error.code, "auth_json_invalid");
    assert_eq!(error.message, "现有 auth.json 不是有效 JSON，无法保存官方快照。");
    assert_eq!(canonical_official_auth_text("[]").unwrap_err().message, "auth.json 必须是 JSON 对象。");
}

#[test]
fn devtools_texts_are_read() {
    let targets = "[{\"type\": \"worker\", \"webSocketDebuggerUrl\": \"ws://worker\"}, {\"type\": \"page\", \"webSocketDebuggerUrl\": \"ws://page\"}]";
    assert_eq!(debugger_url_from_text(targets).unwrap(), "ws://page");
    let error = debugger_url_from_text("{}").unwrap_err();
    assert_eq!(error.code, "cdp_target_parse_failed");
    assert_eq!(error.detail.as_deref(), Some("error decoding response body"));
    assert_eq!(debugger_url_from_text("[]").unwrap_err().code, "cdp_target_missing");

    assert!(matches!(classify_reply_text("{\"id\": 3, \"result\": {}}", 3), (CommandReply::Done, None)));
    assert!(matches!(classify_reply_text("{\"id\": 2}", 3), (CommandReply::Other, None)));
    assert!(matches!(classify_reply_text("garbage", 3), (CommandReply::Other, None)));
    match classify_reply_text("{\"id\": 3, \"error\": {\"code\": -1}}", 3) {
        (CommandReply::Rejected, Some(JsonValue::Object(members))) => {
            assert!(matches!(member(&members, "code"), Some(JsonValue::Int(-1))));
        }
        other => panic!("unexpected {other:?}"),
    }
}

#[test]
fn markers_logs_caches_and_sessions_are_read_from_text() {
    assert_eq!(marker_backup_id_text("{\"backupId\": \"b1\"}").unwrap(), "b1");
    assert_eq!(marker_backup_id_text("{}").unwrap_err().code, "transaction_backup_missing");
    let invalid = marker_backup_id_text("nope").unwrap_err();
    assert_eq!(invalid.code, "transaction_marker_invalid");
    assert_eq!(invalid.message, "未完成事务检查点格式无效。");

    let lines = vec!["{\"a\": 1}".to_string(), "broken".to_string(), "2".to_string()];
    let entries = log_entries(&lines);
    assert_eq!(entries.len(), 2);
    assert!(matches!(entries[1], JsonValue::UInt(2)));

    assert!(native_templates_from_text("not json").is_empty());
    let cache = "{\"models\": [{\"slug\": \"gpt-5\", \"context_window\": 1}]}";
    let templates = native_templates_from_text(cache);
    assert!(templates.len() <= 1);

    assert!(matches!(rewrite_session_meta_text("not json", "relay", None), SessionMeta::Skip));
    let line = "{\"type\": \"session_meta\", \"payload\": {\"id\": \"s1\", \"model_provider\": \"openai\"}}";
    match rewrite_session_meta_text(line, "relay", None) {
        SessionMeta::Rewritten(_, id) => assert_eq!(id.as_deref(), Some("s1")),
        _ => panic!("the line should be rewritten"),
    }
}

#[test]
fn backup_paths_are_listed_once_in_first_order() {
    let paths = vec![
        "config.toml".to_string(),
        "auth.json".to_string(),
        "config.toml".to_string(),
        "sessions/a.jsonl".to_string(),
        "auth.json".to_string(),
    ];
    assert_eq!(unique_paths(&paths), vec!["config.toml", "auth.json", "sessions/a.jsonl"]);
    assert!(unique_paths(&Vec::new()).is_empty());
}
