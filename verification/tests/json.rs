use atlas_client::context::DeployRunContext;
use atlas_client::context::TriggerType;
use atlas_client::json::lookup;
use atlas_client::json::parse_json;
use atlas_client::json::Json;

#[test]
fn parse_json_reads_every_kind() {
    let doc = parse_json("{\"a\":null,\"b\":true,\"c\":-3,\"d\":\"x\",\"e\":[1,\"two\"],\"f\":{},\"g\":1.5}")
        .unwrap();
    let members = match doc {
        Json::Object(m) => m,
        other => panic!("no object: {:?}", other),
    };
    let names: Vec<&str> = members.iter().map(|(k, _)| k.as_str()).collect();
    assert_eq!(names, vec!["a", "b", "c", "d", "e", "f", "g"]);
    assert!(matches!(lookup(&members, "a"), Some(Json::Null)));
    assert!(matches!(lookup(&members, "b"), Some(Json::Bool(true))));
    assert!(matches!(lookup(&members, "c"), Some(Json::Number(Some(-3)))));
    assert!(matches!(lookup(&members, "d"), Some(Json::Text(s)) if s == "x"));
    match lookup(&members, "e") {
        Some(Json::List(items)) => {
            assert_eq!(items.len(), 2);
            assert!(matches!(&items[0], Json::Number(Some(1))));
            assert!(matches!(&items[1], Json::Text(s) if s == "two"));
        }
        other => panic!("no list: {:?}", other),
    }
    assert!(matches!(lookup(&members, "f"), Some(Json::Object(m)) if m.is_empty()));
    assert!(matches!(lookup(&members, "g"), Some(Json::Number(None))));
    assert!(lookup(&members, "h").is_none());
}

#[test]
fn parse_json_refuses_what_is_no_json() {
    assert!(parse_json("").is_none());
    assert!(parse_json("{").is_none());
    assert!(parse_json("[1,]").is_none());
    assert!(parse_json("nil").is_none());
    assert!(parse_json("{} {}").is_none());
}

#[test]
fn parse_json_number_beyond_i64() {
    assert!(matches!(parse_json("9223372036854775807"), Some(Json::Number(Some(i64::MAX)))));
    assert!(matches!(parse_json("9223372036854775808"), Some(Json::Number(None))));
    assert!(matches!(parse_json("-9223372036854775808"), Some(Json::Number(Some(i64::MIN)))));
}

#[test]
fn lookup_takes_the_first_member_of_a_name() {
    let members = vec![
        ("k".to_string(), Json::Number(Some(1))),
        ("k".to_string(), Json::Number(Some(2))),
    ];
    assert!(matches!(lookup(&members, "k"), Some(Json::Number(Some(1)))));
}

fn quoted(text: &str) -> String {
    let context =
        DeployRunContext { trigger_type: TriggerType::Cli, trigger_version: text.to_string() };
    let json = context.to_json();
    let head = "{\"trigger_type\":\"CLI\",\"trigger_version\":";
    assert!(json.starts_with(head));
    assert!(json.ends_with('}'));
    json[head.len()..json.len() - 1].to_string()
}

#[test]
fn json_texts_are_quoted_and_escaped() {
    assert_eq!(quoted(""), "\"\"");
    assert_eq!(quoted("plain"), "\"plain\"");
    assert_eq!(quoted("a\"b"), "\"a\\\"b\"");
    assert_eq!(quoted("a\\b"), "\"a\\\\b\"");
    assert_eq!(quoted("line\nbreak"), "\"line\\nbreak\"");
    assert_eq!(quoted("\u{1}"), "\"\\u0001\"");
    assert_eq!(quoted("é"), "\"é\"");
}
