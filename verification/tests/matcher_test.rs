use matchingram::models::{Message, User};
use matchingram::result::Result;
use matchingram::rule_match;

// Reads the message that the JSON data describes, and matches it against the rule.
fn rule_match_json(rule: &str, json: &str) -> Result<bool> {
    let data: serde_json::Value = serde_json::from_str(json).unwrap();
    let text = |value: &serde_json::Value, key: &str| {
        value.get(key).and_then(|v| v.as_str()).map(|s| s.to_owned())
    };
    let from = data.get("from").map(|from| User {
        id: from.get("id").and_then(|v| v.as_i64()).unwrap_or(0),
        is_bot: from.get("is_bot").and_then(|v| v.as_bool()).unwrap_or(false),
        first_name: text(from, "first_name").unwrap_or_default(),
        last_name: text(from, "last_name"),
        username: text(from, "username"),
        language_code: text(from, "language_code"),
    });
    let message = Message {
        text: text(&data, "text"),
        from,
        ..Default::default()
    };

    rule_match(rule, &message)
}

#[test]
fn matcher_test_test_matcher() {
    let json_data = r#"
        {
            "text": "我是五个字",
            "from": {
                "first_name": "Rust",
                "is_bot": true
            }
        }
    "#;

    let rule = r#"(message.text.size eq 5)"#;
    assert!(rule_match_json(rule, json_data).unwrap());

    let rule = r#"(message.text.size gt 4)"#;
    assert!(rule_match_json(rule, json_data).unwrap());

    let rule = r#"(message.text.size gt 5)"#;
    assert!(!rule_match_json(rule, json_data).unwrap());

    let rule = r#"(not message.text.size gt 5)"#;
    assert!(rule_match_json(rule, json_data).unwrap());

    let rule = r#"(message.text.size ge 5)"#;
    assert!(rule_match_json(rule, json_data).unwrap());

    let rule = r#"(message.text.size ge 6)"#;
    assert!(!rule_match_json(rule, json_data).unwrap());

    let rule = r#"(message.text.size le 5)"#;
    assert!(rule_match_json(rule, json_data).unwrap());

    let rule = r#"(message.text.size le 4)"#;
    assert!(!rule_match_json(rule, json_data).unwrap());
}

#[test]
fn matches_test_test_matcher() {
    let json_data = r#"
        {
            "text": "我是五个字",
            "from": {
                "id": 1000012,
                "first_name": "Rust",
                "is_bot": true
            }
        }
    "#;

    let rule = r#"(message.text.len eq 5)"#;
    assert!(rule_match_json(rule, json_data).unwrap());

    let rule = r#"(message.text.len gt 4)"#;
    assert!(rule_match_json(rule, json_data).unwrap());

    let rule = r#"(message.text.len gt 5)"#;
    assert!(!rule_match_json(rule, json_data).unwrap());

    let rule = r#"(not message.text.len gt 5)"#;
    assert!(rule_match_json(rule, json_data).unwrap());

    let rule = r#"(message.text.len ge 5)"#;
    assert!(rule_match_json(rule, json_data).unwrap());

    let rule = r#"(message.text.len ge 6)"#;
    assert!(!rule_match_json(rule, json_data).unwrap());

    let rule = r#"(message.text.len le 5)"#;
    assert!(rule_match_json(rule, json_data).unwrap());

    let rule = r#"(message.text.len le 4)"#;
    assert!(!rule_match_json(rule, json_data).unwrap());

    let rule = r#"(message.from.first_name in {"Java" "Rust"})"#;
    assert!(rule_match_json(rule, json_data).unwrap());

    let rule = r#"(message.from.first_name in {"Java" "Golang"})"#;
    assert!(!rule_match_json(rule, json_data).unwrap());

    let rule = r#"(message.from.first_name hd "Rus")"#;
    assert!(rule_match_json(rule, json_data).unwrap());
}
