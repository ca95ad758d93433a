use matchingram::matcher::{Cont, Field, Operator, Outcome, Value};
use matchingram::models::{Message, User};
use matchingram::{compile_rule, matcher_match, rule_match, Error, Matcher};

fn text_message(text: &str) -> Message {
    Message {
        text: Some(text.to_owned()),
        ..Default::default()
    }
}

#[test]
fn all_needs_every_value() {
    let rule = r#"(message.text all {"太平洋" "年"})"#;

    let message = text_message("太平洋之名称，由航海家麦哲伦于1520年10月命名。");
    assert!(rule_match(rule, &message).unwrap());

    let message = text_message("太平洋是地球上五大洋中面积最大的洋。");
    assert!(!rule_match(rule, &message).unwrap());
}

#[test]
fn negated_any_rejects_each_value() {
    let rule = r#"(not message.text any {"say:" "说："})"#;

    assert!(!rule_match(rule, &text_message("Jay say: Hi")).unwrap());
    assert!(!rule_match(rule, &text_message("小明说：你好")).unwrap());
    assert!(rule_match(rule, &text_message("怎么发消息还得遵循格式啊？")).unwrap());
}

#[test]
fn text_len_counts_characters() {
    let rule = r#"(message.text.len eq 5)"#;

    assert!(rule_match(rule, &text_message("我是五个字")).unwrap());
    assert!(!rule_match(rule, &text_message("四个字呢")).unwrap());
    assert!(!rule_match(rule, &text_message("我有六个字。")).unwrap());
}

#[test]
fn unclosed_quote_is_reported_with_its_column() {
    let rule = r#"(message.text all "不闭合"#;

    assert!(matches!(
        compile_rule(rule),
        Err(Error::MissingQuote { column: 20 })
    ));
}

#[test]
fn quote_closed_on_another_line_is_not_closed() {
    let rule = "(message.text eq \"a\nb\")";

    assert!(matches!(
        compile_rule(rule),
        Err(Error::MissingQuote { column: 19 })
    ));
}

#[test]
fn empty_quote_is_an_error() {
    assert!(matches!(
        compile_rule(r#"(message.text eq "")"#),
        Err(Error::MissingQuote { column: 19 })
    ));
}

#[test]
fn disabled_field_differs_from_unknown_field() {
    assert!(matches!(
        compile_rule("(message.is_command)"),
        Err(Error::FieldNotEnabled {
            field: Field::MessageIsCommand
        })
    ));
    assert!(matches!(
        compile_rule(r#"(message.is_command eq "x")"#),
        Err(Error::FieldNotEnabled {
            field: Field::MessageIsCommand
        })
    ));
    match compile_rule("(message.nothing)") {
        Err(Error::UnknownField { field }) => assert_eq!(field, "message.nothing"),
        other => panic!("{:?}", other),
    }
}

#[test]
fn unknown_operator_comes_before_unknown_field() {
    match compile_rule(r#"(message.nothing is "x")"#) {
        Err(Error::UnknownOperator { operator }) => assert_eq!(operator, "is"),
        other => panic!("{:?}", other),
    }
    match compile_rule(r#"(message.nothing eq "x")"#) {
        Err(Error::UnknownField { field }) => assert_eq!(field, "message.nothing"),
        other => panic!("{:?}", other),
    }
}

#[test]
fn operator_outside_the_registry_is_refused() {
    assert!(matches!(
        compile_rule(r#"(message.text hd "x")"#),
        Err(Error::UnsupportedOperator {
            field: Field::MessageText,
            operator: Operator::Hd
        })
    ));
    assert!(matches!(
        compile_rule("(message.text.len lt 5)"),
        Err(Error::UnsupportedOperator {
            field: Field::MessageTextLen,
            operator: Operator::Lt
        })
    ));
    assert!(matches!(
        compile_rule(r#"(message.from.is_bot eq "x")"#),
        Err(Error::UnsupportedOperator {
            field: Field::MessageFromIsBot,
            operator: Operator::Eq
        })
    ));
}

#[test]
fn lexer_errors_carry_columns() {
    assert!(matches!(
        compile_rule("("),
        Err(Error::MissingField { column: 2 })
    ));
    assert!(matches!(
        compile_rule("()"),
        Err(Error::MissingField { column: 2 })
    ));
    assert!(matches!(
        compile_rule("(not )"),
        Err(Error::MissingField { column: 6 })
    ));
    assert!(matches!(
        compile_rule("(a) x"),
        Err(Error::ParseFailed { column: 5 })
    ));
    assert!(matches!(
        compile_rule("(message.text.len eq 5"),
        Err(Error::ParseFailed { column: 22 })
    ));
    assert!(matches!(
        compile_rule("(message.text.len eq -)"),
        Err(Error::ParseFailed { column: 22 })
    ));
    assert!(matches!(
        compile_rule("(message.text.len eq .5)"),
        Err(Error::ParseFailed { column: 22 })
    ));
    assert!(matches!(
        compile_rule("(message.text.len eq 5.)"),
        Err(Error::ParseFailed { column: 22 })
    ));
    assert!(matches!(
        compile_rule("(message.text.len eq 1.2.3)"),
        Err(Error::ParseFailed { column: 22 })
    ));
    assert!(matches!(
        compile_rule("(message.text.len eq 5x)"),
        Err(Error::ParseFailed { column: 22 })
    ));
    assert!(matches!(
        compile_rule("(message.text and )"),
        Err(Error::MissingField { column: 19 })
    ));
}

#[test]
fn parser_errors_carry_the_start_of_the_token() {
    assert!(matches!(
        compile_rule(""),
        Err(Error::ShouldOpenParenthesisHere { column: 0 })
    ));
    assert!(matches!(
        compile_rule("  )"),
        Err(Error::ShouldOpenParenthesisHere { column: 2 })
    ));
    assert!(matches!(
        compile_rule(r#"(message.text eq "a" "b")"#),
        Err(Error::ShouldCloseParenthesisHere { column: 21 })
    ));
    assert!(matches!(
        compile_rule("(message.from.is_bot"),
        Err(Error::ShouldCloseParenthesisHere { column: 20 })
    ));
    assert!(matches!(
        compile_rule("(message.from.is_bot) (message.photo)"),
        Err(Error::ShouldEndHere { column: 22 })
    ));
    assert!(matches!(
        compile_rule("(message.from.is_bot) or message.photo"),
        Err(Error::ParseFailed { column: 26 })
    ));
    assert!(matches!(
        compile_rule("(message.from.is_bot) or )"),
        Err(Error::ShouldOpenParenthesisHere { column: 25 })
    ));
    assert!(matches!(
        compile_rule("(message.text eq )"),
        Err(Error::ShouldValueHere { column: 17 })
    ));
    assert!(matches!(
        compile_rule("(message.text and)"),
        Err(Error::ShouldValueHere { column: 17 })
    ));
    assert!(matches!(
        compile_rule("(message.text in {})"),
        Err(Error::ShouldValueHere { column: 18 })
    ));
    assert!(matches!(
        compile_rule(r#"(message.text in {"a" )"#),
        Err(Error::ShouldValueHere { column: 22 })
    ));
    assert!(matches!(
        compile_rule("(message.from.is_bot and )"),
        Err(Error::MissingField { column: 26 })
    ));
}

#[test]
fn numbers_must_be_whole_and_fit() {
    assert!(compile_rule("(message.from.id eq 9223372036854775807)").is_ok());
    assert!(compile_rule("(message.from.id eq -9223372036854775808)").is_ok());
    assert!(matches!(
        compile_rule("(message.from.id eq 9223372036854775808)"),
        Err(Error::DecimalParseFailed { column: 20 })
    ));
    assert!(matches!(
        compile_rule("(message.from.id eq -9223372036854775809)"),
        Err(Error::DecimalParseFailed { column: 20 })
    ));
    assert!(matches!(
        compile_rule("(message.location.latitude gt -0.2)"),
        Err(Error::DecimalParseFailed { column: 30 })
    ));
}

#[test]
fn compiled_rule_has_the_structure_of_its_text() {
    let rule = r#"(not message.text any {"a" "b"} and message.from.id ge -7) or (message.photo)"#;
    let matcher = compile_rule(rule).unwrap();

    assert_eq!(matcher.groups.len(), 2);
    assert_eq!(matcher.groups[0].len(), 2);
    assert_eq!(matcher.groups[1].len(), 1);

    let cont = &matcher.groups[0][0];
    assert!(cont.is_negative);
    assert_eq!(cont.field, Field::MessageText);
    assert_eq!(cont.operator, Some(Operator::Any));
    match cont.value.as_deref() {
        Some([Value::Letter(a), Value::Letter(b)]) => {
            assert_eq!(a, "a");
            assert_eq!(b, "b");
        }
        other => panic!("{:?}", other),
    }

    let cont = &matcher.groups[0][1];
    assert!(!cont.is_negative);
    assert_eq!(cont.field, Field::MessageFromId);
    assert_eq!(cont.operator, Some(Operator::Ge));
    assert!(matches!(
        cont.value.as_deref(),
        Some([Value::Decimal(-7)])
    ));

    let cont = &matcher.groups[1][0];
    assert!(!cont.is_negative);
    assert_eq!(cont.field, Field::MessagePhoto);
    assert_eq!(cont.operator, None);
    assert!(cont.value.is_none());
}

#[test]
fn white_space_between_tokens_does_not_matter() {
    let rule = "(\n    message.text any {\"太\"} and\n    message.text any {\"平\"}\n)";

    assert!(rule_match(rule, &text_message("太平洋")).unwrap());
    assert!(!rule_match(rule, &text_message("太阳")).unwrap());
}

#[test]
fn groups_are_joined_by_or_and_conditions_by_and() {
    let rule = r#"(message.text any {"a"} and message.text any {"b"}) or (message.text any {"c"})"#;

    assert!(rule_match(rule, &text_message("ab")).unwrap());
    assert!(rule_match(rule, &text_message("c")).unwrap());
    assert!(rule_match(rule, &text_message("ac")).unwrap());
    assert!(!rule_match(rule, &text_message("a")).unwrap());
    assert!(!rule_match(rule, &text_message("b")).unwrap());
}

fn failing() -> Cont {
    Cont {
        is_negative: false,
        field: Field::MessageText,
        operator: Some(Operator::Eq),
        value: Some(vec![Value::Decimal(1)]),
    }
}

fn holding(text: &str) -> Cont {
    Cont {
        is_negative: false,
        field: Field::MessageText,
        operator: Some(Operator::Any),
        value: Some(vec![Value::from_str(text)]),
    }
}

#[test]
fn what_follows_a_decision_is_not_evaluated() {
    let message = text_message("a");

    assert!(matches!(
        failing().match_message(&message),
        Err(Error::NotAString {
            value: Value::Decimal(1)
        })
    ));

    let mut matcher = Matcher::new(vec![vec![holding("b"), failing()], vec![holding("a")]]);
    assert!(matcher.match_message(&message).unwrap());

    let mut matcher = Matcher::new(vec![vec![holding("a")], vec![failing()]]);
    assert!(matcher.match_message(&message).unwrap());

    let mut matcher = Matcher::new(vec![vec![holding("a"), failing()], vec![holding("a")]]);
    assert!(matcher.match_message(&message).is_err());

    let mut matcher = Matcher::new(vec![vec![holding("b")], vec![failing()]]);
    assert!(matcher.match_message(&message).is_err());
}

#[test]
fn matching_twice_gives_the_same() {
    let rule = r#"(message.text any {"a"}) or (message.text any {"b"})"#;
    let mut matcher = compile_rule(rule).unwrap();
    let hit = text_message("b");
    let miss = text_message("c");

    assert!(matcher_match(&mut matcher, &hit).unwrap());
    assert!(!matcher_match(&mut matcher, &miss).unwrap());
    assert!(matcher_match(&mut matcher, &hit).unwrap());
    assert!(!matcher_match(&mut matcher, &miss).unwrap());
}

#[test]
fn matcher_without_groups_matches_nothing() {
    let mut matcher = Matcher::new(vec![]);
    assert!(!matcher.match_message(&text_message("a")).unwrap());

    let mut matcher = Matcher::new(vec![vec![]]);
    assert!(matcher.match_message(&text_message("a")).unwrap());
}

#[test]
fn absent_attribute_satisfies_only_a_negated_condition() {
    let empty = Message::default();

    assert!(!rule_match(r#"(message.text eq "a")"#, &empty).unwrap());
    assert!(rule_match(r#"(not message.text eq "a")"#, &empty).unwrap());
    assert!(!rule_match("(message.from.id eq 1)", &empty).unwrap());
    assert!(rule_match("(not message.from.id eq 1)", &empty).unwrap());
    assert!(!rule_match(r#"(message.from.language_code eq "zh")"#, &empty).unwrap());

    let from = Message {
        from: Some(User {
            id: 1,
            first_name: "Rust".to_owned(),
            ..Default::default()
        }),
        ..Default::default()
    };
    assert!(rule_match("(message.from.id eq 1)", &from).unwrap());
    assert!(!rule_match("(not message.from.id eq 1)", &from).unwrap());
    assert!(!rule_match(r#"(message.from.language_code eq "zh")"#, &from).unwrap());
    assert!(rule_match(r#"(not message.from.language_code eq "zh")"#, &from).unwrap());
}

#[test]
fn presence_checks_read_flags() {
    let empty = Message::default();
    assert!(!rule_match("(message.from.is_bot)", &empty).unwrap());
    assert!(rule_match("(not message.from.is_bot)", &empty).unwrap());
    assert!(!rule_match("(message.is_service_message)", &empty).unwrap());

    let bot = Message {
        from: Some(User {
            is_bot: true,
            ..Default::default()
        }),
        new_chat_title: Some("title".to_owned()),
        ..Default::default()
    };
    assert!(rule_match("(message.from.is_bot)", &bot).unwrap());
    assert!(!rule_match("(not message.from.is_bot)", &bot).unwrap());
    assert!(rule_match("(message.new_chat_title)", &bot).unwrap());
    assert!(rule_match("(message.is_service_message)", &bot).unwrap());
    assert!(!rule_match("(message.photo)", &bot).unwrap());
}

#[test]
fn condition_without_what_its_field_needs_fails() {
    let message = text_message("a");

    let cont = Cont {
        is_negative: false,
        field: Field::MessageText,
        operator: None,
        value: None,
    };
    assert!(matches!(
        cont.match_message(&message),
        Err(Error::FieldRequireOperator {
            field: Field::MessageText
        })
    ));

    let cont = Cont {
        is_negative: false,
        field: Field::MessageText,
        operator: Some(Operator::Eq),
        value: None,
    };
    assert!(matches!(
        cont.match_message(&message),
        Err(Error::FieldRequireValue {
            field: Field::MessageText
        })
    ));

    let cont = Cont {
        is_negative: false,
        field: Field::MessageText,
        operator: Some(Operator::Gt),
        value: Some(vec![Value::Decimal(1)]),
    };
    assert!(matches!(
        cont.match_message(&message),
        Err(Error::UnsupportedOperator {
            field: Field::MessageText,
            operator: Operator::Gt
        })
    ));

    let cont = Cont {
        is_negative: true,
        field: Field::MessageIsCommand,
        operator: None,
        value: None,
    };
    assert!(matches!(
        cont.match_message(&message),
        Err(Error::FieldNotEnabled {
            field: Field::MessageIsCommand
        })
    ));

    let cont = Cont {
        is_negative: false,
        field: Field::MessageTextLen,
        operator: Some(Operator::Eq),
        value: Some(vec![Value::from_str("1")]),
    };
    assert!(matches!(
        cont.match_message(&message),
        Err(Error::NotADecimal {
            value: Value::Letter(_)
        })
    ));

    let cont = Cont {
        is_negative: false,
        field: Field::MessageTextLen,
        operator: Some(Operator::Eq),
        value: Some(vec![]),
    };
    assert!(matches!(
        cont.match_message(&message),
        Err(Error::RefValueInEmptyList)
    ));

    let cont = Cont {
        is_negative: false,
        field: Field::MessageText,
        operator: Some(Operator::Eq),
        value: Some(vec![Value::Decimal(1)]),
    };
    assert!(matches!(
        cont.match_message(&message),
        Err(Error::NotAString {
            value: Value::Decimal(1)
        })
    ));

    // On a message without the text nothing is compared, so nothing fails.
    assert!(!cont.match_message(&Message::default()).unwrap());
}

#[test]
fn rule_with_a_condition_that_would_fail_does_not_compile() {
    assert!(matches!(
        compile_rule("(message.text)"),
        Err(Error::MissingOperator { column: 13 })
    ));
    assert!(matches!(
        compile_rule("(message.photo and not message.text.len and message.audio)"),
        Err(Error::MissingOperator { column: 40 })
    ));
    assert!(matches!(
        compile_rule("(message.text eq 1)"),
        Err(Error::NotAString {
            value: Value::Decimal(1)
        })
    ));
    assert!(matches!(
        compile_rule(r#"(message.text any {"a" 1 "b" 2})"#),
        Err(Error::NotAString {
            value: Value::Decimal(1)
        })
    ));
    match compile_rule(r#"(message.text.len eq "5")"#) {
        Err(Error::NotADecimal {
            value: Value::Letter(text),
        }) => assert_eq!(text, "5"),
        other => panic!("{:?}", other),
    }

    // Only the first value of a comparison is read.
    assert!(compile_rule(r#"(message.text.len eq {5 "a"})"#).is_ok());
    assert!(compile_rule(r#"(message.text eq {"a" 5})"#).is_ok());
}

#[test]
fn outcome_before_negation_is_an_answer_or_none() {
    let cont = Cont {
        is_negative: true,
        field: Field::MessageText,
        operator: Some(Operator::Eq),
        value: Some(vec![Value::from_str("a")]),
    };

    assert_eq!(
        cont.evaluate(&text_message("a")).unwrap(),
        Outcome::Definite(true)
    );
    assert_eq!(
        cont.evaluate(&text_message("b")).unwrap(),
        Outcome::Definite(false)
    );
    assert_eq!(cont.evaluate(&Message::default()).unwrap(), Outcome::Absent);

    assert!(!cont.match_message(&text_message("a")).unwrap());
    assert!(cont.match_message(&text_message("b")).unwrap());
    assert!(cont.match_message(&Message::default()).unwrap());

    // A flag is never absent.
    let flag = Cont {
        is_negative: false,
        field: Field::MessageFromIsBot,
        operator: None,
        value: None,
    };
    assert_eq!(
        flag.evaluate(&Message::default()).unwrap(),
        Outcome::Definite(false)
    );
}
