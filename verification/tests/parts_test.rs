use matchingram::falsey::UnwrapOrFalseyHosting;
use matchingram::lexer::{Lexer, Position, Token};
use matchingram::matcher::{group_match, Cont, Field, Operator, RefSingleValue, Value};
use matchingram::models::{Animation, Location, Message, User};
use matchingram::number::{format_decimal, parse_decimal};
use matchingram::ope::prelude::{
    AllOperator, AnyOperator, EqOperator, EqOperatorForContentLen, GeOperator,
    GeOperatorForContentLen, GtOperator, GtOperatorForContentLen, HdOperator, InOperator,
    LeOperator, LeOperatorForContentLen, TdOperator,
};
use matchingram::parser::Parser;
use matchingram::registry::{contains_operator, field_operators};
use matchingram::text::{chars_of, string_of};
use matchingram::{rule_match, Error};

fn chars(text: &str) -> Vec<char> {
    text.chars().collect()
}

fn letters(texts: &[&str]) -> Vec<Value> {
    texts.iter().map(|text| Value::from_str(text)).collect()
}

#[test]
fn decimal_is_an_optional_sign_and_digits() {
    assert_eq!(parse_decimal(&chars("0")), Some(0));
    assert_eq!(parse_decimal(&chars("-0")), Some(0));
    assert_eq!(parse_decimal(&chars("+7")), Some(7));
    assert_eq!(parse_decimal(&chars("007")), Some(7));
    assert_eq!(parse_decimal(&chars("-100001")), Some(-100001));
    assert_eq!(
        parse_decimal(&chars("9223372036854775807")),
        Some(i64::MAX)
    );
    assert_eq!(
        parse_decimal(&chars("-9223372036854775808")),
        Some(i64::MIN)
    );
    assert_eq!(parse_decimal(&chars("9223372036854775808")), None);
    assert_eq!(parse_decimal(&chars("-9223372036854775809")), None);
    assert_eq!(parse_decimal(&chars("99999999999999999999999999")), None);
    assert_eq!(parse_decimal(&chars("")), None);
    assert_eq!(parse_decimal(&chars("-")), None);
    assert_eq!(parse_decimal(&chars("+")), None);
    assert_eq!(parse_decimal(&chars("1.5")), None);
    assert_eq!(parse_decimal(&chars("1_000")), None);
    assert_eq!(parse_decimal(&chars(" 1")), None);
    assert_eq!(parse_decimal(&chars("--1")), None);
    assert_eq!(parse_decimal(&chars("１")), None);
}

#[test]
fn decimal_is_written_as_it_is_read() {
    assert_eq!(format_decimal(0), "0");
    assert_eq!(format_decimal(7), "7");
    assert_eq!(format_decimal(10), "10");
    assert_eq!(format_decimal(-1), "-1");
    assert_eq!(format_decimal(1000012), "1000012");
    assert_eq!(format_decimal(-9050), "-9050");
    assert_eq!(format_decimal(i64::MAX), "9223372036854775807");
    assert_eq!(format_decimal(i64::MIN), "-9223372036854775808");

    for number in [0, 9, 10, -10, 99, 100, 12345, -6789, i64::MAX, i64::MIN] {
        assert_eq!(format_decimal(number), number.to_string());
        assert_eq!(parse_decimal(&chars(&format_decimal(number))), Some(number));
    }

    assert_eq!(Value::Decimal(-42).to_string(), "-42");
    assert_eq!(Value::from_str("说：").to_string(), "说：");
}

#[test]
fn names_of_operators_go_both_ways() {
    let operators = [
        (Operator::Eq, "eq"),
        (Operator::Gt, "gt"),
        (Operator::Lt, "lt"),
        (Operator::Ge, "ge"),
        (Operator::Le, "le"),
        (Operator::In, "in"),
        (Operator::Any, "any"),
        (Operator::All, "all"),
        (Operator::Hd, "hd"),
        (Operator::Td, "td"),
    ];
    for (operator, name) in operators {
        assert_eq!(operator.to_string(), name);
        assert_eq!(operator.as_str(), name);
        assert_eq!(Operator::from_str(name), Some(operator));
    }
    assert_eq!(Operator::from_str("Eq"), None);
    assert_eq!(Operator::from_str(""), None);
    assert_eq!(Operator::from_str("contains_all"), None);
}

#[test]
fn names_of_fields_go_both_ways() {
    let fields = [
        (Field::MessageFromId, "message.from.id"),
        (Field::MessageFromIsBot, "message.from.is_bot"),
        (Field::MessageFromFirstName, "message.from.first_name"),
        (Field::MessageFromFullName, "message.from.full_name"),
        (Field::MessageFromLanguageCode, "message.from.language_code"),
        (Field::MessageForwardFromChat, "message.forward_from_chat"),
        (Field::MessageForwardFromChatId, "message.forward_from_chat.id"),
        (Field::MessageForwardFromChatType, "message.forward_from_chat.type"),
        (Field::MessageForwardFromChatTitle, "message.forward_from_chat.title"),
        (Field::MessageReplyToMessage, "message.reply_to_message"),
        (Field::MessageText, "message.text"),
        (Field::MessageTextLen, "message.text.len"),
        (Field::MessageTextSize, "message.text.size"),
        (Field::MessageAnimation, "message.animation"),
        (Field::MessageAnimationDuration, "message.animation.duration"),
        (Field::MessageAnimationFileName, "message.animation.file_name"),
        (Field::MessageAnimationMimeType, "message.animation.mime_type"),
        (Field::MessageAnimationFileSize, "message.animation.file_size"),
        (Field::MessageAudio, "message.audio"),
        (Field::MessageAudioDuration, "message.audio.duration"),
        (Field::MessageAudioPerformer, "message.audio.performer"),
        (Field::MessageAudioMimeType, "message.audio.mime_type"),
        (Field::MessageAudioFileSize, "message.audio.file_size"),
        (Field::MessageDocument, "message.document"),
        (Field::MessageDocumentFileName, "message.document.file_name"),
        (Field::MessageDocumentMimeType, "message.document.mime_type"),
        (Field::MessageDocumentFileSize, "message.document.file_size"),
        (Field::MessagePhoto, "message.photo"),
        (Field::MessageSticker, "message.sticker"),
        (Field::MessageStickerIsAnimated, "message.sticker.is_animated"),
        (Field::MessageStickerEmoji, "message.sticker.emoji"),
        (Field::MessageStickerSetName, "message.sticker.set_name"),
        (Field::MessageVideo, "message.video"),
        (Field::MessageVideoDuration, "message.video.duration"),
        (Field::MessageVideoMimeType, "message.video.mime_type"),
        (Field::MessageVideoFileSize, "message.video.file_size"),
        (Field::MessageVoice, "message.voice"),
        (Field::MessageVoiceDuration, "message.voice.duration"),
        (Field::MessageVoiceMimeType, "message.voice.mime_type"),
        (Field::MessageVoiceFileSize, "message.voice.file_size"),
        (Field::MessageCaption, "message.caption"),
        (Field::MessageCaptionLen, "message.caption.len"),
        (Field::MessageDice, "message.dice"),
        (Field::MessageDiceEmoji, "message.dice.emoji"),
        (Field::MessagePoll, "message.poll"),
        (Field::MessagePollType, "message.poll.type"),
        (Field::MessageVenue, "message.venue"),
        (Field::MessageVenueTitle, "message.venue.title"),
        (Field::MessageVenueAddress, "message.venue.address"),
        (Field::MessageLocation, "message.location"),
        (Field::MessageLocationLongitude, "message.location.longitude"),
        (Field::MessageLocationLatitude, "message.location.latitude"),
        (Field::MessageNewChatMembers, "message.new_chat_members"),
        (Field::MessageLeftChatMember, "message.left_chat_member"),
        (Field::MessageNewChatTitle, "message.new_chat_title"),
        (Field::MessageNewChatPhoto, "message.new_chat_photo"),
        (Field::MessagePinnedMessage, "message.pinned_message"),
        (Field::MessageIsServiceMessage, "message.is_service_message"),
        (Field::MessageIsCommand, "message.is_command"),
    ];
    for (field, name) in fields {
        assert_eq!(field.to_string(), name);
        assert_eq!(field.as_str(), name);
        assert_eq!(Field::from_str(name), Some(field));
    }
    assert_eq!(Field::from_str("message"), None);
    assert_eq!(Field::from_str("message.text "), None);
    assert_eq!(Field::from_str("Message.Text"), None);
}

#[test]
fn registry_lists_the_operators_of_each_field() {
    assert_eq!(
        field_operators(Field::MessageText),
        Some(&[Operator::Eq, Operator::In, Operator::Any, Operator::All][..])
    );
    assert_eq!(
        field_operators(Field::MessageTextLen),
        Some(&[Operator::Eq, Operator::Gt, Operator::Ge, Operator::Le][..])
    );
    assert_eq!(
        field_operators(Field::MessageCaption),
        Some(&[Operator::Eq, Operator::Any, Operator::All, Operator::Hd][..])
    );
    assert_eq!(
        field_operators(Field::MessageDiceEmoji),
        Some(&[Operator::Eq, Operator::In][..])
    );
    assert_eq!(field_operators(Field::MessagePhoto), Some(&[][..]));
    assert_eq!(field_operators(Field::MessageIsCommand), None);

    assert!(contains_operator(
        &[Operator::Eq, Operator::Hd],
        Operator::Hd
    ));
    assert!(!contains_operator(
        &[Operator::Eq, Operator::Hd],
        Operator::Td
    ));
    assert!(!contains_operator(&[], Operator::Eq));
}

#[test]
fn conditions_are_made_from_names() {
    let cont = Cont::new(
        true,
        "message.text".to_owned(),
        "any".to_owned(),
        letters(&["a"]),
    )
    .unwrap();
    assert!(cont.is_negative);
    assert_eq!(cont.field, Field::MessageText);
    assert_eq!(cont.operator, Some(Operator::Any));
    assert_eq!(cont.value.map(|value| value.len()), Some(1));

    let cont = Cont::single_field(false, "message.photo".to_owned()).unwrap();
    assert!(!cont.is_negative);
    assert_eq!(cont.field, Field::MessagePhoto);
    assert_eq!(cont.operator, None);
    assert!(cont.value.is_none());

    assert!(matches!(
        Cont::new(false, "message.text".to_owned(), "td".to_owned(), vec![]),
        Err(Error::UnsupportedOperator {
            field: Field::MessageText,
            operator: Operator::Td
        })
    ));
    assert!(matches!(
        Cont::single_field(false, "message.text".to_owned()),
        Err(Error::FieldRequireOperator {
            field: Field::MessageText
        })
    ));
    assert!(matches!(
        Cont::new(false, "message.text".to_owned(), "any".to_owned(), vec![]),
        Err(Error::RefValueInEmptyList)
    ));
    assert!(matches!(
        Cont::new(false, "message.text".to_owned(), "eq".to_owned(), vec![]),
        Err(Error::RefValueInEmptyList)
    ));
    assert!(matches!(
        Cont::new(
            false,
            "message.from.id".to_owned(),
            "gt".to_owned(),
            letters(&["1"])
        ),
        Err(Error::NotADecimal { .. })
    ));
    assert!(matches!(
        Cont::new(
            false,
            "message.text".to_owned(),
            "in".to_owned(),
            vec![Value::from_str("a"), Value::Decimal(2), Value::Decimal(3)]
        ),
        Err(Error::NotAString {
            value: Value::Decimal(2)
        })
    ));
    assert!(matches!(
        Cont::single_field(false, "message.is_command".to_owned()),
        Err(Error::FieldNotEnabled {
            field: Field::MessageIsCommand
        })
    ));
    assert!(matches!(
        Cont::single_field(false, "text".to_owned()),
        Err(Error::UnknownField { .. })
    ));
}

#[test]
fn values_are_read_as_text_or_number() {
    let letter = Value::from_str("a");
    let decimal = Value::Decimal(3);

    assert_eq!(letter.ref_a_str().unwrap(), "a");
    assert!(matches!(
        letter.ref_a_decimal(),
        Err(Error::NotADecimal {
            value: Value::Letter(_)
        })
    ));
    assert_eq!(decimal.ref_a_decimal().unwrap(), &3);
    assert!(matches!(
        decimal.ref_a_str(),
        Err(Error::NotAString {
            value: Value::Decimal(3)
        })
    ));

    let values = vec![Value::Decimal(3), Value::from_str("a")];
    assert_eq!(values.ref_a_decimal().unwrap(), &3);
    assert!(values.ref_a_str().is_err());
    assert!(matches!(
        Vec::<Value>::new().ref_a_str(),
        Err(Error::RefValueInEmptyList)
    ));
    assert!(matches!(
        Vec::<Value>::new().ref_a_decimal(),
        Err(Error::RefValueInEmptyList)
    ));

    assert!(matches!(decimal.duplicate(), Value::Decimal(3)));
    match letter.clone() {
        Value::Letter(text) => assert_eq!(text, "a"),
        other => panic!("{:?}", other),
    }
}

#[test]
fn text_operators_compare_characters() {
    let text = "太平洋 is wide".to_owned();

    assert!(text.eq_ope(&letters(&["太平洋 is wide"])).unwrap());
    assert!(!text.eq_ope(&letters(&["太平洋"])).unwrap());

    assert!(text.in_ope(&letters(&["a", "太平洋 is wide"])).unwrap());
    assert!(!text.in_ope(&letters(&["a", "太平洋"])).unwrap());
    assert!(!text.in_ope(&letters(&[])).unwrap());

    assert!(text.any_ope(&letters(&["x", "平洋 "])).unwrap());
    assert!(!text.any_ope(&letters(&["x", "洋平"])).unwrap());
    assert!(!text.any_ope(&letters(&[])).unwrap());
    assert!(text.any_ope(&letters(&[""])).unwrap());

    assert!(text.all_ope(&letters(&["太", "wide", " is "])).unwrap());
    assert!(!text.all_ope(&letters(&["太", "narrow"])).unwrap());
    assert!(text.all_ope(&letters(&[])).unwrap());

    assert!(text.hd_ope(&letters(&["太平"])).unwrap());
    assert!(!text.hd_ope(&letters(&["平"])).unwrap());
    assert!(text.hd_ope(&letters(&[""])).unwrap());
    assert!(!"a".to_owned().hd_ope(&letters(&["ab"])).unwrap());

    assert!(text.td_ope(&letters(&["wide"])).unwrap());
    assert!(!text.td_ope(&letters(&["wid"])).unwrap());
    assert!(!"a".to_owned().td_ope(&letters(&["ba"])).unwrap());
}

#[test]
fn list_operators_fail_on_the_first_number_they_read() {
    let text = "ab".to_owned();
    let mixed = vec![Value::from_str("a"), Value::Decimal(1)];

    assert!(text.any_ope(&mixed).unwrap());
    assert!(text.in_ope(&mixed).is_err());
    assert!(text.all_ope(&mixed).is_err());

    let mixed = vec![Value::from_str("x"), Value::Decimal(1)];
    assert!(text.any_ope(&mixed).is_err());
    assert!(!text.all_ope(&mixed).unwrap());
}

#[test]
fn number_operators_compare_with_the_first_value() {
    let five = vec![Value::Decimal(5), Value::Decimal(9)];

    assert!(5i64.eq_ope(&five).unwrap());
    assert!(!6i64.eq_ope(&five).unwrap());
    assert!(6i64.gt_ope(&five).unwrap());
    assert!(!5i64.gt_ope(&five).unwrap());
    assert!(5i64.ge_ope(&five).unwrap());
    assert!(!4i64.ge_ope(&five).unwrap());
    assert!(5i64.le_ope(&five).unwrap());
    assert!(!6i64.le_ope(&five).unwrap());

    assert!(5i32.eq_ope(&five).unwrap());
    assert!(6i32.gt_ope(&five).unwrap());
    assert!(4i32.le_ope(&five).unwrap());
    assert!(!4i32.ge_ope(&five).unwrap());

    assert!(Some(5i32).eq_ope(&five).unwrap());
    assert!(matches!(
        None::<i32>.eq_ope(&five),
        Err(Error::FalsyValueHosting)
    ));
    assert!(matches!(
        None::<i32>.gt_ope(&five),
        Err(Error::FalsyValueHosting)
    ));
    assert!(matches!(
        None::<String>.any_ope(&letters(&["a"])),
        Err(Error::FalsyValueHosting)
    ));
    assert!(Some("a".to_owned()).eq_ope(&letters(&["a"])).unwrap());

    assert!(matches!(
        5i64.eq_ope(&letters(&["5"])),
        Err(Error::NotADecimal { .. })
    ));
    assert!(matches!(
        5i64.eq_ope(&vec![]),
        Err(Error::RefValueInEmptyList)
    ));

    let large = vec![Value::Decimal(i64::MAX)];
    assert!(!i32::MAX.ge_ope(&large).unwrap());
    assert!(i64::MAX.ge_ope(&large).unwrap());
}

#[test]
fn length_operators_count_characters_not_bytes() {
    let text = "我是五个字".to_owned();
    let number = |n: i64| vec![Value::Decimal(n)];

    assert!(text.eq_ope_for_content_len(&number(5)).unwrap());
    assert!(!text.eq_ope_for_content_len(&number(15)).unwrap());
    assert!(!text.eq_ope_for_content_len(&number(-5)).unwrap());
    assert!(text.gt_ope_for_content_len(&number(4)).unwrap());
    assert!(!text.gt_ope_for_content_len(&number(5)).unwrap());
    assert!(text.gt_ope_for_content_len(&number(-1)).unwrap());
    assert!(text.gt_ope_for_content_len(&number(i64::MIN)).unwrap());
    assert!(text.ge_ope_for_content_len(&number(5)).unwrap());
    assert!(!text.ge_ope_for_content_len(&number(6)).unwrap());
    assert!(text.ge_ope_for_content_len(&number(-6)).unwrap());
    assert!(text.le_ope_for_content_len(&number(5)).unwrap());
    assert!(!text.le_ope_for_content_len(&number(4)).unwrap());
    assert!(!text.le_ope_for_content_len(&number(-4)).unwrap());
    assert!(text.le_ope_for_content_len(&number(i64::MAX)).unwrap());

    assert!("".to_owned().eq_ope_for_content_len(&number(0)).unwrap());
    assert!(matches!(
        None::<String>.le_ope_for_content_len(&number(0)),
        Err(Error::FalsyValueHosting)
    ));
    assert!(matches!(
        text.eq_ope_for_content_len(&letters(&["5"])),
        Err(Error::NotADecimal { .. })
    ));
}

#[test]
fn absent_values_are_told_from_present_ones() {
    assert_eq!(Some(7).unwrap_or_falsey_hosting().unwrap(), &7);
    assert!(matches!(
        None::<i32>.unwrap_or_falsey_hosting(),
        Err(Error::FalsyValueHosting)
    ));
}

#[test]
fn strings_and_characters_convert_both_ways() {
    assert_eq!(chars_of("说：a"), vec!['说', '：', 'a']);
    assert_eq!(chars_of(""), Vec::<char>::new());
    assert_eq!(string_of(&['说', '：', 'a']), "说：a");
    assert_eq!(string_of(&[]), "");
}

#[test]
fn lexer_gives_tokens_spans_and_texts() {
    let input = chars(r#"(message.text any {"说：" "b"})"#);
    let mut lexer = Lexer::new(&input);

    assert!(!lexer.is_end());
    assert!(lexer.output().is_empty());
    assert_eq!(lexer.input(), &input[..]);

    lexer.tokenize().unwrap();

    assert!(lexer.is_end());
    assert_eq!(
        lexer.output(),
        &vec![
            Token::OpenParenthesis,
            Token::Field,
            Token::Operator,
            Token::OpenBrace,
            Token::Quote,
            Token::Letter,
            Token::Quote,
            Token::Quote,
            Token::Letter,
            Token::Quote,
            Token::CloseBrace,
            Token::CloseParenthesis,
            Token::EOF,
        ]
    );
    let span = |begin, end| Position { begin, end };
    assert_eq!(
        lexer.positions(),
        &vec![
            span(0, 1),
            span(1, 13),
            span(14, 17),
            span(18, 19),
            span(19, 20),
            span(20, 22),
            span(22, 23),
            span(24, 25),
            span(25, 26),
            span(26, 27),
            span(27, 28),
            span(28, 29),
            span(29, 29),
        ]
    );
    assert_eq!(
        lexer.data_owner(),
        vec!["(", "message.text", "any", "{", "\"", "说：", "\"", "\"", "b", "\"", "}", ")", ""]
    );
    let data = lexer.data();
    assert_eq!(data.len(), 13);
    assert_eq!(data[5], &['说', '：']);
    let mapping = lexer.token_data().unwrap();
    assert_eq!(mapping.len(), 13);
    assert_eq!(mapping[1], (&Token::Field, &input[1..13]));

    // A second run starts over and finds the same.
    lexer.tokenize().unwrap();
    assert_eq!(lexer.output().len(), 13);
    assert_eq!(lexer.positions().len(), 13);
}

#[test]
fn lexer_tells_keywords_from_words() {
    let tokens = |rule: &str| {
        let input = chars(rule);
        let mut lexer = Lexer::new(&input);
        lexer.tokenize().map(|_| lexer.token_data_owner().unwrap())
    };

    // A word that begins like a keyword is a field.
    let found = tokens("(android and notable)").unwrap();
    assert_eq!(
        found,
        vec![
            (Token::OpenParenthesis, "(".to_owned()),
            (Token::Field, "android".to_owned()),
            (Token::And, "and".to_owned()),
            (Token::Field, "notable".to_owned()),
            (Token::CloseParenthesis, ")".to_owned()),
            (Token::EOF, "".to_owned()),
        ]
    );
    let found = tokens("(order or 1)").unwrap();
    assert_eq!(found[1], (Token::Field, "order".to_owned()));
    assert_eq!(found[2], (Token::Operator, "or".to_owned()));
    assert_eq!(found[3], (Token::Integer, "1".to_owned()));

    // Between groups a word is no token.
    assert!(matches!(
        tokens("(a) order"),
        Err(Error::ParseFailed { column: 5 })
    ));

    // `and`, `or` and `not` are keywords only before a white space.
    let found = tokens("(a)or (b)").unwrap();
    assert_eq!(found[3], (Token::Or, "or".to_owned()));
    assert!(matches!(
        tokens("(a) or(b)"),
        Err(Error::ParseFailed { column: 5 })
    ));
    let found = tokens("(not\nx)").unwrap();
    assert_eq!(found[1], (Token::Not, "not".to_owned()));
    assert_eq!(found[2], (Token::Field, "x".to_owned()));
    let found = tokens("(not)").unwrap();
    assert_eq!(found[1], (Token::Field, "not".to_owned()));
    let found = tokens("(x and\ny)").unwrap();
    assert_eq!(found[2], (Token::And, "and".to_owned()));
    let found = tokens("(x and)").unwrap();
    assert_eq!(found[2], (Token::Operator, "and".to_owned()));

    // A tab is no white space.
    let found = tokens("(x\ty)").unwrap();
    assert_eq!(found[1], (Token::Field, "x\ty".to_owned()));
}

#[test]
fn parser_runs_the_lexer_where_it_has_not_run() {
    let input = chars("(message.photo)");
    let mut lexer = Lexer::new(&input);
    let mut matcher = Parser::new(&mut lexer).unwrap().parse().unwrap();
    assert!(!matcher.match_message(&Message::default()).unwrap());

    let input = chars("(message.photo");
    let mut lexer = Lexer::new(&input);
    assert!(matches!(
        Parser::new(&mut lexer).unwrap().parse(),
        Err(Error::ShouldCloseParenthesisHere { column: 14 })
    ));

    let input = chars("(message.text eq \"a)");
    let mut lexer = Lexer::new(&input);
    assert!(matches!(
        Parser::new(&mut lexer),
        Err(Error::MissingQuote { column: 19 })
    ));

    let input = chars("");
    let mut lexer = Lexer::new(&input);
    assert!(matches!(
        Parser::new(&mut lexer).unwrap().parse(),
        Err(Error::ShouldOpenParenthesisHere { column: 0 })
    ));
}

#[test]
fn full_name_joins_the_names_with_a_space() {
    let mut user = User {
        first_name: "Ferris".to_owned(),
        ..Default::default()
    };
    assert_eq!(user.full_name(), "Ferris");

    user.last_name = Some("Crab".to_owned());
    assert_eq!(user.full_name(), "Ferris Crab");

    let message = Message {
        from: Some(user),
        ..Default::default()
    };
    assert!(rule_match(r#"(message.from.full_name eq "Ferris Crab")"#, &message).unwrap());
    assert!(rule_match(r#"(message.from.full_name hd "Ferris ")"#, &message).unwrap());
    assert!(rule_match(r#"(message.from.first_name eq "Ferris")"#, &message).unwrap());
}

#[test]
fn fields_read_the_objects_of_the_message() {
    let message = Message {
        animation: Some(Animation {
            duration: 12,
            file_name: Some("crab.gif".to_owned()),
            mime_type: Some("image/gif".to_owned()),
            file_size: None,
        }),
        caption: Some("a crab".to_owned()),
        location: Some(Location {
            longitude: -120,
            latitude: 35,
        }),
        ..Default::default()
    };

    assert!(rule_match("(message.animation)", &message).unwrap());
    assert!(rule_match("(message.animation.duration gt 10)", &message).unwrap());
    assert!(rule_match("(message.animation.duration le 12)", &message).unwrap());
    assert!(rule_match(r#"(message.animation.file_name hd "crab")"#, &message).unwrap());
    assert!(rule_match(r#"(message.animation.mime_type in {"image/gif"})"#, &message).unwrap());
    assert!(!rule_match("(message.animation.file_size ge 0)", &message).unwrap());
    assert!(rule_match("(not message.animation.file_size ge 0)", &message).unwrap());
    assert!(rule_match(r#"(message.caption hd "a ")"#, &message).unwrap());
    assert!(rule_match("(message.caption.len eq 6)", &message).unwrap());
    assert!(rule_match("(message.location.longitude le -120)", &message).unwrap());
    assert!(rule_match("(message.location.latitude eq 35)", &message).unwrap());
    assert!(!rule_match("(message.audio)", &message).unwrap());
    assert!(!rule_match("(message.audio.duration gt 10)", &message).unwrap());
}

#[test]
fn group_needs_each_condition() {
    let message = Message {
        text: Some("ab".to_owned()),
        ..Default::default()
    };
    let holds = |text: &str, is_negative: bool| Cont {
        is_negative,
        field: Field::MessageText,
        operator: Some(Operator::Any),
        value: Some(letters(&[text])),
    };

    assert!(group_match(&vec![holds("a", false), holds("b", false)], &message).unwrap());
    assert!(!group_match(&vec![holds("a", false), holds("c", false)], &message).unwrap());
    assert!(group_match(&vec![holds("a", false), holds("c", true)], &message).unwrap());
    assert!(group_match(&vec![], &message).unwrap());
}
