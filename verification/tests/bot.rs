use serde_json::Value;
use telegram_types::bot::inline_mode;
use telegram_types::bot::methods::{self, decode_envelope, decode_update_list, ChatTarget};
use telegram_types::bot::types::{self, ChatType, FileToSend, InputFile, MessageEntityKind};
use telegram_types::json::{parse_document, DecodeError, Json, JsonKind, UnionKind};

/// The serde_json form of a document tree.
fn to_value(j: &Json) -> Value {
    match j {
        Json::Null => Value::Null,
        Json::Bool(b) => Value::Bool(*b),
        Json::Int(n) => Value::from(*n),
        Json::BigNum(s) => s.parse::<f64>().map(Value::from).unwrap(),
        Json::Str(s) => Value::String(s.clone()),
        Json::Arr(items) => Value::Array(items.iter().map(to_value).collect()),
        Json::Obj(entries) => Value::Object(
            entries
                .iter()
                .map(|(k, x)| (k.clone(), to_value(x)))
                .collect(),
        ),
    }
}

fn parse(raw: &str) -> Json {
    parse_document(raw).unwrap()
}

fn from_result(raw: &str) -> Json {
    let envelope = decode_envelope(&parse(raw)).unwrap();
    envelope.result.unwrap()
}

#[test]
fn get_me() {
    let raw = r#"{"ok": true, "result": {"id": 7, "is_bot": true, "first_name": "Cocona"}}"#;
    types::User::from_json(&from_result(raw)).unwrap();
}

#[test]
fn empty_inline_keyboard_markup() {
    let raw = r#"{"ok": true, "result": {}}"#;
    types::InlineKeyboardMarkup::from_json(&from_result(raw)).unwrap();
}

#[test]
fn empty_reply_keyboard_markup() {
    let raw = r#"{"ok": true, "result": {}}"#;
    types::ReplyKeyboardMarkup::from_json(&from_result(raw)).unwrap();
}

#[test]
fn fake_inline_keyboard_markup() {
    let raw = r#"{"ok": true, "result": {"inline_keyboard": [[{"text": "Pure Illusion", "flip": "flap"}]]}}"#;
    let markup = types::InlineKeyboardMarkup::from_json(&from_result(raw)).unwrap();
    println!("{:?}", markup)
}

#[test]
fn fake_illegal_inline_keyboard_markup() {
    let raw = r#"{"ok": true, "result": {"inline_keyboard": [[{"text": "Papika", "uri": "not-a-button-member"}]]}}"#;
    let markup = types::InlineKeyboardMarkup::from_json(&from_result(raw)).unwrap();
    assert_eq!(
        markup.inline_keyboard[0][0].pressed,
        types::InlineKeyboardButtonPressed::Unknown
    );
}

#[test]
fn chat() {
    let raw = r#"{"id": 5, "type": "private", "first_name": "Mimi"}"#;
    let chat = types::Chat::from_json(&parse(raw)).unwrap();
    assert_eq!(chat.id, types::ChatId(5));
}

#[test]
fn message() {
    let raw = r#"{"message_id": 1, "date": 1, "text": "hello",
                  "chat": {"id": 5, "type": "private", "first_name": "Mimi"}}"#;
    let message = types::Message::from_json(&parse(raw)).unwrap();
    assert_eq!(message.text, Some("hello".to_string()));
}

#[test]
fn update() {
    let raw = r#"{"ok": true, "result": [{"update_id": 10,
        "message": {"message_id": 1, "date": 1,
                    "chat": {"id": 5, "type": "private", "first_name": "Mimi"}}}]}"#;
    let updates = decode_update_list(&parse(raw)).unwrap();
    let batch = updates.result.unwrap();
    assert_eq!(batch[0].update_id, types::UpdateId(10));
    assert!(matches!(
        batch[0].content,
        Some(types::UpdateContent::Message(_))
    ));
}

#[test]
fn update_my_chat_member() {
    let raw = r#"{"ok": true, "result": [{"update_id": 11, "my_chat_member": {}}]}"#;
    let updates = decode_update_list(&parse(raw)).unwrap();
    let batch = updates.result.unwrap();
    assert!(matches!(
        batch[0].content,
        Some(types::UpdateContent::MyChatMember(_))
    ));
}

#[test]
fn failure() {
    let raw = r#"{"ok": false, "error_code": 401, "description": "Unauthorized"}"#;
    let update = decode_update_list(&parse(raw)).unwrap();
    assert!(update.result.is_none());
    assert_eq!(update.error_code, Some(401));
    assert_eq!(update.description, Some("Unauthorized".to_string()))
}

#[test]
fn send_message() {
    let id = methods::ChatTarget::id(42);
    let params = methods::SendMessage::new(id, "hello, world");
    assert_eq!(params.text, "hello, world".to_string());
    assert_eq!(params.chat_id, methods::ChatTarget::Id(types::ChatId(42)));
    let body = params.to_json();
    match body {
        Json::Obj(ref entries) => {
            assert_eq!(entries[0], ("chat_id".to_string(), Json::Int(42)));
            assert_eq!(
                entries[1],
                ("text".to_string(), Json::Str("hello, world".to_string()))
            );
        },
        _ => panic!("request body must be an object"),
    }
}

#[test]
fn unknown() {
    let raw = "\"Flip Flappers\"";
    let message_entity_type = MessageEntityKind::from_json(&parse(raw)).unwrap();
    assert_eq!(message_entity_type, MessageEntityKind::Unknown);
    let raw = r#"{"type": "Papika", "Cocona": "Mimi"}"#;
    let chat_type = match parse(raw) {
        Json::Obj(entries) => ChatType::from_fields(&entries).unwrap(),
        _ => panic!(),
    };
    assert_eq!(chat_type, ChatType::Unknown);
}

#[test]
fn file_id() {
    let file_id = types::FileId("42".to_string());
    let file_to_send = FileToSend::FileId(file_id);
    let file_id_serialized = to_value(&file_to_send.to_json()).to_string();
    let reparsed = parse(&file_id_serialized);
    let file_id_deserialized = FileToSend::from_json(&reparsed);
    assert_eq!(file_id_serialized, "\"42\"".to_string());
    assert_eq!(file_id_deserialized.unwrap(), file_to_send);
}

#[test]
fn input_file() {
    let input_file = InputFile::new("cocona.webp");
    let input_file = FileToSend::InputFile(input_file);
    let input_file_serialized = to_value(&input_file.to_json()).to_string();
    assert_eq!(input_file_serialized, r#""attach://cocona.webp""#);
}

#[test]
fn parse_mode_round_trip() {
    for mode in [
        types::ParseMode::Markdown,
        types::ParseMode::MarkdownV2,
        types::ParseMode::HTML,
    ] {
        let encoded = mode.to_json();
        assert_eq!(types::ParseMode::from_json(&encoded).unwrap(), mode);
    }
}

#[test]
fn entity_kind_round_trip() {
    for kind in [
        MessageEntityKind::Mention,
        MessageEntityKind::BotCommand,
        MessageEntityKind::TextLink,
    ] {
        let encoded = kind.to_json();
        assert_eq!(MessageEntityKind::from_json(&encoded).unwrap(), kind);
    }
}

#[test]
fn member_status_round_trip() {
    for status in [
        types::ChatMemberStatus::Creator,
        types::ChatMemberStatus::Kicked,
    ] {
        let encoded = status.to_json();
        assert_eq!(types::ChatMemberStatus::from_json(&encoded).unwrap(), status);
    }
}

#[test]
fn chat_target_priority() {
    let id = ChatTarget::id(-100123);
    let round = ChatTarget::from_json(&id.to_json()).unwrap();
    assert_eq!(round, id);
    let name = ChatTarget::username("@flip");
    let round = ChatTarget::from_json(&name.to_json()).unwrap();
    assert_eq!(round, name);
}

#[test]
fn update_id_arithmetic() {
    assert_eq!(types::UpdateId(5).plus(1), types::UpdateId(6));
    let batch_last = types::UpdateId(41);
    assert_eq!(methods::next_offset(batch_last), types::UpdateId(42));
}

#[test]
fn envelope_success_needs_result() {
    let raw = r#"{"ok": true}"#;
    let envelope = decode_update_list(&parse(raw)).unwrap();
    let err = envelope.into_result().unwrap_err();
    assert_eq!(err.error_code, 0);
}

#[test]
fn envelope_success_projection() {
    let raw = r#"{"ok": true, "result": []}"#;
    let envelope = decode_update_list(&parse(raw)).unwrap();
    let batch = envelope.into_result().unwrap();
    assert!(batch.is_empty());
}

#[test]
fn update_without_known_member_is_unknown() {
    let raw = r#"{"ok": true, "result": [{"update_id": 3, "giga_query": {"x": 1}}]}"#;
    let updates = decode_update_list(&parse(raw)).unwrap();
    let batch = updates.result.unwrap();
    assert!(batch[0].content.is_none());
    assert_eq!(
        types::UpdateContent::default(),
        types::UpdateContent::Unknown
    );
}

#[test]
fn recognized_member_with_bad_payload_fails() {
    let raw = r#"{"update_id": 3, "message": {"message_id": "not-a-number"}}"#;
    let err = types::Update::from_json(&parse(raw)).unwrap_err();
    assert_eq!(err, DecodeError::WrongType);
}

#[test]
fn missing_required_member_fails() {
    let raw = r#"{"is_bot": false, "first_name": "A"}"#;
    let err = types::User::from_json(&parse(raw)).unwrap_err();
    assert_eq!(err, DecodeError::MissingField);
}

#[test]
fn union_with_no_branch_fails() {
    let err = ChatTarget::from_json(&Json::Bool(true)).unwrap_err();
    assert_eq!(
        err,
        DecodeError::NoVariantMatched(UnionKind::ChatTarget, JsonKind::Bool)
    );
}

#[test]
fn user_round_trip() {
    let user = types::User {
        id: types::UserId(7),
        is_bot: false,
        first_name: "Cocona".to_string(),
        last_name: None,
        username: Some("cocona".to_string()),
        language_code: None,
    };
    let round = types::User::from_json(&user.to_json()).unwrap();
    assert_eq!(round, user);
}

#[test]
fn time_decodes_from_bare_number() {
    assert_eq!(
        types::Time::from_json(&Json::Int(1234567890)).unwrap(),
        types::Time(1234567890)
    );
    assert!(types::Time::from_json(&Json::Int(-1)).is_err());
}

#[test]
fn parse_document_binds_text_to_the_tree() {
    let j = parse_document("{\"ok\":true,\"result\":[]}").unwrap();
    let env = decode_envelope(&j).unwrap();
    assert!(env.ok);
    assert_eq!(env.result, Some(Json::Arr(Vec::new())));
    assert_eq!(parse_document("{not json").unwrap_err(), DecodeError::Syntax);
}

#[test]
fn input_media_round_trips_through_the_wire() {
    let m = methods::InputMedia::Photo {
        media: FileToSend::FileId(types::FileId("42".to_string())),
        caption: Some("c".to_string()),
        parse_mode: None,
    };
    let j = m.to_json();
    assert_eq!(methods::InputMedia::from_json(&j).unwrap(), m);
}

#[test]
fn input_media_unknown_tag_falls_back() {
    let raw = r#"{"type": "Papika", "media": "x"}"#;
    let got = methods::InputMedia::from_json(&parse(raw)).unwrap();
    assert_eq!(got, methods::InputMedia::Unknown);
}

#[test]
fn send_message_encodes_only_present_members() {
    let req = methods::SendMessage::new(ChatTarget::id(1), "hi");
    let expected = Json::Obj(vec![
        ("chat_id".to_string(), Json::Int(1)),
        ("text".to_string(), Json::Str("hi".to_string())),
        ("disable_web_page_preview".to_string(), Json::Bool(false)),
        ("disable_notification".to_string(), Json::Bool(false)),
    ]);
    assert_eq!(req.to_json(), expected);
}

#[test]
fn reply_markup_decodes_by_branch_priority() {
    // The inline-keyboard branch is tried first and accepts any object,
    // since its only member may be absent; an object shaped for a later
    // branch therefore still decodes as an empty inline keyboard. That
    // residual ambiguity is part of the wire format.
    let raw = r#"{"force_reply": true}"#;
    let got = methods::ReplyMarkup::from_json(&parse(raw)).unwrap();
    match got {
        methods::ReplyMarkup::InlineKeyboard(k) => assert!(k.inline_keyboard.is_empty()),
        other => panic!("wrong branch: {:?}", other),
    }
    // A non-object matches no branch, and the error names the union and
    // the JSON type of the value.
    let err = methods::ReplyMarkup::from_json(&Json::Str("x".to_string())).unwrap_err();
    assert_eq!(
        err,
        DecodeError::NoVariantMatched(UnionKind::ReplyMarkup, JsonKind::Str)
    );
}

#[test]
fn message_id_result_round_trips() {
    let v = types::MessageIdResult {
        message_id: types::MessageId(7),
    };
    let j = v.to_json();
    assert_eq!(j, Json::Obj(vec![("message_id".to_string(), Json::Int(7))]));
    assert_eq!(types::MessageIdResult::from_json(&j).unwrap(), v);
}

#[test]
fn webhook_info_decodes_and_round_trips() {
    let raw = r#"{
        "url": "https://example.invalid/hook",
        "has_custom_certificate": false,
        "pending_update_count": 3,
        "last_error_date": 1500000000,
        "last_error_message": "connection refused"
    }"#;
    let info = types::WebhookInfo::from_json(&parse(raw)).unwrap();
    assert_eq!(info.url, "https://example.invalid/hook".to_string());
    assert!(!info.has_custom_certificate);
    assert_eq!(info.pending_update_count, 3);
    assert_eq!(info.last_error_date, Some(types::Time(1500000000)));
    assert_eq!(
        info.last_error_message,
        Some("connection refused".to_string())
    );
    assert_eq!(info.max_connections, None);
    let again = types::WebhookInfo::from_json(&info.to_json()).unwrap();
    assert_eq!(again, info);
}

#[test]
fn input_message_content_text_branch_wins() {
    let raw = r#"{"message_text": "hi"}"#;
    let got = inline_mode::InputMessageContent::from_json(&parse(raw)).unwrap();
    match got {
        inline_mode::InputMessageContent::Text(t) => {
            assert_eq!(t.message_text, "hi".to_string());
            assert_eq!(t.parse_mode, None);
        },
        other => panic!("wrong branch: {:?}", other),
    }
}

#[test]
fn input_message_content_location_stays_raw() {
    let raw = r#"{"latitude": 1.25, "longitude": -3.5}"#;
    let doc = parse(raw);
    let got = inline_mode::InputMessageContent::from_json(&doc).unwrap();
    match got {
        inline_mode::InputMessageContent::Location(d) => assert_eq!(d, doc),
        other => panic!("wrong branch: {:?}", other),
    }
}

#[test]
fn inline_query_result_article_round_trips() {
    let article = inline_mode::InlineQueryResultArticle {
        id: inline_mode::ResultId("r1".to_string()),
        title: "title".to_string(),
        input_message_content: inline_mode::InputMessageContent::Text(
            inline_mode::InputTextMessageContent {
                message_text: "hi".to_string(),
                parse_mode: None,
                disable_web_page_preview: Some(true),
            },
        ),
        reply_markup: None,
        url: Some("https://example.invalid".to_string()),
        hide_url: None,
        description: None,
        thumb_url: None,
        thumb_width: None,
        thumb_height: None,
    };
    let v = inline_mode::InlineQueryResult::Article(article);
    let j = v.to_json();
    match &j {
        Json::Obj(entries) => assert_eq!(
            entries[0],
            ("type".to_string(), Json::Str("article".to_string()))
        ),
        _ => panic!("result must be an object"),
    }
    assert_eq!(inline_mode::InlineQueryResult::from_json(&j).unwrap(), v);
}

#[test]
fn get_updates_offset_encodes_as_cursor() {
    let mut params = methods::GetUpdates::new();
    params.offset(methods::next_offset(types::UpdateId(41)));
    let body = params.to_json();
    assert_eq!(
        body,
        Json::Obj(vec![("offset".to_string(), Json::Int(42))])
    );
}

#[test]
fn inline_keyboard_button_round_trips() {
    let button = types::InlineKeyboardButton {
        text: "go".to_string(),
        pressed: types::InlineKeyboardButtonPressed::LoginUrl(types::LoginUrl {
            url: "https://example.invalid/auth".to_string(),
            forward_text: None,
            bot_username: None,
            request_write_access: Some(true),
        }),
    };
    let j = button.to_json();
    assert_eq!(types::InlineKeyboardButton::from_json(&j).unwrap(), button);
}

#[test]
fn chat_round_trips_through_the_wire() {
    let raw = r#"{"id": 5, "type": "supergroup", "title": "Pure Illusion",
                  "username": "flipflap", "all_members_are_administrators": false}"#;
    let chat = types::Chat::from_json(&parse(raw)).unwrap();
    let again = types::Chat::from_json(&chat.to_json()).unwrap();
    assert_eq!(again, chat);
    match again.kind {
        ChatType::Supergroup { ref title, ref username, .. } => {
            assert_eq!(title, &"Pure Illusion".to_string());
            assert_eq!(username, &Some("flipflap".to_string()));
        },
        other => panic!("wrong kind: {:?}", other),
    }
}
