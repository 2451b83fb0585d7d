//! Behaviour of the codec on edges the wire format forces: absence
//! versus null versus false, the error taxonomy, key renaming, order
//! preservation, and the request builders.

use telegram_bot::bot::Bot;
use telegram_bot::catalog;
use telegram_bot::codec::decode;
use telegram_bot::codec::default_of;
use telegram_bot::codec::encode;
use telegram_bot::codec::ErrorKind;
use telegram_bot::codec::Value;
use telegram_bot::entity::MessageEntityType;
use telegram_bot::shape::Catalog;
use telegram_bot::shape::Field;
use telegram_bot::shape::Schema;
use telegram_bot::shape::Shape;
use telegram_bot::text::dump;
use telegram_bot::value::ValueModel;

fn cat() -> Catalog {
    catalog::standard().unwrap()
}

fn obj(entries: Vec<(&str, ValueModel)>) -> ValueModel {
    let mut out: Vec<(String, ValueModel)> = Vec::new();
    for (k, v) in entries {
        out.push((k.to_string(), v));
    }
    ValueModel::Obj(out)
}

fn txt(s: &str) -> ValueModel {
    ValueModel::Str(s.to_string())
}

#[test]
fn catalog_is_well_formed() {
    assert!(catalog::standard().is_some());
}

#[test]
fn optional_false_is_not_absent() {
    let c = cat();
    let v = obj(vec![
        ("id", ValueModel::Int(7)),
        ("is_bot", ValueModel::Bool(false)),
        ("first_name", txt("x")),
        ("can_join_groups", ValueModel::Bool(false)),
    ]);
    let rec = decode(&c, catalog::USER, &v).unwrap();
    assert!(matches!(&rec.fields[6], Value::Opt(Some(b)) if matches!(**b, Value::Bool(false))));
    let out = dump(&encode(&c, catalog::USER, &rec));
    assert_eq!(
        out,
        "{\"id\":7,\"is_bot\":false,\"first_name\":\"x\",\"can_join_groups\":false}".to_string()
    );

    let v2 = obj(vec![
        ("id", ValueModel::Int(7)),
        ("is_bot", ValueModel::Bool(false)),
        ("first_name", txt("x")),
    ]);
    let rec2 = decode(&c, catalog::USER, &v2).unwrap();
    assert!(matches!(&rec2.fields[6], Value::Opt(None)));
    let out2 = dump(&encode(&c, catalog::USER, &rec2));
    assert_eq!(out2, "{\"id\":7,\"is_bot\":false,\"first_name\":\"x\"}".to_string());
}

#[test]
fn unknown_enum_value_is_rejected() {
    let c = cat();
    let v = obj(vec![
        ("type", txt("not_a_real_type")),
        ("offset", ValueModel::Int(0)),
        ("length", ValueModel::Int(0)),
    ]);
    let e = decode(&c, catalog::MESSAGE_ENTITY, &v).unwrap_err();
    assert_eq!(e.kind, ErrorKind::UnknownEnumValue);
    assert_eq!(e.path.len(), 1);
    assert_eq!(e.path[0], "type".to_string());
}

#[test]
fn missing_required_field_is_rejected() {
    let c = cat();
    let v = obj(vec![("id", ValueModel::Int(1234)), ("first_name", txt("x"))]);
    let e = decode(&c, catalog::USER, &v).unwrap_err();
    assert_eq!(e.kind, ErrorKind::MissingRequiredField);
    assert_eq!(e.path.len(), 1);
    assert_eq!(e.path[0], "is_bot".to_string());
}

#[test]
fn nested_sequences_keep_order() {
    let c = cat();
    let v = obj(vec![(
        "keyboard",
        ValueModel::Arr(vec![
            ValueModel::Arr(vec![
                obj(vec![("text", txt("a"))]),
                obj(vec![("text", txt("b"))]),
            ]),
            ValueModel::Arr(vec![obj(vec![("text", txt("c"))])]),
        ]),
    )]);
    let rec = decode(&c, catalog::REPLY_KEYBOARD_MARKUP, &v).unwrap();
    let out = dump(&encode(&c, catalog::REPLY_KEYBOARD_MARKUP, &rec));
    assert_eq!(
        out,
        "{\"keyboard\":[[{\"text\":\"a\"},{\"text\":\"b\"}],[{\"text\":\"c\"}]]}".to_string()
    );
}

#[test]
fn self_referential_reply_round_trips() {
    let c = cat();
    let inner = obj(vec![
        ("message_id", ValueModel::Int(10)),
        ("date", ValueModel::Int(5)),
        ("chat", obj(vec![("id", ValueModel::Int(12)), ("type", txt("private"))])),
    ]);
    let v = obj(vec![
        ("message_id", ValueModel::Int(32)),
        ("date", ValueModel::Int(6)),
        ("chat", obj(vec![("id", ValueModel::Int(12)), ("type", txt("private"))])),
        ("reply_to_message", inner),
    ]);
    let rec = decode(&c, catalog::MESSAGE, &v).unwrap();
    assert!(matches!(&rec.fields[11], Value::Opt(Some(b)) if matches!(**b, Value::Rec(_))));
    let out = dump(&encode(&c, catalog::MESSAGE, &rec));
    assert_eq!(
        out,
        "{\"message_id\":32,\"date\":6,\"chat\":{\"id\":12,\"type\":\"private\"},\"reply_to_message\":{\"message_id\":10,\"date\":5,\"chat\":{\"id\":12,\"type\":\"private\"}}}".to_string()
    );
}

#[test]
fn renamed_field_reads_only_its_wire_key() {
    let c = cat();
    // the internal field name never matches on the wire
    let v = obj(vec![
        ("typ", txt("mention")),
        ("offset", ValueModel::Int(0)),
        ("length", ValueModel::Int(0)),
    ]);
    let e = decode(&c, catalog::MESSAGE_ENTITY, &v).unwrap_err();
    assert_eq!(e.kind, ErrorKind::MissingRequiredField);
    assert_eq!(e.path[0], "type".to_string());
    // and the wire key is what an encode emits
    let me = default_of(&c, catalog::MESSAGE_ENTITY);
    let out = dump(&encode(&c, catalog::MESSAGE_ENTITY, &me));
    assert_eq!(out, "{\"type\":\"mention\",\"offset\":0,\"length\":0}".to_string());
}

#[test]
fn wrong_kind_is_type_mismatch() {
    let c = cat();
    let v = obj(vec![
        ("id", txt("not a number")),
        ("is_bot", ValueModel::Bool(true)),
        ("first_name", txt("x")),
    ]);
    let e = decode(&c, catalog::USER, &v).unwrap_err();
    assert_eq!(e.kind, ErrorKind::TypeMismatch);
    assert_eq!(e.path[0], "id".to_string());
}

#[test]
fn bad_element_is_malformed_array() {
    let c = cat();
    let v = obj(vec![("users", ValueModel::Arr(vec![ValueModel::Int(5)]))]);
    let e = decode(&c, catalog::VOICE_CHAT_PARTICIPANTS_INVITED, &v).unwrap_err();
    assert_eq!(e.kind, ErrorKind::MalformedArray);
    assert_eq!(e.path[0], "users".to_string());
}

#[test]
fn error_path_names_nested_field() {
    let c = cat();
    let v = obj(vec![
        ("user", obj(vec![("id", ValueModel::Int(1))])),
        ("status", txt("creator")),
    ]);
    let e = decode(&c, catalog::CHAT_MEMBER, &v).unwrap_err();
    assert_eq!(e.kind, ErrorKind::MissingRequiredField);
    assert_eq!(e.path.len(), 2);
    assert_eq!(e.path[0], "user".to_string());
    assert_eq!(e.path[1], "is_bot".to_string());
}

#[test]
fn out_of_range_int32_is_rejected() {
    let c = cat();
    let v = obj(vec![
        ("type", txt("mention")),
        ("offset", ValueModel::Int(3_000_000_000)),
        ("length", ValueModel::Int(0)),
    ]);
    let e = decode(&c, catalog::MESSAGE_ENTITY, &v).unwrap_err();
    assert_eq!(e.kind, ErrorKind::TypeMismatch);
    assert_eq!(e.path[0], "offset".to_string());
}

#[test]
fn strings_escape_on_dump() {
    let v = ValueModel::Str("a\"b\\c\nd".to_string());
    assert_eq!(dump(&v), "\"a\\\"b\\\\c\\nd\"".to_string());
}

#[test]
fn extreme_identifiers_print_exactly() {
    assert_eq!(dump(&ValueModel::Int(i64::MAX)), "9223372036854775807".to_string());
    assert_eq!(dump(&ValueModel::Int(i64::MIN)), "-9223372036854775808".to_string());
    assert_eq!(dump(&ValueModel::Int(0)), "0".to_string());
}

#[test]
fn default_message_holds_default_chat() {
    let c = cat();
    let m = default_of(&c, catalog::MESSAGE);
    let out = dump(&encode(&c, catalog::MESSAGE, &m));
    assert_eq!(
        out,
        "{\"message_id\":0,\"date\":0,\"chat\":{\"id\":0,\"type\":\"\"}}".to_string()
    );
}

#[test]
fn ill_formed_schemas_are_refused() {
    let dup = Schema {
        fields: vec![Field::named("a", Shape::Str), Field::named("a", Shape::Bool)],
    };
    assert!(Catalog::new(vec![dup]).is_none());
    let out_of_range = Schema { fields: vec![Field::named("x", Shape::Rec(5))] };
    assert!(Catalog::new(vec![out_of_range]).is_none());
    let self_required = Schema { fields: vec![Field::named("x", Shape::Boxed(0))] };
    assert!(Catalog::new(vec![self_required]).is_none());
    let empty_table = Schema { fields: vec![Field::named("t", Shape::Choice(Vec::new()))] };
    assert!(Catalog::new(vec![empty_table]).is_none());
}

#[test]
fn render_joins_nested_and_sequence_fields() {
    let c = cat();
    let v = obj(vec![
        ("poll_id", txt("01234")),
        (
            "user",
            obj(vec![
                ("id", ValueModel::Int(123654)),
                ("is_bot", ValueModel::Bool(true)),
                ("first_name", txt("me")),
            ]),
        ),
        (
            "option_ids",
            ValueModel::Arr(vec![
                ValueModel::Int(1),
                ValueModel::Int(2),
                ValueModel::Int(3),
            ]),
        ),
    ]);
    let rec = decode(&c, catalog::POLL_ANSWER, &v).unwrap();
    let text = telegram_bot::codec::render(&c, catalog::POLL_ANSWER, &rec);
    assert_eq!(
        text,
        "poll_id: 01234; user: id: 123654; is_bot: true; first_name: me; option_ids: [1,2,3]"
            .to_string()
    );
}

#[test]
fn first_occurrence_of_a_key_wins() {
    let c = cat();
    let v = obj(vec![
        ("id", ValueModel::Int(1)),
        ("id", ValueModel::Int(2)),
        ("is_bot", ValueModel::Bool(false)),
        ("first_name", txt("x")),
    ]);
    let rec = decode(&c, catalog::USER, &v).unwrap();
    assert!(matches!(rec.fields[0], Value::Int(1)));
}

#[test]
fn entity_kinds_map_both_ways() {
    let t = MessageEntityType::from_string("cashtag").unwrap();
    assert!(matches!(t, MessageEntityType::Cashtag));
    assert_eq!(t.wire_str(), "cashtag".to_string());
    assert_eq!(t.table_index(), 2);
    assert_eq!(
        MessageEntityType::TextMention.wire_str(),
        "text_mention".to_string()
    );
    assert!(MessageEntityType::from_string("not_a_real_type").is_none());
}

#[test]
fn request_percent_encodes_arguments() {
    let c = cat();
    let bot = Bot::new("k0".to_string());
    let req = bot.send_message(
        &c,
        5,
        "hi there",
        None,
        None,
        None,
        None,
        None,
        None,
        None,
        None,
        None,
        None,
    );
    assert_eq!(req.method, "sendMessage".to_string());
    assert_eq!(req.parameters, "chat_id=5&text=hi%20there".to_string());
    let url = bot.request_url(&req);
    assert_eq!(
        url,
        "https://api.telegram.org/botk0/sendMessage?chat_id=5&text=hi%20there"
            .to_string()
    );
}

#[test]
fn record_arguments_travel_encoded() {
    let c = cat();
    let bot = Bot::new("k".to_string());
    let v = obj(vec![("can_send_messages", ValueModel::Bool(true))]);
    let perms = decode(&c, catalog::CHAT_PERMISSIONS, &v).unwrap();
    let req = bot.restrict_chat_member(&c, 1, 2, &perms, None);
    assert_eq!(req.method, "restrictChatMember".to_string());
    assert_eq!(
        req.parameters,
        "chat_id=1&user_id=2&permissions=%7B%22can_send_messages%22%3Atrue%7D".to_string()
    );
}

#[test]
fn string_lists_travel_as_encoded_arrays() {
    let c = cat();
    let bot = Bot::new("k0".to_string());
    let options = vec!["ja".to_string(), "nein".to_string()];
    let req = bot.send_poll(
        &c,
        1,
        "right?",
        &options,
        None,
        None,
        None,
        None,
        None,
        None,
        None,
        None,
        None,
        None,
        None,
        None,
        None,
        None,
        None,
        None,
        None,
    );
    assert_eq!(req.method, "sendPoll".to_string());
    assert_eq!(
        req.parameters,
        "chat_id=1&question=right%3F&options=%5B%22ja%22%2C%22nein%22%5D".to_string()
    );
}

#[test]
fn poll_type_argument_uses_its_wire_key() {
    let c = cat();
    let bot = Bot::new("k0".to_string());
    let options = vec!["a".to_string(), "b".to_string()];
    let req = bot.send_poll(
        &c,
        1,
        "q",
        &options,
        None,
        Some("quiz"),
        None,
        None,
        None,
        None,
        None,
        None,
        None,
        None,
        None,
        None,
        None,
        None,
        None,
        None,
        None,
    );
    assert_eq!(
        req.parameters,
        "chat_id=1&question=q&options=%5B%22a%22%2C%22b%22%5D&type=quiz".to_string()
    );
}

#[test]
fn long_poll_cursor_advances_after_a_batch() {
    let c = cat();
    let mut bot = Bot::new("k".to_string());
    let req = bot.get_updates(Some(10), None, None);
    assert_eq!(req.method, "getUpdates".to_string());
    assert_eq!(req.parameters, "offset=0&limit=10".to_string());

    let batch = obj(vec![
        ("ok", ValueModel::Bool(true)),
        (
            "result",
            ValueModel::Arr(vec![obj(vec![("update_id", ValueModel::Int(41))])]),
        ),
    ]);
    let updates =
        telegram_bot::bot::decode_response_list(&c, catalog::UPDATE, &batch).unwrap();
    assert_eq!(updates.len(), 1);
    bot.advance_cursor(&updates);
    assert_eq!(bot.updates_ack().parameters, "offset=42".to_string());
}

#[test]
fn failed_result_decodes_surface_their_error() {
    let c = cat();
    // a result whose record is malformed: the error kind and failing
    // wire-key path reach the caller
    let bad = obj(vec![
        ("ok", ValueModel::Bool(true)),
        ("result", obj(vec![("id", ValueModel::Int(1)), ("first_name", txt("x"))])),
    ]);
    let e = telegram_bot::bot::read_response(&c, catalog::USER, &bad)
        .unwrap()
        .unwrap_err();
    assert_eq!(e.kind, ErrorKind::MissingRequiredField);
    assert_eq!(e.path[0], "is_bot".to_string());
    // a non-ok reply carries no result at all
    let not_ok = obj(vec![("ok", ValueModel::Bool(false))]);
    assert!(telegram_bot::bot::read_response(&c, catalog::USER, &not_ok).is_none());
    // a good result decodes as usual
    let good = obj(vec![
        ("ok", ValueModel::Bool(true)),
        (
            "result",
            obj(vec![
                ("id", ValueModel::Int(1)),
                ("is_bot", ValueModel::Bool(false)),
                ("first_name", txt("x")),
            ]),
        ),
    ]);
    assert!(telegram_bot::bot::read_response(&c, catalog::USER, &good).unwrap().is_ok());
}

#[test]
fn ingest_keeps_the_cursor_unless_a_batch_advances_it() {
    let c = cat();
    let mut bot = Bot::new("k0".to_string());
    // a failed reply leaves the cursor alone
    let not_ok = obj(vec![("ok", ValueModel::Bool(false))]);
    assert!(bot.ingest_updates(&c, &not_ok).is_none());
    assert_eq!(bot.updates_ack().parameters, "offset=0".to_string());
    // an empty batch leaves it alone too
    let empty = obj(vec![("ok", ValueModel::Bool(true)), ("result", ValueModel::Arr(vec![]))]);
    assert!(bot.ingest_updates(&c, &empty).is_none());
    assert_eq!(bot.updates_ack().parameters, "offset=0".to_string());
    // a decoded batch advances it past the last update
    let batch = obj(vec![
        ("ok", ValueModel::Bool(true)),
        (
            "result",
            ValueModel::Arr(vec![
                obj(vec![("update_id", ValueModel::Int(7))]),
                obj(vec![("update_id", ValueModel::Int(9))]),
            ]),
        ),
    ]);
    let updates = bot.ingest_updates(&c, &batch).unwrap();
    assert_eq!(updates.len(), 2);
    assert_eq!(bot.updates_ack().parameters, "offset=10".to_string());
}

#[test]
fn response_readers_follow_the_discriminator() {
    let ok_true = obj(vec![("ok", ValueModel::Bool(true)), ("result", ValueModel::Bool(true))]);
    assert!(telegram_bot::bot::decode_response_bool(&ok_true));
    let ok_false = obj(vec![("ok", ValueModel::Bool(false)), ("result", ValueModel::Bool(true))]);
    assert!(!telegram_bot::bot::decode_response_bool(&ok_false));
    let no_ok = obj(vec![("result", ValueModel::Bool(true))]);
    assert!(!telegram_bot::bot::decode_response_bool(&no_ok));

    let c = cat();
    let user_reply = obj(vec![
        ("ok", ValueModel::Bool(true)),
        (
            "result",
            obj(vec![
                ("id", ValueModel::Int(9)),
                ("is_bot", ValueModel::Bool(true)),
                ("first_name", txt("me")),
            ]),
        ),
    ]);
    let user = telegram_bot::bot::decode_response(&c, catalog::USER, &user_reply).unwrap();
    assert_eq!(
        dump(&encode(&c, catalog::USER, &user)),
        "{\"id\":9,\"is_bot\":true,\"first_name\":\"me\"}".to_string()
    );
    assert_eq!(
        telegram_bot::bot::decode_response_string(&obj(vec![
            ("ok", ValueModel::Bool(true)),
            ("result", txt("https://x"))
        ]))
        .unwrap(),
        "https://x".to_string()
    );
    assert_eq!(
        telegram_bot::bot::decode_response_i32(&obj(vec![
            ("ok", ValueModel::Bool(true)),
            ("result", ValueModel::Int(7))
        ])),
        7
    );
}
