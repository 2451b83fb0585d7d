//! Round-trip and behaviour tests of the codec against the record
//! catalogue, plus request building and the error taxonomy.

use telegram_bot::catalog;
use telegram_bot::codec::decode;
use telegram_bot::codec::default_of;
use telegram_bot::codec::encode;
use telegram_bot::codec::render;
use telegram_bot::codec::Value;
use telegram_bot::shape::Catalog;
use telegram_bot::text::dump;
use telegram_bot::value::ValueModel;

fn cat() -> Catalog {
    catalog::standard().unwrap()
}

// A small reader for the compact JSON of the expected strings below,
// used only to build test inputs; the library's own serializer is what
// the assertions check.
fn parse(s: &str) -> ValueModel {
    let b = s.as_bytes();
    let mut pos = 0usize;
    parse_value(b, &mut pos)
}

fn parse_value(b: &[u8], pos: &mut usize) -> ValueModel {
    match b[*pos] {
        b'{' => {
            *pos += 1;
            let mut entries: Vec<(String, ValueModel)> = Vec::new();
            if b[*pos] == b'}' {
                *pos += 1;
                return ValueModel::Obj(entries);
            }
            loop {
                let key = parse_string(b, pos);
                assert_eq!(b[*pos], b':');
                *pos += 1;
                let v = parse_value(b, pos);
                entries.push((key, v));
                if b[*pos] == b',' {
                    *pos += 1;
                } else {
                    break;
                }
            }
            assert_eq!(b[*pos], b'}');
            *pos += 1;
            ValueModel::Obj(entries)
        }
        b'[' => {
            *pos += 1;
            let mut elems: Vec<ValueModel> = Vec::new();
            if b[*pos] == b']' {
                *pos += 1;
                return ValueModel::Arr(elems);
            }
            loop {
                elems.push(parse_value(b, pos));
                if b[*pos] == b',' {
                    *pos += 1;
                } else {
                    break;
                }
            }
            assert_eq!(b[*pos], b']');
            *pos += 1;
            ValueModel::Arr(elems)
        }
        b'"' => ValueModel::Str(parse_string(b, pos)),
        b't' => {
            *pos += 4;
            ValueModel::Bool(true)
        }
        b'f' => {
            *pos += 5;
            ValueModel::Bool(false)
        }
        b'n' => {
            *pos += 4;
            ValueModel::Null
        }
        _ => {
            let start = *pos;
            let mut fractional = false;
            while *pos < b.len() {
                let c = b[*pos];
                if c == b'.' {
                    fractional = true;
                    *pos += 1;
                } else if c == b'-' || (b'0'..=b'9').contains(&c) {
                    *pos += 1;
                } else {
                    break;
                }
            }
            let text = std::str::from_utf8(&b[start..*pos]).unwrap().to_string();
            if fractional {
                ValueModel::Big(text)
            } else {
                ValueModel::Int(text.parse::<i64>().unwrap())
            }
        }
    }
}

fn parse_string(b: &[u8], pos: &mut usize) -> String {
    assert_eq!(b[*pos], b'"');
    *pos += 1;
    let start = *pos;
    while b[*pos] != b'"' {
        *pos += 1;
    }
    let s = std::str::from_utf8(&b[start..*pos]).unwrap().to_string();
    *pos += 1;
    s
}

// Decodes the reference, re-encodes it, and expects the exact bytes
// back: the round-trip law on one concrete value.
fn round_trip(id: usize, reference: &str) {
    let c = cat();
    let v = parse(reference);
    let rec = decode(&c, id, &v).unwrap();
    let out = encode(&c, id, &rec);
    let actual = dump(&out);
    assert_eq!(actual, reference.to_string());
}

#[test]
fn test_input_media_photo() {
    round_trip(catalog::INPUT_MEDIA, r#"{"type":"photo","media":"test1234","caption_entities":[{"type":"mention","offset":0,"length":0},{"type":"mention","offset":1,"length":0}]}"#);
}

#[test]
fn test_chat_photo() {
    round_trip(catalog::CHAT_PHOTO, r#"{"small_file_id":"1","small_file_unique_id":"1234","big_file_id":"2","big_file_unique_id":"2345"}"#);
}

#[test]
fn test_chat_invite_link() {
    round_trip(catalog::CHAT_INVITE_LINK, r#"{"invite_link":"hello","creator":{"id":1234,"is_bot":true,"first_name":"groot"},"is_primary":true,"is_revoked":false}"#);
}

#[test]
fn test_chat_member() {
    round_trip(catalog::CHAT_MEMBER, r#"{"user":{"id":1234,"is_bot":true,"first_name":"groot"},"status":"creator"}"#);
}

#[test]
fn test_chat_permissions() {
    round_trip(catalog::CHAT_PERMISSIONS, r#"{"can_send_messages":true}"#);
}

#[test]
fn test_bot_command() {
    round_trip(catalog::BOT_COMMAND, r#"{"command":"do_it","description":"Lets do it"}"#);
}

#[test]
fn test_response_parameters() {
    round_trip(catalog::RESPONSE_PARAMETERS, r#"{"migrate_to_chat_id":1,"retry_after":120}"#);
}

#[test]
fn test_photo_size() {
    round_trip(catalog::PHOTO_SIZE, r#"{"file_id":"1","file_unique_id":"1234","width":800,"height":600,"file_size":1024}"#);
}

#[test]
fn test_animation() {
    round_trip(catalog::ANIMATION, r#"{"file_id":"1","file_unique_id":"12345","width":600,"height":800,"duration":10,"thumb":{"file_id":"1","file_unique_id":"1234","width":800,"height":600}}"#);
}

#[test]
fn test_audio() {
    round_trip(catalog::AUDIO, r#"{"file_id":"1","file_unique_id":"12345","duration":60}"#);
}

#[test]
fn test_document() {
    round_trip(catalog::DOCUMENT, r#"{"file_id":"1","file_unique_id":"12345"}"#);
}

#[test]
fn test_video() {
    round_trip(catalog::VIDEO, r#"{"file_id":"1","file_unique_id":"12345","width":800,"height":600,"duration":24}"#);
}

#[test]
fn test_video_note() {
    round_trip(catalog::VIDEO_NOTE, r#"{"file_id":"1","file_unique_id":"12345","length":120,"duration":10}"#);
}

#[test]
fn test_voice() {
    round_trip(catalog::VOICE, r#"{"file_id":"1","file_unique_id":"12345","duration":5}"#);
}

#[test]
fn test_contact() {
    round_trip(catalog::CONTACT, r#"{"phone_number":"01234","first_name":"me","user_id":1234567890}"#);
}

#[test]
fn test_dice() {
    round_trip(catalog::DICE, r#"{"emoji":"dice","value":4}"#);
}

#[test]
fn test_poll_option() {
    round_trip(catalog::POLL_OPTION, r#"{"text":"nein","voter_count":3}"#);
}

#[test]
fn test_poll_answer() {
    round_trip(catalog::POLL_ANSWER, r#"{"poll_id":"01234","user":{"id":123654,"is_bot":true,"first_name":"me"},"option_ids":[1,2,3,4,5]}"#);
}

#[test]
fn test_poll() {
    round_trip(catalog::POLL, r#"{"id":"1234","question":"right?","options":[{"text":"nein","voter_count":3},{"text":"ja","voter_count":4}],"total_voter_count":7,"is_closed":true,"is_anonymous":false,"type":"regular","allows_multiple_answers":false,"explanation_entities":[{"type":"mention","offset":10,"length":20},{"type":"cashtag","offset":1,"length":2}]}"#);
}

#[test]
fn test_location() {
    round_trip(catalog::LOCATION, r#"{"longitude":49.5,"latitude":9.4,"horizontal_accuracy":0.2}"#);
}

#[test]
fn test_venue() {
    round_trip(catalog::VENUE, r#"{"location":{"longitude":49.5,"latitude":9.4},"title":"home","address":"at home"}"#);
}

#[test]
fn test_proximity_alert_triggered() {
    round_trip(catalog::PROXIMITY_ALERT_TRIGGERED, r#"{"traveler":{"id":123654,"is_bot":true,"first_name":"travel"},"watcher":{"id":123654,"is_bot":true,"first_name":"watch"},"distance":100}"#);
}

#[test]
fn test_message_id() {
    round_trip(catalog::MESSAGE_ID, r#"{"message_id":12334}"#);
}

#[test]
fn test_message_auto_delete_timer_changed() {
    round_trip(catalog::MESSAGE_AUTO_DELETE_TIMER_CHANGED, r#"{"message_auto_delete_time":100}"#);
}

#[test]
fn test_voice_chat_scheduled() {
    round_trip(catalog::VOICE_CHAT_SCHEDULED, r#"{"start_date":100}"#);
}

#[test]
fn test_voice_started() {
    round_trip(catalog::VOICE_CHAT_STARTED, r#"{}"#);
}

#[test]
fn test_voice_chat_ended() {
    round_trip(catalog::VOICE_CHAT_ENDED, r#"{"duration":100}"#);
}

#[test]
fn test_voice_chat_participants_invited() {
    round_trip(catalog::VOICE_CHAT_PARTICIPANTS_INVITED, r#"{"users":[{"id":123654,"is_bot":true,"first_name":"user1"},{"id":12365,"is_bot":true,"first_name":"user2"}]}"#);
}

#[test]
fn test_user_profile_photos() {
    round_trip(catalog::USER_PROFILE_PHOTOS, r#"{"total_count":2,"photos":[[{"file_id":"1","file_unique_id":"1234","width":800,"height":600},{"file_id":"2","file_unique_id":"1234","width":600,"height":800}],[{"file_id":"3","file_unique_id":"1234","width":800,"height":600},{"file_id":"4","file_unique_id":"1234","width":600,"height":800}]]}"#);
}

#[test]
fn test_file() {
    round_trip(catalog::FILE, r#"{"file_id":"1","file_unique_id":"1234"}"#);
}

#[test]
fn test_reply_keyboard_markup() {
    round_trip(catalog::REPLY_KEYBOARD_MARKUP, r#"{"keyboard":[[{"text":"quiz1"},{"text":"quiz2"}],[{"text":"quiz3"},{"text":"quiz4"}]]}"#);
}

#[test]
fn test_keyboard_button() {
    round_trip(catalog::KEYBOARD_BUTTON, r#"{"text":"quiz","request_poll":{"type":"quiz"}}"#);
}

#[test]
fn test_keyboard_button_poll_type() {
    round_trip(catalog::KEYBOARD_BUTTON_POLL_TYPE, r#"{"type":"quiz"}"#);
}

#[test]
fn test_reply_keyboard_remove() {
    round_trip(catalog::REPLY_KEYBOARD_REMOVE, r#"{"remove_keyboard":true}"#);
}

#[test]
fn test_login_url() {
    round_trip(catalog::LOGIN_URL, r#"{"url":"https://its.me"}"#);
}

#[test]
fn test_force_reply() {
    round_trip(catalog::FORCE_REPLY, r#"{"force_reply":true}"#);
}

#[test]
fn test_chat_location() {
    round_trip(catalog::CHAT_LOCATION, r#"{"location":{"longitude":49.5,"latitude":9.4},"address":"home"}"#);
}

#[test]
fn test_input_media() {
    round_trip(catalog::INPUT_MEDIA, r#"{"type":"video","media":"dummy"}"#);
}

#[test]
fn test_sticker() {
    round_trip(catalog::STICKER, r#"{"file_id":"1","file_unique_id":"1234","width":64,"height":64,"is_animated":true,"thumb":{"file_id":"1","file_unique_id":"1234","width":800,"height":600},"mask_position":{"point":"chin","x_shift":1.1,"y_shift":2.5,"scale":2.1}}"#);
}

#[test]
fn test_sticker_set() {
    round_trip(catalog::STICKER_SET, r#"{"name":"stickerset","title":"stickers","is_animated":true,"contains_masks":false,"stickers":[{"file_id":"1","file_unique_id":"1234","width":64,"height":64,"is_animated":true},{"file_id":"2","file_unique_id":"2345","width":32,"height":32,"is_animated":false}]}"#);
}

#[test]
fn test_mask_position() {
    round_trip(catalog::MASK_POSITION, r#"{"point":"chin","x_shift":1.3,"y_shift":2.5,"scale":2.1}"#);
}

#[test]
fn test_chat_member_updated() {
    round_trip(catalog::CHAT_MEMBER_UPDATED, r#"{"chat":{"id":1234,"type":"private"},"from":{"id":1234,"is_bot":true,"first_name":"itsme"},"date":12,"old_chat_member":{"user":{"id":1234,"is_bot":true,"first_name":"groot"},"status":"creator"},"new_chat_member":{"user":{"id":1234,"is_bot":true,"first_name":"root"},"status":"creator"}}"#);
}

#[test]
fn test_callback_query() {
    round_trip(catalog::CALLBACK_QUERY, r#"{"id":"1234","from":{"id":1234,"is_bot":true,"first_name":"itsme"},"message":{"message_id":10,"date":5,"chat":{"id":12,"type":"private"}}}"#);
}

#[test]
fn test_inline_keyboard_button() {
    round_trip(catalog::INLINE_KEYBOARD_BUTTON, r#"{"text":"hello","login_url":{"url":"https://example.com"}}"#);
}

#[test]
fn test_inline_keyboard_markup() {
    round_trip(catalog::INLINE_KEYBOARD_MARKUP, r#"{"inline_keyboard":[[{"text":"hello1"},{"text":"hello2"}],[{"text":"hello3"},{"text":"hello4"}]]}"#);
}

#[test]
fn test_chat() {
    round_trip(catalog::CHAT, r#"{"id":1,"type":"private","photo":{"small_file_id":"1","small_file_unique_id":"1234","big_file_id":"2","big_file_unique_id":"2345"},"pinned_message":{"message_id":10,"date":5,"chat":{"id":12,"type":"private"}},"permissions":{"can_send_messages":true},"location":{"location":{"longitude":49.1,"latitude":10.2},"address":"here"}}"#);
}

#[test]
fn test_message() {
    round_trip(catalog::MESSAGE, r#"{"message_id":32,"from":{"id":1234,"is_bot":true,"first_name":"itsme"},"sender_chat":{"id":12345,"type":"group"},"date":5,"chat":{"id":12,"type":"private"},"reply_to_message":{"message_id":10,"date":5,"chat":{"id":12,"type":"private"}}}"#);
}

#[test]
fn test_update() {
    round_trip(catalog::UPDATE, r#"{"update_id":10,"message":{"message_id":10,"date":5,"chat":{"id":12,"type":"private"}},"poll_answer":{"poll_id":"test","user":{"id":13,"is_bot":false,"first_name":"user"},"option_ids":[0,1,2]}}"#);
}

#[test]
fn test_minimal_user() {
    round_trip(catalog::USER, r#"{"id":1234,"is_bot":true,"first_name":"iamgroot"}"#);
}

#[test]
fn test_minimal_me() {
    round_trip(catalog::MESSAGE_ENTITY, r#"{"type":"cashtag","offset":42,"length":69}"#);
}

#[test]
fn test_full_user() {
    let reference = "{\"id\":1234,\"is_bot\":true,\"first_name\":\"iAm\",\
            \"last_name\":\"groot\",\"language_code\":\"US\",\"can_join_groups\":true,\
            \"can_read_all_group_messages\":false,\"supports_inline_queries\":true}";
    round_trip(catalog::USER, reference);
}

#[test]
fn test_full_me() {
    let reference = "{\"type\":\"cashtag\",\"offset\":42,\"length\":69,\
            \"url\":\"https://example.org\",\"user\":{\"id\":0,\"is_bot\":false,\"first_name\":\"user\"},\
            \"language\":\"python\"}";
    round_trip(catalog::MESSAGE_ENTITY, reference);
}

#[test]
fn test_empty_user() {
    let c = cat();
    let user = default_of(&c, catalog::USER);
    let actual = dump(&encode(&c, catalog::USER, &user));
    let reference = "{\"id\":0,\"is_bot\":false,\"first_name\":\"\"}".to_string();
    assert_eq!(actual, reference);
}

#[test]
fn test_clone_user() {
    let c = cat();
    let mut user = default_of(&c, catalog::USER);
    let orig_user = user.duplicate();
    user.fields[2] = Value::Text("ichangedmyname".to_string());
    let actual1 = dump(&encode(&c, catalog::USER, &user));
    let reference1 = "{\"id\":0,\"is_bot\":false,\"first_name\":\"ichangedmyname\"}".to_string();
    assert_eq!(actual1, reference1);
    let actual2 = dump(&encode(&c, catalog::USER, &orig_user));
    let reference2 = "{\"id\":0,\"is_bot\":false,\"first_name\":\"\"}".to_string();
    assert_eq!(actual2, reference2);
}

#[test]
fn test_display_user() {
    let c = cat();
    let user = default_of(&c, catalog::USER);
    let reference = "id: 0; is_bot: false; first_name: ".to_string();
    let actual = render(&c, catalog::USER, &user);
    assert_eq!(actual, reference);
}

#[test]
fn test_large_user_id() {
    let c = cat();
    let mut user = default_of(&c, catalog::USER);
    user.fields[0] = Value::Int(288230376151711744);
    let reference = "id: 288230376151711744; is_bot: false; first_name: ".to_string();
    let actual = render(&c, catalog::USER, &user);
    assert_eq!(actual, reference);
}

#[test]
fn test_empty_me() {
    let c = cat();
    let me = default_of(&c, catalog::MESSAGE_ENTITY);
    let actual = dump(&encode(&c, catalog::MESSAGE_ENTITY, &me));
    let reference = "{\"type\":\"mention\",\"offset\":0,\"length\":0}".to_string();
    assert_eq!(actual, reference);
}

#[test]
fn test_clone_me() {
    let c = cat();
    let mut me = default_of(&c, catalog::MESSAGE_ENTITY);
    let orig_me = me.duplicate();
    me.fields[1] = Value::Int(42);
    let actual1 = dump(&encode(&c, catalog::MESSAGE_ENTITY, &me));
    let reference1 = "{\"type\":\"mention\",\"offset\":42,\"length\":0}".to_string();
    assert_eq!(actual1, reference1);
    let actual2 = dump(&encode(&c, catalog::MESSAGE_ENTITY, &orig_me));
    let reference2 = "{\"type\":\"mention\",\"offset\":0,\"length\":0}".to_string();
    assert_eq!(actual2, reference2);
}

#[test]
fn test_display_me() {
    let c = cat();
    let me = default_of(&c, catalog::MESSAGE_ENTITY);
    let reference = "type: mention; offset: 0; length: 0".to_string();
    let actual = render(&c, catalog::MESSAGE_ENTITY, &me);
    assert_eq!(actual, reference);
}
