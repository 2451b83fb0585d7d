//! The record catalogue: one schema per record type of the service.
//!
//! Each schema lists its fields in wire order; nested-record shapes refer
//! to other schemas by the index constants below.  Required nested
//! records always refer to earlier entries, so every schema has a finite
//! structural default.  The one renamed field is the discriminator
//! conventionally called `typ` in record code, which always travels
//! under the wire key `type`.
//!
//! Each constructor's `ensures` pins the schema's exact field list —
//! names, wire keys and shapes — to the spec function beside it;
//! [`standard`] pins the whole catalogue to [`standard_spec`], which
//! [`lemma_standard_wf`] proves well formed, so [`standard`] always
//! delivers the catalogue.

use vstd::prelude::*;
use crate::shape::Catalog;
use crate::shape::Field;
use crate::shape::FieldV;
use crate::shape::Schema;
use crate::shape::SchemaV;
use crate::shape::Shape;
use crate::shape::ShapeV;
use crate::shape::top_ref_lt;
use crate::shape::wf_catalog;
use crate::shape::wf_schema;
use crate::shape::wf_shape;

verus! {
pub const USER: usize = 0;
pub const LOCATION: usize = 1;
pub const PHOTO_SIZE: usize = 2;
pub const MESSAGE_ENTITY: usize = 3;
pub const CHAT_PHOTO: usize = 4;
pub const CHAT_PERMISSIONS: usize = 5;
pub const CHAT_LOCATION: usize = 6;
pub const POLL_OPTION: usize = 7;
pub const MESSAGE_AUTO_DELETE_TIMER_CHANGED: usize = 8;
pub const VOICE_CHAT_SCHEDULED: usize = 9;
pub const VOICE_CHAT_STARTED: usize = 10;
pub const VOICE_CHAT_ENDED: usize = 11;
pub const VOICE_CHAT_PARTICIPANTS_INVITED: usize = 12;
pub const PROXIMITY_ALERT_TRIGGERED: usize = 13;
pub const CONTACT: usize = 14;
pub const DICE: usize = 15;
pub const POLL: usize = 16;
pub const POLL_ANSWER: usize = 17;
pub const VENUE: usize = 18;
pub const MASK_POSITION: usize = 19;
pub const STICKER: usize = 20;
pub const STICKER_SET: usize = 21;
pub const ANIMATION: usize = 22;
pub const AUDIO: usize = 23;
pub const DOCUMENT: usize = 24;
pub const VIDEO: usize = 25;
pub const VIDEO_NOTE: usize = 26;
pub const VOICE: usize = 27;
pub const LOGIN_URL: usize = 28;
pub const INLINE_KEYBOARD_BUTTON: usize = 29;
pub const INLINE_KEYBOARD_MARKUP: usize = 30;
pub const KEYBOARD_BUTTON_POLL_TYPE: usize = 31;
pub const KEYBOARD_BUTTON: usize = 32;
pub const REPLY_KEYBOARD_MARKUP: usize = 33;
pub const REPLY_KEYBOARD_REMOVE: usize = 34;
pub const FORCE_REPLY: usize = 35;
pub const USER_PROFILE_PHOTOS: usize = 36;
pub const FILE: usize = 37;
pub const BOT_COMMAND: usize = 38;
pub const RESPONSE_PARAMETERS: usize = 39;
pub const INPUT_MEDIA: usize = 40;
pub const MESSAGE_ID: usize = 41;
pub const CHAT_INVITE_LINK: usize = 42;
pub const CHAT_MEMBER: usize = 43;
pub const CHAT: usize = 44;
pub const MESSAGE: usize = 45;
pub const CALLBACK_QUERY: usize = 46;
pub const CHAT_MEMBER_UPDATED: usize = 47;
pub const UPDATE: usize = 48;

pub const SCHEMA_COUNT: usize = 49;

fn opt(inner: Shape) -> (r: Shape)
    ensures
        r@ == ShapeV::Opt(Box::new(inner@)),
{
    Shape::Opt(Box::new(inner))
}

fn many(inner: Shape) -> (r: Shape)
    ensures
        r@ == ShapeV::Many(Box::new(inner@)),
{
    Shape::Many(Box::new(inner))
}

fn grid(inner: Shape) -> (r: Shape)
    ensures
        r@ == ShapeV::Grid(Box::new(inner@)),
{
    Shape::Grid(Box::new(inner))
}

fn opt_many(inner: Shape) -> (r: Shape)
    ensures
        r@ == ShapeV::OptMany(Box::new(inner@)),
{
    Shape::OptMany(Box::new(inner))
}

pub open spec fn user_schema_spec() -> SchemaV {
    seq![
        FieldV { name: "id"@, key: "id"@, shape: ShapeV::Int64 },
        FieldV { name: "is_bot"@, key: "is_bot"@, shape: ShapeV::Bool },
        FieldV { name: "first_name"@, key: "first_name"@, shape: ShapeV::Str },
        FieldV { name: "last_name"@, key: "last_name"@, shape: ShapeV::Opt(Box::new(ShapeV::Str)) },
        FieldV { name: "username"@, key: "username"@, shape: ShapeV::Opt(Box::new(ShapeV::Str)) },
        FieldV { name: "language_code"@, key: "language_code"@, shape: ShapeV::Opt(Box::new(ShapeV::Str)) },
        FieldV { name: "can_join_groups"@, key: "can_join_groups"@, shape: ShapeV::Opt(Box::new(ShapeV::Bool)) },
        FieldV { name: "can_read_all_group_messages"@, key: "can_read_all_group_messages"@, shape: ShapeV::Opt(Box::new(ShapeV::Bool)) },
        FieldV { name: "supports_inline_queries"@, key: "supports_inline_queries"@, shape: ShapeV::Opt(Box::new(ShapeV::Bool)) },
    ]
}

pub fn user_schema() -> (r: Schema)
    ensures
        r@ == user_schema_spec(),
{
    let mut fields: Vec<Field> = Vec::new();
    fields.push(Field::named("id", Shape::Int64));
    fields.push(Field::named("is_bot", Shape::Bool));
    fields.push(Field::named("first_name", Shape::Str));
    fields.push(Field::named("last_name", opt(Shape::Str)));
    fields.push(Field::named("username", opt(Shape::Str)));
    fields.push(Field::named("language_code", opt(Shape::Str)));
    fields.push(Field::named("can_join_groups", opt(Shape::Bool)));
    fields.push(Field::named("can_read_all_group_messages", opt(Shape::Bool)));
    fields.push(Field::named("supports_inline_queries", opt(Shape::Bool)));
    let r = Schema { fields };
    proof {
        assert(r@ =~= user_schema_spec());
    }
    r
}

proof fn lemma_user_schema_wf()
    ensures
        wf_schema(SCHEMA_COUNT as int, USER as int, user_schema_spec()),
{
    reveal_with_fuel(wf_shape, 3);
    let s = user_schema_spec();
    reveal_strlit("can_join_groups");
    reveal_strlit("can_read_all_group_messages");
    reveal_strlit("first_name");
    reveal_strlit("id");
    reveal_strlit("is_bot");
    reveal_strlit("language_code");
    reveal_strlit("last_name");
    reveal_strlit("supports_inline_queries");
    reveal_strlit("username");
    assert("can_join_groups"@.len() == 15);
    assert("can_read_all_group_messages"@.len() == 27);
    assert("first_name"@.len() == 10);
    assert("id"@.len() == 2);
    assert("is_bot"@.len() == 6);
    assert("language_code"@.len() == 13);
    assert("last_name"@.len() == 9);
    assert("supports_inline_queries"@.len() == 23);
    assert("username"@.len() == 8);
    assert(wf_shape(SCHEMA_COUNT as int, s[0].shape) && top_ref_lt(s[0].shape, USER as int));
    assert(wf_shape(SCHEMA_COUNT as int, s[1].shape) && top_ref_lt(s[1].shape, USER as int));
    assert(wf_shape(SCHEMA_COUNT as int, s[2].shape) && top_ref_lt(s[2].shape, USER as int));
    assert(wf_shape(SCHEMA_COUNT as int, s[3].shape) && top_ref_lt(s[3].shape, USER as int));
    assert(wf_shape(SCHEMA_COUNT as int, s[4].shape) && top_ref_lt(s[4].shape, USER as int));
    assert(wf_shape(SCHEMA_COUNT as int, s[5].shape) && top_ref_lt(s[5].shape, USER as int));
    assert(wf_shape(SCHEMA_COUNT as int, s[6].shape) && top_ref_lt(s[6].shape, USER as int));
    assert(wf_shape(SCHEMA_COUNT as int, s[7].shape) && top_ref_lt(s[7].shape, USER as int));
    assert(wf_shape(SCHEMA_COUNT as int, s[8].shape) && top_ref_lt(s[8].shape, USER as int));
    assert(forall|i: int|
        0 <= i < s.len() ==> wf_shape(SCHEMA_COUNT as int, #[trigger] s[i].shape));
    assert(forall|i: int| 0 <= i < s.len() ==> top_ref_lt(#[trigger] s[i].shape, USER as int));
    assert(forall|i: int, j: int| 0 <= i < j < s.len() ==> s[i].key != s[j].key);
}

pub open spec fn location_schema_spec() -> SchemaV {
    seq![
        FieldV { name: "longitude"@, key: "longitude"@, shape: ShapeV::Float },
        FieldV { name: "latitude"@, key: "latitude"@, shape: ShapeV::Float },
        FieldV { name: "horizontal_accuracy"@, key: "horizontal_accuracy"@, shape: ShapeV::Opt(Box::new(ShapeV::Float)) },
        FieldV { name: "live_period"@, key: "live_period"@, shape: ShapeV::Opt(Box::new(ShapeV::Int32)) },
        FieldV { name: "heading"@, key: "heading"@, shape: ShapeV::Opt(Box::new(ShapeV::Int32)) },
        FieldV { name: "proximity_alert_radius"@, key: "proximity_alert_radius"@, shape: ShapeV::Opt(Box::new(ShapeV::Int32)) },
    ]
}

pub fn location_schema() -> (r: Schema)
    ensures
        r@ == location_schema_spec(),
{
    let mut fields: Vec<Field> = Vec::new();
    fields.push(Field::named("longitude", Shape::Float));
    fields.push(Field::named("latitude", Shape::Float));
    fields.push(Field::named("horizontal_accuracy", opt(Shape::Float)));
    fields.push(Field::named("live_period", opt(Shape::Int32)));
    fields.push(Field::named("heading", opt(Shape::Int32)));
    fields.push(Field::named("proximity_alert_radius", opt(Shape::Int32)));
    let r = Schema { fields };
    proof {
        assert(r@ =~= location_schema_spec());
    }
    r
}

proof fn lemma_location_schema_wf()
    ensures
        wf_schema(SCHEMA_COUNT as int, LOCATION as int, location_schema_spec()),
{
    reveal_with_fuel(wf_shape, 3);
    let s = location_schema_spec();
    reveal_strlit("heading");
    reveal_strlit("horizontal_accuracy");
    reveal_strlit("latitude");
    reveal_strlit("live_period");
    reveal_strlit("longitude");
    reveal_strlit("proximity_alert_radius");
    assert("heading"@.len() == 7);
    assert("horizontal_accuracy"@.len() == 19);
    assert("latitude"@.len() == 8);
    assert("live_period"@.len() == 11);
    assert("longitude"@.len() == 9);
    assert("proximity_alert_radius"@.len() == 22);
    assert(wf_shape(SCHEMA_COUNT as int, s[0].shape) && top_ref_lt(s[0].shape, LOCATION as int));
    assert(wf_shape(SCHEMA_COUNT as int, s[1].shape) && top_ref_lt(s[1].shape, LOCATION as int));
    assert(wf_shape(SCHEMA_COUNT as int, s[2].shape) && top_ref_lt(s[2].shape, LOCATION as int));
    assert(wf_shape(SCHEMA_COUNT as int, s[3].shape) && top_ref_lt(s[3].shape, LOCATION as int));
    assert(wf_shape(SCHEMA_COUNT as int, s[4].shape) && top_ref_lt(s[4].shape, LOCATION as int));
    assert(wf_shape(SCHEMA_COUNT as int, s[5].shape) && top_ref_lt(s[5].shape, LOCATION as int));
    assert(forall|i: int|
        0 <= i < s.len() ==> wf_shape(SCHEMA_COUNT as int, #[trigger] s[i].shape));
    assert(forall|i: int| 0 <= i < s.len() ==> top_ref_lt(#[trigger] s[i].shape, LOCATION as int));
    assert(forall|i: int, j: int| 0 <= i < j < s.len() ==> s[i].key != s[j].key);
}

pub open spec fn photo_size_schema_spec() -> SchemaV {
    seq![
        FieldV { name: "file_id"@, key: "file_id"@, shape: ShapeV::Str },
        FieldV { name: "file_unique_id"@, key: "file_unique_id"@, shape: ShapeV::Str },
        FieldV { name: "width"@, key: "width"@, shape: ShapeV::Int32 },
        FieldV { name: "height"@, key: "height"@, shape: ShapeV::Int32 },
        FieldV { name: "file_size"@, key: "file_size"@, shape: ShapeV::Opt(Box::new(ShapeV::Int32)) },
    ]
}

pub fn photo_size_schema() -> (r: Schema)
    ensures
        r@ == photo_size_schema_spec(),
{
    let mut fields: Vec<Field> = Vec::new();
    fields.push(Field::named("file_id", Shape::Str));
    fields.push(Field::named("file_unique_id", Shape::Str));
    fields.push(Field::named("width", Shape::Int32));
    fields.push(Field::named("height", Shape::Int32));
    fields.push(Field::named("file_size", opt(Shape::Int32)));
    let r = Schema { fields };
    proof {
        assert(r@ =~= photo_size_schema_spec());
    }
    r
}

proof fn lemma_photo_size_schema_wf()
    ensures
        wf_schema(SCHEMA_COUNT as int, PHOTO_SIZE as int, photo_size_schema_spec()),
{
    reveal_with_fuel(wf_shape, 3);
    let s = photo_size_schema_spec();
    reveal_strlit("file_id");
    reveal_strlit("file_size");
    reveal_strlit("file_unique_id");
    reveal_strlit("height");
    reveal_strlit("width");
    assert("file_id"@.len() == 7);
    assert("file_size"@.len() == 9);
    assert("file_unique_id"@.len() == 14);
    assert("height"@.len() == 6);
    assert("width"@.len() == 5);
    assert(wf_shape(SCHEMA_COUNT as int, s[0].shape) && top_ref_lt(s[0].shape, PHOTO_SIZE as int));
    assert(wf_shape(SCHEMA_COUNT as int, s[1].shape) && top_ref_lt(s[1].shape, PHOTO_SIZE as int));
    assert(wf_shape(SCHEMA_COUNT as int, s[2].shape) && top_ref_lt(s[2].shape, PHOTO_SIZE as int));
    assert(wf_shape(SCHEMA_COUNT as int, s[3].shape) && top_ref_lt(s[3].shape, PHOTO_SIZE as int));
    assert(wf_shape(SCHEMA_COUNT as int, s[4].shape) && top_ref_lt(s[4].shape, PHOTO_SIZE as int));
    assert(forall|i: int|
        0 <= i < s.len() ==> wf_shape(SCHEMA_COUNT as int, #[trigger] s[i].shape));
    assert(forall|i: int| 0 <= i < s.len() ==> top_ref_lt(#[trigger] s[i].shape, PHOTO_SIZE as int));
    assert(forall|i: int, j: int| 0 <= i < j < s.len() ==> s[i].key != s[j].key);
}

pub open spec fn message_entity_schema_spec() -> SchemaV {
    seq![
        FieldV { name: "typ"@, key: "type"@, shape: ShapeV::Choice(crate::entity::entity_wires()) },
        FieldV { name: "offset"@, key: "offset"@, shape: ShapeV::Int32 },
        FieldV { name: "length"@, key: "length"@, shape: ShapeV::Int32 },
        FieldV { name: "url"@, key: "url"@, shape: ShapeV::Opt(Box::new(ShapeV::Str)) },
        FieldV { name: "user"@, key: "user"@, shape: ShapeV::Opt(Box::new(ShapeV::Rec(USER as int))) },
        FieldV { name: "language"@, key: "language"@, shape: ShapeV::Opt(Box::new(ShapeV::Str)) },
    ]
}

pub fn message_entity_schema() -> (r: Schema)
    ensures
        r@ == message_entity_schema_spec(),
{
    let mut fields: Vec<Field> = Vec::new();
    fields.push(Field::renamed("typ", "type", Shape::Choice(crate::entity::entity_wire_table())));
    fields.push(Field::named("offset", Shape::Int32));
    fields.push(Field::named("length", Shape::Int32));
    fields.push(Field::named("url", opt(Shape::Str)));
    fields.push(Field::named("user", opt(Shape::Rec(USER))));
    fields.push(Field::named("language", opt(Shape::Str)));
    let r = Schema { fields };
    proof {
        assert(r@ =~= message_entity_schema_spec());
    }
    r
}

proof fn lemma_message_entity_schema_wf()
    ensures
        wf_schema(SCHEMA_COUNT as int, MESSAGE_ENTITY as int, message_entity_schema_spec()),
{
    reveal_with_fuel(wf_shape, 3);
    let s = message_entity_schema_spec();
    crate::entity::lemma_entity_wires_distinct();
    reveal_strlit("language");
    reveal_strlit("length");
    reveal_strlit("offset");
    reveal_strlit("type");
    reveal_strlit("url");
    reveal_strlit("user");
    assert("language"@.len() == 8);
    assert("length"@.len() == 6);
    assert("offset"@.len() == 6);
    assert("type"@.len() == 4);
    assert("url"@.len() == 3);
    assert("user"@.len() == 4);
    assert("length"@[0] == 'l');
    assert("offset"@[0] == 'o');
    assert("type"@[0] == 't');
    assert("user"@[0] == 'u');
    assert(wf_shape(SCHEMA_COUNT as int, s[0].shape) && top_ref_lt(s[0].shape, MESSAGE_ENTITY as int));
    assert(wf_shape(SCHEMA_COUNT as int, s[1].shape) && top_ref_lt(s[1].shape, MESSAGE_ENTITY as int));
    assert(wf_shape(SCHEMA_COUNT as int, s[2].shape) && top_ref_lt(s[2].shape, MESSAGE_ENTITY as int));
    assert(wf_shape(SCHEMA_COUNT as int, s[3].shape) && top_ref_lt(s[3].shape, MESSAGE_ENTITY as int));
    assert(wf_shape(SCHEMA_COUNT as int, s[4].shape) && top_ref_lt(s[4].shape, MESSAGE_ENTITY as int));
    assert(wf_shape(SCHEMA_COUNT as int, s[5].shape) && top_ref_lt(s[5].shape, MESSAGE_ENTITY as int));
    assert(forall|i: int|
        0 <= i < s.len() ==> wf_shape(SCHEMA_COUNT as int, #[trigger] s[i].shape));
    assert(forall|i: int| 0 <= i < s.len() ==> top_ref_lt(#[trigger] s[i].shape, MESSAGE_ENTITY as int));
    assert(forall|i: int, j: int| 0 <= i < j < s.len() ==> s[i].key != s[j].key);
}

pub open spec fn chat_photo_schema_spec() -> SchemaV {
    seq![
        FieldV { name: "small_file_id"@, key: "small_file_id"@, shape: ShapeV::Str },
        FieldV { name: "small_file_unique_id"@, key: "small_file_unique_id"@, shape: ShapeV::Str },
        FieldV { name: "big_file_id"@, key: "big_file_id"@, shape: ShapeV::Str },
        FieldV { name: "big_file_unique_id"@, key: "big_file_unique_id"@, shape: ShapeV::Str },
    ]
}

pub fn chat_photo_schema() -> (r: Schema)
    ensures
        r@ == chat_photo_schema_spec(),
{
    let mut fields: Vec<Field> = Vec::new();
    fields.push(Field::named("small_file_id", Shape::Str));
    fields.push(Field::named("small_file_unique_id", Shape::Str));
    fields.push(Field::named("big_file_id", Shape::Str));
    fields.push(Field::named("big_file_unique_id", Shape::Str));
    let r = Schema { fields };
    proof {
        assert(r@ =~= chat_photo_schema_spec());
    }
    r
}

proof fn lemma_chat_photo_schema_wf()
    ensures
        wf_schema(SCHEMA_COUNT as int, CHAT_PHOTO as int, chat_photo_schema_spec()),
{
    reveal_with_fuel(wf_shape, 3);
    let s = chat_photo_schema_spec();
    reveal_strlit("big_file_id");
    reveal_strlit("big_file_unique_id");
    reveal_strlit("small_file_id");
    reveal_strlit("small_file_unique_id");
    assert("big_file_id"@.len() == 11);
    assert("big_file_unique_id"@.len() == 18);
    assert("small_file_id"@.len() == 13);
    assert("small_file_unique_id"@.len() == 20);
    assert(wf_shape(SCHEMA_COUNT as int, s[0].shape) && top_ref_lt(s[0].shape, CHAT_PHOTO as int));
    assert(wf_shape(SCHEMA_COUNT as int, s[1].shape) && top_ref_lt(s[1].shape, CHAT_PHOTO as int));
    assert(wf_shape(SCHEMA_COUNT as int, s[2].shape) && top_ref_lt(s[2].shape, CHAT_PHOTO as int));
    assert(wf_shape(SCHEMA_COUNT as int, s[3].shape) && top_ref_lt(s[3].shape, CHAT_PHOTO as int));
    assert(forall|i: int|
        0 <= i < s.len() ==> wf_shape(SCHEMA_COUNT as int, #[trigger] s[i].shape));
    assert(forall|i: int| 0 <= i < s.len() ==> top_ref_lt(#[trigger] s[i].shape, CHAT_PHOTO as int));
    assert(forall|i: int, j: int| 0 <= i < j < s.len() ==> s[i].key != s[j].key);
}

pub open spec fn chat_permissions_schema_spec() -> SchemaV {
    seq![
        FieldV { name: "can_send_messages"@, key: "can_send_messages"@, shape: ShapeV::Opt(Box::new(ShapeV::Bool)) },
        FieldV { name: "can_send_media_messages"@, key: "can_send_media_messages"@, shape: ShapeV::Opt(Box::new(ShapeV::Bool)) },
        FieldV { name: "can_send_polls"@, key: "can_send_polls"@, shape: ShapeV::Opt(Box::new(ShapeV::Bool)) },
        FieldV { name: "can_send_other_messages"@, key: "can_send_other_messages"@, shape: ShapeV::Opt(Box::new(ShapeV::Bool)) },
        FieldV { name: "can_add_web_page_previews"@, key: "can_add_web_page_previews"@, shape: ShapeV::Opt(Box::new(ShapeV::Bool)) },
        FieldV { name: "can_change_info"@, key: "can_change_info"@, shape: ShapeV::Opt(Box::new(ShapeV::Bool)) },
        FieldV { name: "can_invite_users"@, key: "can_invite_users"@, shape: ShapeV::Opt(Box::new(ShapeV::Bool)) },
        FieldV { name: "can_pin_messages"@, key: "can_pin_messages"@, shape: ShapeV::Opt(Box::new(ShapeV::Bool)) },
    ]
}

pub fn chat_permissions_schema() -> (r: Schema)
    ensures
        r@ == chat_permissions_schema_spec(),
{
    let mut fields: Vec<Field> = Vec::new();
    fields.push(Field::named("can_send_messages", opt(Shape::Bool)));
    fields.push(Field::named("can_send_media_messages", opt(Shape::Bool)));
    fields.push(Field::named("can_send_polls", opt(Shape::Bool)));
    fields.push(Field::named("can_send_other_messages", opt(Shape::Bool)));
    fields.push(Field::named("can_add_web_page_previews", opt(Shape::Bool)));
    fields.push(Field::named("can_change_info", opt(Shape::Bool)));
    fields.push(Field::named("can_invite_users", opt(Shape::Bool)));
    fields.push(Field::named("can_pin_messages", opt(Shape::Bool)));
    let r = Schema { fields };
    proof {
        assert(r@ =~= chat_permissions_schema_spec());
    }
    r
}

proof fn lemma_chat_permissions_schema_wf()
    ensures
        wf_schema(SCHEMA_COUNT as int, CHAT_PERMISSIONS as int, chat_permissions_schema_spec()),
{
    reveal_with_fuel(wf_shape, 3);
    let s = chat_permissions_schema_spec();
    reveal_strlit("can_add_web_page_previews");
    reveal_strlit("can_change_info");
    reveal_strlit("can_invite_users");
    reveal_strlit("can_pin_messages");
    reveal_strlit("can_send_media_messages");
    reveal_strlit("can_send_messages");
    reveal_strlit("can_send_other_messages");
    reveal_strlit("can_send_polls");
    assert("can_add_web_page_previews"@.len() == 25);
    assert("can_change_info"@.len() == 15);
    assert("can_invite_users"@.len() == 16);
    assert("can_pin_messages"@.len() == 16);
    assert("can_send_media_messages"@.len() == 23);
    assert("can_send_messages"@.len() == 17);
    assert("can_send_other_messages"@.len() == 23);
    assert("can_send_polls"@.len() == 14);
    assert("can_invite_users"@[4] == 'i');
    assert("can_pin_messages"@[4] == 'p');
    assert("can_send_media_messages"@[9] == 'm');
    assert("can_send_other_messages"@[9] == 'o');
    assert(wf_shape(SCHEMA_COUNT as int, s[0].shape) && top_ref_lt(s[0].shape, CHAT_PERMISSIONS as int));
    assert(wf_shape(SCHEMA_COUNT as int, s[1].shape) && top_ref_lt(s[1].shape, CHAT_PERMISSIONS as int));
    assert(wf_shape(SCHEMA_COUNT as int, s[2].shape) && top_ref_lt(s[2].shape, CHAT_PERMISSIONS as int));
    assert(wf_shape(SCHEMA_COUNT as int, s[3].shape) && top_ref_lt(s[3].shape, CHAT_PERMISSIONS as int));
    assert(wf_shape(SCHEMA_COUNT as int, s[4].shape) && top_ref_lt(s[4].shape, CHAT_PERMISSIONS as int));
    assert(wf_shape(SCHEMA_COUNT as int, s[5].shape) && top_ref_lt(s[5].shape, CHAT_PERMISSIONS as int));
    assert(wf_shape(SCHEMA_COUNT as int, s[6].shape) && top_ref_lt(s[6].shape, CHAT_PERMISSIONS as int));
    assert(wf_shape(SCHEMA_COUNT as int, s[7].shape) && top_ref_lt(s[7].shape, CHAT_PERMISSIONS as int));
    assert(forall|i: int|
        0 <= i < s.len() ==> wf_shape(SCHEMA_COUNT as int, #[trigger] s[i].shape));
    assert(forall|i: int| 0 <= i < s.len() ==> top_ref_lt(#[trigger] s[i].shape, CHAT_PERMISSIONS as int));
    assert(forall|i: int, j: int| 0 <= i < j < s.len() ==> s[i].key != s[j].key);
}

pub open spec fn chat_location_schema_spec() -> SchemaV {
    seq![
        FieldV { name: "location"@, key: "location"@, shape: ShapeV::Rec(LOCATION as int) },
        FieldV { name: "address"@, key: "address"@, shape: ShapeV::Str },
    ]
}

pub fn chat_location_schema() -> (r: Schema)
    ensures
        r@ == chat_location_schema_spec(),
{
    let mut fields: Vec<Field> = Vec::new();
    fields.push(Field::named("location", Shape::Rec(LOCATION)));
    fields.push(Field::named("address", Shape::Str));
    let r = Schema { fields };
    proof {
        assert(r@ =~= chat_location_schema_spec());
    }
    r
}

proof fn lemma_chat_location_schema_wf()
    ensures
        wf_schema(SCHEMA_COUNT as int, CHAT_LOCATION as int, chat_location_schema_spec()),
{
    reveal_with_fuel(wf_shape, 3);
    let s = chat_location_schema_spec();
    reveal_strlit("address");
    reveal_strlit("location");
    assert("address"@.len() == 7);
    assert("location"@.len() == 8);
    assert(wf_shape(SCHEMA_COUNT as int, s[0].shape) && top_ref_lt(s[0].shape, CHAT_LOCATION as int));
    assert(wf_shape(SCHEMA_COUNT as int, s[1].shape) && top_ref_lt(s[1].shape, CHAT_LOCATION as int));
    assert(forall|i: int|
        0 <= i < s.len() ==> wf_shape(SCHEMA_COUNT as int, #[trigger] s[i].shape));
    assert(forall|i: int| 0 <= i < s.len() ==> top_ref_lt(#[trigger] s[i].shape, CHAT_LOCATION as int));
    assert(forall|i: int, j: int| 0 <= i < j < s.len() ==> s[i].key != s[j].key);
}

pub open spec fn poll_option_schema_spec() -> SchemaV {
    seq![
        FieldV { name: "text"@, key: "text"@, shape: ShapeV::Str },
        FieldV { name: "voter_count"@, key: "voter_count"@, shape: ShapeV::Int32 },
    ]
}

pub fn poll_option_schema() -> (r: Schema)
    ensures
        r@ == poll_option_schema_spec(),
{
    let mut fields: Vec<Field> = Vec::new();
    fields.push(Field::named("text", Shape::Str));
    fields.push(Field::named("voter_count", Shape::Int32));
    let r = Schema { fields };
    proof {
        assert(r@ =~= poll_option_schema_spec());
    }
    r
}

proof fn lemma_poll_option_schema_wf()
    ensures
        wf_schema(SCHEMA_COUNT as int, POLL_OPTION as int, poll_option_schema_spec()),
{
    reveal_with_fuel(wf_shape, 3);
    let s = poll_option_schema_spec();
    reveal_strlit("text");
    reveal_strlit("voter_count");
    assert("text"@.len() == 4);
    assert("voter_count"@.len() == 11);
    assert(wf_shape(SCHEMA_COUNT as int, s[0].shape) && top_ref_lt(s[0].shape, POLL_OPTION as int));
    assert(wf_shape(SCHEMA_COUNT as int, s[1].shape) && top_ref_lt(s[1].shape, POLL_OPTION as int));
    assert(forall|i: int|
        0 <= i < s.len() ==> wf_shape(SCHEMA_COUNT as int, #[trigger] s[i].shape));
    assert(forall|i: int| 0 <= i < s.len() ==> top_ref_lt(#[trigger] s[i].shape, POLL_OPTION as int));
    assert(forall|i: int, j: int| 0 <= i < j < s.len() ==> s[i].key != s[j].key);
}

pub open spec fn message_auto_delete_timer_changed_schema_spec() -> SchemaV {
    seq![
        FieldV { name: "message_auto_delete_time"@, key: "message_auto_delete_time"@, shape: ShapeV::Int32 },
    ]
}

pub fn message_auto_delete_timer_changed_schema() -> (r: Schema)
    ensures
        r@ == message_auto_delete_timer_changed_schema_spec(),
{
    let mut fields: Vec<Field> = Vec::new();
    fields.push(Field::named("message_auto_delete_time", Shape::Int32));
    let r = Schema { fields };
    proof {
        assert(r@ =~= message_auto_delete_timer_changed_schema_spec());
    }
    r
}

proof fn lemma_message_auto_delete_timer_changed_schema_wf()
    ensures
        wf_schema(SCHEMA_COUNT as int, MESSAGE_AUTO_DELETE_TIMER_CHANGED as int, message_auto_delete_timer_changed_schema_spec()),
{
    reveal_with_fuel(wf_shape, 3);
    let s = message_auto_delete_timer_changed_schema_spec();
    reveal_strlit("message_auto_delete_time");
    assert("message_auto_delete_time"@.len() == 24);
    assert(wf_shape(SCHEMA_COUNT as int, s[0].shape) && top_ref_lt(s[0].shape, MESSAGE_AUTO_DELETE_TIMER_CHANGED as int));
    assert(forall|i: int|
        0 <= i < s.len() ==> wf_shape(SCHEMA_COUNT as int, #[trigger] s[i].shape));
    assert(forall|i: int| 0 <= i < s.len() ==> top_ref_lt(#[trigger] s[i].shape, MESSAGE_AUTO_DELETE_TIMER_CHANGED as int));
    assert(forall|i: int, j: int| 0 <= i < j < s.len() ==> s[i].key != s[j].key);
}

pub open spec fn voice_chat_scheduled_schema_spec() -> SchemaV {
    seq![
        FieldV { name: "start_date"@, key: "start_date"@, shape: ShapeV::Int32 },
    ]
}

pub fn voice_chat_scheduled_schema() -> (r: Schema)
    ensures
        r@ == voice_chat_scheduled_schema_spec(),
{
    let mut fields: Vec<Field> = Vec::new();
    fields.push(Field::named("start_date", Shape::Int32));
    let r = Schema { fields };
    proof {
        assert(r@ =~= voice_chat_scheduled_schema_spec());
    }
    r
}

proof fn lemma_voice_chat_scheduled_schema_wf()
    ensures
        wf_schema(SCHEMA_COUNT as int, VOICE_CHAT_SCHEDULED as int, voice_chat_scheduled_schema_spec()),
{
    reveal_with_fuel(wf_shape, 3);
    let s = voice_chat_scheduled_schema_spec();
    reveal_strlit("start_date");
    assert("start_date"@.len() == 10);
    assert(wf_shape(SCHEMA_COUNT as int, s[0].shape) && top_ref_lt(s[0].shape, VOICE_CHAT_SCHEDULED as int));
    assert(forall|i: int|
        0 <= i < s.len() ==> wf_shape(SCHEMA_COUNT as int, #[trigger] s[i].shape));
    assert(forall|i: int| 0 <= i < s.len() ==> top_ref_lt(#[trigger] s[i].shape, VOICE_CHAT_SCHEDULED as int));
    assert(forall|i: int, j: int| 0 <= i < j < s.len() ==> s[i].key != s[j].key);
}

pub open spec fn voice_chat_started_schema_spec() -> SchemaV {
    seq![
    ]
}

pub fn voice_chat_started_schema() -> (r: Schema)
    ensures
        r@ == voice_chat_started_schema_spec(),
{
    let mut fields: Vec<Field> = Vec::new();
    let r = Schema { fields };
    proof {
        assert(r@ =~= voice_chat_started_schema_spec());
    }
    r
}

proof fn lemma_voice_chat_started_schema_wf()
    ensures
        wf_schema(SCHEMA_COUNT as int, VOICE_CHAT_STARTED as int, voice_chat_started_schema_spec()),
{
    reveal_with_fuel(wf_shape, 3);
    let s = voice_chat_started_schema_spec();
    assert(forall|i: int|
        0 <= i < s.len() ==> wf_shape(SCHEMA_COUNT as int, #[trigger] s[i].shape));
    assert(forall|i: int| 0 <= i < s.len() ==> top_ref_lt(#[trigger] s[i].shape, VOICE_CHAT_STARTED as int));
    assert(forall|i: int, j: int| 0 <= i < j < s.len() ==> s[i].key != s[j].key);
}

pub open spec fn voice_chat_ended_schema_spec() -> SchemaV {
    seq![
        FieldV { name: "duration"@, key: "duration"@, shape: ShapeV::Int32 },
    ]
}

pub fn voice_chat_ended_schema() -> (r: Schema)
    ensures
        r@ == voice_chat_ended_schema_spec(),
{
    let mut fields: Vec<Field> = Vec::new();
    fields.push(Field::named("duration", Shape::Int32));
    let r = Schema { fields };
    proof {
        assert(r@ =~= voice_chat_ended_schema_spec());
    }
    r
}

proof fn lemma_voice_chat_ended_schema_wf()
    ensures
        wf_schema(SCHEMA_COUNT as int, VOICE_CHAT_ENDED as int, voice_chat_ended_schema_spec()),
{
    reveal_with_fuel(wf_shape, 3);
    let s = voice_chat_ended_schema_spec();
    reveal_strlit("duration");
    assert("duration"@.len() == 8);
    assert(wf_shape(SCHEMA_COUNT as int, s[0].shape) && top_ref_lt(s[0].shape, VOICE_CHAT_ENDED as int));
    assert(forall|i: int|
        0 <= i < s.len() ==> wf_shape(SCHEMA_COUNT as int, #[trigger] s[i].shape));
    assert(forall|i: int| 0 <= i < s.len() ==> top_ref_lt(#[trigger] s[i].shape, VOICE_CHAT_ENDED as int));
    assert(forall|i: int, j: int| 0 <= i < j < s.len() ==> s[i].key != s[j].key);
}

pub open spec fn voice_chat_participants_invited_schema_spec() -> SchemaV {
    seq![
        FieldV { name: "users"@, key: "users"@, shape: ShapeV::Many(Box::new(ShapeV::Rec(USER as int))) },
    ]
}

pub fn voice_chat_participants_invited_schema() -> (r: Schema)
    ensures
        r@ == voice_chat_participants_invited_schema_spec(),
{
    let mut fields: Vec<Field> = Vec::new();
    fields.push(Field::named("users", many(Shape::Rec(USER))));
    let r = Schema { fields };
    proof {
        assert(r@ =~= voice_chat_participants_invited_schema_spec());
    }
    r
}

proof fn lemma_voice_chat_participants_invited_schema_wf()
    ensures
        wf_schema(SCHEMA_COUNT as int, VOICE_CHAT_PARTICIPANTS_INVITED as int, voice_chat_participants_invited_schema_spec()),
{
    reveal_with_fuel(wf_shape, 3);
    let s = voice_chat_participants_invited_schema_spec();
    reveal_strlit("users");
    assert("users"@.len() == 5);
    assert(wf_shape(SCHEMA_COUNT as int, s[0].shape) && top_ref_lt(s[0].shape, VOICE_CHAT_PARTICIPANTS_INVITED as int));
    assert(forall|i: int|
        0 <= i < s.len() ==> wf_shape(SCHEMA_COUNT as int, #[trigger] s[i].shape));
    assert(forall|i: int| 0 <= i < s.len() ==> top_ref_lt(#[trigger] s[i].shape, VOICE_CHAT_PARTICIPANTS_INVITED as int));
    assert(forall|i: int, j: int| 0 <= i < j < s.len() ==> s[i].key != s[j].key);
}

pub open spec fn proximity_alert_triggered_schema_spec() -> SchemaV {
    seq![
        FieldV { name: "traveler"@, key: "traveler"@, shape: ShapeV::Rec(USER as int) },
        FieldV { name: "watcher"@, key: "watcher"@, shape: ShapeV::Rec(USER as int) },
        FieldV { name: "distance"@, key: "distance"@, shape: ShapeV::Int32 },
    ]
}

pub fn proximity_alert_triggered_schema() -> (r: Schema)
    ensures
        r@ == proximity_alert_triggered_schema_spec(),
{
    let mut fields: Vec<Field> = Vec::new();
    fields.push(Field::named("traveler", Shape::Rec(USER)));
    fields.push(Field::named("watcher", Shape::Rec(USER)));
    fields.push(Field::named("distance", Shape::Int32));
    let r = Schema { fields };
    proof {
        assert(r@ =~= proximity_alert_triggered_schema_spec());
    }
    r
}

proof fn lemma_proximity_alert_triggered_schema_wf()
    ensures
        wf_schema(SCHEMA_COUNT as int, PROXIMITY_ALERT_TRIGGERED as int, proximity_alert_triggered_schema_spec()),
{
    reveal_with_fuel(wf_shape, 3);
    let s = proximity_alert_triggered_schema_spec();
    reveal_strlit("distance");
    reveal_strlit("traveler");
    reveal_strlit("watcher");
    assert("distance"@.len() == 8);
    assert("traveler"@.len() == 8);
    assert("watcher"@.len() == 7);
    assert("distance"@[0] == 'd');
    assert("traveler"@[0] == 't');
    assert(wf_shape(SCHEMA_COUNT as int, s[0].shape) && top_ref_lt(s[0].shape, PROXIMITY_ALERT_TRIGGERED as int));
    assert(wf_shape(SCHEMA_COUNT as int, s[1].shape) && top_ref_lt(s[1].shape, PROXIMITY_ALERT_TRIGGERED as int));
    assert(wf_shape(SCHEMA_COUNT as int, s[2].shape) && top_ref_lt(s[2].shape, PROXIMITY_ALERT_TRIGGERED as int));
    assert(forall|i: int|
        0 <= i < s.len() ==> wf_shape(SCHEMA_COUNT as int, #[trigger] s[i].shape));
    assert(forall|i: int| 0 <= i < s.len() ==> top_ref_lt(#[trigger] s[i].shape, PROXIMITY_ALERT_TRIGGERED as int));
    assert(forall|i: int, j: int| 0 <= i < j < s.len() ==> s[i].key != s[j].key);
}

pub open spec fn contact_schema_spec() -> SchemaV {
    seq![
        FieldV { name: "phone_number"@, key: "phone_number"@, shape: ShapeV::Str },
        FieldV { name: "first_name"@, key: "first_name"@, shape: ShapeV::Str },
        FieldV { name: "last_name"@, key: "last_name"@, shape: ShapeV::Opt(Box::new(ShapeV::Str)) },
        FieldV { name: "user_id"@, key: "user_id"@, shape: ShapeV::Opt(Box::new(ShapeV::Int64)) },
        FieldV { name: "vcard"@, key: "vcard"@, shape: ShapeV::Opt(Box::new(ShapeV::Str)) },
    ]
}

pub fn contact_schema() -> (r: Schema)
    ensures
        r@ == contact_schema_spec(),
{
    let mut fields: Vec<Field> = Vec::new();
    fields.push(Field::named("phone_number", Shape::Str));
    fields.push(Field::named("first_name", Shape::Str));
    fields.push(Field::named("last_name", opt(Shape::Str)));
    fields.push(Field::named("user_id", opt(Shape::Int64)));
    fields.push(Field::named("vcard", opt(Shape::Str)));
    let r = Schema { fields };
    proof {
        assert(r@ =~= contact_schema_spec());
    }
    r
}

proof fn lemma_contact_schema_wf()
    ensures
        wf_schema(SCHEMA_COUNT as int, CONTACT as int, contact_schema_spec()),
{
    reveal_with_fuel(wf_shape, 3);
    let s = contact_schema_spec();
    reveal_strlit("first_name");
    reveal_strlit("last_name");
    reveal_strlit("phone_number");
    reveal_strlit("user_id");
    reveal_strlit("vcard");
    assert("first_name"@.len() == 10);
    assert("last_name"@.len() == 9);
    assert("phone_number"@.len() == 12);
    assert("user_id"@.len() == 7);
    assert("vcard"@.len() == 5);
    assert(wf_shape(SCHEMA_COUNT as int, s[0].shape) && top_ref_lt(s[0].shape, CONTACT as int));
    assert(wf_shape(SCHEMA_COUNT as int, s[1].shape) && top_ref_lt(s[1].shape, CONTACT as int));
    assert(wf_shape(SCHEMA_COUNT as int, s[2].shape) && top_ref_lt(s[2].shape, CONTACT as int));
    assert(wf_shape(SCHEMA_COUNT as int, s[3].shape) && top_ref_lt(s[3].shape, CONTACT as int));
    assert(wf_shape(SCHEMA_COUNT as int, s[4].shape) && top_ref_lt(s[4].shape, CONTACT as int));
    assert(forall|i: int|
        0 <= i < s.len() ==> wf_shape(SCHEMA_COUNT as int, #[trigger] s[i].shape));
    assert(forall|i: int| 0 <= i < s.len() ==> top_ref_lt(#[trigger] s[i].shape, CONTACT as int));
    assert(forall|i: int, j: int| 0 <= i < j < s.len() ==> s[i].key != s[j].key);
}

pub open spec fn dice_schema_spec() -> SchemaV {
    seq![
        FieldV { name: "emoji"@, key: "emoji"@, shape: ShapeV::Str },
        FieldV { name: "value"@, key: "value"@, shape: ShapeV::Int32 },
    ]
}

pub fn dice_schema() -> (r: Schema)
    ensures
        r@ == dice_schema_spec(),
{
    let mut fields: Vec<Field> = Vec::new();
    fields.push(Field::named("emoji", Shape::Str));
    fields.push(Field::named("value", Shape::Int32));
    let r = Schema { fields };
    proof {
        assert(r@ =~= dice_schema_spec());
    }
    r
}

proof fn lemma_dice_schema_wf()
    ensures
        wf_schema(SCHEMA_COUNT as int, DICE as int, dice_schema_spec()),
{
    reveal_with_fuel(wf_shape, 3);
    let s = dice_schema_spec();
    reveal_strlit("emoji");
    reveal_strlit("value");
    assert("emoji"@.len() == 5);
    assert("value"@.len() == 5);
    assert("emoji"@[0] == 'e');
    assert("value"@[0] == 'v');
    assert(wf_shape(SCHEMA_COUNT as int, s[0].shape) && top_ref_lt(s[0].shape, DICE as int));
    assert(wf_shape(SCHEMA_COUNT as int, s[1].shape) && top_ref_lt(s[1].shape, DICE as int));
    assert(forall|i: int|
        0 <= i < s.len() ==> wf_shape(SCHEMA_COUNT as int, #[trigger] s[i].shape));
    assert(forall|i: int| 0 <= i < s.len() ==> top_ref_lt(#[trigger] s[i].shape, DICE as int));
    assert(forall|i: int, j: int| 0 <= i < j < s.len() ==> s[i].key != s[j].key);
}

pub open spec fn poll_schema_spec() -> SchemaV {
    seq![
        FieldV { name: "id"@, key: "id"@, shape: ShapeV::Str },
        FieldV { name: "question"@, key: "question"@, shape: ShapeV::Str },
        FieldV { name: "options"@, key: "options"@, shape: ShapeV::Many(Box::new(ShapeV::Rec(POLL_OPTION as int))) },
        FieldV { name: "total_voter_count"@, key: "total_voter_count"@, shape: ShapeV::Int32 },
        FieldV { name: "is_closed"@, key: "is_closed"@, shape: ShapeV::Bool },
        FieldV { name: "is_anonymous"@, key: "is_anonymous"@, shape: ShapeV::Bool },
        FieldV { name: "typ"@, key: "type"@, shape: ShapeV::Str },
        FieldV { name: "allows_multiple_answers"@, key: "allows_multiple_answers"@, shape: ShapeV::Bool },
        FieldV { name: "correct_option_id"@, key: "correct_option_id"@, shape: ShapeV::Opt(Box::new(ShapeV::Int32)) },
        FieldV { name: "explanation"@, key: "explanation"@, shape: ShapeV::Opt(Box::new(ShapeV::Str)) },
        FieldV { name: "explanation_entities"@, key: "explanation_entities"@, shape: ShapeV::OptMany(Box::new(ShapeV::Rec(MESSAGE_ENTITY as int))) },
        FieldV { name: "open_period"@, key: "open_period"@, shape: ShapeV::Opt(Box::new(ShapeV::Int32)) },
        FieldV { name: "close_date"@, key: "close_date"@, shape: ShapeV::Opt(Box::new(ShapeV::Int32)) },
    ]
}

pub fn poll_schema() -> (r: Schema)
    ensures
        r@ == poll_schema_spec(),
{
    let mut fields: Vec<Field> = Vec::new();
    fields.push(Field::named("id", Shape::Str));
    fields.push(Field::named("question", Shape::Str));
    fields.push(Field::named("options", many(Shape::Rec(POLL_OPTION))));
    fields.push(Field::named("total_voter_count", Shape::Int32));
    fields.push(Field::named("is_closed", Shape::Bool));
    fields.push(Field::named("is_anonymous", Shape::Bool));
    fields.push(Field::renamed("typ", "type", Shape::Str));
    fields.push(Field::named("allows_multiple_answers", Shape::Bool));
    fields.push(Field::named("correct_option_id", opt(Shape::Int32)));
    fields.push(Field::named("explanation", opt(Shape::Str)));
    fields.push(Field::named("explanation_entities", opt_many(Shape::Rec(MESSAGE_ENTITY))));
    fields.push(Field::named("open_period", opt(Shape::Int32)));
    fields.push(Field::named("close_date", opt(Shape::Int32)));
    let r = Schema { fields };
    proof {
        assert(r@ =~= poll_schema_spec());
    }
    r
}

proof fn lemma_poll_schema_wf()
    ensures
        wf_schema(SCHEMA_COUNT as int, POLL as int, poll_schema_spec()),
{
    reveal_with_fuel(wf_shape, 3);
    let s = poll_schema_spec();
    reveal_strlit("allows_multiple_answers");
    reveal_strlit("close_date");
    reveal_strlit("correct_option_id");
    reveal_strlit("explanation");
    reveal_strlit("explanation_entities");
    reveal_strlit("id");
    reveal_strlit("is_anonymous");
    reveal_strlit("is_closed");
    reveal_strlit("open_period");
    reveal_strlit("options");
    reveal_strlit("question");
    reveal_strlit("total_voter_count");
    reveal_strlit("type");
    assert("allows_multiple_answers"@.len() == 23);
    assert("close_date"@.len() == 10);
    assert("correct_option_id"@.len() == 17);
    assert("explanation"@.len() == 11);
    assert("explanation_entities"@.len() == 20);
    assert("id"@.len() == 2);
    assert("is_anonymous"@.len() == 12);
    assert("is_closed"@.len() == 9);
    assert("open_period"@.len() == 11);
    assert("options"@.len() == 7);
    assert("question"@.len() == 8);
    assert("total_voter_count"@.len() == 17);
    assert("type"@.len() == 4);
    assert("correct_option_id"@[0] == 'c');
    assert("explanation"@[0] == 'e');
    assert("open_period"@[0] == 'o');
    assert("total_voter_count"@[0] == 't');
    assert(wf_shape(SCHEMA_COUNT as int, s[0].shape) && top_ref_lt(s[0].shape, POLL as int));
    assert(wf_shape(SCHEMA_COUNT as int, s[1].shape) && top_ref_lt(s[1].shape, POLL as int));
    assert(wf_shape(SCHEMA_COUNT as int, s[2].shape) && top_ref_lt(s[2].shape, POLL as int));
    assert(wf_shape(SCHEMA_COUNT as int, s[3].shape) && top_ref_lt(s[3].shape, POLL as int));
    assert(wf_shape(SCHEMA_COUNT as int, s[4].shape) && top_ref_lt(s[4].shape, POLL as int));
    assert(wf_shape(SCHEMA_COUNT as int, s[5].shape) && top_ref_lt(s[5].shape, POLL as int));
    assert(wf_shape(SCHEMA_COUNT as int, s[6].shape) && top_ref_lt(s[6].shape, POLL as int));
    assert(wf_shape(SCHEMA_COUNT as int, s[7].shape) && top_ref_lt(s[7].shape, POLL as int));
    assert(wf_shape(SCHEMA_COUNT as int, s[8].shape) && top_ref_lt(s[8].shape, POLL as int));
    assert(wf_shape(SCHEMA_COUNT as int, s[9].shape) && top_ref_lt(s[9].shape, POLL as int));
    assert(wf_shape(SCHEMA_COUNT as int, s[10].shape) && top_ref_lt(s[10].shape, POLL as int));
    assert(wf_shape(SCHEMA_COUNT as int, s[11].shape) && top_ref_lt(s[11].shape, POLL as int));
    assert(wf_shape(SCHEMA_COUNT as int, s[12].shape) && top_ref_lt(s[12].shape, POLL as int));
    assert(forall|i: int|
        0 <= i < s.len() ==> wf_shape(SCHEMA_COUNT as int, #[trigger] s[i].shape));
    assert(forall|i: int| 0 <= i < s.len() ==> top_ref_lt(#[trigger] s[i].shape, POLL as int));
    assert(forall|i: int, j: int| 0 <= i < j < s.len() ==> s[i].key != s[j].key);
}

pub open spec fn poll_answer_schema_spec() -> SchemaV {
    seq![
        FieldV { name: "poll_id"@, key: "poll_id"@, shape: ShapeV::Str },
        FieldV { name: "user"@, key: "user"@, shape: ShapeV::Rec(USER as int) },
        FieldV { name: "option_ids"@, key: "option_ids"@, shape: ShapeV::Many(Box::new(ShapeV::Int32)) },
    ]
}

pub fn poll_answer_schema() -> (r: Schema)
    ensures
        r@ == poll_answer_schema_spec(),
{
    let mut fields: Vec<Field> = Vec::new();
    fields.push(Field::named("poll_id", Shape::Str));
    fields.push(Field::named("user", Shape::Rec(USER)));
    fields.push(Field::named("option_ids", many(Shape::Int32)));
    let r = Schema { fields };
    proof {
        assert(r@ =~= poll_answer_schema_spec());
    }
    r
}

proof fn lemma_poll_answer_schema_wf()
    ensures
        wf_schema(SCHEMA_COUNT as int, POLL_ANSWER as int, poll_answer_schema_spec()),
{
    reveal_with_fuel(wf_shape, 3);
    let s = poll_answer_schema_spec();
    reveal_strlit("option_ids");
    reveal_strlit("poll_id");
    reveal_strlit("user");
    assert("option_ids"@.len() == 10);
    assert("poll_id"@.len() == 7);
    assert("user"@.len() == 4);
    assert(wf_shape(SCHEMA_COUNT as int, s[0].shape) && top_ref_lt(s[0].shape, POLL_ANSWER as int));
    assert(wf_shape(SCHEMA_COUNT as int, s[1].shape) && top_ref_lt(s[1].shape, POLL_ANSWER as int));
    assert(wf_shape(SCHEMA_COUNT as int, s[2].shape) && top_ref_lt(s[2].shape, POLL_ANSWER as int));
    assert(forall|i: int|
        0 <= i < s.len() ==> wf_shape(SCHEMA_COUNT as int, #[trigger] s[i].shape));
    assert(forall|i: int| 0 <= i < s.len() ==> top_ref_lt(#[trigger] s[i].shape, POLL_ANSWER as int));
    assert(forall|i: int, j: int| 0 <= i < j < s.len() ==> s[i].key != s[j].key);
}

pub open spec fn venue_schema_spec() -> SchemaV {
    seq![
        FieldV { name: "location"@, key: "location"@, shape: ShapeV::Rec(LOCATION as int) },
        FieldV { name: "title"@, key: "title"@, shape: ShapeV::Str },
        FieldV { name: "address"@, key: "address"@, shape: ShapeV::Str },
        FieldV { name: "foursquare_id"@, key: "foursquare_id"@, shape: ShapeV::Opt(Box::new(ShapeV::Str)) },
        FieldV { name: "foursquare_type"@, key: "foursquare_type"@, shape: ShapeV::Opt(Box::new(ShapeV::Str)) },
        FieldV { name: "google_place_id"@, key: "google_place_id"@, shape: ShapeV::Opt(Box::new(ShapeV::Str)) },
        FieldV { name: "google_place_type"@, key: "google_place_type"@, shape: ShapeV::Opt(Box::new(ShapeV::Str)) },
    ]
}

pub fn venue_schema() -> (r: Schema)
    ensures
        r@ == venue_schema_spec(),
{
    let mut fields: Vec<Field> = Vec::new();
    fields.push(Field::named("location", Shape::Rec(LOCATION)));
    fields.push(Field::named("title", Shape::Str));
    fields.push(Field::named("address", Shape::Str));
    fields.push(Field::named("foursquare_id", opt(Shape::Str)));
    fields.push(Field::named("foursquare_type", opt(Shape::Str)));
    fields.push(Field::named("google_place_id", opt(Shape::Str)));
    fields.push(Field::named("google_place_type", opt(Shape::Str)));
    let r = Schema { fields };
    proof {
        assert(r@ =~= venue_schema_spec());
    }
    r
}

proof fn lemma_venue_schema_wf()
    ensures
        wf_schema(SCHEMA_COUNT as int, VENUE as int, venue_schema_spec()),
{
    reveal_with_fuel(wf_shape, 3);
    let s = venue_schema_spec();
    reveal_strlit("address");
    reveal_strlit("foursquare_id");
    reveal_strlit("foursquare_type");
    reveal_strlit("google_place_id");
    reveal_strlit("google_place_type");
    reveal_strlit("location");
    reveal_strlit("title");
    assert("address"@.len() == 7);
    assert("foursquare_id"@.len() == 13);
    assert("foursquare_type"@.len() == 15);
    assert("google_place_id"@.len() == 15);
    assert("google_place_type"@.len() == 17);
    assert("location"@.len() == 8);
    assert("title"@.len() == 5);
    assert("foursquare_type"@[0] == 'f');
    assert("google_place_id"@[0] == 'g');
    assert(wf_shape(SCHEMA_COUNT as int, s[0].shape) && top_ref_lt(s[0].shape, VENUE as int));
    assert(wf_shape(SCHEMA_COUNT as int, s[1].shape) && top_ref_lt(s[1].shape, VENUE as int));
    assert(wf_shape(SCHEMA_COUNT as int, s[2].shape) && top_ref_lt(s[2].shape, VENUE as int));
    assert(wf_shape(SCHEMA_COUNT as int, s[3].shape) && top_ref_lt(s[3].shape, VENUE as int));
    assert(wf_shape(SCHEMA_COUNT as int, s[4].shape) && top_ref_lt(s[4].shape, VENUE as int));
    assert(wf_shape(SCHEMA_COUNT as int, s[5].shape) && top_ref_lt(s[5].shape, VENUE as int));
    assert(wf_shape(SCHEMA_COUNT as int, s[6].shape) && top_ref_lt(s[6].shape, VENUE as int));
    assert(forall|i: int|
        0 <= i < s.len() ==> wf_shape(SCHEMA_COUNT as int, #[trigger] s[i].shape));
    assert(forall|i: int| 0 <= i < s.len() ==> top_ref_lt(#[trigger] s[i].shape, VENUE as int));
    assert(forall|i: int, j: int| 0 <= i < j < s.len() ==> s[i].key != s[j].key);
}

pub open spec fn mask_position_schema_spec() -> SchemaV {
    seq![
        FieldV { name: "point"@, key: "point"@, shape: ShapeV::Str },
        FieldV { name: "x_shift"@, key: "x_shift"@, shape: ShapeV::Float },
        FieldV { name: "y_shift"@, key: "y_shift"@, shape: ShapeV::Float },
        FieldV { name: "scale"@, key: "scale"@, shape: ShapeV::Float },
    ]
}

pub fn mask_position_schema() -> (r: Schema)
    ensures
        r@ == mask_position_schema_spec(),
{
    let mut fields: Vec<Field> = Vec::new();
    fields.push(Field::named("point", Shape::Str));
    fields.push(Field::named("x_shift", Shape::Float));
    fields.push(Field::named("y_shift", Shape::Float));
    fields.push(Field::named("scale", Shape::Float));
    let r = Schema { fields };
    proof {
        assert(r@ =~= mask_position_schema_spec());
    }
    r
}

proof fn lemma_mask_position_schema_wf()
    ensures
        wf_schema(SCHEMA_COUNT as int, MASK_POSITION as int, mask_position_schema_spec()),
{
    reveal_with_fuel(wf_shape, 3);
    let s = mask_position_schema_spec();
    reveal_strlit("point");
    reveal_strlit("scale");
    reveal_strlit("x_shift");
    reveal_strlit("y_shift");
    assert("point"@.len() == 5);
    assert("scale"@.len() == 5);
    assert("x_shift"@.len() == 7);
    assert("y_shift"@.len() == 7);
    assert("point"@[0] == 'p');
    assert("scale"@[0] == 's');
    assert("x_shift"@[0] == 'x');
    assert("y_shift"@[0] == 'y');
    assert(wf_shape(SCHEMA_COUNT as int, s[0].shape) && top_ref_lt(s[0].shape, MASK_POSITION as int));
    assert(wf_shape(SCHEMA_COUNT as int, s[1].shape) && top_ref_lt(s[1].shape, MASK_POSITION as int));
    assert(wf_shape(SCHEMA_COUNT as int, s[2].shape) && top_ref_lt(s[2].shape, MASK_POSITION as int));
    assert(wf_shape(SCHEMA_COUNT as int, s[3].shape) && top_ref_lt(s[3].shape, MASK_POSITION as int));
    assert(forall|i: int|
        0 <= i < s.len() ==> wf_shape(SCHEMA_COUNT as int, #[trigger] s[i].shape));
    assert(forall|i: int| 0 <= i < s.len() ==> top_ref_lt(#[trigger] s[i].shape, MASK_POSITION as int));
    assert(forall|i: int, j: int| 0 <= i < j < s.len() ==> s[i].key != s[j].key);
}

pub open spec fn sticker_schema_spec() -> SchemaV {
    seq![
        FieldV { name: "file_id"@, key: "file_id"@, shape: ShapeV::Str },
        FieldV { name: "file_unique_id"@, key: "file_unique_id"@, shape: ShapeV::Str },
        FieldV { name: "width"@, key: "width"@, shape: ShapeV::Int32 },
        FieldV { name: "height"@, key: "height"@, shape: ShapeV::Int32 },
        FieldV { name: "is_animated"@, key: "is_animated"@, shape: ShapeV::Bool },
        FieldV { name: "thumb"@, key: "thumb"@, shape: ShapeV::Opt(Box::new(ShapeV::Rec(PHOTO_SIZE as int))) },
        FieldV { name: "emoji"@, key: "emoji"@, shape: ShapeV::Opt(Box::new(ShapeV::Str)) },
        FieldV { name: "set_name"@, key: "set_name"@, shape: ShapeV::Opt(Box::new(ShapeV::Str)) },
        FieldV { name: "mask_position"@, key: "mask_position"@, shape: ShapeV::Opt(Box::new(ShapeV::Rec(MASK_POSITION as int))) },
        FieldV { name: "file_size"@, key: "file_size"@, shape: ShapeV::Opt(Box::new(ShapeV::Int32)) },
    ]
}

pub fn sticker_schema() -> (r: Schema)
    ensures
        r@ == sticker_schema_spec(),
{
    let mut fields: Vec<Field> = Vec::new();
    fields.push(Field::named("file_id", Shape::Str));
    fields.push(Field::named("file_unique_id", Shape::Str));
    fields.push(Field::named("width", Shape::Int32));
    fields.push(Field::named("height", Shape::Int32));
    fields.push(Field::named("is_animated", Shape::Bool));
    fields.push(Field::named("thumb", opt(Shape::Rec(PHOTO_SIZE))));
    fields.push(Field::named("emoji", opt(Shape::Str)));
    fields.push(Field::named("set_name", opt(Shape::Str)));
    fields.push(Field::named("mask_position", opt(Shape::Rec(MASK_POSITION))));
    fields.push(Field::named("file_size", opt(Shape::Int32)));
    let r = Schema { fields };
    proof {
        assert(r@ =~= sticker_schema_spec());
    }
    r
}

proof fn lemma_sticker_schema_wf()
    ensures
        wf_schema(SCHEMA_COUNT as int, STICKER as int, sticker_schema_spec()),
{
    reveal_with_fuel(wf_shape, 3);
    let s = sticker_schema_spec();
    reveal_strlit("emoji");
    reveal_strlit("file_id");
    reveal_strlit("file_size");
    reveal_strlit("file_unique_id");
    reveal_strlit("height");
    reveal_strlit("is_animated");
    reveal_strlit("mask_position");
    reveal_strlit("set_name");
    reveal_strlit("thumb");
    reveal_strlit("width");
    assert("emoji"@.len() == 5);
    assert("file_id"@.len() == 7);
    assert("file_size"@.len() == 9);
    assert("file_unique_id"@.len() == 14);
    assert("height"@.len() == 6);
    assert("is_animated"@.len() == 11);
    assert("mask_position"@.len() == 13);
    assert("set_name"@.len() == 8);
    assert("thumb"@.len() == 5);
    assert("width"@.len() == 5);
    assert("emoji"@[0] == 'e');
    assert("thumb"@[0] == 't');
    assert("width"@[0] == 'w');
    assert(wf_shape(SCHEMA_COUNT as int, s[0].shape) && top_ref_lt(s[0].shape, STICKER as int));
    assert(wf_shape(SCHEMA_COUNT as int, s[1].shape) && top_ref_lt(s[1].shape, STICKER as int));
    assert(wf_shape(SCHEMA_COUNT as int, s[2].shape) && top_ref_lt(s[2].shape, STICKER as int));
    assert(wf_shape(SCHEMA_COUNT as int, s[3].shape) && top_ref_lt(s[3].shape, STICKER as int));
    assert(wf_shape(SCHEMA_COUNT as int, s[4].shape) && top_ref_lt(s[4].shape, STICKER as int));
    assert(wf_shape(SCHEMA_COUNT as int, s[5].shape) && top_ref_lt(s[5].shape, STICKER as int));
    assert(wf_shape(SCHEMA_COUNT as int, s[6].shape) && top_ref_lt(s[6].shape, STICKER as int));
    assert(wf_shape(SCHEMA_COUNT as int, s[7].shape) && top_ref_lt(s[7].shape, STICKER as int));
    assert(wf_shape(SCHEMA_COUNT as int, s[8].shape) && top_ref_lt(s[8].shape, STICKER as int));
    assert(wf_shape(SCHEMA_COUNT as int, s[9].shape) && top_ref_lt(s[9].shape, STICKER as int));
    assert(forall|i: int|
        0 <= i < s.len() ==> wf_shape(SCHEMA_COUNT as int, #[trigger] s[i].shape));
    assert(forall|i: int| 0 <= i < s.len() ==> top_ref_lt(#[trigger] s[i].shape, STICKER as int));
    assert(forall|i: int, j: int| 0 <= i < j < s.len() ==> s[i].key != s[j].key);
}

pub open spec fn sticker_set_schema_spec() -> SchemaV {
    seq![
        FieldV { name: "name"@, key: "name"@, shape: ShapeV::Str },
        FieldV { name: "title"@, key: "title"@, shape: ShapeV::Str },
        FieldV { name: "is_animated"@, key: "is_animated"@, shape: ShapeV::Bool },
        FieldV { name: "contains_masks"@, key: "contains_masks"@, shape: ShapeV::Bool },
        FieldV { name: "stickers"@, key: "stickers"@, shape: ShapeV::Many(Box::new(ShapeV::Rec(STICKER as int))) },
        FieldV { name: "thumb"@, key: "thumb"@, shape: ShapeV::Opt(Box::new(ShapeV::Rec(PHOTO_SIZE as int))) },
    ]
}

pub fn sticker_set_schema() -> (r: Schema)
    ensures
        r@ == sticker_set_schema_spec(),
{
    let mut fields: Vec<Field> = Vec::new();
    fields.push(Field::named("name", Shape::Str));
    fields.push(Field::named("title", Shape::Str));
    fields.push(Field::named("is_animated", Shape::Bool));
    fields.push(Field::named("contains_masks", Shape::Bool));
    fields.push(Field::named("stickers", many(Shape::Rec(STICKER))));
    fields.push(Field::named("thumb", opt(Shape::Rec(PHOTO_SIZE))));
    let r = Schema { fields };
    proof {
        assert(r@ =~= sticker_set_schema_spec());
    }
    r
}

proof fn lemma_sticker_set_schema_wf()
    ensures
        wf_schema(SCHEMA_COUNT as int, STICKER_SET as int, sticker_set_schema_spec()),
{
    reveal_with_fuel(wf_shape, 3);
    let s = sticker_set_schema_spec();
    reveal_strlit("contains_masks");
    reveal_strlit("is_animated");
    reveal_strlit("name");
    reveal_strlit("stickers");
    reveal_strlit("thumb");
    reveal_strlit("title");
    assert("contains_masks"@.len() == 14);
    assert("is_animated"@.len() == 11);
    assert("name"@.len() == 4);
    assert("stickers"@.len() == 8);
    assert("thumb"@.len() == 5);
    assert("title"@.len() == 5);
    assert("thumb"@[1] == 'h');
    assert("title"@[1] == 'i');
    assert(wf_shape(SCHEMA_COUNT as int, s[0].shape) && top_ref_lt(s[0].shape, STICKER_SET as int));
    assert(wf_shape(SCHEMA_COUNT as int, s[1].shape) && top_ref_lt(s[1].shape, STICKER_SET as int));
    assert(wf_shape(SCHEMA_COUNT as int, s[2].shape) && top_ref_lt(s[2].shape, STICKER_SET as int));
    assert(wf_shape(SCHEMA_COUNT as int, s[3].shape) && top_ref_lt(s[3].shape, STICKER_SET as int));
    assert(wf_shape(SCHEMA_COUNT as int, s[4].shape) && top_ref_lt(s[4].shape, STICKER_SET as int));
    assert(wf_shape(SCHEMA_COUNT as int, s[5].shape) && top_ref_lt(s[5].shape, STICKER_SET as int));
    assert(forall|i: int|
        0 <= i < s.len() ==> wf_shape(SCHEMA_COUNT as int, #[trigger] s[i].shape));
    assert(forall|i: int| 0 <= i < s.len() ==> top_ref_lt(#[trigger] s[i].shape, STICKER_SET as int));
    assert(forall|i: int, j: int| 0 <= i < j < s.len() ==> s[i].key != s[j].key);
}

pub open spec fn animation_schema_spec() -> SchemaV {
    seq![
        FieldV { name: "file_id"@, key: "file_id"@, shape: ShapeV::Str },
        FieldV { name: "file_unique_id"@, key: "file_unique_id"@, shape: ShapeV::Str },
        FieldV { name: "width"@, key: "width"@, shape: ShapeV::Int32 },
        FieldV { name: "height"@, key: "height"@, shape: ShapeV::Int32 },
        FieldV { name: "duration"@, key: "duration"@, shape: ShapeV::Int32 },
        FieldV { name: "thumb"@, key: "thumb"@, shape: ShapeV::Opt(Box::new(ShapeV::Rec(PHOTO_SIZE as int))) },
        FieldV { name: "file_name"@, key: "file_name"@, shape: ShapeV::Opt(Box::new(ShapeV::Str)) },
        FieldV { name: "mime_type"@, key: "mime_type"@, shape: ShapeV::Opt(Box::new(ShapeV::Str)) },
        FieldV { name: "file_size"@, key: "file_size"@, shape: ShapeV::Opt(Box::new(ShapeV::Int32)) },
    ]
}

pub fn animation_schema() -> (r: Schema)
    ensures
        r@ == animation_schema_spec(),
{
    let mut fields: Vec<Field> = Vec::new();
    fields.push(Field::named("file_id", Shape::Str));
    fields.push(Field::named("file_unique_id", Shape::Str));
    fields.push(Field::named("width", Shape::Int32));
    fields.push(Field::named("height", Shape::Int32));
    fields.push(Field::named("duration", Shape::Int32));
    fields.push(Field::named("thumb", opt(Shape::Rec(PHOTO_SIZE))));
    fields.push(Field::named("file_name", opt(Shape::Str)));
    fields.push(Field::named("mime_type", opt(Shape::Str)));
    fields.push(Field::named("file_size", opt(Shape::Int32)));
    let r = Schema { fields };
    proof {
        assert(r@ =~= animation_schema_spec());
    }
    r
}

proof fn lemma_animation_schema_wf()
    ensures
        wf_schema(SCHEMA_COUNT as int, ANIMATION as int, animation_schema_spec()),
{
    reveal_with_fuel(wf_shape, 3);
    let s = animation_schema_spec();
    reveal_strlit("duration");
    reveal_strlit("file_id");
    reveal_strlit("file_name");
    reveal_strlit("file_size");
    reveal_strlit("file_unique_id");
    reveal_strlit("height");
    reveal_strlit("mime_type");
    reveal_strlit("thumb");
    reveal_strlit("width");
    assert("duration"@.len() == 8);
    assert("file_id"@.len() == 7);
    assert("file_name"@.len() == 9);
    assert("file_size"@.len() == 9);
    assert("file_unique_id"@.len() == 14);
    assert("height"@.len() == 6);
    assert("mime_type"@.len() == 9);
    assert("thumb"@.len() == 5);
    assert("width"@.len() == 5);
    assert("file_name"@[0] == 'f');
    assert("file_name"@[5] == 'n');
    assert("file_size"@[0] == 'f');
    assert("file_size"@[5] == 's');
    assert("mime_type"@[0] == 'm');
    assert("thumb"@[0] == 't');
    assert("width"@[0] == 'w');
    assert(wf_shape(SCHEMA_COUNT as int, s[0].shape) && top_ref_lt(s[0].shape, ANIMATION as int));
    assert(wf_shape(SCHEMA_COUNT as int, s[1].shape) && top_ref_lt(s[1].shape, ANIMATION as int));
    assert(wf_shape(SCHEMA_COUNT as int, s[2].shape) && top_ref_lt(s[2].shape, ANIMATION as int));
    assert(wf_shape(SCHEMA_COUNT as int, s[3].shape) && top_ref_lt(s[3].shape, ANIMATION as int));
    assert(wf_shape(SCHEMA_COUNT as int, s[4].shape) && top_ref_lt(s[4].shape, ANIMATION as int));
    assert(wf_shape(SCHEMA_COUNT as int, s[5].shape) && top_ref_lt(s[5].shape, ANIMATION as int));
    assert(wf_shape(SCHEMA_COUNT as int, s[6].shape) && top_ref_lt(s[6].shape, ANIMATION as int));
    assert(wf_shape(SCHEMA_COUNT as int, s[7].shape) && top_ref_lt(s[7].shape, ANIMATION as int));
    assert(wf_shape(SCHEMA_COUNT as int, s[8].shape) && top_ref_lt(s[8].shape, ANIMATION as int));
    assert(forall|i: int|
        0 <= i < s.len() ==> wf_shape(SCHEMA_COUNT as int, #[trigger] s[i].shape));
    assert(forall|i: int| 0 <= i < s.len() ==> top_ref_lt(#[trigger] s[i].shape, ANIMATION as int));
    assert(forall|i: int, j: int| 0 <= i < j < s.len() ==> s[i].key != s[j].key);
}

pub open spec fn audio_schema_spec() -> SchemaV {
    seq![
        FieldV { name: "file_id"@, key: "file_id"@, shape: ShapeV::Str },
        FieldV { name: "file_unique_id"@, key: "file_unique_id"@, shape: ShapeV::Str },
        FieldV { name: "duration"@, key: "duration"@, shape: ShapeV::Int32 },
        FieldV { name: "performer"@, key: "performer"@, shape: ShapeV::Opt(Box::new(ShapeV::Str)) },
        FieldV { name: "title"@, key: "title"@, shape: ShapeV::Opt(Box::new(ShapeV::Str)) },
        FieldV { name: "file_name"@, key: "file_name"@, shape: ShapeV::Opt(Box::new(ShapeV::Str)) },
        FieldV { name: "mime_type"@, key: "mime_type"@, shape: ShapeV::Opt(Box::new(ShapeV::Str)) },
        FieldV { name: "file_size"@, key: "file_size"@, shape: ShapeV::Opt(Box::new(ShapeV::Int32)) },
        FieldV { name: "thumb"@, key: "thumb"@, shape: ShapeV::Opt(Box::new(ShapeV::Rec(PHOTO_SIZE as int))) },
    ]
}

pub fn audio_schema() -> (r: Schema)
    ensures
        r@ == audio_schema_spec(),
{
    let mut fields: Vec<Field> = Vec::new();
    fields.push(Field::named("file_id", Shape::Str));
    fields.push(Field::named("file_unique_id", Shape::Str));
    fields.push(Field::named("duration", Shape::Int32));
    fields.push(Field::named("performer", opt(Shape::Str)));
    fields.push(Field::named("title", opt(Shape::Str)));
    fields.push(Field::named("file_name", opt(Shape::Str)));
    fields.push(Field::named("mime_type", opt(Shape::Str)));
    fields.push(Field::named("file_size", opt(Shape::Int32)));
    fields.push(Field::named("thumb", opt(Shape::Rec(PHOTO_SIZE))));
    let r = Schema { fields };
    proof {
        assert(r@ =~= audio_schema_spec());
    }
    r
}

proof fn lemma_audio_schema_wf()
    ensures
        wf_schema(SCHEMA_COUNT as int, AUDIO as int, audio_schema_spec()),
{
    reveal_with_fuel(wf_shape, 3);
    let s = audio_schema_spec();
    reveal_strlit("duration");
    reveal_strlit("file_id");
    reveal_strlit("file_name");
    reveal_strlit("file_size");
    reveal_strlit("file_unique_id");
    reveal_strlit("mime_type");
    reveal_strlit("performer");
    reveal_strlit("thumb");
    reveal_strlit("title");
    assert("duration"@.len() == 8);
    assert("file_id"@.len() == 7);
    assert("file_name"@.len() == 9);
    assert("file_size"@.len() == 9);
    assert("file_unique_id"@.len() == 14);
    assert("mime_type"@.len() == 9);
    assert("performer"@.len() == 9);
    assert("thumb"@.len() == 5);
    assert("title"@.len() == 5);
    assert("file_name"@[0] == 'f');
    assert("file_name"@[5] == 'n');
    assert("file_size"@[0] == 'f');
    assert("file_size"@[5] == 's');
    assert("mime_type"@[0] == 'm');
    assert("performer"@[0] == 'p');
    assert("thumb"@[1] == 'h');
    assert("title"@[1] == 'i');
    assert(wf_shape(SCHEMA_COUNT as int, s[0].shape) && top_ref_lt(s[0].shape, AUDIO as int));
    assert(wf_shape(SCHEMA_COUNT as int, s[1].shape) && top_ref_lt(s[1].shape, AUDIO as int));
    assert(wf_shape(SCHEMA_COUNT as int, s[2].shape) && top_ref_lt(s[2].shape, AUDIO as int));
    assert(wf_shape(SCHEMA_COUNT as int, s[3].shape) && top_ref_lt(s[3].shape, AUDIO as int));
    assert(wf_shape(SCHEMA_COUNT as int, s[4].shape) && top_ref_lt(s[4].shape, AUDIO as int));
    assert(wf_shape(SCHEMA_COUNT as int, s[5].shape) && top_ref_lt(s[5].shape, AUDIO as int));
    assert(wf_shape(SCHEMA_COUNT as int, s[6].shape) && top_ref_lt(s[6].shape, AUDIO as int));
    assert(wf_shape(SCHEMA_COUNT as int, s[7].shape) && top_ref_lt(s[7].shape, AUDIO as int));
    assert(wf_shape(SCHEMA_COUNT as int, s[8].shape) && top_ref_lt(s[8].shape, AUDIO as int));
    assert(forall|i: int|
        0 <= i < s.len() ==> wf_shape(SCHEMA_COUNT as int, #[trigger] s[i].shape));
    assert(forall|i: int| 0 <= i < s.len() ==> top_ref_lt(#[trigger] s[i].shape, AUDIO as int));
    assert(forall|i: int, j: int| 0 <= i < j < s.len() ==> s[i].key != s[j].key);
}

pub open spec fn document_schema_spec() -> SchemaV {
    seq![
        FieldV { name: "file_id"@, key: "file_id"@, shape: ShapeV::Str },
        FieldV { name: "file_unique_id"@, key: "file_unique_id"@, shape: ShapeV::Str },
        FieldV { name: "thumb"@, key: "thumb"@, shape: ShapeV::Opt(Box::new(ShapeV::Rec(PHOTO_SIZE as int))) },
        FieldV { name: "file_name"@, key: "file_name"@, shape: ShapeV::Opt(Box::new(ShapeV::Str)) },
        FieldV { name: "mime_type"@, key: "mime_type"@, shape: ShapeV::Opt(Box::new(ShapeV::Str)) },
        FieldV { name: "file_size"@, key: "file_size"@, shape: ShapeV::Opt(Box::new(ShapeV::Int32)) },
    ]
}

pub fn document_schema() -> (r: Schema)
    ensures
        r@ == document_schema_spec(),
{
    let mut fields: Vec<Field> = Vec::new();
    fields.push(Field::named("file_id", Shape::Str));
    fields.push(Field::named("file_unique_id", Shape::Str));
    fields.push(Field::named("thumb", opt(Shape::Rec(PHOTO_SIZE))));
    fields.push(Field::named("file_name", opt(Shape::Str)));
    fields.push(Field::named("mime_type", opt(Shape::Str)));
    fields.push(Field::named("file_size", opt(Shape::Int32)));
    let r = Schema { fields };
    proof {
        assert(r@ =~= document_schema_spec());
    }
    r
}

proof fn lemma_document_schema_wf()
    ensures
        wf_schema(SCHEMA_COUNT as int, DOCUMENT as int, document_schema_spec()),
{
    reveal_with_fuel(wf_shape, 3);
    let s = document_schema_spec();
    reveal_strlit("file_id");
    reveal_strlit("file_name");
    reveal_strlit("file_size");
    reveal_strlit("file_unique_id");
    reveal_strlit("mime_type");
    reveal_strlit("thumb");
    assert("file_id"@.len() == 7);
    assert("file_name"@.len() == 9);
    assert("file_size"@.len() == 9);
    assert("file_unique_id"@.len() == 14);
    assert("mime_type"@.len() == 9);
    assert("thumb"@.len() == 5);
    assert("file_name"@[0] == 'f');
    assert("file_name"@[5] == 'n');
    assert("file_size"@[0] == 'f');
    assert("file_size"@[5] == 's');
    assert("mime_type"@[0] == 'm');
    assert(wf_shape(SCHEMA_COUNT as int, s[0].shape) && top_ref_lt(s[0].shape, DOCUMENT as int));
    assert(wf_shape(SCHEMA_COUNT as int, s[1].shape) && top_ref_lt(s[1].shape, DOCUMENT as int));
    assert(wf_shape(SCHEMA_COUNT as int, s[2].shape) && top_ref_lt(s[2].shape, DOCUMENT as int));
    assert(wf_shape(SCHEMA_COUNT as int, s[3].shape) && top_ref_lt(s[3].shape, DOCUMENT as int));
    assert(wf_shape(SCHEMA_COUNT as int, s[4].shape) && top_ref_lt(s[4].shape, DOCUMENT as int));
    assert(wf_shape(SCHEMA_COUNT as int, s[5].shape) && top_ref_lt(s[5].shape, DOCUMENT as int));
    assert(forall|i: int|
        0 <= i < s.len() ==> wf_shape(SCHEMA_COUNT as int, #[trigger] s[i].shape));
    assert(forall|i: int| 0 <= i < s.len() ==> top_ref_lt(#[trigger] s[i].shape, DOCUMENT as int));
    assert(forall|i: int, j: int| 0 <= i < j < s.len() ==> s[i].key != s[j].key);
}

pub open spec fn video_schema_spec() -> SchemaV {
    seq![
        FieldV { name: "file_id"@, key: "file_id"@, shape: ShapeV::Str },
        FieldV { name: "file_unique_id"@, key: "file_unique_id"@, shape: ShapeV::Str },
        FieldV { name: "width"@, key: "width"@, shape: ShapeV::Int32 },
        FieldV { name: "height"@, key: "height"@, shape: ShapeV::Int32 },
        FieldV { name: "duration"@, key: "duration"@, shape: ShapeV::Int32 },
        FieldV { name: "thumb"@, key: "thumb"@, shape: ShapeV::Opt(Box::new(ShapeV::Rec(PHOTO_SIZE as int))) },
        FieldV { name: "file_name"@, key: "file_name"@, shape: ShapeV::Opt(Box::new(ShapeV::Str)) },
        FieldV { name: "mime_type"@, key: "mime_type"@, shape: ShapeV::Opt(Box::new(ShapeV::Str)) },
        FieldV { name: "file_size"@, key: "file_size"@, shape: ShapeV::Opt(Box::new(ShapeV::Int32)) },
    ]
}

pub fn video_schema() -> (r: Schema)
    ensures
        r@ == video_schema_spec(),
{
    let mut fields: Vec<Field> = Vec::new();
    fields.push(Field::named("file_id", Shape::Str));
    fields.push(Field::named("file_unique_id", Shape::Str));
    fields.push(Field::named("width", Shape::Int32));
    fields.push(Field::named("height", Shape::Int32));
    fields.push(Field::named("duration", Shape::Int32));
    fields.push(Field::named("thumb", opt(Shape::Rec(PHOTO_SIZE))));
    fields.push(Field::named("file_name", opt(Shape::Str)));
    fields.push(Field::named("mime_type", opt(Shape::Str)));
    fields.push(Field::named("file_size", opt(Shape::Int32)));
    let r = Schema { fields };
    proof {
        assert(r@ =~= video_schema_spec());
    }
    r
}

proof fn lemma_video_schema_wf()
    ensures
        wf_schema(SCHEMA_COUNT as int, VIDEO as int, video_schema_spec()),
{
    reveal_with_fuel(wf_shape, 3);
    let s = video_schema_spec();
    reveal_strlit("duration");
    reveal_strlit("file_id");
    reveal_strlit("file_name");
    reveal_strlit("file_size");
    reveal_strlit("file_unique_id");
    reveal_strlit("height");
    reveal_strlit("mime_type");
    reveal_strlit("thumb");
    reveal_strlit("width");
    assert("duration"@.len() == 8);
    assert("file_id"@.len() == 7);
    assert("file_name"@.len() == 9);
    assert("file_size"@.len() == 9);
    assert("file_unique_id"@.len() == 14);
    assert("height"@.len() == 6);
    assert("mime_type"@.len() == 9);
    assert("thumb"@.len() == 5);
    assert("width"@.len() == 5);
    assert("file_name"@[0] == 'f');
    assert("file_name"@[5] == 'n');
    assert("file_size"@[0] == 'f');
    assert("file_size"@[5] == 's');
    assert("mime_type"@[0] == 'm');
    assert("thumb"@[0] == 't');
    assert("width"@[0] == 'w');
    assert(wf_shape(SCHEMA_COUNT as int, s[0].shape) && top_ref_lt(s[0].shape, VIDEO as int));
    assert(wf_shape(SCHEMA_COUNT as int, s[1].shape) && top_ref_lt(s[1].shape, VIDEO as int));
    assert(wf_shape(SCHEMA_COUNT as int, s[2].shape) && top_ref_lt(s[2].shape, VIDEO as int));
    assert(wf_shape(SCHEMA_COUNT as int, s[3].shape) && top_ref_lt(s[3].shape, VIDEO as int));
    assert(wf_shape(SCHEMA_COUNT as int, s[4].shape) && top_ref_lt(s[4].shape, VIDEO as int));
    assert(wf_shape(SCHEMA_COUNT as int, s[5].shape) && top_ref_lt(s[5].shape, VIDEO as int));
    assert(wf_shape(SCHEMA_COUNT as int, s[6].shape) && top_ref_lt(s[6].shape, VIDEO as int));
    assert(wf_shape(SCHEMA_COUNT as int, s[7].shape) && top_ref_lt(s[7].shape, VIDEO as int));
    assert(wf_shape(SCHEMA_COUNT as int, s[8].shape) && top_ref_lt(s[8].shape, VIDEO as int));
    assert(forall|i: int|
        0 <= i < s.len() ==> wf_shape(SCHEMA_COUNT as int, #[trigger] s[i].shape));
    assert(forall|i: int| 0 <= i < s.len() ==> top_ref_lt(#[trigger] s[i].shape, VIDEO as int));
    assert(forall|i: int, j: int| 0 <= i < j < s.len() ==> s[i].key != s[j].key);
}

pub open spec fn video_note_schema_spec() -> SchemaV {
    seq![
        FieldV { name: "file_id"@, key: "file_id"@, shape: ShapeV::Str },
        FieldV { name: "file_unique_id"@, key: "file_unique_id"@, shape: ShapeV::Str },
        FieldV { name: "length"@, key: "length"@, shape: ShapeV::Int32 },
        FieldV { name: "duration"@, key: "duration"@, shape: ShapeV::Int32 },
        FieldV { name: "thumb"@, key: "thumb"@, shape: ShapeV::Opt(Box::new(ShapeV::Rec(PHOTO_SIZE as int))) },
        FieldV { name: "file_size"@, key: "file_size"@, shape: ShapeV::Opt(Box::new(ShapeV::Int32)) },
    ]
}

pub fn video_note_schema() -> (r: Schema)
    ensures
        r@ == video_note_schema_spec(),
{
    let mut fields: Vec<Field> = Vec::new();
    fields.push(Field::named("file_id", Shape::Str));
    fields.push(Field::named("file_unique_id", Shape::Str));
    fields.push(Field::named("length", Shape::Int32));
    fields.push(Field::named("duration", Shape::Int32));
    fields.push(Field::named("thumb", opt(Shape::Rec(PHOTO_SIZE))));
    fields.push(Field::named("file_size", opt(Shape::Int32)));
    let r = Schema { fields };
    proof {
        assert(r@ =~= video_note_schema_spec());
    }
    r
}

proof fn lemma_video_note_schema_wf()
    ensures
        wf_schema(SCHEMA_COUNT as int, VIDEO_NOTE as int, video_note_schema_spec()),
{
    reveal_with_fuel(wf_shape, 3);
    let s = video_note_schema_spec();
    reveal_strlit("duration");
    reveal_strlit("file_id");
    reveal_strlit("file_size");
    reveal_strlit("file_unique_id");
    reveal_strlit("length");
    reveal_strlit("thumb");
    assert("duration"@.len() == 8);
    assert("file_id"@.len() == 7);
    assert("file_size"@.len() == 9);
    assert("file_unique_id"@.len() == 14);
    assert("length"@.len() == 6);
    assert("thumb"@.len() == 5);
    assert(wf_shape(SCHEMA_COUNT as int, s[0].shape) && top_ref_lt(s[0].shape, VIDEO_NOTE as int));
    assert(wf_shape(SCHEMA_COUNT as int, s[1].shape) && top_ref_lt(s[1].shape, VIDEO_NOTE as int));
    assert(wf_shape(SCHEMA_COUNT as int, s[2].shape) && top_ref_lt(s[2].shape, VIDEO_NOTE as int));
    assert(wf_shape(SCHEMA_COUNT as int, s[3].shape) && top_ref_lt(s[3].shape, VIDEO_NOTE as int));
    assert(wf_shape(SCHEMA_COUNT as int, s[4].shape) && top_ref_lt(s[4].shape, VIDEO_NOTE as int));
    assert(wf_shape(SCHEMA_COUNT as int, s[5].shape) && top_ref_lt(s[5].shape, VIDEO_NOTE as int));
    assert(forall|i: int|
        0 <= i < s.len() ==> wf_shape(SCHEMA_COUNT as int, #[trigger] s[i].shape));
    assert(forall|i: int| 0 <= i < s.len() ==> top_ref_lt(#[trigger] s[i].shape, VIDEO_NOTE as int));
    assert(forall|i: int, j: int| 0 <= i < j < s.len() ==> s[i].key != s[j].key);
}

pub open spec fn voice_schema_spec() -> SchemaV {
    seq![
        FieldV { name: "file_id"@, key: "file_id"@, shape: ShapeV::Str },
        FieldV { name: "file_unique_id"@, key: "file_unique_id"@, shape: ShapeV::Str },
        FieldV { name: "duration"@, key: "duration"@, shape: ShapeV::Int32 },
        FieldV { name: "mime_type"@, key: "mime_type"@, shape: ShapeV::Opt(Box::new(ShapeV::Str)) },
        FieldV { name: "file_size"@, key: "file_size"@, shape: ShapeV::Opt(Box::new(ShapeV::Int32)) },
    ]
}

pub fn voice_schema() -> (r: Schema)
    ensures
        r@ == voice_schema_spec(),
{
    let mut fields: Vec<Field> = Vec::new();
    fields.push(Field::named("file_id", Shape::Str));
    fields.push(Field::named("file_unique_id", Shape::Str));
    fields.push(Field::named("duration", Shape::Int32));
    fields.push(Field::named("mime_type", opt(Shape::Str)));
    fields.push(Field::named("file_size", opt(Shape::Int32)));
    let r = Schema { fields };
    proof {
        assert(r@ =~= voice_schema_spec());
    }
    r
}

proof fn lemma_voice_schema_wf()
    ensures
        wf_schema(SCHEMA_COUNT as int, VOICE as int, voice_schema_spec()),
{
    reveal_with_fuel(wf_shape, 3);
    let s = voice_schema_spec();
    reveal_strlit("duration");
    reveal_strlit("file_id");
    reveal_strlit("file_size");
    reveal_strlit("file_unique_id");
    reveal_strlit("mime_type");
    assert("duration"@.len() == 8);
    assert("file_id"@.len() == 7);
    assert("file_size"@.len() == 9);
    assert("file_unique_id"@.len() == 14);
    assert("mime_type"@.len() == 9);
    assert("file_size"@[0] == 'f');
    assert("mime_type"@[0] == 'm');
    assert(wf_shape(SCHEMA_COUNT as int, s[0].shape) && top_ref_lt(s[0].shape, VOICE as int));
    assert(wf_shape(SCHEMA_COUNT as int, s[1].shape) && top_ref_lt(s[1].shape, VOICE as int));
    assert(wf_shape(SCHEMA_COUNT as int, s[2].shape) && top_ref_lt(s[2].shape, VOICE as int));
    assert(wf_shape(SCHEMA_COUNT as int, s[3].shape) && top_ref_lt(s[3].shape, VOICE as int));
    assert(wf_shape(SCHEMA_COUNT as int, s[4].shape) && top_ref_lt(s[4].shape, VOICE as int));
    assert(forall|i: int|
        0 <= i < s.len() ==> wf_shape(SCHEMA_COUNT as int, #[trigger] s[i].shape));
    assert(forall|i: int| 0 <= i < s.len() ==> top_ref_lt(#[trigger] s[i].shape, VOICE as int));
    assert(forall|i: int, j: int| 0 <= i < j < s.len() ==> s[i].key != s[j].key);
}

pub open spec fn login_url_schema_spec() -> SchemaV {
    seq![
        FieldV { name: "url"@, key: "url"@, shape: ShapeV::Str },
        FieldV { name: "forward_text"@, key: "forward_text"@, shape: ShapeV::Opt(Box::new(ShapeV::Str)) },
        FieldV { name: "bot_username"@, key: "bot_username"@, shape: ShapeV::Opt(Box::new(ShapeV::Str)) },
        FieldV { name: "request_write_access"@, key: "request_write_access"@, shape: ShapeV::Opt(Box::new(ShapeV::Bool)) },
    ]
}

pub fn login_url_schema() -> (r: Schema)
    ensures
        r@ == login_url_schema_spec(),
{
    let mut fields: Vec<Field> = Vec::new();
    fields.push(Field::named("url", Shape::Str));
    fields.push(Field::named("forward_text", opt(Shape::Str)));
    fields.push(Field::named("bot_username", opt(Shape::Str)));
    fields.push(Field::named("request_write_access", opt(Shape::Bool)));
    let r = Schema { fields };
    proof {
        assert(r@ =~= login_url_schema_spec());
    }
    r
}

proof fn lemma_login_url_schema_wf()
    ensures
        wf_schema(SCHEMA_COUNT as int, LOGIN_URL as int, login_url_schema_spec()),
{
    reveal_with_fuel(wf_shape, 3);
    let s = login_url_schema_spec();
    reveal_strlit("bot_username");
    reveal_strlit("forward_text");
    reveal_strlit("request_write_access");
    reveal_strlit("url");
    assert("bot_username"@.len() == 12);
    assert("forward_text"@.len() == 12);
    assert("request_write_access"@.len() == 20);
    assert("url"@.len() == 3);
    assert("bot_username"@[0] == 'b');
    assert("forward_text"@[0] == 'f');
    assert(wf_shape(SCHEMA_COUNT as int, s[0].shape) && top_ref_lt(s[0].shape, LOGIN_URL as int));
    assert(wf_shape(SCHEMA_COUNT as int, s[1].shape) && top_ref_lt(s[1].shape, LOGIN_URL as int));
    assert(wf_shape(SCHEMA_COUNT as int, s[2].shape) && top_ref_lt(s[2].shape, LOGIN_URL as int));
    assert(wf_shape(SCHEMA_COUNT as int, s[3].shape) && top_ref_lt(s[3].shape, LOGIN_URL as int));
    assert(forall|i: int|
        0 <= i < s.len() ==> wf_shape(SCHEMA_COUNT as int, #[trigger] s[i].shape));
    assert(forall|i: int| 0 <= i < s.len() ==> top_ref_lt(#[trigger] s[i].shape, LOGIN_URL as int));
    assert(forall|i: int, j: int| 0 <= i < j < s.len() ==> s[i].key != s[j].key);
}

pub open spec fn inline_keyboard_button_schema_spec() -> SchemaV {
    seq![
        FieldV { name: "text"@, key: "text"@, shape: ShapeV::Str },
        FieldV { name: "url"@, key: "url"@, shape: ShapeV::Opt(Box::new(ShapeV::Str)) },
        FieldV { name: "login_url"@, key: "login_url"@, shape: ShapeV::Opt(Box::new(ShapeV::Rec(LOGIN_URL as int))) },
        FieldV { name: "callback_data"@, key: "callback_data"@, shape: ShapeV::Opt(Box::new(ShapeV::Str)) },
        FieldV { name: "switch_inline_query"@, key: "switch_inline_query"@, shape: ShapeV::Opt(Box::new(ShapeV::Str)) },
        FieldV { name: "switch_inline_query_current_chat"@, key: "switch_inline_query_current_chat"@, shape: ShapeV::Opt(Box::new(ShapeV::Str)) },
        FieldV { name: "pay"@, key: "pay"@, shape: ShapeV::Opt(Box::new(ShapeV::Bool)) },
    ]
}

pub fn inline_keyboard_button_schema() -> (r: Schema)
    ensures
        r@ == inline_keyboard_button_schema_spec(),
{
    let mut fields: Vec<Field> = Vec::new();
    fields.push(Field::named("text", Shape::Str));
    fields.push(Field::named("url", opt(Shape::Str)));
    fields.push(Field::named("login_url", opt(Shape::Rec(LOGIN_URL))));
    fields.push(Field::named("callback_data", opt(Shape::Str)));
    fields.push(Field::named("switch_inline_query", opt(Shape::Str)));
    fields.push(Field::named("switch_inline_query_current_chat", opt(Shape::Str)));
    fields.push(Field::named("pay", opt(Shape::Bool)));
    let r = Schema { fields };
    proof {
        assert(r@ =~= inline_keyboard_button_schema_spec());
    }
    r
}

proof fn lemma_inline_keyboard_button_schema_wf()
    ensures
        wf_schema(SCHEMA_COUNT as int, INLINE_KEYBOARD_BUTTON as int, inline_keyboard_button_schema_spec()),
{
    reveal_with_fuel(wf_shape, 3);
    let s = inline_keyboard_button_schema_spec();
    reveal_strlit("callback_data");
    reveal_strlit("login_url");
    reveal_strlit("pay");
    reveal_strlit("switch_inline_query");
    reveal_strlit("switch_inline_query_current_chat");
    reveal_strlit("text");
    reveal_strlit("url");
    assert("callback_data"@.len() == 13);
    assert("login_url"@.len() == 9);
    assert("pay"@.len() == 3);
    assert("switch_inline_query"@.len() == 19);
    assert("switch_inline_query_current_chat"@.len() == 32);
    assert("text"@.len() == 4);
    assert("url"@.len() == 3);
    assert("pay"@[0] == 'p');
    assert("url"@[0] == 'u');
    assert(wf_shape(SCHEMA_COUNT as int, s[0].shape) && top_ref_lt(s[0].shape, INLINE_KEYBOARD_BUTTON as int));
    assert(wf_shape(SCHEMA_COUNT as int, s[1].shape) && top_ref_lt(s[1].shape, INLINE_KEYBOARD_BUTTON as int));
    assert(wf_shape(SCHEMA_COUNT as int, s[2].shape) && top_ref_lt(s[2].shape, INLINE_KEYBOARD_BUTTON as int));
    assert(wf_shape(SCHEMA_COUNT as int, s[3].shape) && top_ref_lt(s[3].shape, INLINE_KEYBOARD_BUTTON as int));
    assert(wf_shape(SCHEMA_COUNT as int, s[4].shape) && top_ref_lt(s[4].shape, INLINE_KEYBOARD_BUTTON as int));
    assert(wf_shape(SCHEMA_COUNT as int, s[5].shape) && top_ref_lt(s[5].shape, INLINE_KEYBOARD_BUTTON as int));
    assert(wf_shape(SCHEMA_COUNT as int, s[6].shape) && top_ref_lt(s[6].shape, INLINE_KEYBOARD_BUTTON as int));
    assert(forall|i: int|
        0 <= i < s.len() ==> wf_shape(SCHEMA_COUNT as int, #[trigger] s[i].shape));
    assert(forall|i: int| 0 <= i < s.len() ==> top_ref_lt(#[trigger] s[i].shape, INLINE_KEYBOARD_BUTTON as int));
    assert(forall|i: int, j: int| 0 <= i < j < s.len() ==> s[i].key != s[j].key);
}

pub open spec fn inline_keyboard_markup_schema_spec() -> SchemaV {
    seq![
        FieldV { name: "inline_keyboard"@, key: "inline_keyboard"@, shape: ShapeV::Grid(Box::new(ShapeV::Rec(INLINE_KEYBOARD_BUTTON as int))) },
    ]
}

pub fn inline_keyboard_markup_schema() -> (r: Schema)
    ensures
        r@ == inline_keyboard_markup_schema_spec(),
{
    let mut fields: Vec<Field> = Vec::new();
    fields.push(Field::named("inline_keyboard", grid(Shape::Rec(INLINE_KEYBOARD_BUTTON))));
    let r = Schema { fields };
    proof {
        assert(r@ =~= inline_keyboard_markup_schema_spec());
    }
    r
}

proof fn lemma_inline_keyboard_markup_schema_wf()
    ensures
        wf_schema(SCHEMA_COUNT as int, INLINE_KEYBOARD_MARKUP as int, inline_keyboard_markup_schema_spec()),
{
    reveal_with_fuel(wf_shape, 3);
    let s = inline_keyboard_markup_schema_spec();
    reveal_strlit("inline_keyboard");
    assert("inline_keyboard"@.len() == 15);
    assert(wf_shape(SCHEMA_COUNT as int, s[0].shape) && top_ref_lt(s[0].shape, INLINE_KEYBOARD_MARKUP as int));
    assert(forall|i: int|
        0 <= i < s.len() ==> wf_shape(SCHEMA_COUNT as int, #[trigger] s[i].shape));
    assert(forall|i: int| 0 <= i < s.len() ==> top_ref_lt(#[trigger] s[i].shape, INLINE_KEYBOARD_MARKUP as int));
    assert(forall|i: int, j: int| 0 <= i < j < s.len() ==> s[i].key != s[j].key);
}

pub open spec fn keyboard_button_poll_type_schema_spec() -> SchemaV {
    seq![
        FieldV { name: "typ"@, key: "type"@, shape: ShapeV::Str },
    ]
}

pub fn keyboard_button_poll_type_schema() -> (r: Schema)
    ensures
        r@ == keyboard_button_poll_type_schema_spec(),
{
    let mut fields: Vec<Field> = Vec::new();
    fields.push(Field::renamed("typ", "type", Shape::Str));
    let r = Schema { fields };
    proof {
        assert(r@ =~= keyboard_button_poll_type_schema_spec());
    }
    r
}

proof fn lemma_keyboard_button_poll_type_schema_wf()
    ensures
        wf_schema(SCHEMA_COUNT as int, KEYBOARD_BUTTON_POLL_TYPE as int, keyboard_button_poll_type_schema_spec()),
{
    reveal_with_fuel(wf_shape, 3);
    let s = keyboard_button_poll_type_schema_spec();
    reveal_strlit("type");
    assert("type"@.len() == 4);
    assert(wf_shape(SCHEMA_COUNT as int, s[0].shape) && top_ref_lt(s[0].shape, KEYBOARD_BUTTON_POLL_TYPE as int));
    assert(forall|i: int|
        0 <= i < s.len() ==> wf_shape(SCHEMA_COUNT as int, #[trigger] s[i].shape));
    assert(forall|i: int| 0 <= i < s.len() ==> top_ref_lt(#[trigger] s[i].shape, KEYBOARD_BUTTON_POLL_TYPE as int));
    assert(forall|i: int, j: int| 0 <= i < j < s.len() ==> s[i].key != s[j].key);
}

pub open spec fn keyboard_button_schema_spec() -> SchemaV {
    seq![
        FieldV { name: "text"@, key: "text"@, shape: ShapeV::Str },
        FieldV { name: "request_contact"@, key: "request_contact"@, shape: ShapeV::Opt(Box::new(ShapeV::Bool)) },
        FieldV { name: "request_location"@, key: "request_location"@, shape: ShapeV::Opt(Box::new(ShapeV::Bool)) },
        FieldV { name: "request_poll"@, key: "request_poll"@, shape: ShapeV::Opt(Box::new(ShapeV::Rec(KEYBOARD_BUTTON_POLL_TYPE as int))) },
    ]
}

pub fn keyboard_button_schema() -> (r: Schema)
    ensures
        r@ == keyboard_button_schema_spec(),
{
    let mut fields: Vec<Field> = Vec::new();
    fields.push(Field::named("text", Shape::Str));
    fields.push(Field::named("request_contact", opt(Shape::Bool)));
    fields.push(Field::named("request_location", opt(Shape::Bool)));
    fields.push(Field::named("request_poll", opt(Shape::Rec(KEYBOARD_BUTTON_POLL_TYPE))));
    let r = Schema { fields };
    proof {
        assert(r@ =~= keyboard_button_schema_spec());
    }
    r
}

proof fn lemma_keyboard_button_schema_wf()
    ensures
        wf_schema(SCHEMA_COUNT as int, KEYBOARD_BUTTON as int, keyboard_button_schema_spec()),
{
    reveal_with_fuel(wf_shape, 3);
    let s = keyboard_button_schema_spec();
    reveal_strlit("request_contact");
    reveal_strlit("request_location");
    reveal_strlit("request_poll");
    reveal_strlit("text");
    assert("request_contact"@.len() == 15);
    assert("request_location"@.len() == 16);
    assert("request_poll"@.len() == 12);
    assert("text"@.len() == 4);
    assert(wf_shape(SCHEMA_COUNT as int, s[0].shape) && top_ref_lt(s[0].shape, KEYBOARD_BUTTON as int));
    assert(wf_shape(SCHEMA_COUNT as int, s[1].shape) && top_ref_lt(s[1].shape, KEYBOARD_BUTTON as int));
    assert(wf_shape(SCHEMA_COUNT as int, s[2].shape) && top_ref_lt(s[2].shape, KEYBOARD_BUTTON as int));
    assert(wf_shape(SCHEMA_COUNT as int, s[3].shape) && top_ref_lt(s[3].shape, KEYBOARD_BUTTON as int));
    assert(forall|i: int|
        0 <= i < s.len() ==> wf_shape(SCHEMA_COUNT as int, #[trigger] s[i].shape));
    assert(forall|i: int| 0 <= i < s.len() ==> top_ref_lt(#[trigger] s[i].shape, KEYBOARD_BUTTON as int));
    assert(forall|i: int, j: int| 0 <= i < j < s.len() ==> s[i].key != s[j].key);
}

pub open spec fn reply_keyboard_markup_schema_spec() -> SchemaV {
    seq![
        FieldV { name: "keyboard"@, key: "keyboard"@, shape: ShapeV::Grid(Box::new(ShapeV::Rec(KEYBOARD_BUTTON as int))) },
        FieldV { name: "resize_keyboard"@, key: "resize_keyboard"@, shape: ShapeV::Opt(Box::new(ShapeV::Bool)) },
        FieldV { name: "one_time_keyboard"@, key: "one_time_keyboard"@, shape: ShapeV::Opt(Box::new(ShapeV::Bool)) },
        FieldV { name: "selective"@, key: "selective"@, shape: ShapeV::Opt(Box::new(ShapeV::Bool)) },
    ]
}

pub fn reply_keyboard_markup_schema() -> (r: Schema)
    ensures
        r@ == reply_keyboard_markup_schema_spec(),
{
    let mut fields: Vec<Field> = Vec::new();
    fields.push(Field::named("keyboard", grid(Shape::Rec(KEYBOARD_BUTTON))));
    fields.push(Field::named("resize_keyboard", opt(Shape::Bool)));
    fields.push(Field::named("one_time_keyboard", opt(Shape::Bool)));
    fields.push(Field::named("selective", opt(Shape::Bool)));
    let r = Schema { fields };
    proof {
        assert(r@ =~= reply_keyboard_markup_schema_spec());
    }
    r
}

proof fn lemma_reply_keyboard_markup_schema_wf()
    ensures
        wf_schema(SCHEMA_COUNT as int, REPLY_KEYBOARD_MARKUP as int, reply_keyboard_markup_schema_spec()),
{
    reveal_with_fuel(wf_shape, 3);
    let s = reply_keyboard_markup_schema_spec();
    reveal_strlit("keyboard");
    reveal_strlit("one_time_keyboard");
    reveal_strlit("resize_keyboard");
    reveal_strlit("selective");
    assert("keyboard"@.len() == 8);
    assert("one_time_keyboard"@.len() == 17);
    assert("resize_keyboard"@.len() == 15);
    assert("selective"@.len() == 9);
    assert(wf_shape(SCHEMA_COUNT as int, s[0].shape) && top_ref_lt(s[0].shape, REPLY_KEYBOARD_MARKUP as int));
    assert(wf_shape(SCHEMA_COUNT as int, s[1].shape) && top_ref_lt(s[1].shape, REPLY_KEYBOARD_MARKUP as int));
    assert(wf_shape(SCHEMA_COUNT as int, s[2].shape) && top_ref_lt(s[2].shape, REPLY_KEYBOARD_MARKUP as int));
    assert(wf_shape(SCHEMA_COUNT as int, s[3].shape) && top_ref_lt(s[3].shape, REPLY_KEYBOARD_MARKUP as int));
    assert(forall|i: int|
        0 <= i < s.len() ==> wf_shape(SCHEMA_COUNT as int, #[trigger] s[i].shape));
    assert(forall|i: int| 0 <= i < s.len() ==> top_ref_lt(#[trigger] s[i].shape, REPLY_KEYBOARD_MARKUP as int));
    assert(forall|i: int, j: int| 0 <= i < j < s.len() ==> s[i].key != s[j].key);
}

pub open spec fn reply_keyboard_remove_schema_spec() -> SchemaV {
    seq![
        FieldV { name: "remove_keyboard"@, key: "remove_keyboard"@, shape: ShapeV::Bool },
        FieldV { name: "selective"@, key: "selective"@, shape: ShapeV::Opt(Box::new(ShapeV::Bool)) },
    ]
}

pub fn reply_keyboard_remove_schema() -> (r: Schema)
    ensures
        r@ == reply_keyboard_remove_schema_spec(),
{
    let mut fields: Vec<Field> = Vec::new();
    fields.push(Field::named("remove_keyboard", Shape::Bool));
    fields.push(Field::named("selective", opt(Shape::Bool)));
    let r = Schema { fields };
    proof {
        assert(r@ =~= reply_keyboard_remove_schema_spec());
    }
    r
}

proof fn lemma_reply_keyboard_remove_schema_wf()
    ensures
        wf_schema(SCHEMA_COUNT as int, REPLY_KEYBOARD_REMOVE as int, reply_keyboard_remove_schema_spec()),
{
    reveal_with_fuel(wf_shape, 3);
    let s = reply_keyboard_remove_schema_spec();
    reveal_strlit("remove_keyboard");
    reveal_strlit("selective");
    assert("remove_keyboard"@.len() == 15);
    assert("selective"@.len() == 9);
    assert(wf_shape(SCHEMA_COUNT as int, s[0].shape) && top_ref_lt(s[0].shape, REPLY_KEYBOARD_REMOVE as int));
    assert(wf_shape(SCHEMA_COUNT as int, s[1].shape) && top_ref_lt(s[1].shape, REPLY_KEYBOARD_REMOVE as int));
    assert(forall|i: int|
        0 <= i < s.len() ==> wf_shape(SCHEMA_COUNT as int, #[trigger] s[i].shape));
    assert(forall|i: int| 0 <= i < s.len() ==> top_ref_lt(#[trigger] s[i].shape, REPLY_KEYBOARD_REMOVE as int));
    assert(forall|i: int, j: int| 0 <= i < j < s.len() ==> s[i].key != s[j].key);
}

pub open spec fn force_reply_schema_spec() -> SchemaV {
    seq![
        FieldV { name: "force_reply"@, key: "force_reply"@, shape: ShapeV::Bool },
        FieldV { name: "selective"@, key: "selective"@, shape: ShapeV::Opt(Box::new(ShapeV::Bool)) },
    ]
}

pub fn force_reply_schema() -> (r: Schema)
    ensures
        r@ == force_reply_schema_spec(),
{
    let mut fields: Vec<Field> = Vec::new();
    fields.push(Field::named("force_reply", Shape::Bool));
    fields.push(Field::named("selective", opt(Shape::Bool)));
    let r = Schema { fields };
    proof {
        assert(r@ =~= force_reply_schema_spec());
    }
    r
}

proof fn lemma_force_reply_schema_wf()
    ensures
        wf_schema(SCHEMA_COUNT as int, FORCE_REPLY as int, force_reply_schema_spec()),
{
    reveal_with_fuel(wf_shape, 3);
    let s = force_reply_schema_spec();
    reveal_strlit("force_reply");
    reveal_strlit("selective");
    assert("force_reply"@.len() == 11);
    assert("selective"@.len() == 9);
    assert(wf_shape(SCHEMA_COUNT as int, s[0].shape) && top_ref_lt(s[0].shape, FORCE_REPLY as int));
    assert(wf_shape(SCHEMA_COUNT as int, s[1].shape) && top_ref_lt(s[1].shape, FORCE_REPLY as int));
    assert(forall|i: int|
        0 <= i < s.len() ==> wf_shape(SCHEMA_COUNT as int, #[trigger] s[i].shape));
    assert(forall|i: int| 0 <= i < s.len() ==> top_ref_lt(#[trigger] s[i].shape, FORCE_REPLY as int));
    assert(forall|i: int, j: int| 0 <= i < j < s.len() ==> s[i].key != s[j].key);
}

pub open spec fn user_profile_photos_schema_spec() -> SchemaV {
    seq![
        FieldV { name: "total_count"@, key: "total_count"@, shape: ShapeV::Int32 },
        FieldV { name: "photos"@, key: "photos"@, shape: ShapeV::Grid(Box::new(ShapeV::Rec(PHOTO_SIZE as int))) },
    ]
}

pub fn user_profile_photos_schema() -> (r: Schema)
    ensures
        r@ == user_profile_photos_schema_spec(),
{
    let mut fields: Vec<Field> = Vec::new();
    fields.push(Field::named("total_count", Shape::Int32));
    fields.push(Field::named("photos", grid(Shape::Rec(PHOTO_SIZE))));
    let r = Schema { fields };
    proof {
        assert(r@ =~= user_profile_photos_schema_spec());
    }
    r
}

proof fn lemma_user_profile_photos_schema_wf()
    ensures
        wf_schema(SCHEMA_COUNT as int, USER_PROFILE_PHOTOS as int, user_profile_photos_schema_spec()),
{
    reveal_with_fuel(wf_shape, 3);
    let s = user_profile_photos_schema_spec();
    reveal_strlit("photos");
    reveal_strlit("total_count");
    assert("photos"@.len() == 6);
    assert("total_count"@.len() == 11);
    assert(wf_shape(SCHEMA_COUNT as int, s[0].shape) && top_ref_lt(s[0].shape, USER_PROFILE_PHOTOS as int));
    assert(wf_shape(SCHEMA_COUNT as int, s[1].shape) && top_ref_lt(s[1].shape, USER_PROFILE_PHOTOS as int));
    assert(forall|i: int|
        0 <= i < s.len() ==> wf_shape(SCHEMA_COUNT as int, #[trigger] s[i].shape));
    assert(forall|i: int| 0 <= i < s.len() ==> top_ref_lt(#[trigger] s[i].shape, USER_PROFILE_PHOTOS as int));
    assert(forall|i: int, j: int| 0 <= i < j < s.len() ==> s[i].key != s[j].key);
}

pub open spec fn file_schema_spec() -> SchemaV {
    seq![
        FieldV { name: "file_id"@, key: "file_id"@, shape: ShapeV::Str },
        FieldV { name: "file_unique_id"@, key: "file_unique_id"@, shape: ShapeV::Str },
        FieldV { name: "file_size"@, key: "file_size"@, shape: ShapeV::Opt(Box::new(ShapeV::Str)) },
        FieldV { name: "file_path"@, key: "file_path"@, shape: ShapeV::Opt(Box::new(ShapeV::Str)) },
    ]
}

pub fn file_schema() -> (r: Schema)
    ensures
        r@ == file_schema_spec(),
{
    let mut fields: Vec<Field> = Vec::new();
    fields.push(Field::named("file_id", Shape::Str));
    fields.push(Field::named("file_unique_id", Shape::Str));
    fields.push(Field::named("file_size", opt(Shape::Str)));
    fields.push(Field::named("file_path", opt(Shape::Str)));
    let r = Schema { fields };
    proof {
        assert(r@ =~= file_schema_spec());
    }
    r
}

proof fn lemma_file_schema_wf()
    ensures
        wf_schema(SCHEMA_COUNT as int, FILE as int, file_schema_spec()),
{
    reveal_with_fuel(wf_shape, 3);
    let s = file_schema_spec();
    reveal_strlit("file_id");
    reveal_strlit("file_path");
    reveal_strlit("file_size");
    reveal_strlit("file_unique_id");
    assert("file_id"@.len() == 7);
    assert("file_path"@.len() == 9);
    assert("file_size"@.len() == 9);
    assert("file_unique_id"@.len() == 14);
    assert("file_path"@[5] == 'p');
    assert("file_size"@[5] == 's');
    assert(wf_shape(SCHEMA_COUNT as int, s[0].shape) && top_ref_lt(s[0].shape, FILE as int));
    assert(wf_shape(SCHEMA_COUNT as int, s[1].shape) && top_ref_lt(s[1].shape, FILE as int));
    assert(wf_shape(SCHEMA_COUNT as int, s[2].shape) && top_ref_lt(s[2].shape, FILE as int));
    assert(wf_shape(SCHEMA_COUNT as int, s[3].shape) && top_ref_lt(s[3].shape, FILE as int));
    assert(forall|i: int|
        0 <= i < s.len() ==> wf_shape(SCHEMA_COUNT as int, #[trigger] s[i].shape));
    assert(forall|i: int| 0 <= i < s.len() ==> top_ref_lt(#[trigger] s[i].shape, FILE as int));
    assert(forall|i: int, j: int| 0 <= i < j < s.len() ==> s[i].key != s[j].key);
}

pub open spec fn bot_command_schema_spec() -> SchemaV {
    seq![
        FieldV { name: "command"@, key: "command"@, shape: ShapeV::Str },
        FieldV { name: "description"@, key: "description"@, shape: ShapeV::Str },
    ]
}

pub fn bot_command_schema() -> (r: Schema)
    ensures
        r@ == bot_command_schema_spec(),
{
    let mut fields: Vec<Field> = Vec::new();
    fields.push(Field::named("command", Shape::Str));
    fields.push(Field::named("description", Shape::Str));
    let r = Schema { fields };
    proof {
        assert(r@ =~= bot_command_schema_spec());
    }
    r
}

proof fn lemma_bot_command_schema_wf()
    ensures
        wf_schema(SCHEMA_COUNT as int, BOT_COMMAND as int, bot_command_schema_spec()),
{
    reveal_with_fuel(wf_shape, 3);
    let s = bot_command_schema_spec();
    reveal_strlit("command");
    reveal_strlit("description");
    assert("command"@.len() == 7);
    assert("description"@.len() == 11);
    assert(wf_shape(SCHEMA_COUNT as int, s[0].shape) && top_ref_lt(s[0].shape, BOT_COMMAND as int));
    assert(wf_shape(SCHEMA_COUNT as int, s[1].shape) && top_ref_lt(s[1].shape, BOT_COMMAND as int));
    assert(forall|i: int|
        0 <= i < s.len() ==> wf_shape(SCHEMA_COUNT as int, #[trigger] s[i].shape));
    assert(forall|i: int| 0 <= i < s.len() ==> top_ref_lt(#[trigger] s[i].shape, BOT_COMMAND as int));
    assert(forall|i: int, j: int| 0 <= i < j < s.len() ==> s[i].key != s[j].key);
}

pub open spec fn response_parameters_schema_spec() -> SchemaV {
    seq![
        FieldV { name: "migrate_to_chat_id"@, key: "migrate_to_chat_id"@, shape: ShapeV::Opt(Box::new(ShapeV::Int32)) },
        FieldV { name: "retry_after"@, key: "retry_after"@, shape: ShapeV::Opt(Box::new(ShapeV::Int32)) },
    ]
}

pub fn response_parameters_schema() -> (r: Schema)
    ensures
        r@ == response_parameters_schema_spec(),
{
    let mut fields: Vec<Field> = Vec::new();
    fields.push(Field::named("migrate_to_chat_id", opt(Shape::Int32)));
    fields.push(Field::named("retry_after", opt(Shape::Int32)));
    let r = Schema { fields };
    proof {
        assert(r@ =~= response_parameters_schema_spec());
    }
    r
}

proof fn lemma_response_parameters_schema_wf()
    ensures
        wf_schema(SCHEMA_COUNT as int, RESPONSE_PARAMETERS as int, response_parameters_schema_spec()),
{
    reveal_with_fuel(wf_shape, 3);
    let s = response_parameters_schema_spec();
    reveal_strlit("migrate_to_chat_id");
    reveal_strlit("retry_after");
    assert("migrate_to_chat_id"@.len() == 18);
    assert("retry_after"@.len() == 11);
    assert(wf_shape(SCHEMA_COUNT as int, s[0].shape) && top_ref_lt(s[0].shape, RESPONSE_PARAMETERS as int));
    assert(wf_shape(SCHEMA_COUNT as int, s[1].shape) && top_ref_lt(s[1].shape, RESPONSE_PARAMETERS as int));
    assert(forall|i: int|
        0 <= i < s.len() ==> wf_shape(SCHEMA_COUNT as int, #[trigger] s[i].shape));
    assert(forall|i: int| 0 <= i < s.len() ==> top_ref_lt(#[trigger] s[i].shape, RESPONSE_PARAMETERS as int));
    assert(forall|i: int, j: int| 0 <= i < j < s.len() ==> s[i].key != s[j].key);
}

pub open spec fn input_media_schema_spec() -> SchemaV {
    seq![
        FieldV { name: "typ"@, key: "type"@, shape: ShapeV::Str },
        FieldV { name: "media"@, key: "media"@, shape: ShapeV::Str },
        FieldV { name: "caption"@, key: "caption"@, shape: ShapeV::Opt(Box::new(ShapeV::Str)) },
        FieldV { name: "parse_mode"@, key: "parse_mode"@, shape: ShapeV::Opt(Box::new(ShapeV::Str)) },
        FieldV { name: "caption_entities"@, key: "caption_entities"@, shape: ShapeV::OptMany(Box::new(ShapeV::Rec(MESSAGE_ENTITY as int))) },
        FieldV { name: "width"@, key: "width"@, shape: ShapeV::Opt(Box::new(ShapeV::Int32)) },
        FieldV { name: "height"@, key: "height"@, shape: ShapeV::Opt(Box::new(ShapeV::Int32)) },
        FieldV { name: "duration"@, key: "duration"@, shape: ShapeV::Opt(Box::new(ShapeV::Int32)) },
        FieldV { name: "supports_streaming"@, key: "supports_streaming"@, shape: ShapeV::Opt(Box::new(ShapeV::Bool)) },
        FieldV { name: "performer"@, key: "performer"@, shape: ShapeV::Opt(Box::new(ShapeV::Str)) },
        FieldV { name: "title"@, key: "title"@, shape: ShapeV::Opt(Box::new(ShapeV::Str)) },
        FieldV { name: "disable_content_type_detection"@, key: "disable_content_type_detection"@, shape: ShapeV::Opt(Box::new(ShapeV::Bool)) },
    ]
}

pub fn input_media_schema() -> (r: Schema)
    ensures
        r@ == input_media_schema_spec(),
{
    let mut fields: Vec<Field> = Vec::new();
    fields.push(Field::renamed("typ", "type", Shape::Str));
    fields.push(Field::named("media", Shape::Str));
    fields.push(Field::named("caption", opt(Shape::Str)));
    fields.push(Field::named("parse_mode", opt(Shape::Str)));
    fields.push(Field::named("caption_entities", opt_many(Shape::Rec(MESSAGE_ENTITY))));
    fields.push(Field::named("width", opt(Shape::Int32)));
    fields.push(Field::named("height", opt(Shape::Int32)));
    fields.push(Field::named("duration", opt(Shape::Int32)));
    fields.push(Field::named("supports_streaming", opt(Shape::Bool)));
    fields.push(Field::named("performer", opt(Shape::Str)));
    fields.push(Field::named("title", opt(Shape::Str)));
    fields.push(Field::named("disable_content_type_detection", opt(Shape::Bool)));
    let r = Schema { fields };
    proof {
        assert(r@ =~= input_media_schema_spec());
    }
    r
}

proof fn lemma_input_media_schema_wf()
    ensures
        wf_schema(SCHEMA_COUNT as int, INPUT_MEDIA as int, input_media_schema_spec()),
{
    reveal_with_fuel(wf_shape, 3);
    let s = input_media_schema_spec();
    reveal_strlit("caption");
    reveal_strlit("caption_entities");
    reveal_strlit("disable_content_type_detection");
    reveal_strlit("duration");
    reveal_strlit("height");
    reveal_strlit("media");
    reveal_strlit("parse_mode");
    reveal_strlit("performer");
    reveal_strlit("supports_streaming");
    reveal_strlit("title");
    reveal_strlit("type");
    reveal_strlit("width");
    assert("caption"@.len() == 7);
    assert("caption_entities"@.len() == 16);
    assert("disable_content_type_detection"@.len() == 30);
    assert("duration"@.len() == 8);
    assert("height"@.len() == 6);
    assert("media"@.len() == 5);
    assert("parse_mode"@.len() == 10);
    assert("performer"@.len() == 9);
    assert("supports_streaming"@.len() == 18);
    assert("title"@.len() == 5);
    assert("type"@.len() == 4);
    assert("width"@.len() == 5);
    assert("media"@[0] == 'm');
    assert("title"@[0] == 't');
    assert("width"@[0] == 'w');
    assert(wf_shape(SCHEMA_COUNT as int, s[0].shape) && top_ref_lt(s[0].shape, INPUT_MEDIA as int));
    assert(wf_shape(SCHEMA_COUNT as int, s[1].shape) && top_ref_lt(s[1].shape, INPUT_MEDIA as int));
    assert(wf_shape(SCHEMA_COUNT as int, s[2].shape) && top_ref_lt(s[2].shape, INPUT_MEDIA as int));
    assert(wf_shape(SCHEMA_COUNT as int, s[3].shape) && top_ref_lt(s[3].shape, INPUT_MEDIA as int));
    assert(wf_shape(SCHEMA_COUNT as int, s[4].shape) && top_ref_lt(s[4].shape, INPUT_MEDIA as int));
    assert(wf_shape(SCHEMA_COUNT as int, s[5].shape) && top_ref_lt(s[5].shape, INPUT_MEDIA as int));
    assert(wf_shape(SCHEMA_COUNT as int, s[6].shape) && top_ref_lt(s[6].shape, INPUT_MEDIA as int));
    assert(wf_shape(SCHEMA_COUNT as int, s[7].shape) && top_ref_lt(s[7].shape, INPUT_MEDIA as int));
    assert(wf_shape(SCHEMA_COUNT as int, s[8].shape) && top_ref_lt(s[8].shape, INPUT_MEDIA as int));
    assert(wf_shape(SCHEMA_COUNT as int, s[9].shape) && top_ref_lt(s[9].shape, INPUT_MEDIA as int));
    assert(wf_shape(SCHEMA_COUNT as int, s[10].shape) && top_ref_lt(s[10].shape, INPUT_MEDIA as int));
    assert(wf_shape(SCHEMA_COUNT as int, s[11].shape) && top_ref_lt(s[11].shape, INPUT_MEDIA as int));
    assert(forall|i: int|
        0 <= i < s.len() ==> wf_shape(SCHEMA_COUNT as int, #[trigger] s[i].shape));
    assert(forall|i: int| 0 <= i < s.len() ==> top_ref_lt(#[trigger] s[i].shape, INPUT_MEDIA as int));
    assert(forall|i: int, j: int| 0 <= i < j < s.len() ==> s[i].key != s[j].key);
}

pub open spec fn message_id_schema_spec() -> SchemaV {
    seq![
        FieldV { name: "message_id"@, key: "message_id"@, shape: ShapeV::Int32 },
    ]
}

pub fn message_id_schema() -> (r: Schema)
    ensures
        r@ == message_id_schema_spec(),
{
    let mut fields: Vec<Field> = Vec::new();
    fields.push(Field::named("message_id", Shape::Int32));
    let r = Schema { fields };
    proof {
        assert(r@ =~= message_id_schema_spec());
    }
    r
}

proof fn lemma_message_id_schema_wf()
    ensures
        wf_schema(SCHEMA_COUNT as int, MESSAGE_ID as int, message_id_schema_spec()),
{
    reveal_with_fuel(wf_shape, 3);
    let s = message_id_schema_spec();
    reveal_strlit("message_id");
    assert("message_id"@.len() == 10);
    assert(wf_shape(SCHEMA_COUNT as int, s[0].shape) && top_ref_lt(s[0].shape, MESSAGE_ID as int));
    assert(forall|i: int|
        0 <= i < s.len() ==> wf_shape(SCHEMA_COUNT as int, #[trigger] s[i].shape));
    assert(forall|i: int| 0 <= i < s.len() ==> top_ref_lt(#[trigger] s[i].shape, MESSAGE_ID as int));
    assert(forall|i: int, j: int| 0 <= i < j < s.len() ==> s[i].key != s[j].key);
}

pub open spec fn chat_invite_link_schema_spec() -> SchemaV {
    seq![
        FieldV { name: "invite_link"@, key: "invite_link"@, shape: ShapeV::Str },
        FieldV { name: "creator"@, key: "creator"@, shape: ShapeV::Rec(USER as int) },
        FieldV { name: "is_primary"@, key: "is_primary"@, shape: ShapeV::Bool },
        FieldV { name: "is_revoked"@, key: "is_revoked"@, shape: ShapeV::Bool },
        FieldV { name: "expire_date"@, key: "expire_date"@, shape: ShapeV::Opt(Box::new(ShapeV::Int32)) },
        FieldV { name: "member_limit"@, key: "member_limit"@, shape: ShapeV::Opt(Box::new(ShapeV::Int32)) },
    ]
}

pub fn chat_invite_link_schema() -> (r: Schema)
    ensures
        r@ == chat_invite_link_schema_spec(),
{
    let mut fields: Vec<Field> = Vec::new();
    fields.push(Field::named("invite_link", Shape::Str));
    fields.push(Field::named("creator", Shape::Rec(USER)));
    fields.push(Field::named("is_primary", Shape::Bool));
    fields.push(Field::named("is_revoked", Shape::Bool));
    fields.push(Field::named("expire_date", opt(Shape::Int32)));
    fields.push(Field::named("member_limit", opt(Shape::Int32)));
    let r = Schema { fields };
    proof {
        assert(r@ =~= chat_invite_link_schema_spec());
    }
    r
}

proof fn lemma_chat_invite_link_schema_wf()
    ensures
        wf_schema(SCHEMA_COUNT as int, CHAT_INVITE_LINK as int, chat_invite_link_schema_spec()),
{
    reveal_with_fuel(wf_shape, 3);
    let s = chat_invite_link_schema_spec();
    reveal_strlit("creator");
    reveal_strlit("expire_date");
    reveal_strlit("invite_link");
    reveal_strlit("is_primary");
    reveal_strlit("is_revoked");
    reveal_strlit("member_limit");
    assert("creator"@.len() == 7);
    assert("expire_date"@.len() == 11);
    assert("invite_link"@.len() == 11);
    assert("is_primary"@.len() == 10);
    assert("is_revoked"@.len() == 10);
    assert("member_limit"@.len() == 12);
    assert("expire_date"@[0] == 'e');
    assert("invite_link"@[0] == 'i');
    assert("is_primary"@[3] == 'p');
    assert("is_revoked"@[3] == 'r');
    assert(wf_shape(SCHEMA_COUNT as int, s[0].shape) && top_ref_lt(s[0].shape, CHAT_INVITE_LINK as int));
    assert(wf_shape(SCHEMA_COUNT as int, s[1].shape) && top_ref_lt(s[1].shape, CHAT_INVITE_LINK as int));
    assert(wf_shape(SCHEMA_COUNT as int, s[2].shape) && top_ref_lt(s[2].shape, CHAT_INVITE_LINK as int));
    assert(wf_shape(SCHEMA_COUNT as int, s[3].shape) && top_ref_lt(s[3].shape, CHAT_INVITE_LINK as int));
    assert(wf_shape(SCHEMA_COUNT as int, s[4].shape) && top_ref_lt(s[4].shape, CHAT_INVITE_LINK as int));
    assert(wf_shape(SCHEMA_COUNT as int, s[5].shape) && top_ref_lt(s[5].shape, CHAT_INVITE_LINK as int));
    assert(forall|i: int|
        0 <= i < s.len() ==> wf_shape(SCHEMA_COUNT as int, #[trigger] s[i].shape));
    assert(forall|i: int| 0 <= i < s.len() ==> top_ref_lt(#[trigger] s[i].shape, CHAT_INVITE_LINK as int));
    assert(forall|i: int, j: int| 0 <= i < j < s.len() ==> s[i].key != s[j].key);
}

pub open spec fn chat_member_schema_spec() -> SchemaV {
    seq![
        FieldV { name: "user"@, key: "user"@, shape: ShapeV::Rec(USER as int) },
        FieldV { name: "status"@, key: "status"@, shape: ShapeV::Str },
        FieldV { name: "custom_title"@, key: "custom_title"@, shape: ShapeV::Opt(Box::new(ShapeV::Str)) },
        FieldV { name: "is_anonymous"@, key: "is_anonymous"@, shape: ShapeV::Opt(Box::new(ShapeV::Bool)) },
        FieldV { name: "can_be_edited"@, key: "can_be_edited"@, shape: ShapeV::Opt(Box::new(ShapeV::Bool)) },
        FieldV { name: "can_manage_chat"@, key: "can_manage_chat"@, shape: ShapeV::Opt(Box::new(ShapeV::Bool)) },
        FieldV { name: "can_post_messages"@, key: "can_post_messages"@, shape: ShapeV::Opt(Box::new(ShapeV::Bool)) },
        FieldV { name: "can_edit_messages"@, key: "can_edit_messages"@, shape: ShapeV::Opt(Box::new(ShapeV::Bool)) },
        FieldV { name: "can_delete_messages"@, key: "can_delete_messages"@, shape: ShapeV::Opt(Box::new(ShapeV::Bool)) },
        FieldV { name: "can_manage_voice_chats"@, key: "can_manage_voice_chats"@, shape: ShapeV::Opt(Box::new(ShapeV::Bool)) },
        FieldV { name: "can_restrict_members"@, key: "can_restrict_members"@, shape: ShapeV::Opt(Box::new(ShapeV::Bool)) },
        FieldV { name: "can_promote_members"@, key: "can_promote_members"@, shape: ShapeV::Opt(Box::new(ShapeV::Bool)) },
        FieldV { name: "can_change_info"@, key: "can_change_info"@, shape: ShapeV::Opt(Box::new(ShapeV::Bool)) },
        FieldV { name: "can_invite_users"@, key: "can_invite_users"@, shape: ShapeV::Opt(Box::new(ShapeV::Bool)) },
        FieldV { name: "can_pin_messages"@, key: "can_pin_messages"@, shape: ShapeV::Opt(Box::new(ShapeV::Bool)) },
        FieldV { name: "is_member"@, key: "is_member"@, shape: ShapeV::Opt(Box::new(ShapeV::Bool)) },
        FieldV { name: "can_send_messages"@, key: "can_send_messages"@, shape: ShapeV::Opt(Box::new(ShapeV::Bool)) },
        FieldV { name: "can_send_media_messages"@, key: "can_send_media_messages"@, shape: ShapeV::Opt(Box::new(ShapeV::Bool)) },
        FieldV { name: "can_send_polls"@, key: "can_send_polls"@, shape: ShapeV::Opt(Box::new(ShapeV::Bool)) },
        FieldV { name: "can_send_other_messages"@, key: "can_send_other_messages"@, shape: ShapeV::Opt(Box::new(ShapeV::Bool)) },
        FieldV { name: "can_add_web_page_previews"@, key: "can_add_web_page_previews"@, shape: ShapeV::Opt(Box::new(ShapeV::Bool)) },
        FieldV { name: "until_date"@, key: "until_date"@, shape: ShapeV::Opt(Box::new(ShapeV::Bool)) },
    ]
}

pub fn chat_member_schema() -> (r: Schema)
    ensures
        r@ == chat_member_schema_spec(),
{
    let mut fields: Vec<Field> = Vec::new();
    fields.push(Field::named("user", Shape::Rec(USER)));
    fields.push(Field::named("status", Shape::Str));
    fields.push(Field::named("custom_title", opt(Shape::Str)));
    fields.push(Field::named("is_anonymous", opt(Shape::Bool)));
    fields.push(Field::named("can_be_edited", opt(Shape::Bool)));
    fields.push(Field::named("can_manage_chat", opt(Shape::Bool)));
    fields.push(Field::named("can_post_messages", opt(Shape::Bool)));
    fields.push(Field::named("can_edit_messages", opt(Shape::Bool)));
    fields.push(Field::named("can_delete_messages", opt(Shape::Bool)));
    fields.push(Field::named("can_manage_voice_chats", opt(Shape::Bool)));
    fields.push(Field::named("can_restrict_members", opt(Shape::Bool)));
    fields.push(Field::named("can_promote_members", opt(Shape::Bool)));
    fields.push(Field::named("can_change_info", opt(Shape::Bool)));
    fields.push(Field::named("can_invite_users", opt(Shape::Bool)));
    fields.push(Field::named("can_pin_messages", opt(Shape::Bool)));
    fields.push(Field::named("is_member", opt(Shape::Bool)));
    fields.push(Field::named("can_send_messages", opt(Shape::Bool)));
    fields.push(Field::named("can_send_media_messages", opt(Shape::Bool)));
    fields.push(Field::named("can_send_polls", opt(Shape::Bool)));
    fields.push(Field::named("can_send_other_messages", opt(Shape::Bool)));
    fields.push(Field::named("can_add_web_page_previews", opt(Shape::Bool)));
    fields.push(Field::named("until_date", opt(Shape::Bool)));
    let r = Schema { fields };
    proof {
        assert(r@ =~= chat_member_schema_spec());
    }
    r
}

proof fn lemma_chat_member_schema_wf()
    ensures
        wf_schema(SCHEMA_COUNT as int, CHAT_MEMBER as int, chat_member_schema_spec()),
{
    reveal_with_fuel(wf_shape, 3);
    let s = chat_member_schema_spec();
    reveal_strlit("can_add_web_page_previews");
    reveal_strlit("can_be_edited");
    reveal_strlit("can_change_info");
    reveal_strlit("can_delete_messages");
    reveal_strlit("can_edit_messages");
    reveal_strlit("can_invite_users");
    reveal_strlit("can_manage_chat");
    reveal_strlit("can_manage_voice_chats");
    reveal_strlit("can_pin_messages");
    reveal_strlit("can_post_messages");
    reveal_strlit("can_promote_members");
    reveal_strlit("can_restrict_members");
    reveal_strlit("can_send_media_messages");
    reveal_strlit("can_send_messages");
    reveal_strlit("can_send_other_messages");
    reveal_strlit("can_send_polls");
    reveal_strlit("custom_title");
    reveal_strlit("is_anonymous");
    reveal_strlit("is_member");
    reveal_strlit("status");
    reveal_strlit("until_date");
    reveal_strlit("user");
    assert("can_add_web_page_previews"@.len() == 25);
    assert("can_be_edited"@.len() == 13);
    assert("can_change_info"@.len() == 15);
    assert("can_delete_messages"@.len() == 19);
    assert("can_edit_messages"@.len() == 17);
    assert("can_invite_users"@.len() == 16);
    assert("can_manage_chat"@.len() == 15);
    assert("can_manage_voice_chats"@.len() == 22);
    assert("can_pin_messages"@.len() == 16);
    assert("can_post_messages"@.len() == 17);
    assert("can_promote_members"@.len() == 19);
    assert("can_restrict_members"@.len() == 20);
    assert("can_send_media_messages"@.len() == 23);
    assert("can_send_messages"@.len() == 17);
    assert("can_send_other_messages"@.len() == 23);
    assert("can_send_polls"@.len() == 14);
    assert("custom_title"@.len() == 12);
    assert("is_anonymous"@.len() == 12);
    assert("is_member"@.len() == 9);
    assert("status"@.len() == 6);
    assert("until_date"@.len() == 10);
    assert("user"@.len() == 4);
    assert("can_change_info"@[4] == 'c');
    assert("can_delete_messages"@[4] == 'd');
    assert("can_edit_messages"@[4] == 'e');
    assert("can_invite_users"@[4] == 'i');
    assert("can_manage_chat"@[4] == 'm');
    assert("can_pin_messages"@[4] == 'p');
    assert("can_post_messages"@[4] == 'p');
    assert("can_promote_members"@[4] == 'p');
    assert("can_send_media_messages"@[9] == 'm');
    assert("can_send_messages"@[4] == 's');
    assert("can_send_other_messages"@[9] == 'o');
    assert("custom_title"@[0] == 'c');
    assert("is_anonymous"@[0] == 'i');
    assert(wf_shape(SCHEMA_COUNT as int, s[0].shape) && top_ref_lt(s[0].shape, CHAT_MEMBER as int));
    assert(wf_shape(SCHEMA_COUNT as int, s[1].shape) && top_ref_lt(s[1].shape, CHAT_MEMBER as int));
    assert(wf_shape(SCHEMA_COUNT as int, s[2].shape) && top_ref_lt(s[2].shape, CHAT_MEMBER as int));
    assert(wf_shape(SCHEMA_COUNT as int, s[3].shape) && top_ref_lt(s[3].shape, CHAT_MEMBER as int));
    assert(wf_shape(SCHEMA_COUNT as int, s[4].shape) && top_ref_lt(s[4].shape, CHAT_MEMBER as int));
    assert(wf_shape(SCHEMA_COUNT as int, s[5].shape) && top_ref_lt(s[5].shape, CHAT_MEMBER as int));
    assert(wf_shape(SCHEMA_COUNT as int, s[6].shape) && top_ref_lt(s[6].shape, CHAT_MEMBER as int));
    assert(wf_shape(SCHEMA_COUNT as int, s[7].shape) && top_ref_lt(s[7].shape, CHAT_MEMBER as int));
    assert(wf_shape(SCHEMA_COUNT as int, s[8].shape) && top_ref_lt(s[8].shape, CHAT_MEMBER as int));
    assert(wf_shape(SCHEMA_COUNT as int, s[9].shape) && top_ref_lt(s[9].shape, CHAT_MEMBER as int));
    assert(wf_shape(SCHEMA_COUNT as int, s[10].shape) && top_ref_lt(s[10].shape, CHAT_MEMBER as int));
    assert(wf_shape(SCHEMA_COUNT as int, s[11].shape) && top_ref_lt(s[11].shape, CHAT_MEMBER as int));
    assert(wf_shape(SCHEMA_COUNT as int, s[12].shape) && top_ref_lt(s[12].shape, CHAT_MEMBER as int));
    assert(wf_shape(SCHEMA_COUNT as int, s[13].shape) && top_ref_lt(s[13].shape, CHAT_MEMBER as int));
    assert(wf_shape(SCHEMA_COUNT as int, s[14].shape) && top_ref_lt(s[14].shape, CHAT_MEMBER as int));
    assert(wf_shape(SCHEMA_COUNT as int, s[15].shape) && top_ref_lt(s[15].shape, CHAT_MEMBER as int));
    assert(wf_shape(SCHEMA_COUNT as int, s[16].shape) && top_ref_lt(s[16].shape, CHAT_MEMBER as int));
    assert(wf_shape(SCHEMA_COUNT as int, s[17].shape) && top_ref_lt(s[17].shape, CHAT_MEMBER as int));
    assert(wf_shape(SCHEMA_COUNT as int, s[18].shape) && top_ref_lt(s[18].shape, CHAT_MEMBER as int));
    assert(wf_shape(SCHEMA_COUNT as int, s[19].shape) && top_ref_lt(s[19].shape, CHAT_MEMBER as int));
    assert(wf_shape(SCHEMA_COUNT as int, s[20].shape) && top_ref_lt(s[20].shape, CHAT_MEMBER as int));
    assert(wf_shape(SCHEMA_COUNT as int, s[21].shape) && top_ref_lt(s[21].shape, CHAT_MEMBER as int));
    assert(forall|i: int|
        0 <= i < s.len() ==> wf_shape(SCHEMA_COUNT as int, #[trigger] s[i].shape));
    assert(forall|i: int| 0 <= i < s.len() ==> top_ref_lt(#[trigger] s[i].shape, CHAT_MEMBER as int));
    assert(forall|i: int, j: int| 0 <= i < j < s.len() ==> s[i].key != s[j].key);
}

pub open spec fn chat_schema_spec() -> SchemaV {
    seq![
        FieldV { name: "id"@, key: "id"@, shape: ShapeV::Int64 },
        FieldV { name: "typ"@, key: "type"@, shape: ShapeV::Str },
        FieldV { name: "title"@, key: "title"@, shape: ShapeV::Opt(Box::new(ShapeV::Str)) },
        FieldV { name: "username"@, key: "username"@, shape: ShapeV::Opt(Box::new(ShapeV::Str)) },
        FieldV { name: "first_name"@, key: "first_name"@, shape: ShapeV::Opt(Box::new(ShapeV::Str)) },
        FieldV { name: "last_name"@, key: "last_name"@, shape: ShapeV::Opt(Box::new(ShapeV::Str)) },
        FieldV { name: "photo"@, key: "photo"@, shape: ShapeV::Opt(Box::new(ShapeV::Rec(CHAT_PHOTO as int))) },
        FieldV { name: "bio"@, key: "bio"@, shape: ShapeV::Opt(Box::new(ShapeV::Str)) },
        FieldV { name: "description"@, key: "description"@, shape: ShapeV::Opt(Box::new(ShapeV::Str)) },
        FieldV { name: "invite_link"@, key: "invite_link"@, shape: ShapeV::Opt(Box::new(ShapeV::Str)) },
        FieldV { name: "pinned_message"@, key: "pinned_message"@, shape: ShapeV::Opt(Box::new(ShapeV::Rec(MESSAGE as int))) },
        FieldV { name: "permissions"@, key: "permissions"@, shape: ShapeV::Opt(Box::new(ShapeV::Rec(CHAT_PERMISSIONS as int))) },
        FieldV { name: "slow_mode_delay"@, key: "slow_mode_delay"@, shape: ShapeV::Opt(Box::new(ShapeV::Int32)) },
        FieldV { name: "message_auto_delete_time"@, key: "message_auto_delete_time"@, shape: ShapeV::Opt(Box::new(ShapeV::Int32)) },
        FieldV { name: "sticker_set_name"@, key: "sticker_set_name"@, shape: ShapeV::Opt(Box::new(ShapeV::Str)) },
        FieldV { name: "can_set_sticker_set"@, key: "can_set_sticker_set"@, shape: ShapeV::Opt(Box::new(ShapeV::Bool)) },
        FieldV { name: "linked_chat_id"@, key: "linked_chat_id"@, shape: ShapeV::Opt(Box::new(ShapeV::Int64)) },
        FieldV { name: "location"@, key: "location"@, shape: ShapeV::Opt(Box::new(ShapeV::Rec(CHAT_LOCATION as int))) },
    ]
}

pub fn chat_schema() -> (r: Schema)
    ensures
        r@ == chat_schema_spec(),
{
    let mut fields: Vec<Field> = Vec::new();
    fields.push(Field::named("id", Shape::Int64));
    fields.push(Field::renamed("typ", "type", Shape::Str));
    fields.push(Field::named("title", opt(Shape::Str)));
    fields.push(Field::named("username", opt(Shape::Str)));
    fields.push(Field::named("first_name", opt(Shape::Str)));
    fields.push(Field::named("last_name", opt(Shape::Str)));
    fields.push(Field::named("photo", opt(Shape::Rec(CHAT_PHOTO))));
    fields.push(Field::named("bio", opt(Shape::Str)));
    fields.push(Field::named("description", opt(Shape::Str)));
    fields.push(Field::named("invite_link", opt(Shape::Str)));
    fields.push(Field::named("pinned_message", opt(Shape::Rec(MESSAGE))));
    fields.push(Field::named("permissions", opt(Shape::Rec(CHAT_PERMISSIONS))));
    fields.push(Field::named("slow_mode_delay", opt(Shape::Int32)));
    fields.push(Field::named("message_auto_delete_time", opt(Shape::Int32)));
    fields.push(Field::named("sticker_set_name", opt(Shape::Str)));
    fields.push(Field::named("can_set_sticker_set", opt(Shape::Bool)));
    fields.push(Field::named("linked_chat_id", opt(Shape::Int64)));
    fields.push(Field::named("location", opt(Shape::Rec(CHAT_LOCATION))));
    let r = Schema { fields };
    proof {
        assert(r@ =~= chat_schema_spec());
    }
    r
}

proof fn lemma_chat_schema_wf()
    ensures
        wf_schema(SCHEMA_COUNT as int, CHAT as int, chat_schema_spec()),
{
    reveal_with_fuel(wf_shape, 3);
    let s = chat_schema_spec();
    reveal_strlit("bio");
    reveal_strlit("can_set_sticker_set");
    reveal_strlit("description");
    reveal_strlit("first_name");
    reveal_strlit("id");
    reveal_strlit("invite_link");
    reveal_strlit("last_name");
    reveal_strlit("linked_chat_id");
    reveal_strlit("location");
    reveal_strlit("message_auto_delete_time");
    reveal_strlit("permissions");
    reveal_strlit("photo");
    reveal_strlit("pinned_message");
    reveal_strlit("slow_mode_delay");
    reveal_strlit("sticker_set_name");
    reveal_strlit("title");
    reveal_strlit("type");
    reveal_strlit("username");
    assert("bio"@.len() == 3);
    assert("can_set_sticker_set"@.len() == 19);
    assert("description"@.len() == 11);
    assert("first_name"@.len() == 10);
    assert("id"@.len() == 2);
    assert("invite_link"@.len() == 11);
    assert("last_name"@.len() == 9);
    assert("linked_chat_id"@.len() == 14);
    assert("location"@.len() == 8);
    assert("message_auto_delete_time"@.len() == 24);
    assert("permissions"@.len() == 11);
    assert("photo"@.len() == 5);
    assert("pinned_message"@.len() == 14);
    assert("slow_mode_delay"@.len() == 15);
    assert("sticker_set_name"@.len() == 16);
    assert("title"@.len() == 5);
    assert("type"@.len() == 4);
    assert("username"@.len() == 8);
    assert("description"@[0] == 'd');
    assert("invite_link"@[0] == 'i');
    assert("linked_chat_id"@[0] == 'l');
    assert("location"@[0] == 'l');
    assert("permissions"@[0] == 'p');
    assert("photo"@[0] == 'p');
    assert("pinned_message"@[0] == 'p');
    assert("title"@[0] == 't');
    assert("username"@[0] == 'u');
    assert(wf_shape(SCHEMA_COUNT as int, s[0].shape) && top_ref_lt(s[0].shape, CHAT as int));
    assert(wf_shape(SCHEMA_COUNT as int, s[1].shape) && top_ref_lt(s[1].shape, CHAT as int));
    assert(wf_shape(SCHEMA_COUNT as int, s[2].shape) && top_ref_lt(s[2].shape, CHAT as int));
    assert(wf_shape(SCHEMA_COUNT as int, s[3].shape) && top_ref_lt(s[3].shape, CHAT as int));
    assert(wf_shape(SCHEMA_COUNT as int, s[4].shape) && top_ref_lt(s[4].shape, CHAT as int));
    assert(wf_shape(SCHEMA_COUNT as int, s[5].shape) && top_ref_lt(s[5].shape, CHAT as int));
    assert(wf_shape(SCHEMA_COUNT as int, s[6].shape) && top_ref_lt(s[6].shape, CHAT as int));
    assert(wf_shape(SCHEMA_COUNT as int, s[7].shape) && top_ref_lt(s[7].shape, CHAT as int));
    assert(wf_shape(SCHEMA_COUNT as int, s[8].shape) && top_ref_lt(s[8].shape, CHAT as int));
    assert(wf_shape(SCHEMA_COUNT as int, s[9].shape) && top_ref_lt(s[9].shape, CHAT as int));
    assert(wf_shape(SCHEMA_COUNT as int, s[10].shape) && top_ref_lt(s[10].shape, CHAT as int));
    assert(wf_shape(SCHEMA_COUNT as int, s[11].shape) && top_ref_lt(s[11].shape, CHAT as int));
    assert(wf_shape(SCHEMA_COUNT as int, s[12].shape) && top_ref_lt(s[12].shape, CHAT as int));
    assert(wf_shape(SCHEMA_COUNT as int, s[13].shape) && top_ref_lt(s[13].shape, CHAT as int));
    assert(wf_shape(SCHEMA_COUNT as int, s[14].shape) && top_ref_lt(s[14].shape, CHAT as int));
    assert(wf_shape(SCHEMA_COUNT as int, s[15].shape) && top_ref_lt(s[15].shape, CHAT as int));
    assert(wf_shape(SCHEMA_COUNT as int, s[16].shape) && top_ref_lt(s[16].shape, CHAT as int));
    assert(wf_shape(SCHEMA_COUNT as int, s[17].shape) && top_ref_lt(s[17].shape, CHAT as int));
    assert(forall|i: int|
        0 <= i < s.len() ==> wf_shape(SCHEMA_COUNT as int, #[trigger] s[i].shape));
    assert(forall|i: int| 0 <= i < s.len() ==> top_ref_lt(#[trigger] s[i].shape, CHAT as int));
    assert(forall|i: int, j: int| 0 <= i < j < s.len() ==> s[i].key != s[j].key);
}

pub open spec fn message_schema_spec() -> SchemaV {
    seq![
        FieldV { name: "message_id"@, key: "message_id"@, shape: ShapeV::Int32 },
        FieldV { name: "from"@, key: "from"@, shape: ShapeV::Opt(Box::new(ShapeV::Rec(USER as int))) },
        FieldV { name: "sender_chat"@, key: "sender_chat"@, shape: ShapeV::OptBoxed(CHAT as int) },
        FieldV { name: "date"@, key: "date"@, shape: ShapeV::Int32 },
        FieldV { name: "chat"@, key: "chat"@, shape: ShapeV::Boxed(CHAT as int) },
        FieldV { name: "forward_from"@, key: "forward_from"@, shape: ShapeV::Opt(Box::new(ShapeV::Rec(USER as int))) },
        FieldV { name: "forward_from_chat"@, key: "forward_from_chat"@, shape: ShapeV::OptBoxed(CHAT as int) },
        FieldV { name: "forward_from_message_id"@, key: "forward_from_message_id"@, shape: ShapeV::Opt(Box::new(ShapeV::Int32)) },
        FieldV { name: "forward_signature"@, key: "forward_signature"@, shape: ShapeV::Opt(Box::new(ShapeV::Str)) },
        FieldV { name: "forward_sender_name"@, key: "forward_sender_name"@, shape: ShapeV::Opt(Box::new(ShapeV::Str)) },
        FieldV { name: "forward_date"@, key: "forward_date"@, shape: ShapeV::Opt(Box::new(ShapeV::Int32)) },
        FieldV { name: "reply_to_message"@, key: "reply_to_message"@, shape: ShapeV::OptBoxed(MESSAGE as int) },
        FieldV { name: "via_bot"@, key: "via_bot"@, shape: ShapeV::Opt(Box::new(ShapeV::Rec(USER as int))) },
        FieldV { name: "edit_date"@, key: "edit_date"@, shape: ShapeV::Opt(Box::new(ShapeV::Int32)) },
        FieldV { name: "media_group_id"@, key: "media_group_id"@, shape: ShapeV::Opt(Box::new(ShapeV::Str)) },
        FieldV { name: "author_signature"@, key: "author_signature"@, shape: ShapeV::Opt(Box::new(ShapeV::Str)) },
        FieldV { name: "text"@, key: "text"@, shape: ShapeV::Opt(Box::new(ShapeV::Str)) },
        FieldV { name: "entities"@, key: "entities"@, shape: ShapeV::OptMany(Box::new(ShapeV::Rec(MESSAGE_ENTITY as int))) },
        FieldV { name: "animation"@, key: "animation"@, shape: ShapeV::Opt(Box::new(ShapeV::Rec(ANIMATION as int))) },
        FieldV { name: "audio"@, key: "audio"@, shape: ShapeV::Opt(Box::new(ShapeV::Rec(AUDIO as int))) },
        FieldV { name: "document"@, key: "document"@, shape: ShapeV::Opt(Box::new(ShapeV::Rec(DOCUMENT as int))) },
        FieldV { name: "photo"@, key: "photo"@, shape: ShapeV::OptMany(Box::new(ShapeV::Rec(PHOTO_SIZE as int))) },
        FieldV { name: "sticker"@, key: "sticker"@, shape: ShapeV::Opt(Box::new(ShapeV::Rec(STICKER as int))) },
        FieldV { name: "video"@, key: "video"@, shape: ShapeV::Opt(Box::new(ShapeV::Rec(VIDEO as int))) },
        FieldV { name: "video_note"@, key: "video_note"@, shape: ShapeV::Opt(Box::new(ShapeV::Rec(VIDEO_NOTE as int))) },
        FieldV { name: "voice"@, key: "voice"@, shape: ShapeV::Opt(Box::new(ShapeV::Rec(VOICE as int))) },
        FieldV { name: "caption"@, key: "caption"@, shape: ShapeV::Opt(Box::new(ShapeV::Str)) },
        FieldV { name: "caption_entities"@, key: "caption_entities"@, shape: ShapeV::OptMany(Box::new(ShapeV::Rec(MESSAGE_ENTITY as int))) },
        FieldV { name: "contact"@, key: "contact"@, shape: ShapeV::Opt(Box::new(ShapeV::Rec(CONTACT as int))) },
        FieldV { name: "dice"@, key: "dice"@, shape: ShapeV::Opt(Box::new(ShapeV::Rec(DICE as int))) },
        FieldV { name: "poll"@, key: "poll"@, shape: ShapeV::Opt(Box::new(ShapeV::Rec(POLL as int))) },
        FieldV { name: "venue"@, key: "venue"@, shape: ShapeV::Opt(Box::new(ShapeV::Rec(VENUE as int))) },
        FieldV { name: "location"@, key: "location"@, shape: ShapeV::Opt(Box::new(ShapeV::Rec(LOCATION as int))) },
        FieldV { name: "new_chat_members"@, key: "new_chat_members"@, shape: ShapeV::OptMany(Box::new(ShapeV::Rec(USER as int))) },
        FieldV { name: "left_chat_member"@, key: "left_chat_member"@, shape: ShapeV::Opt(Box::new(ShapeV::Rec(USER as int))) },
        FieldV { name: "new_chat_title"@, key: "new_chat_title"@, shape: ShapeV::Opt(Box::new(ShapeV::Str)) },
        FieldV { name: "new_chat_photo"@, key: "new_chat_photo"@, shape: ShapeV::OptMany(Box::new(ShapeV::Rec(PHOTO_SIZE as int))) },
        FieldV { name: "delete_chat_photo"@, key: "delete_chat_photo"@, shape: ShapeV::Opt(Box::new(ShapeV::Bool)) },
        FieldV { name: "group_chat_created"@, key: "group_chat_created"@, shape: ShapeV::Opt(Box::new(ShapeV::Bool)) },
        FieldV { name: "supergroup_chat_created"@, key: "supergroup_chat_created"@, shape: ShapeV::Opt(Box::new(ShapeV::Bool)) },
        FieldV { name: "channel_chat_created"@, key: "channel_chat_created"@, shape: ShapeV::Opt(Box::new(ShapeV::Bool)) },
        FieldV { name: "message_auto_delete_timer_changed"@, key: "message_auto_delete_timer_changed"@, shape: ShapeV::Opt(Box::new(ShapeV::Rec(MESSAGE_AUTO_DELETE_TIMER_CHANGED as int))) },
        FieldV { name: "migrate_to_chat_id"@, key: "migrate_to_chat_id"@, shape: ShapeV::Opt(Box::new(ShapeV::Int64)) },
        FieldV { name: "migrate_from_chat_id"@, key: "migrate_from_chat_id"@, shape: ShapeV::Opt(Box::new(ShapeV::Int64)) },
        FieldV { name: "pinned_message"@, key: "pinned_message"@, shape: ShapeV::OptBoxed(MESSAGE as int) },
        FieldV { name: "connected_website"@, key: "connected_website"@, shape: ShapeV::Opt(Box::new(ShapeV::Str)) },
        FieldV { name: "proximity_alert_triggered"@, key: "proximity_alert_triggered"@, shape: ShapeV::Opt(Box::new(ShapeV::Rec(PROXIMITY_ALERT_TRIGGERED as int))) },
        FieldV { name: "voice_chat_scheduled"@, key: "voice_chat_scheduled"@, shape: ShapeV::Opt(Box::new(ShapeV::Rec(VOICE_CHAT_SCHEDULED as int))) },
        FieldV { name: "voice_chat_started"@, key: "voice_chat_started"@, shape: ShapeV::Opt(Box::new(ShapeV::Rec(VOICE_CHAT_STARTED as int))) },
        FieldV { name: "voice_chat_ended"@, key: "voice_chat_ended"@, shape: ShapeV::Opt(Box::new(ShapeV::Rec(VOICE_CHAT_ENDED as int))) },
        FieldV { name: "voice_chat_participants_invited"@, key: "voice_chat_participants_invited"@, shape: ShapeV::Opt(Box::new(ShapeV::Rec(VOICE_CHAT_PARTICIPANTS_INVITED as int))) },
        FieldV { name: "reply_markup"@, key: "reply_markup"@, shape: ShapeV::Opt(Box::new(ShapeV::Rec(INLINE_KEYBOARD_MARKUP as int))) },
    ]
}

pub fn message_schema() -> (r: Schema)
    ensures
        r@ == message_schema_spec(),
{
    let mut fields: Vec<Field> = Vec::new();
    fields.push(Field::named("message_id", Shape::Int32));
    fields.push(Field::named("from", opt(Shape::Rec(USER))));
    fields.push(Field::named("sender_chat", Shape::OptBoxed(CHAT)));
    fields.push(Field::named("date", Shape::Int32));
    fields.push(Field::named("chat", Shape::Boxed(CHAT)));
    fields.push(Field::named("forward_from", opt(Shape::Rec(USER))));
    fields.push(Field::named("forward_from_chat", Shape::OptBoxed(CHAT)));
    fields.push(Field::named("forward_from_message_id", opt(Shape::Int32)));
    fields.push(Field::named("forward_signature", opt(Shape::Str)));
    fields.push(Field::named("forward_sender_name", opt(Shape::Str)));
    fields.push(Field::named("forward_date", opt(Shape::Int32)));
    fields.push(Field::named("reply_to_message", Shape::OptBoxed(MESSAGE)));
    fields.push(Field::named("via_bot", opt(Shape::Rec(USER))));
    fields.push(Field::named("edit_date", opt(Shape::Int32)));
    fields.push(Field::named("media_group_id", opt(Shape::Str)));
    fields.push(Field::named("author_signature", opt(Shape::Str)));
    fields.push(Field::named("text", opt(Shape::Str)));
    fields.push(Field::named("entities", opt_many(Shape::Rec(MESSAGE_ENTITY))));
    fields.push(Field::named("animation", opt(Shape::Rec(ANIMATION))));
    fields.push(Field::named("audio", opt(Shape::Rec(AUDIO))));
    fields.push(Field::named("document", opt(Shape::Rec(DOCUMENT))));
    fields.push(Field::named("photo", opt_many(Shape::Rec(PHOTO_SIZE))));
    fields.push(Field::named("sticker", opt(Shape::Rec(STICKER))));
    fields.push(Field::named("video", opt(Shape::Rec(VIDEO))));
    fields.push(Field::named("video_note", opt(Shape::Rec(VIDEO_NOTE))));
    fields.push(Field::named("voice", opt(Shape::Rec(VOICE))));
    fields.push(Field::named("caption", opt(Shape::Str)));
    fields.push(Field::named("caption_entities", opt_many(Shape::Rec(MESSAGE_ENTITY))));
    fields.push(Field::named("contact", opt(Shape::Rec(CONTACT))));
    fields.push(Field::named("dice", opt(Shape::Rec(DICE))));
    fields.push(Field::named("poll", opt(Shape::Rec(POLL))));
    fields.push(Field::named("venue", opt(Shape::Rec(VENUE))));
    fields.push(Field::named("location", opt(Shape::Rec(LOCATION))));
    fields.push(Field::named("new_chat_members", opt_many(Shape::Rec(USER))));
    fields.push(Field::named("left_chat_member", opt(Shape::Rec(USER))));
    fields.push(Field::named("new_chat_title", opt(Shape::Str)));
    fields.push(Field::named("new_chat_photo", opt_many(Shape::Rec(PHOTO_SIZE))));
    fields.push(Field::named("delete_chat_photo", opt(Shape::Bool)));
    fields.push(Field::named("group_chat_created", opt(Shape::Bool)));
    fields.push(Field::named("supergroup_chat_created", opt(Shape::Bool)));
    fields.push(Field::named("channel_chat_created", opt(Shape::Bool)));
    fields.push(Field::named("message_auto_delete_timer_changed", opt(Shape::Rec(MESSAGE_AUTO_DELETE_TIMER_CHANGED))));
    fields.push(Field::named("migrate_to_chat_id", opt(Shape::Int64)));
    fields.push(Field::named("migrate_from_chat_id", opt(Shape::Int64)));
    fields.push(Field::named("pinned_message", Shape::OptBoxed(MESSAGE)));
    fields.push(Field::named("connected_website", opt(Shape::Str)));
    fields.push(Field::named("proximity_alert_triggered", opt(Shape::Rec(PROXIMITY_ALERT_TRIGGERED))));
    fields.push(Field::named("voice_chat_scheduled", opt(Shape::Rec(VOICE_CHAT_SCHEDULED))));
    fields.push(Field::named("voice_chat_started", opt(Shape::Rec(VOICE_CHAT_STARTED))));
    fields.push(Field::named("voice_chat_ended", opt(Shape::Rec(VOICE_CHAT_ENDED))));
    fields.push(Field::named("voice_chat_participants_invited", opt(Shape::Rec(VOICE_CHAT_PARTICIPANTS_INVITED))));
    fields.push(Field::named("reply_markup", opt(Shape::Rec(INLINE_KEYBOARD_MARKUP))));
    let r = Schema { fields };
    proof {
        assert(r@ =~= message_schema_spec());
    }
    r
}

proof fn lemma_message_schema_wf()
    ensures
        wf_schema(SCHEMA_COUNT as int, MESSAGE as int, message_schema_spec()),
{
    reveal_with_fuel(wf_shape, 3);
    let s = message_schema_spec();
    reveal_strlit("animation");
    reveal_strlit("audio");
    reveal_strlit("author_signature");
    reveal_strlit("caption");
    reveal_strlit("caption_entities");
    reveal_strlit("channel_chat_created");
    reveal_strlit("chat");
    reveal_strlit("connected_website");
    reveal_strlit("contact");
    reveal_strlit("date");
    reveal_strlit("delete_chat_photo");
    reveal_strlit("dice");
    reveal_strlit("document");
    reveal_strlit("edit_date");
    reveal_strlit("entities");
    reveal_strlit("forward_date");
    reveal_strlit("forward_from");
    reveal_strlit("forward_from_chat");
    reveal_strlit("forward_from_message_id");
    reveal_strlit("forward_sender_name");
    reveal_strlit("forward_signature");
    reveal_strlit("from");
    reveal_strlit("group_chat_created");
    reveal_strlit("left_chat_member");
    reveal_strlit("location");
    reveal_strlit("media_group_id");
    reveal_strlit("message_auto_delete_timer_changed");
    reveal_strlit("message_id");
    reveal_strlit("migrate_from_chat_id");
    reveal_strlit("migrate_to_chat_id");
    reveal_strlit("new_chat_members");
    reveal_strlit("new_chat_photo");
    reveal_strlit("new_chat_title");
    reveal_strlit("photo");
    reveal_strlit("pinned_message");
    reveal_strlit("poll");
    reveal_strlit("proximity_alert_triggered");
    reveal_strlit("reply_markup");
    reveal_strlit("reply_to_message");
    reveal_strlit("sender_chat");
    reveal_strlit("sticker");
    reveal_strlit("supergroup_chat_created");
    reveal_strlit("text");
    reveal_strlit("venue");
    reveal_strlit("via_bot");
    reveal_strlit("video");
    reveal_strlit("video_note");
    reveal_strlit("voice");
    reveal_strlit("voice_chat_ended");
    reveal_strlit("voice_chat_participants_invited");
    reveal_strlit("voice_chat_scheduled");
    reveal_strlit("voice_chat_started");
    assert("animation"@.len() == 9);
    assert("audio"@.len() == 5);
    assert("author_signature"@.len() == 16);
    assert("caption"@.len() == 7);
    assert("caption_entities"@.len() == 16);
    assert("channel_chat_created"@.len() == 20);
    assert("chat"@.len() == 4);
    assert("connected_website"@.len() == 17);
    assert("contact"@.len() == 7);
    assert("date"@.len() == 4);
    assert("delete_chat_photo"@.len() == 17);
    assert("dice"@.len() == 4);
    assert("document"@.len() == 8);
    assert("edit_date"@.len() == 9);
    assert("entities"@.len() == 8);
    assert("forward_date"@.len() == 12);
    assert("forward_from"@.len() == 12);
    assert("forward_from_chat"@.len() == 17);
    assert("forward_from_message_id"@.len() == 23);
    assert("forward_sender_name"@.len() == 19);
    assert("forward_signature"@.len() == 17);
    assert("from"@.len() == 4);
    assert("group_chat_created"@.len() == 18);
    assert("left_chat_member"@.len() == 16);
    assert("location"@.len() == 8);
    assert("media_group_id"@.len() == 14);
    assert("message_auto_delete_timer_changed"@.len() == 33);
    assert("message_id"@.len() == 10);
    assert("migrate_from_chat_id"@.len() == 20);
    assert("migrate_to_chat_id"@.len() == 18);
    assert("new_chat_members"@.len() == 16);
    assert("new_chat_photo"@.len() == 14);
    assert("new_chat_title"@.len() == 14);
    assert("photo"@.len() == 5);
    assert("pinned_message"@.len() == 14);
    assert("poll"@.len() == 4);
    assert("proximity_alert_triggered"@.len() == 25);
    assert("reply_markup"@.len() == 12);
    assert("reply_to_message"@.len() == 16);
    assert("sender_chat"@.len() == 11);
    assert("sticker"@.len() == 7);
    assert("supergroup_chat_created"@.len() == 23);
    assert("text"@.len() == 4);
    assert("venue"@.len() == 5);
    assert("via_bot"@.len() == 7);
    assert("video"@.len() == 5);
    assert("video_note"@.len() == 10);
    assert("voice"@.len() == 5);
    assert("voice_chat_ended"@.len() == 16);
    assert("voice_chat_participants_invited"@.len() == 31);
    assert("voice_chat_scheduled"@.len() == 20);
    assert("voice_chat_started"@.len() == 18);
    assert("animation"@[0] == 'a');
    assert("audio"@[0] == 'a');
    assert("author_signature"@[0] == 'a');
    assert("caption"@[0] == 'c');
    assert("caption"@[1] == 'a');
    assert("caption_entities"@[0] == 'c');
    assert("channel_chat_created"@[0] == 'c');
    assert("chat"@[0] == 'c');
    assert("connected_website"@[0] == 'c');
    assert("contact"@[0] == 'c');
    assert("contact"@[1] == 'o');
    assert("date"@[0] == 'd');
    assert("date"@[1] == 'a');
    assert("delete_chat_photo"@[0] == 'd');
    assert("dice"@[0] == 'd');
    assert("dice"@[1] == 'i');
    assert("document"@[0] == 'd');
    assert("edit_date"@[0] == 'e');
    assert("entities"@[0] == 'e');
    assert("forward_date"@[0] == 'f');
    assert("forward_date"@[8] == 'd');
    assert("forward_from"@[0] == 'f');
    assert("forward_from"@[8] == 'f');
    assert("forward_from_chat"@[0] == 'f');
    assert("forward_from_chat"@[8] == 'f');
    assert("forward_from_message_id"@[0] == 'f');
    assert("forward_signature"@[0] == 'f');
    assert("forward_signature"@[8] == 's');
    assert("from"@[0] == 'f');
    assert("group_chat_created"@[0] == 'g');
    assert("left_chat_member"@[0] == 'l');
    assert("location"@[0] == 'l');
    assert("media_group_id"@[0] == 'm');
    assert("message_id"@[0] == 'm');
    assert("migrate_from_chat_id"@[0] == 'm');
    assert("migrate_to_chat_id"@[0] == 'm');
    assert("new_chat_members"@[0] == 'n');
    assert("new_chat_photo"@[0] == 'n');
    assert("new_chat_photo"@[9] == 'p');
    assert("new_chat_title"@[0] == 'n');
    assert("new_chat_title"@[9] == 't');
    assert("photo"@[0] == 'p');
    assert("pinned_message"@[0] == 'p');
    assert("poll"@[0] == 'p');
    assert("reply_markup"@[0] == 'r');
    assert("reply_to_message"@[0] == 'r');
    assert("sticker"@[0] == 's');
    assert("supergroup_chat_created"@[0] == 's');
    assert("text"@[0] == 't');
    assert("venue"@[0] == 'v');
    assert("venue"@[1] == 'e');
    assert("via_bot"@[0] == 'v');
    assert("video"@[0] == 'v');
    assert("video"@[1] == 'i');
    assert("video_note"@[0] == 'v');
    assert("voice"@[0] == 'v');
    assert("voice"@[1] == 'o');
    assert("voice_chat_ended"@[0] == 'v');
    assert("voice_chat_scheduled"@[0] == 'v');
    assert("voice_chat_started"@[0] == 'v');
    assert(wf_shape(SCHEMA_COUNT as int, s[0].shape) && top_ref_lt(s[0].shape, MESSAGE as int));
    assert(wf_shape(SCHEMA_COUNT as int, s[1].shape) && top_ref_lt(s[1].shape, MESSAGE as int));
    assert(wf_shape(SCHEMA_COUNT as int, s[2].shape) && top_ref_lt(s[2].shape, MESSAGE as int));
    assert(wf_shape(SCHEMA_COUNT as int, s[3].shape) && top_ref_lt(s[3].shape, MESSAGE as int));
    assert(wf_shape(SCHEMA_COUNT as int, s[4].shape) && top_ref_lt(s[4].shape, MESSAGE as int));
    assert(wf_shape(SCHEMA_COUNT as int, s[5].shape) && top_ref_lt(s[5].shape, MESSAGE as int));
    assert(wf_shape(SCHEMA_COUNT as int, s[6].shape) && top_ref_lt(s[6].shape, MESSAGE as int));
    assert(wf_shape(SCHEMA_COUNT as int, s[7].shape) && top_ref_lt(s[7].shape, MESSAGE as int));
    assert(wf_shape(SCHEMA_COUNT as int, s[8].shape) && top_ref_lt(s[8].shape, MESSAGE as int));
    assert(wf_shape(SCHEMA_COUNT as int, s[9].shape) && top_ref_lt(s[9].shape, MESSAGE as int));
    assert(wf_shape(SCHEMA_COUNT as int, s[10].shape) && top_ref_lt(s[10].shape, MESSAGE as int));
    assert(wf_shape(SCHEMA_COUNT as int, s[11].shape) && top_ref_lt(s[11].shape, MESSAGE as int));
    assert(wf_shape(SCHEMA_COUNT as int, s[12].shape) && top_ref_lt(s[12].shape, MESSAGE as int));
    assert(wf_shape(SCHEMA_COUNT as int, s[13].shape) && top_ref_lt(s[13].shape, MESSAGE as int));
    assert(wf_shape(SCHEMA_COUNT as int, s[14].shape) && top_ref_lt(s[14].shape, MESSAGE as int));
    assert(wf_shape(SCHEMA_COUNT as int, s[15].shape) && top_ref_lt(s[15].shape, MESSAGE as int));
    assert(wf_shape(SCHEMA_COUNT as int, s[16].shape) && top_ref_lt(s[16].shape, MESSAGE as int));
    assert(wf_shape(SCHEMA_COUNT as int, s[17].shape) && top_ref_lt(s[17].shape, MESSAGE as int));
    assert(wf_shape(SCHEMA_COUNT as int, s[18].shape) && top_ref_lt(s[18].shape, MESSAGE as int));
    assert(wf_shape(SCHEMA_COUNT as int, s[19].shape) && top_ref_lt(s[19].shape, MESSAGE as int));
    assert(wf_shape(SCHEMA_COUNT as int, s[20].shape) && top_ref_lt(s[20].shape, MESSAGE as int));
    assert(wf_shape(SCHEMA_COUNT as int, s[21].shape) && top_ref_lt(s[21].shape, MESSAGE as int));
    assert(wf_shape(SCHEMA_COUNT as int, s[22].shape) && top_ref_lt(s[22].shape, MESSAGE as int));
    assert(wf_shape(SCHEMA_COUNT as int, s[23].shape) && top_ref_lt(s[23].shape, MESSAGE as int));
    assert(wf_shape(SCHEMA_COUNT as int, s[24].shape) && top_ref_lt(s[24].shape, MESSAGE as int));
    assert(wf_shape(SCHEMA_COUNT as int, s[25].shape) && top_ref_lt(s[25].shape, MESSAGE as int));
    assert(wf_shape(SCHEMA_COUNT as int, s[26].shape) && top_ref_lt(s[26].shape, MESSAGE as int));
    assert(wf_shape(SCHEMA_COUNT as int, s[27].shape) && top_ref_lt(s[27].shape, MESSAGE as int));
    assert(wf_shape(SCHEMA_COUNT as int, s[28].shape) && top_ref_lt(s[28].shape, MESSAGE as int));
    assert(wf_shape(SCHEMA_COUNT as int, s[29].shape) && top_ref_lt(s[29].shape, MESSAGE as int));
    assert(wf_shape(SCHEMA_COUNT as int, s[30].shape) && top_ref_lt(s[30].shape, MESSAGE as int));
    assert(wf_shape(SCHEMA_COUNT as int, s[31].shape) && top_ref_lt(s[31].shape, MESSAGE as int));
    assert(wf_shape(SCHEMA_COUNT as int, s[32].shape) && top_ref_lt(s[32].shape, MESSAGE as int));
    assert(wf_shape(SCHEMA_COUNT as int, s[33].shape) && top_ref_lt(s[33].shape, MESSAGE as int));
    assert(wf_shape(SCHEMA_COUNT as int, s[34].shape) && top_ref_lt(s[34].shape, MESSAGE as int));
    assert(wf_shape(SCHEMA_COUNT as int, s[35].shape) && top_ref_lt(s[35].shape, MESSAGE as int));
    assert(wf_shape(SCHEMA_COUNT as int, s[36].shape) && top_ref_lt(s[36].shape, MESSAGE as int));
    assert(wf_shape(SCHEMA_COUNT as int, s[37].shape) && top_ref_lt(s[37].shape, MESSAGE as int));
    assert(wf_shape(SCHEMA_COUNT as int, s[38].shape) && top_ref_lt(s[38].shape, MESSAGE as int));
    assert(wf_shape(SCHEMA_COUNT as int, s[39].shape) && top_ref_lt(s[39].shape, MESSAGE as int));
    assert(wf_shape(SCHEMA_COUNT as int, s[40].shape) && top_ref_lt(s[40].shape, MESSAGE as int));
    assert(wf_shape(SCHEMA_COUNT as int, s[41].shape) && top_ref_lt(s[41].shape, MESSAGE as int));
    assert(wf_shape(SCHEMA_COUNT as int, s[42].shape) && top_ref_lt(s[42].shape, MESSAGE as int));
    assert(wf_shape(SCHEMA_COUNT as int, s[43].shape) && top_ref_lt(s[43].shape, MESSAGE as int));
    assert(wf_shape(SCHEMA_COUNT as int, s[44].shape) && top_ref_lt(s[44].shape, MESSAGE as int));
    assert(wf_shape(SCHEMA_COUNT as int, s[45].shape) && top_ref_lt(s[45].shape, MESSAGE as int));
    assert(wf_shape(SCHEMA_COUNT as int, s[46].shape) && top_ref_lt(s[46].shape, MESSAGE as int));
    assert(wf_shape(SCHEMA_COUNT as int, s[47].shape) && top_ref_lt(s[47].shape, MESSAGE as int));
    assert(wf_shape(SCHEMA_COUNT as int, s[48].shape) && top_ref_lt(s[48].shape, MESSAGE as int));
    assert(wf_shape(SCHEMA_COUNT as int, s[49].shape) && top_ref_lt(s[49].shape, MESSAGE as int));
    assert(wf_shape(SCHEMA_COUNT as int, s[50].shape) && top_ref_lt(s[50].shape, MESSAGE as int));
    assert(wf_shape(SCHEMA_COUNT as int, s[51].shape) && top_ref_lt(s[51].shape, MESSAGE as int));
    assert(forall|i: int|
        0 <= i < s.len() ==> wf_shape(SCHEMA_COUNT as int, #[trigger] s[i].shape));
    assert(forall|i: int| 0 <= i < s.len() ==> top_ref_lt(#[trigger] s[i].shape, MESSAGE as int));
    assert(forall|i: int, j: int| 0 <= i < j < s.len() ==> s[i].key != s[j].key);
}

pub open spec fn callback_query_schema_spec() -> SchemaV {
    seq![
        FieldV { name: "id"@, key: "id"@, shape: ShapeV::Str },
        FieldV { name: "from"@, key: "from"@, shape: ShapeV::Rec(USER as int) },
        FieldV { name: "message"@, key: "message"@, shape: ShapeV::Opt(Box::new(ShapeV::Rec(MESSAGE as int))) },
        FieldV { name: "inline_message_id"@, key: "inline_message_id"@, shape: ShapeV::Opt(Box::new(ShapeV::Str)) },
        FieldV { name: "chat_instance"@, key: "chat_instance"@, shape: ShapeV::Opt(Box::new(ShapeV::Str)) },
        FieldV { name: "data"@, key: "data"@, shape: ShapeV::Opt(Box::new(ShapeV::Str)) },
        FieldV { name: "game_short_name"@, key: "game_short_name"@, shape: ShapeV::Opt(Box::new(ShapeV::Str)) },
    ]
}

pub fn callback_query_schema() -> (r: Schema)
    ensures
        r@ == callback_query_schema_spec(),
{
    let mut fields: Vec<Field> = Vec::new();
    fields.push(Field::named("id", Shape::Str));
    fields.push(Field::named("from", Shape::Rec(USER)));
    fields.push(Field::named("message", opt(Shape::Rec(MESSAGE))));
    fields.push(Field::named("inline_message_id", opt(Shape::Str)));
    fields.push(Field::named("chat_instance", opt(Shape::Str)));
    fields.push(Field::named("data", opt(Shape::Str)));
    fields.push(Field::named("game_short_name", opt(Shape::Str)));
    let r = Schema { fields };
    proof {
        assert(r@ =~= callback_query_schema_spec());
    }
    r
}

proof fn lemma_callback_query_schema_wf()
    ensures
        wf_schema(SCHEMA_COUNT as int, CALLBACK_QUERY as int, callback_query_schema_spec()),
{
    reveal_with_fuel(wf_shape, 3);
    let s = callback_query_schema_spec();
    reveal_strlit("chat_instance");
    reveal_strlit("data");
    reveal_strlit("from");
    reveal_strlit("game_short_name");
    reveal_strlit("id");
    reveal_strlit("inline_message_id");
    reveal_strlit("message");
    assert("chat_instance"@.len() == 13);
    assert("data"@.len() == 4);
    assert("from"@.len() == 4);
    assert("game_short_name"@.len() == 15);
    assert("id"@.len() == 2);
    assert("inline_message_id"@.len() == 17);
    assert("message"@.len() == 7);
    assert("data"@[0] == 'd');
    assert("from"@[0] == 'f');
    assert(wf_shape(SCHEMA_COUNT as int, s[0].shape) && top_ref_lt(s[0].shape, CALLBACK_QUERY as int));
    assert(wf_shape(SCHEMA_COUNT as int, s[1].shape) && top_ref_lt(s[1].shape, CALLBACK_QUERY as int));
    assert(wf_shape(SCHEMA_COUNT as int, s[2].shape) && top_ref_lt(s[2].shape, CALLBACK_QUERY as int));
    assert(wf_shape(SCHEMA_COUNT as int, s[3].shape) && top_ref_lt(s[3].shape, CALLBACK_QUERY as int));
    assert(wf_shape(SCHEMA_COUNT as int, s[4].shape) && top_ref_lt(s[4].shape, CALLBACK_QUERY as int));
    assert(wf_shape(SCHEMA_COUNT as int, s[5].shape) && top_ref_lt(s[5].shape, CALLBACK_QUERY as int));
    assert(wf_shape(SCHEMA_COUNT as int, s[6].shape) && top_ref_lt(s[6].shape, CALLBACK_QUERY as int));
    assert(forall|i: int|
        0 <= i < s.len() ==> wf_shape(SCHEMA_COUNT as int, #[trigger] s[i].shape));
    assert(forall|i: int| 0 <= i < s.len() ==> top_ref_lt(#[trigger] s[i].shape, CALLBACK_QUERY as int));
    assert(forall|i: int, j: int| 0 <= i < j < s.len() ==> s[i].key != s[j].key);
}

pub open spec fn chat_member_updated_schema_spec() -> SchemaV {
    seq![
        FieldV { name: "chat"@, key: "chat"@, shape: ShapeV::Rec(CHAT as int) },
        FieldV { name: "from"@, key: "from"@, shape: ShapeV::Rec(USER as int) },
        FieldV { name: "date"@, key: "date"@, shape: ShapeV::Int32 },
        FieldV { name: "old_chat_member"@, key: "old_chat_member"@, shape: ShapeV::Rec(CHAT_MEMBER as int) },
        FieldV { name: "new_chat_member"@, key: "new_chat_member"@, shape: ShapeV::Rec(CHAT_MEMBER as int) },
        FieldV { name: "invite_link"@, key: "invite_link"@, shape: ShapeV::Opt(Box::new(ShapeV::Rec(CHAT_INVITE_LINK as int))) },
    ]
}

pub fn chat_member_updated_schema() -> (r: Schema)
    ensures
        r@ == chat_member_updated_schema_spec(),
{
    let mut fields: Vec<Field> = Vec::new();
    fields.push(Field::named("chat", Shape::Rec(CHAT)));
    fields.push(Field::named("from", Shape::Rec(USER)));
    fields.push(Field::named("date", Shape::Int32));
    fields.push(Field::named("old_chat_member", Shape::Rec(CHAT_MEMBER)));
    fields.push(Field::named("new_chat_member", Shape::Rec(CHAT_MEMBER)));
    fields.push(Field::named("invite_link", opt(Shape::Rec(CHAT_INVITE_LINK))));
    let r = Schema { fields };
    proof {
        assert(r@ =~= chat_member_updated_schema_spec());
    }
    r
}

proof fn lemma_chat_member_updated_schema_wf()
    ensures
        wf_schema(SCHEMA_COUNT as int, CHAT_MEMBER_UPDATED as int, chat_member_updated_schema_spec()),
{
    reveal_with_fuel(wf_shape, 3);
    let s = chat_member_updated_schema_spec();
    reveal_strlit("chat");
    reveal_strlit("date");
    reveal_strlit("from");
    reveal_strlit("invite_link");
    reveal_strlit("new_chat_member");
    reveal_strlit("old_chat_member");
    assert("chat"@.len() == 4);
    assert("date"@.len() == 4);
    assert("from"@.len() == 4);
    assert("invite_link"@.len() == 11);
    assert("new_chat_member"@.len() == 15);
    assert("old_chat_member"@.len() == 15);
    assert("chat"@[0] == 'c');
    assert("date"@[0] == 'd');
    assert("from"@[0] == 'f');
    assert("new_chat_member"@[0] == 'n');
    assert("old_chat_member"@[0] == 'o');
    assert(wf_shape(SCHEMA_COUNT as int, s[0].shape) && top_ref_lt(s[0].shape, CHAT_MEMBER_UPDATED as int));
    assert(wf_shape(SCHEMA_COUNT as int, s[1].shape) && top_ref_lt(s[1].shape, CHAT_MEMBER_UPDATED as int));
    assert(wf_shape(SCHEMA_COUNT as int, s[2].shape) && top_ref_lt(s[2].shape, CHAT_MEMBER_UPDATED as int));
    assert(wf_shape(SCHEMA_COUNT as int, s[3].shape) && top_ref_lt(s[3].shape, CHAT_MEMBER_UPDATED as int));
    assert(wf_shape(SCHEMA_COUNT as int, s[4].shape) && top_ref_lt(s[4].shape, CHAT_MEMBER_UPDATED as int));
    assert(wf_shape(SCHEMA_COUNT as int, s[5].shape) && top_ref_lt(s[5].shape, CHAT_MEMBER_UPDATED as int));
    assert(forall|i: int|
        0 <= i < s.len() ==> wf_shape(SCHEMA_COUNT as int, #[trigger] s[i].shape));
    assert(forall|i: int| 0 <= i < s.len() ==> top_ref_lt(#[trigger] s[i].shape, CHAT_MEMBER_UPDATED as int));
    assert(forall|i: int, j: int| 0 <= i < j < s.len() ==> s[i].key != s[j].key);
}

pub open spec fn update_schema_spec() -> SchemaV {
    seq![
        FieldV { name: "update_id"@, key: "update_id"@, shape: ShapeV::Int64 },
        FieldV { name: "message"@, key: "message"@, shape: ShapeV::Opt(Box::new(ShapeV::Rec(MESSAGE as int))) },
        FieldV { name: "edited_message"@, key: "edited_message"@, shape: ShapeV::Opt(Box::new(ShapeV::Rec(MESSAGE as int))) },
        FieldV { name: "channel_post"@, key: "channel_post"@, shape: ShapeV::Opt(Box::new(ShapeV::Rec(MESSAGE as int))) },
        FieldV { name: "edited_channel_post"@, key: "edited_channel_post"@, shape: ShapeV::Opt(Box::new(ShapeV::Rec(MESSAGE as int))) },
        FieldV { name: "callback_query"@, key: "callback_query"@, shape: ShapeV::Opt(Box::new(ShapeV::Rec(CALLBACK_QUERY as int))) },
        FieldV { name: "poll"@, key: "poll"@, shape: ShapeV::Opt(Box::new(ShapeV::Rec(POLL as int))) },
        FieldV { name: "poll_answer"@, key: "poll_answer"@, shape: ShapeV::Opt(Box::new(ShapeV::Rec(POLL_ANSWER as int))) },
        FieldV { name: "my_chat_member"@, key: "my_chat_member"@, shape: ShapeV::Opt(Box::new(ShapeV::Rec(CHAT_MEMBER_UPDATED as int))) },
        FieldV { name: "chat_member"@, key: "chat_member"@, shape: ShapeV::Opt(Box::new(ShapeV::Rec(CHAT_MEMBER_UPDATED as int))) },
    ]
}

pub fn update_schema() -> (r: Schema)
    ensures
        r@ == update_schema_spec(),
{
    let mut fields: Vec<Field> = Vec::new();
    fields.push(Field::named("update_id", Shape::Int64));
    fields.push(Field::named("message", opt(Shape::Rec(MESSAGE))));
    fields.push(Field::named("edited_message", opt(Shape::Rec(MESSAGE))));
    fields.push(Field::named("channel_post", opt(Shape::Rec(MESSAGE))));
    fields.push(Field::named("edited_channel_post", opt(Shape::Rec(MESSAGE))));
    fields.push(Field::named("callback_query", opt(Shape::Rec(CALLBACK_QUERY))));
    fields.push(Field::named("poll", opt(Shape::Rec(POLL))));
    fields.push(Field::named("poll_answer", opt(Shape::Rec(POLL_ANSWER))));
    fields.push(Field::named("my_chat_member", opt(Shape::Rec(CHAT_MEMBER_UPDATED))));
    fields.push(Field::named("chat_member", opt(Shape::Rec(CHAT_MEMBER_UPDATED))));
    let r = Schema { fields };
    proof {
        assert(r@ =~= update_schema_spec());
    }
    r
}

proof fn lemma_update_schema_wf()
    ensures
        wf_schema(SCHEMA_COUNT as int, UPDATE as int, update_schema_spec()),
{
    reveal_with_fuel(wf_shape, 3);
    let s = update_schema_spec();
    reveal_strlit("callback_query");
    reveal_strlit("channel_post");
    reveal_strlit("chat_member");
    reveal_strlit("edited_channel_post");
    reveal_strlit("edited_message");
    reveal_strlit("message");
    reveal_strlit("my_chat_member");
    reveal_strlit("poll");
    reveal_strlit("poll_answer");
    reveal_strlit("update_id");
    assert("callback_query"@.len() == 14);
    assert("channel_post"@.len() == 12);
    assert("chat_member"@.len() == 11);
    assert("edited_channel_post"@.len() == 19);
    assert("edited_message"@.len() == 14);
    assert("message"@.len() == 7);
    assert("my_chat_member"@.len() == 14);
    assert("poll"@.len() == 4);
    assert("poll_answer"@.len() == 11);
    assert("update_id"@.len() == 9);
    assert("callback_query"@[0] == 'c');
    assert("chat_member"@[0] == 'c');
    assert("edited_message"@[0] == 'e');
    assert("my_chat_member"@[0] == 'm');
    assert("poll_answer"@[0] == 'p');
    assert(wf_shape(SCHEMA_COUNT as int, s[0].shape) && top_ref_lt(s[0].shape, UPDATE as int));
    assert(wf_shape(SCHEMA_COUNT as int, s[1].shape) && top_ref_lt(s[1].shape, UPDATE as int));
    assert(wf_shape(SCHEMA_COUNT as int, s[2].shape) && top_ref_lt(s[2].shape, UPDATE as int));
    assert(wf_shape(SCHEMA_COUNT as int, s[3].shape) && top_ref_lt(s[3].shape, UPDATE as int));
    assert(wf_shape(SCHEMA_COUNT as int, s[4].shape) && top_ref_lt(s[4].shape, UPDATE as int));
    assert(wf_shape(SCHEMA_COUNT as int, s[5].shape) && top_ref_lt(s[5].shape, UPDATE as int));
    assert(wf_shape(SCHEMA_COUNT as int, s[6].shape) && top_ref_lt(s[6].shape, UPDATE as int));
    assert(wf_shape(SCHEMA_COUNT as int, s[7].shape) && top_ref_lt(s[7].shape, UPDATE as int));
    assert(wf_shape(SCHEMA_COUNT as int, s[8].shape) && top_ref_lt(s[8].shape, UPDATE as int));
    assert(wf_shape(SCHEMA_COUNT as int, s[9].shape) && top_ref_lt(s[9].shape, UPDATE as int));
    assert(forall|i: int|
        0 <= i < s.len() ==> wf_shape(SCHEMA_COUNT as int, #[trigger] s[i].shape));
    assert(forall|i: int| 0 <= i < s.len() ==> top_ref_lt(#[trigger] s[i].shape, UPDATE as int));
    assert(forall|i: int, j: int| 0 <= i < j < s.len() ==> s[i].key != s[j].key);
}

/// The exact content of the standard catalogue.
pub open spec fn standard_spec() -> Seq<SchemaV> {
    seq![
        user_schema_spec(),
        location_schema_spec(),
        photo_size_schema_spec(),
        message_entity_schema_spec(),
        chat_photo_schema_spec(),
        chat_permissions_schema_spec(),
        chat_location_schema_spec(),
        poll_option_schema_spec(),
        message_auto_delete_timer_changed_schema_spec(),
        voice_chat_scheduled_schema_spec(),
        voice_chat_started_schema_spec(),
        voice_chat_ended_schema_spec(),
        voice_chat_participants_invited_schema_spec(),
        proximity_alert_triggered_schema_spec(),
        contact_schema_spec(),
        dice_schema_spec(),
        poll_schema_spec(),
        poll_answer_schema_spec(),
        venue_schema_spec(),
        mask_position_schema_spec(),
        sticker_schema_spec(),
        sticker_set_schema_spec(),
        animation_schema_spec(),
        audio_schema_spec(),
        document_schema_spec(),
        video_schema_spec(),
        video_note_schema_spec(),
        voice_schema_spec(),
        login_url_schema_spec(),
        inline_keyboard_button_schema_spec(),
        inline_keyboard_markup_schema_spec(),
        keyboard_button_poll_type_schema_spec(),
        keyboard_button_schema_spec(),
        reply_keyboard_markup_schema_spec(),
        reply_keyboard_remove_schema_spec(),
        force_reply_schema_spec(),
        user_profile_photos_schema_spec(),
        file_schema_spec(),
        bot_command_schema_spec(),
        response_parameters_schema_spec(),
        input_media_schema_spec(),
        message_id_schema_spec(),
        chat_invite_link_schema_spec(),
        chat_member_schema_spec(),
        chat_schema_spec(),
        message_schema_spec(),
        callback_query_schema_spec(),
        chat_member_updated_schema_spec(),
        update_schema_spec(),
    ]
}

/// The standard catalogue is well formed, so [`standard`] never has to
/// refuse it.
#[verifier::spinoff_prover]
#[verifier::rlimit(100)]
pub proof fn lemma_standard_wf()
    ensures
        wf_catalog(standard_spec()),
{
    let cat = standard_spec();
    assert(cat.len() == SCHEMA_COUNT as int);
    lemma_user_schema_wf();
    lemma_location_schema_wf();
    lemma_photo_size_schema_wf();
    lemma_message_entity_schema_wf();
    lemma_chat_photo_schema_wf();
    lemma_chat_permissions_schema_wf();
    lemma_chat_location_schema_wf();
    lemma_poll_option_schema_wf();
    lemma_message_auto_delete_timer_changed_schema_wf();
    lemma_voice_chat_scheduled_schema_wf();
    lemma_voice_chat_started_schema_wf();
    lemma_voice_chat_ended_schema_wf();
    lemma_voice_chat_participants_invited_schema_wf();
    lemma_proximity_alert_triggered_schema_wf();
    lemma_contact_schema_wf();
    lemma_dice_schema_wf();
    lemma_poll_schema_wf();
    lemma_poll_answer_schema_wf();
    lemma_venue_schema_wf();
    lemma_mask_position_schema_wf();
    lemma_sticker_schema_wf();
    lemma_sticker_set_schema_wf();
    lemma_animation_schema_wf();
    lemma_audio_schema_wf();
    lemma_document_schema_wf();
    lemma_video_schema_wf();
    lemma_video_note_schema_wf();
    lemma_voice_schema_wf();
    lemma_login_url_schema_wf();
    lemma_inline_keyboard_button_schema_wf();
    lemma_inline_keyboard_markup_schema_wf();
    lemma_keyboard_button_poll_type_schema_wf();
    lemma_keyboard_button_schema_wf();
    lemma_reply_keyboard_markup_schema_wf();
    lemma_reply_keyboard_remove_schema_wf();
    lemma_force_reply_schema_wf();
    lemma_user_profile_photos_schema_wf();
    lemma_file_schema_wf();
    lemma_bot_command_schema_wf();
    lemma_response_parameters_schema_wf();
    lemma_input_media_schema_wf();
    lemma_message_id_schema_wf();
    lemma_chat_invite_link_schema_wf();
    lemma_chat_member_schema_wf();
    lemma_chat_schema_wf();
    lemma_message_schema_wf();
    lemma_callback_query_schema_wf();
    lemma_chat_member_updated_schema_wf();
    lemma_update_schema_wf();
    assert(cat[USER as int] == user_schema_spec());
    assert(cat[LOCATION as int] == location_schema_spec());
    assert(cat[PHOTO_SIZE as int] == photo_size_schema_spec());
    assert(cat[MESSAGE_ENTITY as int] == message_entity_schema_spec());
    assert(cat[CHAT_PHOTO as int] == chat_photo_schema_spec());
    assert(cat[CHAT_PERMISSIONS as int] == chat_permissions_schema_spec());
    assert(cat[CHAT_LOCATION as int] == chat_location_schema_spec());
    assert(cat[POLL_OPTION as int] == poll_option_schema_spec());
    assert(cat[MESSAGE_AUTO_DELETE_TIMER_CHANGED as int] == message_auto_delete_timer_changed_schema_spec());
    assert(cat[VOICE_CHAT_SCHEDULED as int] == voice_chat_scheduled_schema_spec());
    assert(cat[VOICE_CHAT_STARTED as int] == voice_chat_started_schema_spec());
    assert(cat[VOICE_CHAT_ENDED as int] == voice_chat_ended_schema_spec());
    assert(cat[VOICE_CHAT_PARTICIPANTS_INVITED as int] == voice_chat_participants_invited_schema_spec());
    assert(cat[PROXIMITY_ALERT_TRIGGERED as int] == proximity_alert_triggered_schema_spec());
    assert(cat[CONTACT as int] == contact_schema_spec());
    assert(cat[DICE as int] == dice_schema_spec());
    assert(cat[POLL as int] == poll_schema_spec());
    assert(cat[POLL_ANSWER as int] == poll_answer_schema_spec());
    assert(cat[VENUE as int] == venue_schema_spec());
    assert(cat[MASK_POSITION as int] == mask_position_schema_spec());
    assert(cat[STICKER as int] == sticker_schema_spec());
    assert(cat[STICKER_SET as int] == sticker_set_schema_spec());
    assert(cat[ANIMATION as int] == animation_schema_spec());
    assert(cat[AUDIO as int] == audio_schema_spec());
    assert(cat[DOCUMENT as int] == document_schema_spec());
    assert(cat[VIDEO as int] == video_schema_spec());
    assert(cat[VIDEO_NOTE as int] == video_note_schema_spec());
    assert(cat[VOICE as int] == voice_schema_spec());
    assert(cat[LOGIN_URL as int] == login_url_schema_spec());
    assert(cat[INLINE_KEYBOARD_BUTTON as int] == inline_keyboard_button_schema_spec());
    assert(cat[INLINE_KEYBOARD_MARKUP as int] == inline_keyboard_markup_schema_spec());
    assert(cat[KEYBOARD_BUTTON_POLL_TYPE as int] == keyboard_button_poll_type_schema_spec());
    assert(cat[KEYBOARD_BUTTON as int] == keyboard_button_schema_spec());
    assert(cat[REPLY_KEYBOARD_MARKUP as int] == reply_keyboard_markup_schema_spec());
    assert(cat[REPLY_KEYBOARD_REMOVE as int] == reply_keyboard_remove_schema_spec());
    assert(cat[FORCE_REPLY as int] == force_reply_schema_spec());
    assert(cat[USER_PROFILE_PHOTOS as int] == user_profile_photos_schema_spec());
    assert(cat[FILE as int] == file_schema_spec());
    assert(cat[BOT_COMMAND as int] == bot_command_schema_spec());
    assert(cat[RESPONSE_PARAMETERS as int] == response_parameters_schema_spec());
    assert(cat[INPUT_MEDIA as int] == input_media_schema_spec());
    assert(cat[MESSAGE_ID as int] == message_id_schema_spec());
    assert(cat[CHAT_INVITE_LINK as int] == chat_invite_link_schema_spec());
    assert(cat[CHAT_MEMBER as int] == chat_member_schema_spec());
    assert(cat[CHAT as int] == chat_schema_spec());
    assert(cat[MESSAGE as int] == message_schema_spec());
    assert(cat[CALLBACK_QUERY as int] == callback_query_schema_spec());
    assert(cat[CHAT_MEMBER_UPDATED as int] == chat_member_updated_schema_spec());
    assert(cat[UPDATE as int] == update_schema_spec());
    assert(forall|id: int|
        0 <= id < cat.len() ==> wf_schema(cat.len() as int, id, #[trigger] cat[id]));
}

/// The full catalogue of the service's record types: exactly
/// [`standard_spec`], which is well formed, so the checked constructor
/// always accepts it.
pub fn standard() -> (r: Option<Catalog>)
    ensures
        r is Some,
        r matches Some(c) ==> c@ == standard_spec() && c@.len() == SCHEMA_COUNT,
{
    let mut schemas: Vec<Schema> = Vec::new();
    schemas.push(user_schema());
    schemas.push(location_schema());
    schemas.push(photo_size_schema());
    schemas.push(message_entity_schema());
    schemas.push(chat_photo_schema());
    schemas.push(chat_permissions_schema());
    schemas.push(chat_location_schema());
    schemas.push(poll_option_schema());
    schemas.push(message_auto_delete_timer_changed_schema());
    schemas.push(voice_chat_scheduled_schema());
    schemas.push(voice_chat_started_schema());
    schemas.push(voice_chat_ended_schema());
    schemas.push(voice_chat_participants_invited_schema());
    schemas.push(proximity_alert_triggered_schema());
    schemas.push(contact_schema());
    schemas.push(dice_schema());
    schemas.push(poll_schema());
    schemas.push(poll_answer_schema());
    schemas.push(venue_schema());
    schemas.push(mask_position_schema());
    schemas.push(sticker_schema());
    schemas.push(sticker_set_schema());
    schemas.push(animation_schema());
    schemas.push(audio_schema());
    schemas.push(document_schema());
    schemas.push(video_schema());
    schemas.push(video_note_schema());
    schemas.push(voice_schema());
    schemas.push(login_url_schema());
    schemas.push(inline_keyboard_button_schema());
    schemas.push(inline_keyboard_markup_schema());
    schemas.push(keyboard_button_poll_type_schema());
    schemas.push(keyboard_button_schema());
    schemas.push(reply_keyboard_markup_schema());
    schemas.push(reply_keyboard_remove_schema());
    schemas.push(force_reply_schema());
    schemas.push(user_profile_photos_schema());
    schemas.push(file_schema());
    schemas.push(bot_command_schema());
    schemas.push(response_parameters_schema());
    schemas.push(input_media_schema());
    schemas.push(message_id_schema());
    schemas.push(chat_invite_link_schema());
    schemas.push(chat_member_schema());
    schemas.push(chat_schema());
    schemas.push(message_schema());
    schemas.push(callback_query_schema());
    schemas.push(chat_member_updated_schema());
    schemas.push(update_schema());
    proof {
        assert(schemas@.map_values(|s: Schema| s@) =~= standard_spec());
        lemma_standard_wf();
    }
    let r = Catalog::new(schemas);
    proof {
        match r {
            Some(ref c) => {
                assert(c@ =~= standard_spec());
            },
            None => {
                assert(false);
            },
        }
    }
    r
}

} // verus!
