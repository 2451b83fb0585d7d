//! The closed table of message-entity kinds.
//!
//! Each kind has exactly one wire string; the table is a total bijection,
//! so encoding after decoding reproduces the exact string, and a string
//! outside the table is rejected rather than silently defaulted.

use vstd::prelude::*;

verus! {

#[derive(Clone, Copy, Debug, PartialEq, Eq, Structural)]
pub enum MessageEntityType {
    Mention,
    Hashtag,
    Cashtag,
    BotCommand,
    Url,
    Email,
    PhoneNumber,
    Bold,
    Italic,
    Underline,
    Strikethrough,
    Code,
    Pre,
    TextLink,
    TextMention,
}

/// The wire string of one entity kind.
pub open spec fn wire_of(t: MessageEntityType) -> Seq<char> {
    match t {
        MessageEntityType::Mention => "mention"@,
        MessageEntityType::Hashtag => "hashtag"@,
        MessageEntityType::Cashtag => "cashtag"@,
        MessageEntityType::BotCommand => "bot_command"@,
        MessageEntityType::Url => "url"@,
        MessageEntityType::Email => "email"@,
        MessageEntityType::PhoneNumber => "phone_number"@,
        MessageEntityType::Bold => "bold"@,
        MessageEntityType::Italic => "italic"@,
        MessageEntityType::Underline => "underline"@,
        MessageEntityType::Strikethrough => "strikethrough"@,
        MessageEntityType::Code => "code"@,
        MessageEntityType::Pre => "pre"@,
        MessageEntityType::TextLink => "text_link"@,
        MessageEntityType::TextMention => "text_mention"@,
    }
}

/// The wire strings in table order: the order of the enum's variants.
pub open spec fn entity_wires() -> Seq<Seq<char>> {
    seq![
        wire_of(MessageEntityType::Mention),
        wire_of(MessageEntityType::Hashtag),
        wire_of(MessageEntityType::Cashtag),
        wire_of(MessageEntityType::BotCommand),
        wire_of(MessageEntityType::Url),
        wire_of(MessageEntityType::Email),
        wire_of(MessageEntityType::PhoneNumber),
        wire_of(MessageEntityType::Bold),
        wire_of(MessageEntityType::Italic),
        wire_of(MessageEntityType::Underline),
        wire_of(MessageEntityType::Strikethrough),
        wire_of(MessageEntityType::Code),
        wire_of(MessageEntityType::Pre),
        wire_of(MessageEntityType::TextLink),
        wire_of(MessageEntityType::TextMention),
    ]
}

/// The entity table as the `Choice` shape carries it.
pub fn entity_wire_table() -> (r: Vec<String>)
    ensures
        r@.map_values(|x: String| x@) == entity_wires(),
{
    let mut t: Vec<String> = Vec::new();
    t.push(String::from_str("mention"));
    t.push(String::from_str("hashtag"));
    t.push(String::from_str("cashtag"));
    t.push(String::from_str("bot_command"));
    t.push(String::from_str("url"));
    t.push(String::from_str("email"));
    t.push(String::from_str("phone_number"));
    t.push(String::from_str("bold"));
    t.push(String::from_str("italic"));
    t.push(String::from_str("underline"));
    t.push(String::from_str("strikethrough"));
    t.push(String::from_str("code"));
    t.push(String::from_str("pre"));
    t.push(String::from_str("text_link"));
    t.push(String::from_str("text_mention"));
    proof {
        assert(t@.map_values(|x: String| x@) =~= entity_wires());
    }
    t
}

impl MessageEntityType {
    /// The entity kind a wire string names, if any.  An unknown string
    /// yields no kind; nothing silently falls back to a default.
    pub fn from_string(s: &str) -> (r: Option<MessageEntityType>)
        ensures
            match r {
                Some(t) => s@ == wire_of(t),
                None => forall|t: MessageEntityType| s@ != wire_of(t),
            },
    {
        if s.eq("mention") {
            Some(MessageEntityType::Mention)
        } else if s.eq("hashtag") {
            Some(MessageEntityType::Hashtag)
        } else if s.eq("cashtag") {
            Some(MessageEntityType::Cashtag)
        } else if s.eq("bot_command") {
            Some(MessageEntityType::BotCommand)
        } else if s.eq("url") {
            Some(MessageEntityType::Url)
        } else if s.eq("email") {
            Some(MessageEntityType::Email)
        } else if s.eq("phone_number") {
            Some(MessageEntityType::PhoneNumber)
        } else if s.eq("bold") {
            Some(MessageEntityType::Bold)
        } else if s.eq("italic") {
            Some(MessageEntityType::Italic)
        } else if s.eq("underline") {
            Some(MessageEntityType::Underline)
        } else if s.eq("strikethrough") {
            Some(MessageEntityType::Strikethrough)
        } else if s.eq("code") {
            Some(MessageEntityType::Code)
        } else if s.eq("pre") {
            Some(MessageEntityType::Pre)
        } else if s.eq("text_link") {
            Some(MessageEntityType::TextLink)
        } else if s.eq("text_mention") {
            Some(MessageEntityType::TextMention)
        } else {
            None
        }
    }

    /// The wire string of this kind.
    pub fn wire_str(&self) -> (r: String)
        ensures
            r@ == wire_of(*self),
    {
        match self {
            MessageEntityType::Mention => String::from_str("mention"),
            MessageEntityType::Hashtag => String::from_str("hashtag"),
            MessageEntityType::Cashtag => String::from_str("cashtag"),
            MessageEntityType::BotCommand => String::from_str("bot_command"),
            MessageEntityType::Url => String::from_str("url"),
            MessageEntityType::Email => String::from_str("email"),
            MessageEntityType::PhoneNumber => String::from_str("phone_number"),
            MessageEntityType::Bold => String::from_str("bold"),
            MessageEntityType::Italic => String::from_str("italic"),
            MessageEntityType::Underline => String::from_str("underline"),
            MessageEntityType::Strikethrough => String::from_str("strikethrough"),
            MessageEntityType::Code => String::from_str("code"),
            MessageEntityType::Pre => String::from_str("pre"),
            MessageEntityType::TextLink => String::from_str("text_link"),
            MessageEntityType::TextMention => String::from_str("text_mention"),
        }
    }

    /// The position of this kind in the entity table: the index a
    /// decoded `Choice` value carries.
    pub fn table_index(&self) -> (r: usize)
        ensures
            r < entity_wires().len(),
            entity_wires()[r as int] == wire_of(*self),
    {
        match self {
            MessageEntityType::Mention => 0,
            MessageEntityType::Hashtag => 1,
            MessageEntityType::Cashtag => 2,
            MessageEntityType::BotCommand => 3,
            MessageEntityType::Url => 4,
            MessageEntityType::Email => 5,
            MessageEntityType::PhoneNumber => 6,
            MessageEntityType::Bold => 7,
            MessageEntityType::Italic => 8,
            MessageEntityType::Underline => 9,
            MessageEntityType::Strikethrough => 10,
            MessageEntityType::Code => 11,
            MessageEntityType::Pre => 12,
            MessageEntityType::TextLink => 13,
            MessageEntityType::TextMention => 14,
        }
    }
}


/// The wire table is a closed set without duplicates: no two entity
/// kinds share a wire string.
pub proof fn lemma_entity_wires_distinct()
    ensures
        entity_wires().len() == 15,
        crate::shape::distinct_seqs(entity_wires()),
{
    reveal_strlit("mention");
    reveal_strlit("hashtag");
    reveal_strlit("cashtag");
    reveal_strlit("bot_command");
    reveal_strlit("url");
    reveal_strlit("email");
    reveal_strlit("phone_number");
    reveal_strlit("bold");
    reveal_strlit("italic");
    reveal_strlit("underline");
    reveal_strlit("strikethrough");
    reveal_strlit("code");
    reveal_strlit("pre");
    reveal_strlit("text_link");
    reveal_strlit("text_mention");
    assert("mention"@.len() == 7);
    assert("hashtag"@.len() == 7);
    assert("cashtag"@.len() == 7);
    assert("bot_command"@.len() == 11);
    assert("url"@.len() == 3);
    assert("email"@.len() == 5);
    assert("phone_number"@.len() == 12);
    assert("bold"@.len() == 4);
    assert("italic"@.len() == 6);
    assert("underline"@.len() == 9);
    assert("strikethrough"@.len() == 13);
    assert("code"@.len() == 4);
    assert("pre"@.len() == 3);
    assert("text_link"@.len() == 9);
    assert("text_mention"@.len() == 12);
    assert("mention"@[0] == 'm');
    assert("hashtag"@[0] == 'h');
    assert("cashtag"@[0] == 'c');
    assert("bot_command"@[0] == 'b');
    assert("url"@[0] == 'u');
    assert("email"@[0] == 'e');
    assert("phone_number"@[0] == 'p');
    assert("bold"@[0] == 'b');
    assert("italic"@[0] == 'i');
    assert("underline"@[0] == 'u');
    assert("strikethrough"@[0] == 's');
    assert("code"@[0] == 'c');
    assert("pre"@[0] == 'p');
    assert("text_link"@[0] == 't');
    assert("text_mention"@[0] == 't');
    assert(crate::shape::distinct_seqs(entity_wires()));
}

} // verus!
