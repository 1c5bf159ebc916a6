use vstd::prelude::*;

use crate::entities::{Entity, EntityType};
use crate::text::{append_decimal, decimal};
use crate::types::{Bot, Chat, Message, User, UserOption};

verus! {

/// The chars of an optional string; none where it is absent.
pub open spec fn text_or_empty(s: Option<String>) -> Seq<char> {
    match s {
        Some(t) => t@,
        None => Seq::empty(),
    }
}

/// `prefix`, the chars of `s`, and `suffix`, where `s` is present; nothing
/// otherwise.
pub open spec fn wrapped(prefix: Seq<char>, s: Option<String>, suffix: Seq<char>) -> Seq<char> {
    match s {
        Some(t) => prefix + t@ + suffix,
        None => Seq::empty(),
    }
}

/// How a user reads in a log line.
pub open spec fn user_text(u: User) -> Seq<char> {
    "User("@ + u.first_name@ + wrapped(" "@, u.last_name, ""@) + wrapped(" [@"@, u.username, "]"@)
        + (if u.is_bot {
        " (bot)"@
    } else {
        Seq::empty()
    }) + ")"@
}

/// How an optional user reads in a log line.
pub open spec fn user_option_text(u: UserOption) -> Seq<char> {
    match u.0 {
        Some(user) => user_text(user),
        None => Seq::empty(),
    }
}

/// How a chat reads in a log line.
pub open spec fn chat_text(c: Chat) -> Seq<char> {
    "Chat("@ + text_or_empty(c.first_name) + text_or_empty(c.last_name) + "(#"@ + decimal(
        c.id as int,
    ) + ", "@ + c.chat_type@ + "))"@
}

/// The name of a kind as a log line shows it.
pub open spec fn entity_type_text(k: EntityType) -> Seq<char> {
    match k {
        EntityType::Mention => "Mention"@,
        EntityType::Hashtag => "Hashtag"@,
        EntityType::Cashtag => "Cashtag"@,
        EntityType::BotCommand => "BotCommand"@,
        EntityType::Url => "Url"@,
        EntityType::Email => "Email"@,
        EntityType::PhoneNumber => "PhoneNumber"@,
        EntityType::Bold => "Bold"@,
        EntityType::Italic => "Italic"@,
        EntityType::Underline => "Underline"@,
        EntityType::Strikethrough => "Strikethrough"@,
        EntityType::Spoiler => "Spoiler"@,
        EntityType::Blockquote => "Blockquote"@,
        EntityType::ExpandableBlockquote => "ExpandableBlockquote"@,
        EntityType::Code => "Code"@,
        EntityType::Pre => "Pre"@,
        EntityType::TextLink => "TextLink"@,
        EntityType::TextMention => "TextMention"@,
        EntityType::CustomEmoji => "CustomEmoji"@,
        EntityType::Other(name) => "Other(\""@ + name@ + "\")"@,
    }
}

/// How an entity reads in a log line.
pub open spec fn entity_text(e: Entity) -> Seq<char> {
    "Entity { type: "@ + entity_type_text(e.entity_type) + ", offset: "@ + decimal(e.offset as int)
        + ", length: "@ + decimal(e.length as int) + wrapped(", url: "@, e.url, ""@) + (match e.user {
        Some(u) => ", user: "@ + user_text(u),
        None => Seq::empty(),
    }) + wrapped(", language: "@, e.language, ""@) + wrapped(
        ", custom_emoji_id: "@,
        e.custom_emoji_id,
        ""@,
    ) + " }"@
}

/// The log texts of `entities`, separated by `, `.
pub open spec fn entities_text(entities: Seq<Entity>) -> Seq<char>
    decreases entities.len(),
{
    if entities.len() == 0 {
        Seq::empty()
    } else if entities.len() == 1 {
        entity_text(entities[0])
    } else {
        entities_text(entities.drop_last()) + ", "@ + entity_text(entities.last())
    }
}

/// How a message reads in a log line.
pub open spec fn message_text(m: Message) -> Seq<char> {
    "Message ID: "@ + decimal(m.message_id as int) + "\nFrom: "@ + user_option_text(m.from)
        + "\nChat: "@ + chat_text(m.chat) + "\nText: "@ + text_or_empty(m.text) + (match m.entities {
        Some(v) => "\nEntities:\n"@ + entities_text(v@),
        None => Seq::empty(),
    })
}

/// The lines that report on the bot's own account, or on the failure to get
/// it.
pub open spec fn me_report(me: Option<Bot>) -> Seq<Seq<char>> {
    match me {
        Some(b) => seq![
            "Status: OK"@,
            "My ID: "@ + decimal(b.id as int),
            "My name is: "@ + b.first_name@ + " ("@ + b.username@ + ")"@,
            if b.is_bot {
                "I am a bot!"@
            } else {
                "I am not a bot!"@
            },
        ],
        None => seq!["Status: ERROR"@],
    }
}

fn append_wrapped(out: &mut String, prefix: &str, s: &Option<String>, suffix: &str)
    ensures
        final(out)@ == old(out)@ + wrapped(prefix@, *s, suffix@),
{
    if let Some(t) = s {
        out.append(prefix);
        out.append(t.as_str());
        out.append(suffix);
        assert(out@ =~= old(out)@ + wrapped(prefix@, *s, suffix@));
    } else {
        assert(out@ =~= old(out)@ + wrapped(prefix@, *s, suffix@));
    }
}

fn append_optional(out: &mut String, s: &Option<String>)
    ensures
        final(out)@ == old(out)@ + text_or_empty(*s),
{
    if let Some(t) = s {
        out.append(t.as_str());
    } else {
        assert(out@ =~= old(out)@ + text_or_empty(*s));
    }
}

impl User {
    /// How the user reads in a log line: the name, ` [@username]` where
    /// there is one, and ` (bot)` for a bot.
    pub fn describe(&self) -> (r: String)
        ensures
            r@ == user_text(*self),
    {
        let mut r = String::from_str("User(");
        r.append(self.first_name.as_str());
        append_wrapped(&mut r, " ", &self.last_name, "");
        append_wrapped(&mut r, " [@", &self.username, "]");
        if self.is_bot {
            r.append(" (bot)");
        }
        r.append(")");
        assert(r@ =~= user_text(*self));
        r
    }
}

impl UserOption {
    /// How the user reads in a log line; nothing where there is none.
    pub fn describe(&self) -> (r: String)
        ensures
            r@ == user_option_text(*self),
    {
        match &self.0 {
            Some(u) => u.describe(),
            None => String::new(),
        }
    }
}

impl Chat {
    /// How the chat reads in a log line: its name, id and type.
    pub fn describe(&self) -> (r: String)
        ensures
            r@ == chat_text(*self),
    {
        let mut r = String::from_str("Chat(");
        append_optional(&mut r, &self.first_name);
        append_optional(&mut r, &self.last_name);
        r.append("(#");
        append_decimal(&mut r, self.id);
        r.append(", ");
        r.append(self.chat_type.as_str());
        r.append("))");
        assert(r@ =~= chat_text(*self));
        r
    }
}

impl EntityType {
    /// The kind's name as a log line shows it; an unknown kind shows the
    /// service's name in quotes.
    pub fn describe(&self) -> (r: String)
        ensures
            r@ == entity_type_text(*self),
    {
        match self {
            EntityType::Mention => String::from_str("Mention"),
            EntityType::Hashtag => String::from_str("Hashtag"),
            EntityType::Cashtag => String::from_str("Cashtag"),
            EntityType::BotCommand => String::from_str("BotCommand"),
            EntityType::Url => String::from_str("Url"),
            EntityType::Email => String::from_str("Email"),
            EntityType::PhoneNumber => String::from_str("PhoneNumber"),
            EntityType::Bold => String::from_str("Bold"),
            EntityType::Italic => String::from_str("Italic"),
            EntityType::Underline => String::from_str("Underline"),
            EntityType::Strikethrough => String::from_str("Strikethrough"),
            EntityType::Spoiler => String::from_str("Spoiler"),
            EntityType::Blockquote => String::from_str("Blockquote"),
            EntityType::ExpandableBlockquote => String::from_str("ExpandableBlockquote"),
            EntityType::Code => String::from_str("Code"),
            EntityType::Pre => String::from_str("Pre"),
            EntityType::TextLink => String::from_str("TextLink"),
            EntityType::TextMention => String::from_str("TextMention"),
            EntityType::CustomEmoji => String::from_str("CustomEmoji"),
            EntityType::Other(name) => {
                let mut r = String::from_str("Other(\"");
                r.append(name.as_str());
                r.append("\")");
                r
            },
        }
    }
}

impl Entity {
    /// How the entity reads in a log line: its kind and range, and each
    /// attribute that it has.
    pub fn describe(&self) -> (r: String)
        ensures
            r@ == entity_text(*self),
    {
        let mut r = String::from_str("Entity { type: ");
        let kind = self.entity_type.describe();
        r.append(kind.as_str());
        r.append(", offset: ");
        append_decimal(&mut r, self.offset as i64);
        r.append(", length: ");
        append_decimal(&mut r, self.length as i64);
        append_wrapped(&mut r, ", url: ", &self.url, "");
        let ghost before_user = r@;
        if let Some(u) = &self.user {
            r.append(", user: ");
            let user = u.describe();
            r.append(user.as_str());
        }
        append_wrapped(&mut r, ", language: ", &self.language, "");
        append_wrapped(&mut r, ", custom_emoji_id: ", &self.custom_emoji_id, "");
        r.append(" }");
        assert(r@ =~= entity_text(*self));
        r
    }
}

impl Message {
    /// How the message reads in a log line: id, sender, chat, text, and its
    /// entities where it has any.
    pub fn describe(&self) -> (r: String)
        ensures
            r@ == message_text(*self),
    {
        let mut r = String::from_str("Message ID: ");
        append_decimal(&mut r, self.message_id);
        r.append("\nFrom: ");
        let from = self.from.describe();
        r.append(from.as_str());
        r.append("\nChat: ");
        let chat = self.chat.describe();
        r.append(chat.as_str());
        r.append("\nText: ");
        append_optional(&mut r, &self.text);
        match &self.entities {
            Some(v) => {
                r.append("\nEntities:\n");
                let ghost head = r@;
                let n = v.len();
                let mut i: usize = 0;
                while i < n
                    invariant
                        n == v@.len(),
                        0 <= i <= n,
                        r@ == head + entities_text(v@.take(i as int)),
                    decreases n - i,
                {
                    proof {
                        assert(v@.take(i + 1).drop_last() =~= v@.take(i as int));
                    }
                    if i > 0 {
                        r.append(", ");
                    }
                    let e = v[i].describe();
                    r.append(e.as_str());
                    proof {
                        if i == 0 {
                            assert(v@.take(1) =~= seq![v@[0]]);
                        }
                        assert(r@ =~= head + entities_text(v@.take(i + 1)));
                    }
                    i = i + 1;
                }
                assert(v@.take(n as int) =~= v@);
            },
            None => {},
        }
        assert(r@ =~= message_text(*self));
        r
    }
}

/// The lines that report on the bot's own account, or on the failure to get
/// it.
pub fn me_report_lines(me: &Option<Bot>) -> (r: Vec<String>)
    ensures
        r@.map_values(|s: String| s@) == me_report(*me),
{
    let mut lines: Vec<String> = Vec::new();
    match me {
        Some(b) => {
            lines.push(String::from_str("Status: OK"));
            let mut id = String::from_str("My ID: ");
            append_decimal(&mut id, b.id);
            lines.push(id);
            let mut name = String::from_str("My name is: ");
            name.append(b.first_name.as_str());
            name.append(" (");
            name.append(b.username.as_str());
            name.append(")");
            lines.push(name);
            if b.is_bot {
                lines.push(String::from_str("I am a bot!"));
            } else {
                lines.push(String::from_str("I am not a bot!"));
            }
        },
        None => {
            lines.push(String::from_str("Status: ERROR"));
        },
    }
    assert(lines@.map_values(|s: String| s@) =~= me_report(*me));
    lines
}

} // verus!
