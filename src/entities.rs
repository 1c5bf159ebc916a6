use vstd::prelude::*;

use crate::text::same_text;
use crate::types::User;

verus! {

/// Kind of a text entity of a message, as the chat service names it:
/// `mention` (@username), `hashtag`, `cashtag`, `bot_command`
/// (/start@jobs_bot), `url`, `email`, `phone_number`, `bold`, `italic`,
/// `underline`, `strikethrough`, `spoiler`, `blockquote`,
/// `expandable_blockquote`, `code`, `pre`, `text_link`, `text_mention`,
/// `custom_emoji`; any other name is kept as it came.
#[derive(Debug, Clone, PartialEq, Eq)]
pub enum EntityType {
    Mention,
    Hashtag,
    Cashtag,
    BotCommand,
    Url,
    Email,
    PhoneNumber,
    Bold,
    Italic,
    Underline,
    Strikethrough,
    Spoiler,
    Blockquote,
    ExpandableBlockquote,
    Code,
    Pre,
    TextLink,
    TextMention,
    CustomEmoji,
    Other(String),
}

/// The kind that the service's name `name` stands for, if it is one of the
/// known names.
pub open spec fn known_entity_type(name: Seq<char>) -> Option<EntityType> {
    if name == "mention"@ {
        Some(EntityType::Mention)
    } else if name == "hashtag"@ {
        Some(EntityType::Hashtag)
    } else if name == "cashtag"@ {
        Some(EntityType::Cashtag)
    } else if name == "bot_command"@ {
        Some(EntityType::BotCommand)
    } else if name == "url"@ {
        Some(EntityType::Url)
    } else if name == "email"@ {
        Some(EntityType::Email)
    } else if name == "phone_number"@ {
        Some(EntityType::PhoneNumber)
    } else if name == "bold"@ {
        Some(EntityType::Bold)
    } else if name == "italic"@ {
        Some(EntityType::Italic)
    } else if name == "underline"@ {
        Some(EntityType::Underline)
    } else if name == "strikethrough"@ {
        Some(EntityType::Strikethrough)
    } else if name == "spoiler"@ {
        Some(EntityType::Spoiler)
    } else if name == "blockquote"@ {
        Some(EntityType::Blockquote)
    } else if name == "expandable_blockquote"@ {
        Some(EntityType::ExpandableBlockquote)
    } else if name == "code"@ {
        Some(EntityType::Code)
    } else if name == "pre"@ {
        Some(EntityType::Pre)
    } else if name == "text_link"@ {
        Some(EntityType::TextLink)
    } else if name == "text_mention"@ {
        Some(EntityType::TextMention)
    } else if name == "custom_emoji"@ {
        Some(EntityType::CustomEmoji)
    } else {
        None
    }
}

/// `k` is the kind that the service's name `name` stands for: a known kind,
/// or `Other` with the name itself.
pub open spec fn is_kind_named(name: Seq<char>, k: EntityType) -> bool {
    match known_entity_type(name) {
        Some(known) => k == known,
        None => k matches EntityType::Other(o) && o@ == name,
    }
}

/// The service's name of the kind `k`.
pub open spec fn service_name_of(k: EntityType) -> Seq<char> {
    match k {
        EntityType::Mention => "mention"@,
        EntityType::Hashtag => "hashtag"@,
        EntityType::Cashtag => "cashtag"@,
        EntityType::BotCommand => "bot_command"@,
        EntityType::Url => "url"@,
        EntityType::Email => "email"@,
        EntityType::PhoneNumber => "phone_number"@,
        EntityType::Bold => "bold"@,
        EntityType::Italic => "italic"@,
        EntityType::Underline => "underline"@,
        EntityType::Strikethrough => "strikethrough"@,
        EntityType::Spoiler => "spoiler"@,
        EntityType::Blockquote => "blockquote"@,
        EntityType::ExpandableBlockquote => "expandable_blockquote"@,
        EntityType::Code => "code"@,
        EntityType::Pre => "pre"@,
        EntityType::TextLink => "text_link"@,
        EntityType::TextMention => "text_mention"@,
        EntityType::CustomEmoji => "custom_emoji"@,
        EntityType::Other(name) => name@,
    }
}

impl EntityType {
    /// The kind named `name` by the service; an unknown name becomes `Other`
    /// with that name.
    pub fn from_name(name: &str) -> (r: EntityType)
        ensures
            is_kind_named(name@, r),
    {
        if same_text(name, "mention") {
            EntityType::Mention
        } else if same_text(name, "hashtag") {
            EntityType::Hashtag
        } else if same_text(name, "cashtag") {
            EntityType::Cashtag
        } else if same_text(name, "bot_command") {
            EntityType::BotCommand
        } else if same_text(name, "url") {
            EntityType::Url
        } else if same_text(name, "email") {
            EntityType::Email
        } else if same_text(name, "phone_number") {
            EntityType::PhoneNumber
        } else if same_text(name, "bold") {
            EntityType::Bold
        } else if same_text(name, "italic") {
            EntityType::Italic
        } else if same_text(name, "underline") {
            EntityType::Underline
        } else if same_text(name, "strikethrough") {
            EntityType::Strikethrough
        } else if same_text(name, "spoiler") {
            EntityType::Spoiler
        } else if same_text(name, "blockquote") {
            EntityType::Blockquote
        } else if same_text(name, "expandable_blockquote") {
            EntityType::ExpandableBlockquote
        } else if same_text(name, "code") {
            EntityType::Code
        } else if same_text(name, "pre") {
            EntityType::Pre
        } else if same_text(name, "text_link") {
            EntityType::TextLink
        } else if same_text(name, "text_mention") {
            EntityType::TextMention
        } else if same_text(name, "custom_emoji") {
            EntityType::CustomEmoji
        } else {
            EntityType::Other(String::from_str(name))
        }
    }

    /// The service's name of the kind.
    pub fn service_name(&self) -> (r: String)
        ensures
            r@ == service_name_of(*self),
    {
        match self {
            EntityType::Mention => String::from_str("mention"),
            EntityType::Hashtag => String::from_str("hashtag"),
            EntityType::Cashtag => String::from_str("cashtag"),
            EntityType::BotCommand => String::from_str("bot_command"),
            EntityType::Url => String::from_str("url"),
            EntityType::Email => String::from_str("email"),
            EntityType::PhoneNumber => String::from_str("phone_number"),
            EntityType::Bold => String::from_str("bold"),
            EntityType::Italic => String::from_str("italic"),
            EntityType::Underline => String::from_str("underline"),
            EntityType::Strikethrough => String::from_str("strikethrough"),
            EntityType::Spoiler => String::from_str("spoiler"),
            EntityType::Blockquote => String::from_str("blockquote"),
            EntityType::ExpandableBlockquote => String::from_str("expandable_blockquote"),
            EntityType::Code => String::from_str("code"),
            EntityType::Pre => String::from_str("pre"),
            EntityType::TextLink => String::from_str("text_link"),
            EntityType::TextMention => String::from_str("text_mention"),
            EntityType::CustomEmoji => String::from_str("custom_emoji"),
            EntityType::Other(name) => name.clone(),
        }
    }
}

/// A span of a message's text with a meaning of its own. `offset` and
/// `length` count UTF-16 code units of the text.
#[derive(Debug, Clone)]
pub struct Entity {
    pub entity_type: EntityType,
    pub offset: i32,
    pub length: i32,
    pub url: Option<String>,
    pub user: Option<User>,
    pub language: Option<String>,
    pub custom_emoji_id: Option<String>,
}

/// Reading a kind from the service's name and naming that kind again gives
/// back the name.
pub proof fn lemma_kind_name_round_trip(name: Seq<char>, k: EntityType)
    requires
        is_kind_named(name, k),
    ensures
        service_name_of(k) == name,
{
}

} // verus!
