use tgbot::api_client::ApiClient;
use tgbot::bot::Bot;
use tgbot::commands::{decide_command, BotCommand};
use tgbot::entities::{Entity, EntityType};
use tgbot::text::utf16_substring;
use tgbot::types::{Chat, Message, Update, UserOption};

fn entity(kind: EntityType, offset: i32, length: i32) -> Entity {
    Entity {
        entity_type: kind,
        offset,
        length,
        url: None,
        user: None,
        language: None,
        custom_emoji_id: None,
    }
}

fn message(text: Option<&str>, entities: Option<Vec<Entity>>) -> Message {
    Message {
        message_id: 7,
        message_thread_id: None,
        from: UserOption(None),
        date: 1_700_000_000,
        chat: Chat {
            id: 99,
            chat_type: "private".to_string(),
            first_name: Some("Ann".to_string()),
            last_name: None,
            username: None,
        },
        text: text.map(|t| t.to_string()),
        entities,
    }
}

fn client() -> ApiClient {
    ApiClient::new(Bot::new(
        "T0K".to_string(),
        0,
        30,
        "https://api.telegram.org".to_string(),
    ))
}

#[test]
fn scenario_echo_with_url_and_cursor() {
    let mut c = client();
    let update = Update {
        update_id: 42,
        message: Some(message(
            Some("/echo hello https://x.test"),
            Some(vec![
                entity(EntityType::BotCommand, 0, 5),
                entity(EntityType::Url, 12, 15),
            ]),
        )),
        edited_message: None,
        channel_post: None,
        edited_channel_post: None,
    };
    // The text has 26 code units, so the URL entity [12, 27) reaches past its
    // end and is passed over.
    let cmd = c.ingest(update).expect("a command");
    assert_eq!(cmd.command, BotCommand::Echo);
    assert!(cmd.args.is_empty());
    assert_eq!(cmd.message.text.as_deref(), Some("/echo hello https://x.test"));
    assert_eq!(c.bot_config.offset, 43);
}

#[test]
fn scenario_echo_with_fitting_url() {
    let mut c = client();
    let update = Update {
        update_id: 42,
        message: Some(message(
            Some("/echo hello https://x.test"),
            Some(vec![
                entity(EntityType::BotCommand, 0, 5),
                entity(EntityType::Url, 12, 14),
            ]),
        )),
        edited_message: None,
        channel_post: None,
        edited_channel_post: None,
    };
    let cmd = c.ingest(update).expect("a command");
    assert_eq!(cmd.command, BotCommand::Echo);
    assert_eq!(cmd.args, vec!["https://x.test".to_string()]);
    assert_eq!(c.bot_config.offset, 43);
}

#[test]
fn last_bot_command_wins_and_urls_from_whole_scan() {
    let text = "http://a.b /video /echo http://c.d";
    let m = message(
        Some(text),
        Some(vec![
            entity(EntityType::Url, 0, 10),
            entity(EntityType::BotCommand, 11, 6),
            entity(EntityType::BotCommand, 18, 5),
            entity(EntityType::Url, 24, 10),
        ]),
    );
    let cmd = decide_command(m).expect("a command");
    assert_eq!(cmd.command, BotCommand::Echo);
    assert_eq!(cmd.args, vec!["http://a.b".to_string(), "http://c.d".to_string()]);
}

#[test]
fn unknown_last_command_decodes_to_nothing() {
    let m = message(
        Some("/echo /start"),
        Some(vec![
            entity(EntityType::BotCommand, 0, 5),
            entity(EntityType::BotCommand, 6, 6),
        ]),
    );
    assert!(decide_command(m).is_none());
}

#[test]
fn utf16_offsets_after_supplementary_char() {
    // U+1F600 takes two UTF-16 code units and four bytes.
    let text = "\u{1F600} /video";
    let m = message(Some(text), Some(vec![entity(EntityType::BotCommand, 3, 6)]));
    let cmd = decide_command(m).expect("a command");
    assert_eq!(cmd.command, BotCommand::Video);
    assert_eq!(utf16_substring(text, 3, 6).as_deref(), Some("/video"));
    assert_eq!(utf16_substring("\u{e9}/echo", 1, 5).as_deref(), Some("/echo"));
}

#[test]
fn range_that_splits_a_char_is_ignored() {
    assert_eq!(utf16_substring("\u{1F600}ab", 1, 2), None);
    let m = message(
        Some("\u{1F600}/echo"),
        Some(vec![entity(EntityType::BotCommand, 1, 5)]),
    );
    assert!(decide_command(m).is_none());
}

#[test]
fn range_past_the_end_or_negative_is_ignored() {
    assert_eq!(utf16_substring("/echo", 0, 6), None);
    assert_eq!(utf16_substring("/echo", -1, 2), None);
    assert_eq!(utf16_substring("/echo", 1, -1), None);
    assert_eq!(utf16_substring("/echo", 5, 0).as_deref(), Some(""));
    let m = message(
        Some("/echo http://x"),
        Some(vec![
            entity(EntityType::BotCommand, 0, 5),
            entity(EntityType::Url, 6, 40),
        ]),
    );
    let cmd = decide_command(m).expect("a command");
    assert_eq!(cmd.command, BotCommand::Echo);
    assert!(cmd.args.is_empty());
}

#[test]
fn no_entities_decodes_to_nothing() {
    assert!(decide_command(message(Some("/echo"), None)).is_none());
    assert!(decide_command(message(Some("/echo"), Some(vec![]))).is_none());
}

#[test]
fn command_without_text_is_skipped() {
    let m = message(None, Some(vec![entity(EntityType::BotCommand, 0, 5)]));
    assert!(decide_command(m).is_none());
}

#[test]
fn command_token_is_lowercased_and_slashes_trimmed() {
    let m = message(Some("//ECHO"), Some(vec![entity(EntityType::BotCommand, 0, 6)]));
    assert_eq!(decide_command(m).map(|c| c.command), Some(BotCommand::Echo));
    assert_eq!(BotCommand::from_entity_text("/Video"), BotCommand::Video);
    assert_eq!(BotCommand::from_token("video"), BotCommand::Video);
    assert_eq!(BotCommand::from_token("Video"), BotCommand::Unknown);
}

#[test]
fn other_entities_are_ignored() {
    let m = message(
        Some("/echo #tag"),
        Some(vec![
            entity(EntityType::BotCommand, 0, 5),
            entity(EntityType::Hashtag, 6, 4),
            entity(EntityType::Other("weird".to_string()), 0, 1),
        ]),
    );
    let cmd = decide_command(m).expect("a command");
    assert_eq!(cmd.command, BotCommand::Echo);
    assert!(cmd.args.is_empty());
}

#[test]
fn decoding_reads_only_text_and_spans() {
    let ents = || {
        vec![
            entity(EntityType::BotCommand, 0, 5),
            entity(EntityType::Url, 6, 8),
        ]
    };
    let a = decide_command(message(Some("/echo http://y"), Some(ents()))).unwrap();
    let mut other = message(Some("/echo http://y"), Some(ents()));
    other.message_id = 1000;
    other.chat.id = -5;
    if let Some(es) = other.entities.as_mut() {
        es[1].url = Some("ignored".to_string());
    }
    let b = decide_command(other).unwrap();
    assert_eq!(a.command, b.command);
    assert_eq!(a.args, b.args);
    let again = decide_command(message(Some("/echo http://y"), Some(ents()))).unwrap();
    assert_eq!(a.command, again.command);
    assert_eq!(a.args, again.args);
}

#[test]
fn entity_kinds_from_service_names() {
    assert_eq!(EntityType::from_name("bot_command"), EntityType::BotCommand);
    assert_eq!(EntityType::from_name("url"), EntityType::Url);
    assert_eq!(EntityType::from_name("expandable_blockquote"), EntityType::ExpandableBlockquote);
    assert_eq!(EntityType::from_name("custom_emoji"), EntityType::CustomEmoji);
    assert_eq!(
        EntityType::from_name("date_time"),
        EntityType::Other("date_time".to_string())
    );
}
