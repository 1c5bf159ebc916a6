use tgbot::api_client::ApiClient;
use tgbot::bot::Bot;
use tgbot::commands::BotCommand;
use tgbot::entities::{Entity, EntityType};
use tgbot::types::{Chat, Message, Update, UserOption};

fn client(offset: i64) -> ApiClient {
    ApiClient::new(Bot::new("tok".to_string(), offset, 30, "http://h".to_string()))
}

fn echo_message() -> Message {
    Message {
        message_id: 1,
        message_thread_id: None,
        from: UserOption(None),
        date: 0,
        chat: Chat {
            id: 3,
            chat_type: "group".to_string(),
            first_name: None,
            last_name: None,
            username: None,
        },
        text: Some("/echo".to_string()),
        entities: Some(vec![Entity {
            entity_type: EntityType::BotCommand,
            offset: 0,
            length: 5,
            url: None,
            user: None,
            language: None,
            custom_emoji_id: None,
        }]),
    }
}

fn update(id: i64, message: Option<Message>, edited: Option<Message>) -> Update {
    Update {
        update_id: id,
        message,
        edited_message: edited,
        channel_post: None,
        edited_channel_post: None,
    }
}

#[test]
fn cursor_follows_increasing_ids() {
    let mut c = client(0);
    for id in [3, 8, 20] {
        c.update_offset(id);
    }
    assert_eq!(c.bot_config.offset, 21);
}

#[test]
fn cursor_never_decreases() {
    let mut c = client(0);
    for id in [10, 4, 10, 2] {
        c.update_offset(id);
    }
    assert_eq!(c.bot_config.offset, 11);
    let mut b = Bot::new("t".to_string(), 100, 30, "h".to_string());
    b.update_offset(5);
    assert_eq!(b.offset, 100);
    b.update_offset(100);
    assert_eq!(b.offset, 101);
}

#[test]
fn cursor_stops_at_largest_id() {
    let mut c = client(0);
    c.update_offset(i64::MAX);
    assert_eq!(c.bot_config.offset, i64::MAX);
    c.update_offset(i64::MAX);
    assert_eq!(c.bot_config.offset, i64::MAX);
}

#[test]
fn ingest_takes_new_or_edited_message() {
    let mut c = client(0);
    let cmd = c.ingest(update(5, None, Some(echo_message())));
    assert_eq!(cmd.map(|c| c.command), Some(BotCommand::Echo));
    assert_eq!(c.bot_config.offset, 6);
    let cmd = c.ingest(update(6, Some(echo_message()), None));
    assert_eq!(cmd.map(|c| c.command), Some(BotCommand::Echo));
    assert_eq!(c.bot_config.offset, 7);
}

#[test]
fn ingest_skips_update_without_single_message() {
    let mut c = client(0);
    assert!(c.ingest(update(9, None, None)).is_none());
    assert_eq!(c.bot_config.offset, 10);
    assert!(c.ingest(update(10, Some(echo_message()), Some(echo_message()))).is_none());
    assert_eq!(c.bot_config.offset, 11);
}
