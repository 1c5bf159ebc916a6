use tgbot::commands::{BotCommand, Command};
use tgbot::registry::Registry;
use tgbot::types::{Chat, Message, UserOption};

fn command(kind: BotCommand) -> Command {
    Command {
        command: kind,
        args: vec!["https://x.test".to_string()],
        message: Message {
            message_id: 12,
            message_thread_id: None,
            from: UserOption(None),
            date: 0,
            chat: Chat {
                id: 4,
                chat_type: "private".to_string(),
                first_name: None,
                last_name: None,
                username: None,
            },
            text: Some("/echo https://x.test".to_string()),
            entities: None,
        },
    }
}

#[test]
fn dispatch_routes_to_registered_handler() {
    let mut registry: Registry<&str> = Registry::new();
    registry.register(BotCommand::Echo, "H");
    let (handler, routed) = registry.dispatch(command(BotCommand::Echo)).expect("routed");
    assert_eq!(*handler, "H");
    assert_eq!(routed.command, BotCommand::Echo);
    assert_eq!(routed.args, vec!["https://x.test".to_string()]);
    assert_eq!(routed.message.message_id, 12);
}

#[test]
fn dispatch_without_handler_drops_command() {
    let mut registry: Registry<&str> = Registry::new();
    registry.register(BotCommand::Echo, "H");
    assert!(registry.dispatch(command(BotCommand::Video)).is_none());
    let empty: Registry<u8> = Registry::new();
    assert!(empty.dispatch(command(BotCommand::Echo)).is_none());
}

#[test]
fn register_replaces_previous_handler() {
    let mut registry: Registry<u32> = Registry::new();
    registry.register(BotCommand::Echo, 1);
    registry.register(BotCommand::Video, 2);
    registry.register(BotCommand::Echo, 3);
    assert_eq!(registry.handler(BotCommand::Echo), Some(&3));
    assert_eq!(registry.handler(BotCommand::Video), Some(&2));
    assert_eq!(registry.handler(BotCommand::Unknown), None);
}
