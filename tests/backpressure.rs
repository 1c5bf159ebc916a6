use tgbot::commands::{BotCommand, Command};
use tgbot::types::{Chat, Message, UserOption};
use tokio::sync::mpsc;

fn command(id: i64) -> Command {
    Command {
        command: BotCommand::Echo,
        args: vec![],
        message: Message {
            message_id: id,
            message_thread_id: None,
            from: UserOption(None),
            date: 0,
            chat: Chat {
                id: 1,
                chat_type: "private".to_string(),
                first_name: None,
                last_name: None,
                username: None,
            },
            text: None,
            entities: None,
        },
    }
}

#[test]
fn full_channel_holds_back_instead_of_dropping() {
    let capacity = 3;
    let (tx, mut rx) = mpsc::channel::<Command>(capacity);
    for id in 0..capacity as i64 {
        tx.try_send(command(id)).expect("room in the channel");
    }
    match tx.try_send(command(99)) {
        Err(mpsc::error::TrySendError::Full(back)) => {
            assert_eq!(back.message.message_id, 99);
            let first = rx.try_recv().expect("queued command");
            assert_eq!(first.message.message_id, 0);
            tx.try_send(back).expect("room after a receive");
        }
        _ => panic!("the channel should be full"),
    }
    let order: Vec<i64> = std::iter::from_fn(|| rx.try_recv().ok())
        .map(|c| c.message.message_id)
        .collect();
    assert_eq!(order, vec![1, 2, 99]);
}
