use vstd::prelude::*;

use crate::entities::Entity;

verus! {

/// A chat that messages come from and replies go to.
#[derive(Debug, Clone)]
pub struct Chat {
    pub id: i64,
    pub chat_type: String,
    pub first_name: Option<String>,
    pub last_name: Option<String>,
    pub username: Option<String>,
}

impl Chat {
    pub fn id(&self) -> (r: i64)
        ensures
            r == self.id,
    {
        self.id
    }
}

/// A user or bot of the chat service.
#[derive(Debug, Clone)]
pub struct User {
    pub is_bot: bool,
    pub first_name: String,
    pub last_name: Option<String>,
    pub username: Option<String>,
}

/// The sender of a message, where the service names one.
#[derive(Debug, Clone)]
pub struct UserOption(pub Option<User>);

/// A message of a chat. Of its content the library reads the text, the
/// entities over that text, and the chat.
#[derive(Debug, Clone)]
pub struct Message {
    pub message_id: i64,
    pub message_thread_id: Option<i64>,
    pub from: UserOption,
    pub date: i64,
    pub chat: Chat,
    pub text: Option<String>,
    pub entities: Option<Vec<Entity>>,
}

/// One event of the service's update feed.
#[derive(Debug, Clone)]
pub struct Update {
    pub update_id: i64,
    /// A new message.
    pub message: Option<Message>,
    /// A new version of a message that was edited.
    pub edited_message: Option<Message>,
    pub channel_post: Option<Message>,
    pub edited_channel_post: Option<Message>,
}

impl Update {
    pub fn get_update_id(&self) -> (r: i64)
        ensures
            r == self.update_id,
    {
        self.update_id
    }
}

/// The bot's own account, as the service describes it.
#[derive(Debug, Clone)]
pub struct Bot {
    pub id: i64,
    pub is_bot: bool,
    pub first_name: String,
    pub username: String,
    pub can_join_groups: bool,
    pub can_read_all_group_messages: bool,
    pub supports_inline_queries: bool,
    pub can_connect_to_business: bool,
    pub has_main_web_app: bool,
}

/// The service's answer to a request for the bot's own account.
#[derive(Debug, Clone)]
pub struct GetMeResponse {
    pub ok: bool,
    pub result: Bot,
}

} // verus!
