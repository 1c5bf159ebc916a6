use vstd::prelude::*;

use crate::bot::{method_url, next_cursor, Bot};
use crate::commands::{decide_command, decides, Command};
use crate::text::{append_decimal, decimal};
use crate::types::{GetMeResponse, Message, Update};

verus! {

/// Body of a request that sends a text message to a chat.
#[derive(Debug, Clone)]
pub struct Payload {
    pub chat_id: i64,
    pub text: String,
    pub parse_mode: String,
}

impl Payload {
    pub fn new(chat_id: i64, text: String, parse_mode: String) -> (r: Payload)
        ensures
            r.chat_id == chat_id,
            r.text == text,
            r.parse_mode == parse_mode,
    {
        Payload { chat_id, text, parse_mode }
    }
}

/// The service's answer to a poll of the update feed.
#[derive(Debug, Clone)]
pub struct GetUpdatesResponse {
    pub ok: bool,
    pub result: Vec<Update>,
}

/// The message that an update carries: a new message or an edited one. An
/// update that carries both, or neither, carries none that is decided on.
pub open spec fn update_message(update: Update) -> Option<Message> {
    match (update.message, update.edited_message) {
        (Some(m), None) => Some(m),
        (None, Some(m)) => Some(m),
        _ => None,
    }
}

/// Address of a poll of the update feed from cursor `offset`, which the
/// service holds open up to `timeout` seconds.
pub open spec fn updates_url(base_url: Seq<char>, token: Seq<char>, offset: int, timeout: int) -> Seq<
    char,
> {
    method_url(base_url, token, "getUpdates"@) + "?offset="@ + decimal(offset) + "&timeout="@
        + decimal(timeout)
}

/// The updates that a poll yields: those of the answer, in the order the
/// service gave them, where the service reports success; none where the poll
/// failed, its answer could not be read, or the service reports failure.
pub fn updates_of(response: Option<GetUpdatesResponse>) -> (r: Vec<Update>)
    ensures
        match response {
            Some(resp) => if resp.ok {
                r@ == resp.result@
            } else {
                r@.len() == 0
            },
            None => r@.len() == 0,
        },
{
    match response {
        Some(resp) => if resp.ok {
            resp.result
        } else {
            Vec::new()
        },
        None => Vec::new(),
    }
}

/// The bot's own account from the service's answer, where the service
/// reports success.
pub fn me_of(response: Option<GetMeResponse>) -> (r: Option<crate::types::Bot>)
    ensures
        match response {
            Some(resp) => if resp.ok {
                r == Some(resp.result)
            } else {
                r is None
            },
            None => r is None,
        },
{
    match response {
        Some(resp) => if resp.ok {
            Some(resp.result)
        } else {
            None
        },
        None => None,
    }
}

/// Client of the chat service's bot interface: builds its requests and keeps
/// the cursor of the update feed.
#[derive(Debug, Clone)]
pub struct ApiClient {
    pub bot_config: Bot,
}

impl ApiClient {
    pub fn new(bot_config: Bot) -> (r: ApiClient)
        ensures
            r.bot_config == bot_config,
    {
        ApiClient { bot_config }
    }

    /// Moves the cursor past the update with id `offset`, unless it is past
    /// it already.
    pub fn update_offset(&mut self, offset: i64)
        ensures
            final(self).bot_config.offset == next_cursor(
                old(self).bot_config.offset as int,
                offset as int,
            ),
            final(self).bot_config.token == old(self).bot_config.token,
            final(self).bot_config.polling_timeout == old(self).bot_config.polling_timeout,
            final(self).bot_config.base_url == old(self).bot_config.base_url,
    {
        self.bot_config.update_offset(offset);
    }

    /// Address of the service method `method`.
    pub fn url(&self, method: &str) -> (r: String)
        ensures
            r@ == method_url(self.bot_config.base_url@, self.bot_config.token@, method@),
    {
        self.bot_config.url(method)
    }

    /// Address of the next poll of the update feed, from the current cursor.
    pub fn updates_url(&self) -> (r: String)
        ensures
            r@ == updates_url(
                self.bot_config.base_url@,
                self.bot_config.token@,
                self.bot_config.offset as int,
                self.bot_config.polling_timeout as int,
            ),
    {
        let mut r = self.url("getUpdates");
        r.append("?offset=");
        append_decimal(&mut r, self.bot_config.offset);
        r.append("&timeout=");
        append_decimal(&mut r, self.bot_config.polling_timeout);
        r
    }

    /// Address and body of a request that sends `text` to the chat `chat_id`,
    /// formatted as MarkdownV2.
    pub fn send_message_request(&self, chat_id: i64, text: String) -> (r: (String, Payload))
        ensures
            r.0@ == method_url(
                self.bot_config.base_url@,
                self.bot_config.token@,
                "sendMessage"@,
            ),
            r.1.chat_id == chat_id,
            r.1.text == text,
            r.1.parse_mode@ == "MarkdownV2"@,
    {
        let url = self.url("sendMessage");
        let payload = Payload::new(chat_id, text, String::from_str("MarkdownV2"));
        (url, payload)
    }

    /// Address and form fields of a request that sends a video to the chat
    /// `chat_id`; the video itself goes along as the attachment
    /// `attach_name`.
    pub fn send_video_request(&self, chat_id: i64, attach_name: &str) -> (r: (
        String,
        Vec<(String, String)>,
    ))
        ensures
            r.0@ == method_url(self.bot_config.base_url@, self.bot_config.token@, "sendVideo"@),
            r.1@.len() == 2,
            r.1@[0].0@ == "chat_id"@,
            r.1@[0].1@ == decimal(chat_id as int),
            r.1@[1].0@ == "video"@,
            r.1@[1].1@ == "attach://"@ + attach_name@,
    {
        let url = self.url("sendVideo");
        let mut id = String::new();
        append_decimal(&mut id, chat_id);
        let mut video = String::from_str("attach://");
        video.append(attach_name);
        let mut fields: Vec<(String, String)> = Vec::new();
        fields.push((String::from_str("chat_id"), id));
        fields.push((String::from_str("video"), video));
        (url, fields)
    }

    /// Takes in one update of the feed: moves the cursor past it, then
    /// decides on the message it carries. The result is the command to hand
    /// on, if any.
    pub fn ingest(&mut self, update: Update) -> (r: Option<Command>)
        ensures
            final(self).bot_config.offset == next_cursor(
                old(self).bot_config.offset as int,
                update.update_id as int,
            ),
            final(self).bot_config.token == old(self).bot_config.token,
            final(self).bot_config.polling_timeout == old(self).bot_config.polling_timeout,
            final(self).bot_config.base_url == old(self).bot_config.base_url,
            match update_message(update) {
                Some(m) => decides(m, r),
                None => r is None,
            },
    {
        self.update_offset(update.update_id);
        let message = match (update.message, update.edited_message) {
            (Some(m), None) => m,
            (None, Some(m)) => m,
            _ => {
                return None;
            },
        };
        decide_command(message)
    }
}

} // verus!
