use vstd::prelude::*;

use std::sync::Arc;

use crate::api_client::{ApiClient, Payload};
use crate::bot::method_url;
use crate::commands::Command;

verus! {

/// Handler of the echo command: it sends the text of the command's message
/// back to the chat it came from.
pub struct EchoCommandHandler {
    pub api_client: Arc<ApiClient>,
}

/// The text that the echo command sends back: that of the message, or
/// nothing where the message has no text.
pub open spec fn echoed_text(command: Command) -> Seq<char> {
    match command.message.text {
        Some(t) => t@,
        None => Seq::empty(),
    }
}

impl EchoCommandHandler {
    pub fn new(api_client: Arc<ApiClient>) -> (r: EchoCommandHandler)
        ensures
            r.api_client == api_client,
    {
        EchoCommandHandler { api_client }
    }

    /// The request that answers `command`: the message's text, sent back to
    /// the message's chat as MarkdownV2.
    pub fn reply(&self, command: &Command) -> (r: (String, Payload))
        ensures
            r.0@ == method_url(
                self.api_client.bot_config.base_url@,
                self.api_client.bot_config.token@,
                "sendMessage"@,
            ),
            r.1.chat_id == command.message.chat.id,
            r.1.text@ == echoed_text(*command),
            r.1.parse_mode@ == "MarkdownV2"@,
    {
        let text = match &command.message.text {
            Some(t) => t.clone(),
            None => String::new(),
        };
        self.api_client.send_message_request(command.message.chat.id(), text)
    }
}

} // verus!
