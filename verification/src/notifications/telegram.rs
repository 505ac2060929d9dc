//! Telegram's bot API as a webhook: how its URLs are known and what it is sent.

use crate::notifications::{NotificationError, NotificationMessage, NotificationMessageView};
use crate::utils::environment::Config;
use crate::utils::text::starts_with;
use vstd::prelude::*;
use vstd::string::*;

verus! {

/// What the URL of every method of a Telegram bot begins with.
pub const TELEGRAM_API_BASE: &'static str = "https://api.telegram.org/bot";

/// The name under which the chat that receives the messages is configured.
pub const TELEGRAM_CHAT_ID_VAR: &'static str = "TELEGRAM_CHAT_ID";

/// Whether `webhook_url` begins as the URLs of Telegram bots do.
pub fn is_telegram_api(webhook_url: &str) -> (found: bool)
    ensures
        found == TELEGRAM_API_BASE@.is_prefix_of(webhook_url@),
{
    starts_with(webhook_url, TELEGRAM_API_BASE)
}

/// The body of a `sendMessage` call.
#[derive(Debug, Clone, PartialEq, Eq)]
pub struct TelegramAPISendMessageBody {
    pub chat_id: String,
    pub text: String,
}

/// A [`TelegramAPISendMessageBody`] over sequences of characters.
pub ghost struct TelegramAPISendMessageBodyView {
    pub chat_id: Seq<char>,
    pub text: Seq<char>,
}

impl View for TelegramAPISendMessageBody {
    type V = TelegramAPISendMessageBodyView;

    open spec fn view(&self) -> TelegramAPISendMessageBodyView {
        TelegramAPISendMessageBodyView { chat_id: self.chat_id@, text: self.text@ }
    }
}

/// The body that reports `event` to the chat `chat_id`: the text is the kind of
/// the event, a colon and a space, and the message.
pub open spec fn telegram_body_of(
    event: NotificationMessageView,
    chat_id: Seq<char>,
) -> TelegramAPISendMessageBodyView {
    TelegramAPISendMessageBodyView {
        chat_id,
        text: event.event_type.name + ": "@ + event.event_message,
    }
}

impl TelegramAPISendMessageBody {
    /// The body that reports `event` to the configured chat. Without a chat
    /// there is no body: the error is `MissingChatId`. A chat that is set to the
    /// empty string is passed on as it is.
    pub fn new(event: &NotificationMessage, config: &Config) -> (body: Result<
        TelegramAPISendMessageBody,
        NotificationError,
    >)
        ensures
            match body {
                Ok(made) => config@.contains_key(TELEGRAM_CHAT_ID_VAR@) && made@
                    == telegram_body_of(event@, config@[TELEGRAM_CHAT_ID_VAR@]),
                Err(error) => !config@.contains_key(TELEGRAM_CHAT_ID_VAR@) && error
                    == NotificationError::MissingChatId,
            },
    {
        match config.get(TELEGRAM_CHAT_ID_VAR) {
            Some(chat_id) => Ok(
                TelegramAPISendMessageBody {
                    chat_id,
                    text: event.event_type.name.clone().concat(": ").concat(
                        event.event_message.as_str(),
                    ),
                },
            ),
            None => Err(NotificationError::MissingChatId),
        }
    }
}

} // verus!
