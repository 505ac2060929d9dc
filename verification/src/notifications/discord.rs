//! Discord's webhooks: how their URLs are known and what they are sent.

use crate::notifications::{NotificationMessage, NotificationMessageView};
use crate::utils::text::starts_with;
use vstd::prelude::*;
use vstd::string::*;

verus! {

/// What the URL of every Discord webhook begins with.
pub const DISCORD_WEBHOOK_BASE: &'static str = "https://discord.com/api/webhooks";

/// Whether `webhook_url` begins as the URLs of Discord webhooks do.
pub fn is_discord_webhook(webhook_url: &str) -> (found: bool)
    ensures
        found == DISCORD_WEBHOOK_BASE@.is_prefix_of(webhook_url@),
{
    starts_with(webhook_url, DISCORD_WEBHOOK_BASE)
}

/// The body that a Discord webhook is executed with.
#[derive(Debug, Clone, PartialEq, Eq)]
pub struct DiscordWebHookBody {
    pub content: String,
}

/// A [`DiscordWebHookBody`] over sequences of characters.
pub ghost struct DiscordWebHookBodyView {
    pub content: Seq<char>,
}

impl View for DiscordWebHookBody {
    type V = DiscordWebHookBodyView;

    open spec fn view(&self) -> DiscordWebHookBodyView {
        DiscordWebHookBodyView { content: self.content@ }
    }
}

/// The body that reports `event`: its content is the message.
pub open spec fn discord_body_of(event: NotificationMessageView) -> DiscordWebHookBodyView {
    DiscordWebHookBodyView { content: event.event_message }
}

impl DiscordWebHookBody {
    /// The body that reports `event`.
    pub fn new(event: &NotificationMessage) -> (body: DiscordWebHookBody)
        ensures
            body@ == discord_body_of(event@),
    {
        DiscordWebHookBody { content: event.event_message.clone() }
    }
}

} // verus!
