//! The service behind a webhook URL, and the request that reports an event to
//! it.

use crate::notifications::discord::{
    discord_body_of, is_discord_webhook, DiscordWebHookBody, DiscordWebHookBodyView,
    DISCORD_WEBHOOK_BASE,
};
use crate::notifications::telegram::{
    is_telegram_api, telegram_body_of, TelegramAPISendMessageBody,
    TelegramAPISendMessageBodyView, TELEGRAM_API_BASE, TELEGRAM_CHAT_ID_VAR,
};
use crate::notifications::{NotificationError, NotificationMessage, NotificationMessageView};
use crate::utils::environment::Config;
use vstd::prelude::*;
use vstd::string::*;

verus! {

/// The services that are told apart; any other is `Generic`.
#[derive(Debug, Clone, Copy, PartialEq, Eq, Structural)]
pub enum Provider {
    Discord,
    Telegram,
    Generic,
}

/// The service that a URL belongs to, by the text it begins with. The URL is
/// not parsed.
pub open spec fn provider_of(url: Seq<char>) -> Provider {
    if DISCORD_WEBHOOK_BASE@.is_prefix_of(url) {
        Provider::Discord
    } else if TELEGRAM_API_BASE@.is_prefix_of(url) {
        Provider::Telegram
    } else {
        Provider::Generic
    }
}

/// The service that `url` belongs to.
pub fn classify(url: &str) -> (provider: Provider)
    ensures
        provider == provider_of(url@),
{
    if is_discord_webhook(url) {
        Provider::Discord
    } else if is_telegram_api(url) {
        Provider::Telegram
    } else {
        Provider::Generic
    }
}

/// No URL begins with the base of both services, so each base alone decides:
/// a URL that begins with Discord's is Discord's, one that begins with
/// Telegram's is Telegram's, and every other is generic.
pub proof fn lemma_provider_by_prefix(url: Seq<char>)
    ensures
        !(DISCORD_WEBHOOK_BASE@.is_prefix_of(url) && TELEGRAM_API_BASE@.is_prefix_of(url)),
        DISCORD_WEBHOOK_BASE@.is_prefix_of(url) <==> provider_of(url) == Provider::Discord,
        TELEGRAM_API_BASE@.is_prefix_of(url) <==> provider_of(url) == Provider::Telegram,
{
    reveal_strlit("https://discord.com/api/webhooks");
    reveal_strlit("https://api.telegram.org/bot");
    if DISCORD_WEBHOOK_BASE@.is_prefix_of(url) && TELEGRAM_API_BASE@.is_prefix_of(url) {
        assert(DISCORD_WEBHOOK_BASE@[8] == url.subrange(0, DISCORD_WEBHOOK_BASE@.len() as int)[8]);
        assert(TELEGRAM_API_BASE@[8] == url.subrange(0, TELEGRAM_API_BASE@.len() as int)[8]);
    }
}

/// A webhook URL with the service it belongs to.
#[derive(Debug, Clone, PartialEq, Eq)]
pub struct WebhookTarget {
    pub url: String,
    pub provider: Provider,
}

/// A [`WebhookTarget`] over sequences of characters.
pub ghost struct WebhookTargetView {
    pub url: Seq<char>,
    pub provider: Provider,
}

impl View for WebhookTarget {
    type V = WebhookTargetView;

    open spec fn view(&self) -> WebhookTargetView {
        WebhookTargetView { url: self.url@, provider: self.provider }
    }
}

impl WebhookTarget {
    /// `url` with the service it belongs to.
    pub fn new(url: &str) -> (target: WebhookTarget)
        ensures
            target@ == (WebhookTargetView { url: url@, provider: provider_of(url@) }),
    {
        WebhookTarget { url: url.to_owned(), provider: classify(url) }
    }
}

/// The body of a request, in the form of the service that receives it.
#[derive(Debug, Clone, PartialEq, Eq)]
pub enum ProviderPayload {
    Generic(NotificationMessage),
    Discord(DiscordWebHookBody),
    Telegram(TelegramAPISendMessageBody),
}

/// A [`ProviderPayload`] over sequences of characters.
pub ghost enum ProviderPayloadView {
    Generic(NotificationMessageView),
    Discord(DiscordWebHookBodyView),
    Telegram(TelegramAPISendMessageBodyView),
}

impl View for ProviderPayload {
    type V = ProviderPayloadView;

    open spec fn view(&self) -> ProviderPayloadView {
        match self {
            ProviderPayload::Generic(message) => ProviderPayloadView::Generic(message@),
            ProviderPayload::Discord(body) => ProviderPayloadView::Discord(body@),
            ProviderPayload::Telegram(body) => ProviderPayloadView::Telegram(body@),
        }
    }
}

/// The body that reports `notification` to a service: the notification itself
/// for a generic one, Discord's form for Discord, and for Telegram its form, or
/// `MissingChatId` where no chat is configured.
pub open spec fn payload_of(
    provider: Provider,
    notification: NotificationMessageView,
    config: Map<Seq<char>, Seq<char>>,
) -> Result<ProviderPayloadView, NotificationError> {
    match provider {
        Provider::Discord => Ok(ProviderPayloadView::Discord(discord_body_of(notification))),
        Provider::Telegram => if config.contains_key(TELEGRAM_CHAT_ID_VAR@) {
            Ok(
                ProviderPayloadView::Telegram(
                    telegram_body_of(notification, config[TELEGRAM_CHAT_ID_VAR@]),
                ),
            )
        } else {
            Err(NotificationError::MissingChatId)
        },
        Provider::Generic => Ok(ProviderPayloadView::Generic(notification)),
    }
}

/// The view of a payload that was built, or the error.
pub open spec fn payload_view(built: Result<ProviderPayload, NotificationError>) -> Result<
    ProviderPayloadView,
    NotificationError,
> {
    match built {
        Ok(payload) => Ok(payload@),
        Err(error) => Err(error),
    }
}

/// Builds the body that reports `notification` to a service.
pub fn build_payload(provider: Provider, notification: NotificationMessage, config: &Config) -> (built:
    Result<ProviderPayload, NotificationError>)
    ensures
        payload_view(built) == payload_of(provider, notification@, config@),
{
    match provider {
        Provider::Discord => Ok(ProviderPayload::Discord(DiscordWebHookBody::new(&notification))),
        Provider::Telegram => match TelegramAPISendMessageBody::new(&notification, config) {
            Ok(body) => Ok(ProviderPayload::Telegram(body)),
            Err(error) => Err(error),
        },
        Provider::Generic => Ok(ProviderPayload::Generic(notification)),
    }
}

/// What is to be posted, and where.
#[derive(Debug, Clone, PartialEq, Eq)]
pub struct WebhookRequest {
    pub target: WebhookTarget,
    pub payload: ProviderPayload,
}

/// A [`WebhookRequest`] over sequences of characters.
pub ghost struct WebhookRequestView {
    pub target: WebhookTargetView,
    pub payload: ProviderPayloadView,
}

impl View for WebhookRequest {
    type V = WebhookRequestView;

    open spec fn view(&self) -> WebhookRequestView {
        WebhookRequestView { target: self.target@, payload: self.payload@ }
    }
}

/// The request that reports `notification` to `url`, in the form of the service
/// that `url` belongs to.
pub open spec fn request_of(
    notification: NotificationMessageView,
    url: Seq<char>,
    config: Map<Seq<char>, Seq<char>>,
) -> Result<WebhookRequestView, NotificationError> {
    match payload_of(provider_of(url), notification, config) {
        Ok(payload) => Ok(
            WebhookRequestView {
                target: WebhookTargetView { url, provider: provider_of(url) },
                payload,
            },
        ),
        Err(error) => Err(error),
    }
}

/// The view of a request that was built, or the error.
pub open spec fn request_view(built: Result<WebhookRequest, NotificationError>) -> Result<
    WebhookRequestView,
    NotificationError,
> {
    match built {
        Ok(request) => Ok(request@),
        Err(error) => Err(error),
    }
}

/// Builds the request that reports `notification` to `webhook_url`.
pub fn compose_request(notification: NotificationMessage, webhook_url: &str, config: &Config) -> (built:
    Result<WebhookRequest, NotificationError>)
    ensures
        request_view(built) == request_of(notification@, webhook_url@, config@),
{
    let target = WebhookTarget::new(webhook_url);
    match build_payload(target.provider, notification, config) {
        Ok(payload) => Ok(WebhookRequest { target, payload }),
        Err(error) => Err(error),
    }
}

} // verus!
