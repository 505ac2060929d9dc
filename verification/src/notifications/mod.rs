//! Notifications of server events to a webhook: whether one is configured, what
//! is said, in which form it is sent, and what the answer means.

use crate::notifications::enums::notification_event::{
    EventType, EventTypeView, NotificationEvent,
};
use crate::notifications::provider::{
    compose_request, request_of, WebhookRequest, WebhookRequestView,
};
use crate::utils::environment::{fetch_var, resolved, Config};
use crate::utils::text::{ascii_lowered, eq_ignore_ascii_case, trim_once, trimmed_once};
use vstd::prelude::*;
use vstd::string::*;

pub mod delivery;
pub mod discord;
pub mod enums;
pub mod provider;
pub mod telegram;

verus! {

/// The name under which the webhook URL is configured.
pub const WEBHOOK_URL: &'static str = "WEBHOOK_URL";

/// What is reported of one event: its kind and status, the message for people,
/// and the time of the report as RFC 3339 text.
#[derive(Debug, Clone, PartialEq, Eq)]
pub struct NotificationMessage {
    pub event_type: EventType,
    pub event_message: String,
    pub timestamp: String,
}

/// A [`NotificationMessage`] over sequences of characters.
pub ghost struct NotificationMessageView {
    pub event_type: EventTypeView,
    pub event_message: Seq<char>,
    pub timestamp: Seq<char>,
}

impl View for NotificationMessage {
    type V = NotificationMessageView;

    open spec fn view(&self) -> NotificationMessageView {
        NotificationMessageView {
            event_type: self.event_type@,
            event_message: self.event_message@,
            timestamp: self.timestamp@,
        }
    }
}

/// Why a notification that was due could not be prepared.
#[derive(Debug, Clone, Copy, PartialEq, Eq, Structural)]
pub enum NotificationError {
    /// The webhook is a Telegram bot and no chat is configured for it.
    MissingChatId,
}

/// The configured webhook URL: the value of `WEBHOOK_URL`, without one double
/// quote at its front and one at its end where it has them; empty where none is
/// configured.
pub open spec fn webhook_url_of(config: Map<Seq<char>, Seq<char>>) -> Seq<char> {
    trimmed_once(resolved(config, WEBHOOK_URL@, ""@), '"')
}

/// The configured webhook URL, without the double quotes that may stand
/// around it.
pub fn fetch_webhook_url(config: &Config) -> (url: String)
    ensures
        url@ == webhook_url_of(config@),
{
    trim_once(fetch_var(config, WEBHOOK_URL, "").as_str(), '"')
}

/// Whether `url::Url::parse` accepts `text` as an absolute URL.
pub uninterp spec fn url_parses(text: Seq<char>) -> bool;

/// `reqwest::Url::parse`, which is `url::Url::parse`: the answer says whether
/// the text was accepted. What `url` accepts is not stated here; that the same
/// text always gets the same answer is.
#[verifier::external_body]
fn parses_as_url(text: &str) -> (accepted: bool)
    ensures
        accepted == url_parses(text@),
{
    reqwest::Url::parse(text).is_ok()
}

/// What the configuration says of the webhook.
#[derive(Debug, Clone, Copy, PartialEq, Eq, Structural)]
pub enum WebhookStatus {
    /// No URL is configured.
    Absent,
    /// A URL is configured and is none: it does not parse.
    Invalid,
    /// A URL is configured and parses.
    Valid,
}

/// The status of a webhook URL, given whether it parses.
pub open spec fn webhook_status_of(url: Seq<char>, well_formed: bool) -> WebhookStatus {
    if url.len() == 0 {
        WebhookStatus::Absent
    } else if well_formed {
        WebhookStatus::Valid
    } else {
        WebhookStatus::Invalid
    }
}

/// Judges a webhook URL of which it is known whether it parses. The empty URL
/// is absent, whatever is said of it.
pub fn webhook_status_for(url: &str, well_formed: bool) -> (status: WebhookStatus)
    ensures
        status == webhook_status_of(url@, well_formed),
{
    if url.is_empty() {
        WebhookStatus::Absent
    } else if well_formed {
        WebhookStatus::Valid
    } else {
        WebhookStatus::Invalid
    }
}

/// The status of the configured webhook. A URL that is configured and does not
/// parse is `Invalid`: the caller owes its user a warning.
pub fn webhook_status(config: &Config) -> (status: WebhookStatus)
    ensures
        status == webhook_status_of(webhook_url_of(config@), url_parses(webhook_url_of(config@))),
{
    let url = fetch_webhook_url(config);
    if url.as_str().is_empty() {
        WebhookStatus::Absent
    } else {
        webhook_status_for(url.as_str(), parses_as_url(url.as_str()))
    }
}

/// Whether notifications are to be sent: a webhook URL is configured and
/// parses.
pub fn is_webhook_enabled(config: &Config) -> (enabled: bool)
    ensures
        enabled == (webhook_url_of(config@).len() > 0 && url_parses(webhook_url_of(config@))),
{
    webhook_status(config) == WebhookStatus::Valid
}

/// `text` as `inflections::case::to_constant_case` writes it.
pub uninterp spec fn constant_case(text: Seq<char>) -> Seq<char>;

/// `inflections::case::to_constant_case`: words in upper case with `_` between
/// them. Stated is only that the result is a function of the text.
#[verifier::external_body]
fn to_constant_case(text: &str) -> (converted: String)
    ensures
        converted@ == constant_case(text@),
{
    inflections::case::to_constant_case(text)
}

/// `text` as `inflections::case::to_title_case` writes it.
pub uninterp spec fn title_case(text: Seq<char>) -> Seq<char>;

/// `inflections::case::to_title_case`: words with a capital first letter and
/// spaces between them. Stated is only that the result is a function of the
/// text.
#[verifier::external_body]
fn to_title_case(text: &str) -> (converted: String)
    ensures
        converted@ == title_case(text@),
{
    inflections::case::to_title_case(text)
}

/// `chrono::Local::now` and `DateTime::to_rfc3339` on what it returns: the
/// local time as RFC 3339 text. The text depends on the clock and the time zone
/// of the machine, so nothing is stated of it. `chrono` gives up on a clock that
/// is set before 1970.
#[verifier::external_body]
fn current_timestamp() -> (timestamp: String) {
    chrono::Local::now().to_rfc3339()
}

/// Whether `name` names the broadcast, in whatever case its letters are.
pub open spec fn is_broadcast_name(name: Seq<char>) -> bool {
    ascii_lowered(name) == "broadcast"@
}

/// Whether `name` is `broadcast`, the case of its letters set aside.
pub fn is_broadcast(name: &str) -> (found: bool)
    ensures
        found == is_broadcast_name(name@),
{
    proof {
        reveal_strlit("broadcast");
        assert(ascii_lowered("broadcast"@) =~= "broadcast"@);
    }
    eq_ignore_ascii_case(name, "broadcast")
}

/// The name under which the message for an event is configured, from the kind
/// and the status as they are written in such names.
pub open spec fn override_key_from(kind: Seq<char>, status: Seq<char>) -> Seq<char> {
    "WEBHOOK_"@ + kind + "_"@ + status + "_MESSAGE"@
}

/// Joins a kind and a status, both already in constant case, into the name
/// under which the message of such an event is configured.
pub fn override_key(kind: &str, status: &str) -> (key: String)
    ensures
        key@ == override_key_from(kind@, status@),
{
    "WEBHOOK_".to_owned().concat(kind).concat("_").concat(status).concat("_MESSAGE")
}

/// The name under which the message for an event is configured:
/// `WEBHOOK_BROADCAST_MESSAGE` for a broadcast, whatever its status; for any
/// other, `WEBHOOK_`, the kind, `_`, the status and `_MESSAGE`, kind and status
/// in constant case.
pub open spec fn override_key_of(event_type: EventTypeView) -> Seq<char> {
    if is_broadcast_name(event_type.name) {
        "WEBHOOK_BROADCAST_MESSAGE"@
    } else {
        override_key_from(constant_case(event_type.name), constant_case(event_type.status))
    }
}

/// The name under which the message for events of this type is configured.
pub fn parse_webhook_env_var(event_type: EventType) -> (key: String)
    ensures
        key@ == override_key_of(event_type@),
        is_broadcast_name(event_type@.name) ==> key@ == "WEBHOOK_BROADCAST_MESSAGE"@,
{
    if is_broadcast(event_type.name.as_str()) {
        "WEBHOOK_BROADCAST_MESSAGE".to_owned()
    } else {
        override_key(
            to_constant_case(event_type.name.as_str()).as_str(),
            to_constant_case(event_type.status.as_str()).as_str(),
        )
    }
}

/// The message that reports a status which is already in title case.
pub fn status_message(title: &str) -> (message: String)
    ensures
        message@ == "Server Status: "@ + title@,
{
    "Server Status: ".to_owned().concat(title)
}

/// The message for an event whose line is `display`, where none is configured:
/// `Server Status: ` and the line in title case.
pub fn default_event_message(display: &str) -> (message: String)
    ensures
        message@ == "Server Status: "@ + title_case(display@),
{
    status_message(to_title_case(display).as_str())
}

/// The message that is sent for `event`: the configured one where the name of
/// [`override_key_of`] is set, be it to the empty string, else the default.
pub open spec fn message_of(event: NotificationEvent, config: Map<Seq<char>, Seq<char>>) -> Seq<
    char,
> {
    let key = override_key_of(event.event_type());
    if config.contains_key(key) {
        config[key]
    } else {
        "Server Status: "@ + title_case(event.display())
    }
}

/// What is to be done about an event.
#[derive(Debug, Clone, PartialEq, Eq)]
pub enum Dispatch {
    /// Nothing: no usable webhook is configured. The status is `Absent` or
    /// `Invalid`.
    Skipped(WebhookStatus),
    /// The request is to be posted.
    Send(WebhookRequest),
    /// Nothing can be sent, for the reason given.
    Failed(NotificationError),
}

/// A [`Dispatch`] over sequences of characters.
pub ghost enum DispatchView {
    Skipped(WebhookStatus),
    Send(WebhookRequestView),
    Failed(NotificationError),
}

impl View for Dispatch {
    type V = DispatchView;

    open spec fn view(&self) -> DispatchView {
        match self {
            Dispatch::Skipped(status) => DispatchView::Skipped(*status),
            Dispatch::Send(request) => DispatchView::Send(request@),
            Dispatch::Failed(error) => DispatchView::Failed(*error),
        }
    }
}

/// The notification of `event` that carries `message` and was made at
/// `timestamp`.
pub open spec fn notification_of(
    event: NotificationEvent,
    message: Seq<char>,
    timestamp: Seq<char>,
) -> NotificationMessageView {
    NotificationMessageView { event_type: event.event_type(), event_message: message, timestamp }
}

/// What is to be done about `event` at `timestamp` under `config`: nothing
/// where the webhook is absent or invalid; else the request that carries the
/// message of the event to the webhook, or the reason why there is none.
pub open spec fn dispatch_of(
    event: NotificationEvent,
    config: Map<Seq<char>, Seq<char>>,
    timestamp: Seq<char>,
) -> DispatchView {
    let url = webhook_url_of(config);
    let status = webhook_status_of(url, url_parses(url));
    if status == WebhookStatus::Valid {
        match request_of(notification_of(event, message_of(event, config), timestamp), url, config) {
            Ok(request) => DispatchView::Send(request),
            Err(error) => DispatchView::Failed(error),
        }
    } else {
        DispatchView::Skipped(status)
    }
}

impl NotificationEvent {
    /// The notification of this event with its default message, made now.
    pub fn create_notification_message(&self) -> (notification: NotificationMessage)
        ensures
            notification@ == notification_of(
                *self,
                "Server Status: "@ + title_case(self.display()),
                notification@.timestamp,
            ),
    {
        NotificationMessage {
            event_type: self.to_event_type(),
            event_message: default_event_message(self.to_string().as_str()),
            timestamp: current_timestamp(),
        }
    }

    /// The request that reports this event to `webhook_url` with `message` in
    /// place of the default, made now; or the reason why there is none. The
    /// request is handed back, not posted: the caller posts it, and
    /// [`handle_response`](NotificationEvent::handle_response) judges the answer.
    pub fn send_custom_notification(
        &self,
        webhook_url: &str,
        message: &str,
        config: &Config,
    ) -> (built: Result<WebhookRequest, NotificationError>)
        ensures
            exists|timestamp: Seq<char>|
                provider::request_view(built) == request_of(
                    #[trigger] notification_of(*self, message@, timestamp),
                    webhook_url@,
                    config@,
                ),
    {
        let mut notification = self.create_notification_message();
        notification.event_message = message.to_owned();
        assert(notification@ == notification_of(*self, message@, notification@.timestamp));
        compose_request(notification, webhook_url, config)
    }

    /// Decides what is to be done about this event, now: nothing without a
    /// usable webhook, else the request to post, with the configured message of
    /// the event or its default message. A request is handed back, not posted.
    pub fn send_notification(&self, config: &Config) -> (dispatch: Dispatch)
        ensures
            exists|timestamp: Seq<char>| dispatch@ == #[trigger] dispatch_of(*self, config@, timestamp),
            dispatch is Skipped <==> !(webhook_url_of(config@).len() > 0 && url_parses(
                webhook_url_of(config@),
            )),
    {
        let status = webhook_status(config);
        if status == WebhookStatus::Valid {
            let event = self.create_notification_message();
            let env_var_name = parse_webhook_env_var(event.event_type);
            let notification_message = match config.get(env_var_name.as_str()) {
                Some(configured) => configured,
                None => event.event_message,
            };
            let built = self.send_custom_notification(
                fetch_webhook_url(config).as_str(),
                notification_message.as_str(),
                config,
            );
            let ghost timestamp = choose|timestamp: Seq<char>|
                provider::request_view(built) == request_of(
                    #[trigger] notification_of(*self, notification_message@, timestamp),
                    webhook_url_of(config@),
                    config@,
                );
            let dispatch = match built {
                Ok(request) => Dispatch::Send(request),
                Err(error) => Dispatch::Failed(error),
            };
            assert(dispatch@ == dispatch_of(*self, config@, timestamp));
            dispatch
        } else {
            let dispatch = Dispatch::Skipped(status);
            assert(dispatch@ == dispatch_of(*self, config@, Seq::empty()));
            dispatch
        }
    }
}

/// A broadcast has one key, whatever case its name is written in and whatever
/// status stands beside it.
pub proof fn lemma_broadcast_key(event_type: EventTypeView)
    requires
        is_broadcast_name(event_type.name),
    ensures
        override_key_of(event_type) == "WEBHOOK_BROADCAST_MESSAGE"@,
{
}

/// The key of each event: that of the broadcast for the broadcast, and for an
/// event with a status the one made of its kind and its status.
pub proof fn lemma_event_key(event: NotificationEvent)
    ensures
        match event.status() {
            Some(status) => override_key_of(event.event_type()) == override_key_from(
                constant_case(event.kind()),
                constant_case(status.name()),
            ),
            None => override_key_of(event.event_type()) == "WEBHOOK_BROADCAST_MESSAGE"@,
        },
{
    reveal_strlit("broadcast");
    reveal_strlit("Broadcast");
    reveal_strlit("Start");
    reveal_strlit("Stop");
    reveal_strlit("Backup");
    reveal_strlit("Update");
    match event {
        NotificationEvent::Broadcast => {
            assert(ascii_lowered("Broadcast"@) =~= "broadcast"@);
        },
        _ => {
            assert(ascii_lowered(event.kind()).len() != "broadcast"@.len());
        },
    }
}

} // verus!
