//! What the answer to a posted notification means, and the line that records
//! it. No answer stops the caller: every one becomes a record.

use crate::notifications::enums::notification_event::NotificationEvent;
use crate::utils::text::{decimal, to_decimal};
use vstd::prelude::*;
use vstd::string::*;

verus! {

/// The status that stands for a failure of which no status is known.
pub const INTERNAL_SERVER_ERROR: u16 = 500;

/// What came of posting a request.
#[derive(Debug, Clone, PartialEq, Eq)]
pub enum WebhookResponse {
    /// The webhook answered.
    Received { status: u16, body: String },
    /// No answer was had; in some cases a status code is known all the same.
    Failed { code: Option<u16> },
}

/// A [`WebhookResponse`] over sequences of characters.
pub ghost enum WebhookResponseView {
    Received { status: u16, body: Seq<char> },
    Failed { code: Option<u16> },
}

impl View for WebhookResponse {
    type V = WebhookResponseView;

    open spec fn view(&self) -> WebhookResponseView {
        match self {
            WebhookResponse::Received { status, body } => WebhookResponseView::Received {
                status: *status,
                body: body@,
            },
            WebhookResponse::Failed { code } => WebhookResponseView::Failed { code: *code },
        }
    }
}

/// How much a record matters.
#[derive(Debug, Clone, Copy, PartialEq, Eq, Structural)]
pub enum LogLevel {
    Info,
    Error,
}

/// A line for the log.
#[derive(Debug, Clone, PartialEq, Eq)]
pub struct LogRecord {
    pub level: LogLevel,
    pub message: String,
}

/// A [`LogRecord`] over sequences of characters.
pub ghost struct LogRecordView {
    pub level: LogLevel,
    pub message: Seq<char>,
}

impl View for LogRecord {
    type V = LogRecordView;

    open spec fn view(&self) -> LogRecordView {
        LogRecordView { level: self.level, message: self.message@ }
    }
}

/// The statuses that say that the webhook took the message.
pub open spec fn is_success_status(status: u16) -> bool {
    status == 200 || status == 201 || status == 204
}

/// Whether `response` says that the webhook took the message.
pub open spec fn delivered(response: WebhookResponseView) -> bool {
    response matches WebhookResponseView::Received { status, .. } && is_success_status(status)
}

/// The record of `response` to a notification of `event`: at level `Info` a
/// line of success where the message was taken; else at level `Error` a line
/// with the status and the body of the answer, or, where there was no answer,
/// with the status code that is known or else 500.
pub open spec fn record_of(event: NotificationEvent, response: WebhookResponseView) -> LogRecordView {
    match response {
        WebhookResponseView::Received { status, body } => if is_success_status(status) {
            LogRecordView {
                level: LogLevel::Info,
                message: "["@ + event.display() + "]: Webhook message sent successfully!"@,
            }
        } else {
            LogRecordView {
                level: LogLevel::Error,
                message: "Request failed! "@ + decimal(status as nat) + ", "@ + body,
            }
        },
        WebhookResponseView::Failed { code } => LogRecordView {
            level: LogLevel::Error,
            message: "["@ + event.display() + "]: Error with webhook! Status "@ + decimal(
                match code {
                    Some(known) => known as nat,
                    None => INTERNAL_SERVER_ERROR as nat,
                },
            ),
        },
    }
}

impl NotificationEvent {
    /// Judges the answer to a notification of this event.
    pub fn handle_response(&self, response: &WebhookResponse) -> (record: LogRecord)
        ensures
            record@ == record_of(*self, response@),
            record.level == LogLevel::Info <==> delivered(response@),
    {
        match response {
            WebhookResponse::Received { status, body } => {
                if *status == 200 || *status == 204 || *status == 201 {
                    LogRecord {
                        level: LogLevel::Info,
                        message: "[".to_owned().concat(self.to_string().as_str()).concat(
                            "]: Webhook message sent successfully!",
                        ),
                    }
                } else {
                    LogRecord {
                        level: LogLevel::Error,
                        message: "Request failed! ".to_owned().concat(
                            to_decimal(*status).as_str(),
                        ).concat(", ").concat(body.as_str()),
                    }
                }
            },
            WebhookResponse::Failed { code } => {
                let status = match code {
                    Some(known) => *known,
                    None => INTERNAL_SERVER_ERROR,
                };
                LogRecord {
                    level: LogLevel::Error,
                    message: "[".to_owned().concat(self.to_string().as_str()).concat(
                        "]: Error with webhook! Status ",
                    ).concat(to_decimal(status).as_str()),
                }
            },
        }
    }
}

} // verus!
