pub mod event_status;
pub mod notification_event;
