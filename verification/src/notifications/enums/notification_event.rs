//! The events of the server's life that are reported, and the two forms in
//! which one is written: a line for people and a pair of words for machines.

use crate::notifications::enums::event_status::EventStatus;
use vstd::prelude::*;
use vstd::string::*;

verus! {

/// The kind of an event and its status, as two words.
#[derive(Debug, Clone, PartialEq, Eq)]
pub struct EventType {
    pub name: String,
    pub status: String,
}

/// An [`EventType`] over sequences of characters.
pub ghost struct EventTypeView {
    pub name: Seq<char>,
    pub status: Seq<char>,
}

impl View for EventType {
    type V = EventTypeView;

    open spec fn view(&self) -> EventTypeView {
        EventTypeView { name: self.name@, status: self.status@ }
    }
}

/// An event: a broadcast, or one of four actions together with its status.
#[derive(Debug, Clone, Copy, PartialEq, Eq, Structural)]
pub enum NotificationEvent {
    Broadcast,
    Start(EventStatus),
    Stop(EventStatus),
    Backup(EventStatus),
    Update(EventStatus),
}

impl NotificationEvent {
    /// The word that stands for the kind of the event.
    pub open spec fn kind(self) -> Seq<char> {
        match self {
            NotificationEvent::Broadcast => "Broadcast"@,
            NotificationEvent::Start(_) => "Start"@,
            NotificationEvent::Stop(_) => "Stop"@,
            NotificationEvent::Backup(_) => "Backup"@,
            NotificationEvent::Update(_) => "Update"@,
        }
    }

    /// The status of the event; a broadcast has none.
    pub open spec fn status(self) -> Option<EventStatus> {
        match self {
            NotificationEvent::Broadcast => None,
            NotificationEvent::Start(status) => Some(status),
            NotificationEvent::Stop(status) => Some(status),
            NotificationEvent::Backup(status) => Some(status),
            NotificationEvent::Update(status) => Some(status),
        }
    }

    /// The event as people read it: its kind, and behind a space its status
    /// where it has one.
    pub open spec fn display(self) -> Seq<char> {
        match self.status() {
            Some(status) => self.kind() + " "@ + status.name(),
            None => self.kind(),
        }
    }

    /// The event as a pair of words; the status of a broadcast is the empty
    /// word.
    pub open spec fn event_type(self) -> EventTypeView {
        EventTypeView {
            name: self.kind(),
            status: match self.status() {
                Some(status) => status.name(),
                None => Seq::empty(),
            },
        }
    }

    fn kind_name(&self) -> (name: String)
        ensures
            name@ == self.kind(),
    {
        match self {
            NotificationEvent::Broadcast => "Broadcast".to_owned(),
            NotificationEvent::Start(_) => "Start".to_owned(),
            NotificationEvent::Stop(_) => "Stop".to_owned(),
            NotificationEvent::Backup(_) => "Backup".to_owned(),
            NotificationEvent::Update(_) => "Update".to_owned(),
        }
    }

    fn event_status(&self) -> (status: Option<EventStatus>)
        ensures
            status == self.status(),
    {
        match self {
            NotificationEvent::Broadcast => None,
            NotificationEvent::Start(status) => Some(*status),
            NotificationEvent::Stop(status) => Some(*status),
            NotificationEvent::Backup(status) => Some(*status),
            NotificationEvent::Update(status) => Some(*status),
        }
    }

    /// The event as people read it.
    pub fn to_string(&self) -> (text: String)
        ensures
            text@ == self.display(),
    {
        match self.event_status() {
            Some(status) => self.kind_name().concat(" ").concat(status.to_string().as_str()),
            None => self.kind_name(),
        }
    }

    /// The event as a pair of words.
    pub fn to_event_type(&self) -> (event_type: EventType)
        ensures
            event_type@ == self.event_type(),
    {
        let status = match self.event_status() {
            Some(status) => status.to_string(),
            None => String::new(),
        };
        EventType { name: self.kind_name(), status }
    }
}

/// The line of an event that has a status is its two words with a space
/// between them.
pub proof fn lemma_display_joins_event_type(event: NotificationEvent)
    requires
        event.status() is Some,
    ensures
        event.display() == event.event_type().name + " "@ + event.event_type().status,
{
}

} // verus!
