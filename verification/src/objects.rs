//! The domain-object model the notification classifier works on: calendar
//! dates and instants as plain values, the objects a store lookup can
//! resolve, and the activity events layered on top of the protocol.

use vstd::prelude::*;

use crate::content::{MsgPayload, TextContent};
use crate::news::NewsContent;

verus! {

/// A calendar date as plain values.
#[derive(Clone, Copy, Debug, PartialEq, Eq, Structural)]
pub struct CalendarDate {
    pub year: u64,
    pub month: u64,
    pub day: u64,
}

impl CalendarDate {
    /// A date the library can render: a year that fits four (zero-padded)
    /// digits, and valid month and day numbers.
    pub open spec fn wf(&self) -> bool {
        1 <= self.year <= 9999 && 1 <= self.month <= 12 && 1 <= self.day <= 31
    }
}

/// A UTC instant: a calendar date and the second of that day.
#[derive(Clone, Copy, Debug, PartialEq, Eq, Structural)]
pub struct UtcDateTime {
    pub date: CalendarDate,
    pub secs_of_day: u32,
}

impl UtcDateTime {
    pub open spec fn wf(&self) -> bool {
        self.date.wf() && self.secs_of_day < 86400
    }
}

/// An RSVP answer.
#[derive(Clone, Copy, Debug, PartialEq, Eq, Structural)]
pub enum RsvpStatus {
    Yes,
    Maybe,
    No,
}

/// A domain object as the store resolves it: the object kinds that can be
/// a parent, each with the fields a notification needs, and `Unsupported`
/// for everything else the store may hold.
#[derive(Debug)]
pub enum AnyObject {
    NewsEntry { event_id: String },
    Pin { event_id: String, title: String },
    CalendarEvent { event_id: String, title: String },
    TaskList { event_id: String, name: String },
    Task { event_id: String, task_list_id: String, title: String },
    Unsupported,
}

impl Clone for AnyObject {
    fn clone(&self) -> (res: Self)
        ensures
            res == *self,
    {
        match self {
            AnyObject::NewsEntry { event_id } => AnyObject::NewsEntry {
                event_id: event_id.clone(),
            },
            AnyObject::Pin { event_id, title } => AnyObject::Pin {
                event_id: event_id.clone(),
                title: title.clone(),
            },
            AnyObject::CalendarEvent { event_id, title } => AnyObject::CalendarEvent {
                event_id: event_id.clone(),
                title: title.clone(),
            },
            AnyObject::TaskList { event_id, name } => AnyObject::TaskList {
                event_id: event_id.clone(),
                name: name.clone(),
            },
            AnyObject::Task { event_id, task_list_id, title } => AnyObject::Task {
                event_id: event_id.clone(),
                task_list_id: task_list_id.clone(),
                title: title.clone(),
            },
            AnyObject::Unsupported => AnyObject::Unsupported,
        }
    }
}

/// An activity event on a domain object, with the fields its
/// classification reads. An update event carries each updatable field as
/// "set" or "not set"; a field set to `None` inside the outer `Some` was
/// explicitly cleared.
#[derive(Debug)]
pub enum ActerEvent {
    NewsEntry { event_id: String, room_id: String, first_slide: Option<NewsContent> },
    Comment { event_id: String, room_id: String, on_id: String, content: TextContent },
    Reaction { event_id: String, room_id: String, relates_to_id: String, key: String },
    Pin { event_id: String, room_id: String, title: String },
    PinUpdate {
        event_id: String,
        room_id: String,
        pin_id: String,
        title: Option<String>,
        content: Option<Option<TextContent>>,
    },
    CalendarEvent { event_id: String, room_id: String, title: String },
    CalendarEventUpdate {
        event_id: String,
        room_id: String,
        calendar_event_id: String,
        title: Option<String>,
        description: Option<Option<TextContent>>,
        utc_start: Option<UtcDateTime>,
        utc_end: Option<UtcDateTime>,
    },
    Rsvp { event_id: String, room_id: String, to_id: String, status: RsvpStatus },
    TaskList { event_id: String, room_id: String, name: String },
    TaskListUpdate {
        event_id: String,
        room_id: String,
        task_list_id: String,
        name: Option<String>,
        description: Option<Option<TextContent>>,
    },
    Task { event_id: String, room_id: String, task_list_id: String, title: String },
    TaskUpdate {
        event_id: String,
        room_id: String,
        task_id: String,
        title: Option<String>,
        description: Option<Option<TextContent>>,
        due_date: Option<Option<CalendarDate>>,
        progress_percent: Option<Option<u8>>,
    },
    RedactObject { event_id: String, room_id: String, object_id: String },
    Unsupported,
}

/// The transport-level payload behind one push notification: sender and
/// room presentation, flags, and the event itself.
#[derive(Debug)]
pub struct TransportNotification {
    pub sender_id: String,
    pub sender_display_name: Option<String>,
    pub sender_avatar_url: Option<String>,
    pub room_display_name: String,
    pub room_avatar_url: Option<String>,
    pub is_noisy: Option<bool>,
    pub is_direct_message_room: bool,
    pub event: NotificationEventModel,
}

/// What the transport delivered: a room invite, an activity event, a plain
/// chat message, or something this library does not classify.
#[derive(Debug)]
pub enum NotificationEventModel {
    Invite,
    Acter(ActerEvent),
    ChatMessage { msgtype: MsgPayload },
    Other,
}

/// The store key an event's parent resolution must fetch, when the event
/// has a parent to resolve.
pub open spec fn parent_lookup_id(e: NotificationEventModel) -> Option<String> {
    match e {
        NotificationEventModel::Acter(a) => match a {
            ActerEvent::Comment { on_id, .. } => Some(on_id),
            ActerEvent::Reaction { relates_to_id, .. } => Some(relates_to_id),
            ActerEvent::PinUpdate { pin_id, .. } => Some(pin_id),
            ActerEvent::CalendarEventUpdate { calendar_event_id, .. } => Some(calendar_event_id),
            ActerEvent::Rsvp { to_id, .. } => Some(to_id),
            ActerEvent::TaskListUpdate { task_list_id, .. } => Some(task_list_id),
            ActerEvent::Task { task_list_id, .. } => Some(task_list_id),
            ActerEvent::TaskUpdate { task_id, .. } => Some(task_id),
            ActerEvent::RedactObject { object_id, .. } => Some(object_id),
            _ => None,
        },
        _ => None,
    }
}

/// Names the object a classification will ask the store for; creations
/// carry their object themselves and need no lookup (a new task looks up
/// its owning task list).
pub fn parent_id_for(e: &NotificationEventModel) -> (r: Option<String>)
    ensures
        r == parent_lookup_id(*e),
{
    match e {
        NotificationEventModel::Acter(a) => match a {
            ActerEvent::Comment { on_id, .. } => Some(on_id.clone()),
            ActerEvent::Reaction { relates_to_id, .. } => Some(relates_to_id.clone()),
            ActerEvent::PinUpdate { pin_id, .. } => Some(pin_id.clone()),
            ActerEvent::CalendarEventUpdate { calendar_event_id, .. } => Some(
                calendar_event_id.clone(),
            ),
            ActerEvent::Rsvp { to_id, .. } => Some(to_id.clone()),
            ActerEvent::TaskListUpdate { task_list_id, .. } => Some(task_list_id.clone()),
            ActerEvent::Task { task_list_id, .. } => Some(task_list_id.clone()),
            ActerEvent::TaskUpdate { task_id, .. } => Some(task_id.clone()),
            ActerEvent::RedactObject { object_id, .. } => Some(object_id.clone()),
            _ => None,
        },
        _ => None,
    }
}

/// Clones an optional text content.
pub fn clone_opt_text(o: &Option<TextContent>) -> (r: Option<TextContent>)
    ensures
        r == *o,
{
    match o {
        Some(t) => Some(t.clone()),
        None => None,
    }
}

} // verus!
