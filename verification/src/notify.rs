//! The notification classifier: baseline presentation from the transport
//! payload, a per-kind override chain for activity events with a fixed
//! field-precedence order, parent resolution into a typed descriptor, and
//! deterministic target-URL construction.

use vstd::prelude::*;

use crate::content::{
    build_msg_desc, clone_opt_string, msg_desc_ok, ContentDesc, MsgPayload,
    TextContent,
};
use crate::news::NewsContent;
use crate::objects::{
    clone_opt_text, ActerEvent, AnyObject, CalendarDate, NotificationEventModel, RsvpStatus,
    TransportNotification, UtcDateTime,
};
use crate::text::{cat2, cat3, cat4, cat6, format_ymd, percent_encoded, url_encode, ymd_str};

verus! {

/// The sender a notification presents: identity, display name and avatar
/// reference.
#[derive(Debug)]
pub struct NotificationSender {
    pub user_id: String,
    pub display_name: Option<String>,
    pub image: Option<String>,
}

impl Clone for NotificationSender {
    fn clone(&self) -> (res: Self)
        ensures
            res == *self,
    {
        NotificationSender {
            user_id: self.user_id.clone(),
            display_name: clone_opt_string(&self.display_name),
            image: clone_opt_string(&self.image),
        }
    }
}

impl NotificationSender {
    /// The anonymous sender used when nothing is known.
    pub fn fallback() -> (r: NotificationSender)
        ensures
            r.user_id@ == Seq::<char>::empty(),
            r.display_name is None,
            r.image is None,
    {
        NotificationSender { user_id: String::new(), display_name: None, image: None }
    }

    pub fn user_id(&self) -> (r: String)
        ensures
            r@ == self.user_id@,
    {
        self.user_id.clone()
    }

    pub fn display_name(&self) -> (r: Option<String>)
        ensures
            r == self.display_name,
    {
        clone_opt_string(&self.display_name)
    }

    pub fn has_image(&self) -> (r: bool)
        ensures
            r == (self.image is Some),
    {
        self.image.is_some()
    }
}

/// The room a notification presents.
#[derive(Debug)]
pub struct NotificationRoom {
    pub room_id: String,
    pub display_name: String,
    pub image: Option<String>,
}

impl Clone for NotificationRoom {
    fn clone(&self) -> (res: Self)
        ensures
            res == *self,
    {
        NotificationRoom {
            room_id: self.room_id.clone(),
            display_name: self.display_name.clone(),
            image: clone_opt_string(&self.image),
        }
    }
}

impl NotificationRoom {
    pub fn room_id(&self) -> (r: String)
        ensures
            r@ == self.room_id@,
    {
        self.room_id.clone()
    }

    pub fn display_name(&self) -> (r: String)
        ensures
            r@ == self.display_name@,
    {
        self.display_name.clone()
    }

    pub fn has_image(&self) -> (r: bool)
        ensures
            r == (self.image is Some),
    {
        self.image.is_some()
    }
}

/// A resolved parent object: its kind, identity, title and deep-link path.
#[derive(Debug)]
pub enum NotificationItemParent {
    News { parent_id: String },
    Pin { parent_id: String, title: String },
    CalendarEvent { parent_id: String, title: String },
    TaskList { parent_id: String, title: String },
    Task { tl_id: String, parent_id: String, title: String },
}

impl Clone for NotificationItemParent {
    fn clone(&self) -> (res: Self)
        ensures
            res == *self,
    {
        match self {
            NotificationItemParent::News { parent_id } => NotificationItemParent::News {
                parent_id: parent_id.clone(),
            },
            NotificationItemParent::Pin { parent_id, title } => NotificationItemParent::Pin {
                parent_id: parent_id.clone(),
                title: title.clone(),
            },
            NotificationItemParent::CalendarEvent { parent_id, title } => {
                NotificationItemParent::CalendarEvent {
                    parent_id: parent_id.clone(),
                    title: title.clone(),
                }
            },
            NotificationItemParent::TaskList { parent_id, title } => {
                NotificationItemParent::TaskList {
                    parent_id: parent_id.clone(),
                    title: title.clone(),
                }
            },
            NotificationItemParent::Task { tl_id, parent_id, title } => {
                NotificationItemParent::Task {
                    tl_id: tl_id.clone(),
                    parent_id: parent_id.clone(),
                    title: title.clone(),
                }
            },
        }
    }
}

/// The object-kind word of a parent.
pub open spec fn parent_type_str(p: NotificationItemParent) -> Seq<char> {
    match p {
        NotificationItemParent::News { .. } => "news"@,
        NotificationItemParent::Pin { .. } => "pin"@,
        NotificationItemParent::CalendarEvent { .. } => "event"@,
        NotificationItemParent::TaskList { .. } => "task-list"@,
        NotificationItemParent::Task { .. } => "task"@,
    }
}

/// The identity of a parent.
pub open spec fn parent_object_id(p: NotificationItemParent) -> Seq<char> {
    match p {
        NotificationItemParent::News { parent_id } => parent_id@,
        NotificationItemParent::Pin { parent_id, .. } => parent_id@,
        NotificationItemParent::CalendarEvent { parent_id, .. } => parent_id@,
        NotificationItemParent::TaskList { parent_id, .. } => parent_id@,
        NotificationItemParent::Task { parent_id, .. } => parent_id@,
    }
}

/// The title of a parent; news entries have none.
pub open spec fn parent_title(p: NotificationItemParent) -> Option<String> {
    match p {
        NotificationItemParent::News { .. } => None,
        NotificationItemParent::Pin { title, .. } => Some(title),
        NotificationItemParent::CalendarEvent { title, .. } => Some(title),
        NotificationItemParent::TaskList { title, .. } => Some(title),
        NotificationItemParent::Task { title, .. } => Some(title),
    }
}

/// The deep-link path of a parent: its object-type route with its ids.
pub open spec fn parent_url(p: NotificationItemParent) -> Seq<char> {
    match p {
        NotificationItemParent::News { parent_id } => "/updates/"@ + parent_id@,
        NotificationItemParent::Pin { parent_id, .. } => "/pins/"@ + parent_id@,
        NotificationItemParent::TaskList { parent_id, .. } => "/tasks/"@ + parent_id@,
        NotificationItemParent::Task { parent_id, tl_id, .. } => "/tasks/"@ + tl_id@ + "/"@
            + parent_id@,
        NotificationItemParent::CalendarEvent { parent_id, .. } => "/events/"@ + parent_id@,
    }
}

/// The emoji of each parent kind.
pub open spec fn parent_emoji_str(p: NotificationItemParent) -> Seq<char> {
    match p {
        NotificationItemParent::News { .. } => "\u{1f680}"@,
        NotificationItemParent::Pin { .. } => "\u{1f4cc}"@,
        NotificationItemParent::TaskList { .. } => "\u{1f4cb}"@,
        NotificationItemParent::CalendarEvent { .. } => "\u{1f5d3}\u{fe0f}"@,
        NotificationItemParent::Task { .. } => "\u{2611}\u{fe0f}"@,
    }
}

/// The parent descriptor of a resolved store object; objects of other
/// kinds do not act as parents.
pub open spec fn try_parent(o: AnyObject) -> Option<NotificationItemParent> {
    match o {
        AnyObject::NewsEntry { event_id } => Some(
            NotificationItemParent::News { parent_id: event_id },
        ),
        AnyObject::Pin { event_id, title } => Some(
            NotificationItemParent::Pin { parent_id: event_id, title },
        ),
        AnyObject::CalendarEvent { event_id, title } => Some(
            NotificationItemParent::CalendarEvent { parent_id: event_id, title },
        ),
        AnyObject::TaskList { event_id, name } => Some(
            NotificationItemParent::TaskList { parent_id: event_id, title: name },
        ),
        AnyObject::Task { event_id, task_list_id, title } => Some(
            NotificationItemParent::Task {
                parent_id: event_id,
                tl_id: task_list_id,
                title,
            },
        ),
        AnyObject::Unsupported => None,
    }
}

impl NotificationItemParent {
    pub fn object_type_str(&self) -> (r: String)
        ensures
            r@ == parent_type_str(*self),
    {
        match self {
            NotificationItemParent::News { .. } => String::from_str("news"),
            NotificationItemParent::Pin { .. } => String::from_str("pin"),
            NotificationItemParent::CalendarEvent { .. } => String::from_str("event"),
            NotificationItemParent::TaskList { .. } => String::from_str("task-list"),
            NotificationItemParent::Task { .. } => String::from_str("task"),
        }
    }

    pub fn object_id_str(&self) -> (r: String)
        ensures
            r@ == parent_object_id(*self),
    {
        match self {
            NotificationItemParent::News { parent_id } => parent_id.clone(),
            NotificationItemParent::Pin { parent_id, .. } => parent_id.clone(),
            NotificationItemParent::CalendarEvent { parent_id, .. } => parent_id.clone(),
            NotificationItemParent::TaskList { parent_id, .. } => parent_id.clone(),
            NotificationItemParent::Task { parent_id, .. } => parent_id.clone(),
        }
    }

    pub fn title(&self) -> (r: Option<String>)
        ensures
            r == parent_title(*self),
    {
        match self {
            NotificationItemParent::News { .. } => None,
            NotificationItemParent::Pin { title, .. } => Some(title.clone()),
            NotificationItemParent::CalendarEvent { title, .. } => Some(title.clone()),
            NotificationItemParent::TaskList { title, .. } => Some(title.clone()),
            NotificationItemParent::Task { title, .. } => Some(title.clone()),
        }
    }

    pub fn target_url(&self) -> (r: String)
        ensures
            r@ == parent_url(*self),
    {
        match self {
            NotificationItemParent::News { parent_id } => cat2("/updates/", parent_id.as_str()),
            NotificationItemParent::Pin { parent_id, .. } => cat2("/pins/", parent_id.as_str()),
            NotificationItemParent::TaskList { parent_id, .. } => cat2(
                "/tasks/",
                parent_id.as_str(),
            ),
            NotificationItemParent::Task { parent_id, tl_id, .. } => cat4(
                "/tasks/",
                tl_id.as_str(),
                "/",
                parent_id.as_str(),
            ),
            NotificationItemParent::CalendarEvent { parent_id, .. } => cat2(
                "/events/",
                parent_id.as_str(),
            ),
        }
    }

    pub fn emoji(&self) -> (r: String)
        ensures
            r@ == parent_emoji_str(*self),
    {
        match self {
            NotificationItemParent::News { .. } => String::from_str("\u{1f680}"),
            NotificationItemParent::Pin { .. } => String::from_str("\u{1f4cc}"),
            NotificationItemParent::TaskList { .. } => String::from_str("\u{1f4cb}"),
            NotificationItemParent::CalendarEvent { .. } => String::from_str("\u{1f5d3}\u{fe0f}"),
            NotificationItemParent::Task { .. } => String::from_str("\u{2611}\u{fe0f}"),
        }
    }

    /// The parent descriptor of a resolved store object; fails for object
    /// kinds that do not act as parents.
    pub fn try_from(value: &AnyObject) -> (r: Result<NotificationItemParent, ()>)
        ensures
            (match (r, try_parent(*value)) {
                (Ok(p), Some(q)) => p == q,
                (Err(()), None) => true,
                _ => false,
            }),
    {
        match value {
            AnyObject::NewsEntry { event_id } => Ok(
                NotificationItemParent::News { parent_id: event_id.clone() },
            ),
            AnyObject::Pin { event_id, title } => Ok(
                NotificationItemParent::Pin { parent_id: event_id.clone(), title: title.clone() },
            ),
            AnyObject::CalendarEvent { event_id, title } => Ok(
                NotificationItemParent::CalendarEvent {
                    parent_id: event_id.clone(),
                    title: title.clone(),
                },
            ),
            AnyObject::TaskList { event_id, name } => Ok(
                NotificationItemParent::TaskList {
                    parent_id: event_id.clone(),
                    title: name.clone(),
                },
            ),
            AnyObject::Task { event_id, task_list_id, title } => Ok(
                NotificationItemParent::Task {
                    parent_id: event_id.clone(),
                    tl_id: task_list_id.clone(),
                    title: title.clone(),
                },
            ),
            AnyObject::Unsupported => Err(()),
        }
    }
}

/// A classified notification: the push style and the identifiers its
/// title, body and target URL derive from.
#[derive(Debug)]
pub enum NotificationItemInner {
    Fallback { device_id: String, room_id: String },
    Invite { room_id: String },
    ChatMessage { is_dm: bool, content: MsgPayload, room_id: String },
    Boost { first_slide: Option<NewsContent>, event_id: String },
    Comment {
        parent_obj: Option<NotificationItemParent>,
        parent_id: String,
        room_id: String,
        event_id: String,
        content: TextContent,
    },
    Reaction {
        parent_obj: Option<NotificationItemParent>,
        parent_id: String,
        room_id: String,
        event_id: String,
        key: String,
    },
    Creation { parent_obj: NotificationItemParent, room_id: String, event_id: String },
    TitleChange {
        parent_obj: Option<NotificationItemParent>,
        parent_id: String,
        room_id: String,
        event_id: String,
    },
    DescriptionChange {
        parent_obj: Option<NotificationItemParent>,
        parent_id: String,
        room_id: String,
        event_id: String,
        content: Option<TextContent>,
    },
    EventDateChange {
        parent_obj: Option<NotificationItemParent>,
        parent_id: String,
        room_id: String,
        event_id: String,
        new_date: UtcDateTime,
    },
    Rsvp {
        parent_obj: Option<NotificationItemParent>,
        parent_id: String,
        room_id: String,
        event_id: String,
        rsvp: RsvpStatus,
    },
    TaskAdd {
        parent_obj: Option<NotificationItemParent>,
        parent_id: String,
        room_id: String,
        event_id: String,
    },
    TaskProgress {
        parent_obj: Option<NotificationItemParent>,
        parent_id: String,
        room_id: String,
        event_id: String,
        done: bool,
    },
    TaskDueDateChange {
        parent_obj: Option<NotificationItemParent>,
        parent_id: String,
        room_id: String,
        event_id: String,
        new_due_date: Option<CalendarDate>,
    },
    Redaction {
        parent_obj: Option<NotificationItemParent>,
        parent_id: String,
        room_id: String,
        event_id: String,
    },
    OtherChanges {
        parent_obj: Option<NotificationItemParent>,
        parent_id: String,
        room_id: String,
        event_id: String,
    },
}

/// The push-style key of each classification.
pub open spec fn inner_key(i: NotificationItemInner) -> Seq<char> {
    match i {
        NotificationItemInner::Fallback { .. } => "fallback"@,
        NotificationItemInner::Invite { .. } => "invite"@,
        NotificationItemInner::Comment { .. } => "comment"@,
        NotificationItemInner::Reaction { .. } => "reaction"@,
        NotificationItemInner::ChatMessage { is_dm, .. } => if is_dm {
            "dm"@
        } else {
            "chat"@
        },
        NotificationItemInner::TaskProgress { done, .. } => if done {
            "taskComplete"@
        } else {
            "taskReOpen"@
        },
        NotificationItemInner::TaskDueDateChange { .. } => "taskDueDateChange"@,
        NotificationItemInner::Boost { .. } => "news"@,
        NotificationItemInner::Creation { .. } => "creation"@,
        NotificationItemInner::TitleChange { .. } => "titleChange"@,
        NotificationItemInner::DescriptionChange { .. } => "descriptionChange"@,
        NotificationItemInner::EventDateChange { .. } => "eventDateChange"@,
        NotificationItemInner::Rsvp { rsvp, .. } => match rsvp {
            RsvpStatus::Yes => "rsvpYes"@,
            RsvpStatus::Maybe => "rsvpMaybe"@,
            RsvpStatus::No => "rsvpNo"@,
        },
        NotificationItemInner::TaskAdd { .. } => "taskAdd"@,
        NotificationItemInner::Redaction { .. } => "redaction"@,
        NotificationItemInner::OtherChanges { .. } => "otherChanges"@,
    }
}

/// The generic forward URL built from raw identifiers alone.
pub open spec fn forward_url(event_id: String, room_id: String, parent_id: String) -> Seq<char> {
    "/forward?eventId="@ + percent_encoded(event_id@) + "&roomId="@ + percent_encoded(room_id@)
        + "&parentId="@ + percent_encoded(parent_id@)
}

/// The parent's own path when it resolved, the forward URL otherwise.
pub open spec fn url_or_forward(
    p: Option<NotificationItemParent>,
    parent_id: String,
    room_id: String,
    event_id: String,
) -> Seq<char> {
    match p {
        Some(pp) => parent_url(pp),
        None => forward_url(event_id, room_id, parent_id),
    }
}

/// The target URL of each classification, by the fixed precedence:
/// resolved-parent path, then type-specific id-based path, then the
/// generic forward fallback.
pub open spec fn inner_target_url(i: NotificationItemInner) -> Seq<char> {
    match i {
        NotificationItemInner::Fallback { device_id, room_id } => "/forward?deviceId="@
            + percent_encoded(device_id@) + "&roomId="@ + percent_encoded(room_id@),
        NotificationItemInner::Invite { .. } => "/activities/invites"@,
        NotificationItemInner::ChatMessage { room_id, .. } => "/chat/"@ + room_id@,
        NotificationItemInner::Boost { event_id, .. } => "/updates/"@ + event_id@,
        NotificationItemInner::Creation { parent_obj, .. } => parent_url(parent_obj),
        NotificationItemInner::TitleChange { parent_obj, parent_id, room_id, event_id } => {
            url_or_forward(parent_obj, parent_id, room_id, event_id)
        },
        NotificationItemInner::DescriptionChange { parent_obj, parent_id, room_id, event_id, .. } => {
            url_or_forward(parent_obj, parent_id, room_id, event_id)
        },
        NotificationItemInner::EventDateChange { parent_obj, parent_id, room_id, event_id, .. } => {
            url_or_forward(parent_obj, parent_id, room_id, event_id)
        },
        NotificationItemInner::Rsvp { parent_obj, parent_id, room_id, event_id, .. } => {
            url_or_forward(parent_obj, parent_id, room_id, event_id)
        },
        NotificationItemInner::TaskProgress { parent_obj, parent_id, room_id, event_id, .. } => {
            url_or_forward(parent_obj, parent_id, room_id, event_id)
        },
        NotificationItemInner::TaskDueDateChange {
            parent_obj,
            parent_id,
            room_id,
            event_id,
            ..
        } => url_or_forward(parent_obj, parent_id, room_id, event_id),
        NotificationItemInner::Redaction { parent_obj, parent_id, room_id, event_id } => {
            url_or_forward(parent_obj, parent_id, room_id, event_id)
        },
        NotificationItemInner::OtherChanges { parent_obj, parent_id, room_id, event_id } => {
            url_or_forward(parent_obj, parent_id, room_id, event_id)
        },
        NotificationItemInner::Comment { parent_obj, parent_id, room_id, event_id, .. } => {
            match parent_obj {
                Some(p) => parent_url(p) + "?section=comments&commentId="@ + percent_encoded(
                    event_id@,
                ),
                None => forward_url(event_id, room_id, parent_id),
            }
        },
        NotificationItemInner::Reaction { parent_obj, parent_id, room_id, event_id, .. } => {
            match parent_obj {
                Some(p) => parent_url(p) + "?section=reactions&reactionId="@ + percent_encoded(
                    event_id@,
                ),
                None => forward_url(event_id, room_id, parent_id),
            }
        },
        NotificationItemInner::TaskAdd { parent_id, event_id, .. } => "/tasks/"@ + parent_id@
            + "/"@ + event_id@,
    }
}

fn exec_forward_url(event_id: &String, room_id: &String, parent_id: &String) -> (r: String)
    ensures
        r@ == forward_url(*event_id, *room_id, *parent_id),
{
    let e = url_encode(event_id.as_str());
    let ro = url_encode(room_id.as_str());
    let p = url_encode(parent_id.as_str());
    let mut s = cat4("/forward?eventId=", e.as_str(), "&roomId=", ro.as_str());
    s.append("&parentId=");
    s.append(p.as_str());
    s
}

fn exec_url_or_forward(
    p: &Option<NotificationItemParent>,
    parent_id: &String,
    room_id: &String,
    event_id: &String,
) -> (r: String)
    ensures
        r@ == url_or_forward(*p, *parent_id, *room_id, *event_id),
{
    match p {
        Some(pp) => pp.target_url(),
        None => exec_forward_url(event_id, room_id, parent_id),
    }
}

impl NotificationItemInner {
    /// The push-style key of this classification.
    pub fn key(&self) -> (r: String)
        ensures
            r@ == inner_key(*self),
    {
        match self {
            NotificationItemInner::Fallback { .. } => String::from_str("fallback"),
            NotificationItemInner::Invite { .. } => String::from_str("invite"),
            NotificationItemInner::Comment { .. } => String::from_str("comment"),
            NotificationItemInner::Reaction { .. } => String::from_str("reaction"),
            NotificationItemInner::ChatMessage { is_dm, .. } => if *is_dm {
                String::from_str("dm")
            } else {
                String::from_str("chat")
            },
            NotificationItemInner::TaskProgress { done, .. } => if *done {
                String::from_str("taskComplete")
            } else {
                String::from_str("taskReOpen")
            },
            NotificationItemInner::TaskDueDateChange { .. } => String::from_str(
                "taskDueDateChange",
            ),
            NotificationItemInner::Boost { .. } => String::from_str("news"),
            NotificationItemInner::Creation { .. } => String::from_str("creation"),
            NotificationItemInner::TitleChange { .. } => String::from_str("titleChange"),
            NotificationItemInner::DescriptionChange { .. } => String::from_str(
                "descriptionChange",
            ),
            NotificationItemInner::EventDateChange { .. } => String::from_str("eventDateChange"),
            NotificationItemInner::Rsvp { rsvp, .. } => match rsvp {
                RsvpStatus::Yes => String::from_str("rsvpYes"),
                RsvpStatus::Maybe => String::from_str("rsvpMaybe"),
                RsvpStatus::No => String::from_str("rsvpNo"),
            },
            NotificationItemInner::TaskAdd { .. } => String::from_str("taskAdd"),
            NotificationItemInner::Redaction { .. } => String::from_str("redaction"),
            NotificationItemInner::OtherChanges { .. } => String::from_str("otherChanges"),
        }
    }

    /// The deep-link target of this classification.
    pub fn target_url(&self) -> (r: String)
        ensures
            r@ == inner_target_url(*self),
    {
        match self {
            NotificationItemInner::Fallback { device_id, room_id } => {
                let d = url_encode(device_id.as_str());
                let ro = url_encode(room_id.as_str());
                cat4("/forward?deviceId=", d.as_str(), "&roomId=", ro.as_str())
            },
            NotificationItemInner::Invite { .. } => String::from_str("/activities/invites"),
            NotificationItemInner::ChatMessage { room_id, .. } => cat2("/chat/", room_id.as_str()),
            NotificationItemInner::Boost { event_id, .. } => cat2("/updates/", event_id.as_str()),
            NotificationItemInner::Creation { parent_obj, .. } => parent_obj.target_url(),
            NotificationItemInner::TitleChange { parent_obj, parent_id, room_id, event_id } => {
                exec_url_or_forward(parent_obj, parent_id, room_id, event_id)
            },
            NotificationItemInner::DescriptionChange {
                parent_obj,
                parent_id,
                room_id,
                event_id,
                ..
            } => exec_url_or_forward(parent_obj, parent_id, room_id, event_id),
            NotificationItemInner::EventDateChange {
                parent_obj,
                parent_id,
                room_id,
                event_id,
                ..
            } => exec_url_or_forward(parent_obj, parent_id, room_id, event_id),
            NotificationItemInner::Rsvp { parent_obj, parent_id, room_id, event_id, .. } => {
                exec_url_or_forward(parent_obj, parent_id, room_id, event_id)
            },
            NotificationItemInner::TaskProgress {
                parent_obj,
                parent_id,
                room_id,
                event_id,
                ..
            } => exec_url_or_forward(parent_obj, parent_id, room_id, event_id),
            NotificationItemInner::TaskDueDateChange {
                parent_obj,
                parent_id,
                room_id,
                event_id,
                ..
            } => exec_url_or_forward(parent_obj, parent_id, room_id, event_id),
            NotificationItemInner::Redaction { parent_obj, parent_id, room_id, event_id } => {
                exec_url_or_forward(parent_obj, parent_id, room_id, event_id)
            },
            NotificationItemInner::OtherChanges { parent_obj, parent_id, room_id, event_id } => {
                exec_url_or_forward(parent_obj, parent_id, room_id, event_id)
            },
            NotificationItemInner::Comment { parent_obj, parent_id, room_id, event_id, .. } => {
                match parent_obj {
                    Some(p) => {
                        let mut s = p.target_url();
                        s.append("?section=comments&commentId=");
                        let e = url_encode(event_id.as_str());
                        s.append(e.as_str());
                        s
                    },
                    None => exec_forward_url(event_id, room_id, parent_id),
                }
            },
            NotificationItemInner::Reaction { parent_obj, parent_id, room_id, event_id, .. } => {
                match parent_obj {
                    Some(p) => {
                        let mut s = p.target_url();
                        s.append("?section=reactions&reactionId=");
                        let e = url_encode(event_id.as_str());
                        s.append(e.as_str());
                        s
                    },
                    None => exec_forward_url(event_id, room_id, parent_id),
                }
            },
            NotificationItemInner::TaskAdd { parent_id, event_id, .. } => cat4(
                "/tasks/",
                parent_id.as_str(),
                "/",
                event_id.as_str(),
            ),
        }
    }

    /// The invited room, for invite notifications.
    pub fn room_invite(&self) -> (r: Option<String>)
        ensures
            (match self {
                NotificationItemInner::Invite { room_id } => (match r {
                    Some(id) => id@ == room_id@,
                    None => false,
                }),
                _ => r is None,
            }),
    {
        match self {
            NotificationItemInner::Invite { room_id } => Some(room_id.clone()),
            _ => None,
        }
    }

    /// The parent classification of this inner, if any.
    pub open spec fn parent_of(&self) -> Option<NotificationItemParent> {
        match *self {
            NotificationItemInner::Creation { parent_obj, .. } => Some(parent_obj),
            NotificationItemInner::TitleChange { parent_obj, .. } => parent_obj,
            NotificationItemInner::DescriptionChange { parent_obj, .. } => parent_obj,
            NotificationItemInner::EventDateChange { parent_obj, .. } => parent_obj,
            NotificationItemInner::Rsvp { parent_obj, .. } => parent_obj,
            NotificationItemInner::TaskAdd { parent_obj, .. } => parent_obj,
            NotificationItemInner::TaskProgress { parent_obj, .. } => parent_obj,
            NotificationItemInner::TaskDueDateChange { parent_obj, .. } => parent_obj,
            NotificationItemInner::Redaction { parent_obj, .. } => parent_obj,
            NotificationItemInner::OtherChanges { parent_obj, .. } => parent_obj,
            NotificationItemInner::Comment { parent_obj, .. } => parent_obj,
            NotificationItemInner::Reaction { parent_obj, .. } => parent_obj,
            _ => None,
        }
    }

    pub fn parent(&self) -> (r: Option<NotificationItemParent>)
        ensures
            r == self.parent_of(),
    {
        match self {
            NotificationItemInner::Creation { parent_obj, .. } => Some(parent_obj.clone()),
            NotificationItemInner::TitleChange { parent_obj, .. } => clone_opt_parent(parent_obj),
            NotificationItemInner::DescriptionChange { parent_obj, .. } => clone_opt_parent(
                parent_obj,
            ),
            NotificationItemInner::EventDateChange { parent_obj, .. } => clone_opt_parent(
                parent_obj,
            ),
            NotificationItemInner::Rsvp { parent_obj, .. } => clone_opt_parent(parent_obj),
            NotificationItemInner::TaskAdd { parent_obj, .. } => clone_opt_parent(parent_obj),
            NotificationItemInner::TaskProgress { parent_obj, .. } => clone_opt_parent(parent_obj),
            NotificationItemInner::TaskDueDateChange { parent_obj, .. } => clone_opt_parent(
                parent_obj,
            ),
            NotificationItemInner::Redaction { parent_obj, .. } => clone_opt_parent(parent_obj),
            NotificationItemInner::OtherChanges { parent_obj, .. } => clone_opt_parent(parent_obj),
            NotificationItemInner::Comment { parent_obj, .. } => clone_opt_parent(parent_obj),
            NotificationItemInner::Reaction { parent_obj, .. } => clone_opt_parent(parent_obj),
            _ => None,
        }
    }

    /// The parent identity this inner refers to, if any.
    pub open spec fn parent_id_of(&self) -> Option<Seq<char>> {
        match *self {
            NotificationItemInner::Creation { parent_obj, .. } => Some(
                parent_object_id(parent_obj),
            ),
            NotificationItemInner::TitleChange { parent_id, .. } => Some(parent_id@),
            NotificationItemInner::DescriptionChange { parent_id, .. } => Some(parent_id@),
            NotificationItemInner::EventDateChange { parent_id, .. } => Some(parent_id@),
            NotificationItemInner::Rsvp { parent_id, .. } => Some(parent_id@),
            NotificationItemInner::TaskAdd { parent_id, .. } => Some(parent_id@),
            NotificationItemInner::TaskProgress { parent_id, .. } => Some(parent_id@),
            NotificationItemInner::TaskDueDateChange { parent_id, .. } => Some(parent_id@),
            NotificationItemInner::Redaction { parent_id, .. } => Some(parent_id@),
            NotificationItemInner::OtherChanges { parent_id, .. } => Some(parent_id@),
            NotificationItemInner::Comment { parent_id, .. } => Some(parent_id@),
            NotificationItemInner::Reaction { parent_id, .. } => Some(parent_id@),
            _ => None,
        }
    }

    pub fn parent_id_str(&self) -> (r: Option<String>)
        ensures
            (match (r, self.parent_id_of()) {
                (Some(s), Some(v)) => s@ == v,
                (None, None) => true,
                _ => false,
            }),
    {
        match self {
            NotificationItemInner::Creation { parent_obj, .. } => Some(parent_obj.object_id_str()),
            NotificationItemInner::TitleChange { parent_id, .. } => Some(parent_id.clone()),
            NotificationItemInner::DescriptionChange { parent_id, .. } => Some(parent_id.clone()),
            NotificationItemInner::EventDateChange { parent_id, .. } => Some(parent_id.clone()),
            NotificationItemInner::Rsvp { parent_id, .. } => Some(parent_id.clone()),
            NotificationItemInner::TaskAdd { parent_id, .. } => Some(parent_id.clone()),
            NotificationItemInner::TaskProgress { parent_id, .. } => Some(parent_id.clone()),
            NotificationItemInner::TaskDueDateChange { parent_id, .. } => Some(parent_id.clone()),
            NotificationItemInner::Redaction { parent_id, .. } => Some(parent_id.clone()),
            NotificationItemInner::OtherChanges { parent_id, .. } => Some(parent_id.clone()),
            NotificationItemInner::Comment { parent_id, .. } => Some(parent_id.clone()),
            NotificationItemInner::Reaction { parent_id, .. } => Some(parent_id.clone()),
            _ => None,
        }
    }

    /// The reaction key, for reaction notifications.
    pub fn reaction_key(&self) -> (r: Option<String>)
        ensures
            (match self {
                NotificationItemInner::Reaction { key, .. } => (match r {
                    Some(k) => k@ == key@,
                    None => false,
                }),
                _ => r is None,
            }),
    {
        match self {
            NotificationItemInner::Reaction { key, .. } => Some(key.clone()),
            _ => None,
        }
    }

    /// The instant a date-change notification reports: the new event date,
    /// or midnight of the new due date.
    pub fn new_date(&self) -> (r: Option<UtcDateTime>)
        ensures
            (match *self {
                NotificationItemInner::EventDateChange { new_date, .. } => r == Some(new_date),
                NotificationItemInner::TaskDueDateChange { new_due_date: Some(d), .. } => r == Some(
                    UtcDateTime { date: d, secs_of_day: 0 },
                ),
                _ => r is None,
            }),
    {
        match self {
            NotificationItemInner::EventDateChange { new_date, .. } => Some(*new_date),
            NotificationItemInner::TaskDueDateChange { new_due_date: Some(d), .. } => Some(
                UtcDateTime { date: *d, secs_of_day: 0 },
            ),
            _ => None,
        }
    }

    /// The body a notification shows: the chat message, the comment text,
    /// the first boost slide's content, or the new description.
    pub fn body(&self) -> (r: Option<ContentDesc>)
        ensures
            (match *self {
                NotificationItemInner::ChatMessage { content, .. } => (match content {
                    MsgPayload::Audio(_) => opt_desc_ok(r, content),
                    MsgPayload::Emote(_) => opt_desc_ok(r, content),
                    MsgPayload::File(_) => opt_desc_ok(r, content),
                    MsgPayload::Location(_) => opt_desc_ok(r, content),
                    MsgPayload::Text(_) => opt_desc_ok(r, content),
                    MsgPayload::Video(_) => opt_desc_ok(r, content),
                    _ => r is None,
                }),
                NotificationItemInner::Comment { content, .. } => opt_desc_ok(
                    r,
                    MsgPayload::Text(content),
                ),
                NotificationItemInner::Boost { first_slide: Some(slide), .. } => (match slide {
                    NewsContent::Text(c) => opt_desc_ok(r, MsgPayload::Text(c)),
                    NewsContent::Video(c) => opt_desc_ok(r, MsgPayload::Video(c)),
                    NewsContent::Audio(c) => opt_desc_ok(r, MsgPayload::Audio(c)),
                    NewsContent::File(c) => opt_desc_ok(r, MsgPayload::File(c)),
                    NewsContent::Image(_) => r is None,
                }),
                NotificationItemInner::DescriptionChange { content: Some(c), .. } => opt_desc_ok(
                    r,
                    MsgPayload::Text(c),
                ),
                _ => r is None,
            }),
    {
        match self {
            NotificationItemInner::ChatMessage { content, .. } => match content {
                MsgPayload::Audio(_) => Some(build_msg_desc(content, "")),
                MsgPayload::Emote(_) => Some(build_msg_desc(content, "")),
                MsgPayload::File(_) => Some(build_msg_desc(content, "")),
                MsgPayload::Location(_) => Some(build_msg_desc(content, "")),
                MsgPayload::Text(_) => Some(build_msg_desc(content, "")),
                MsgPayload::Video(_) => Some(build_msg_desc(content, "")),
                _ => None,
            },
            NotificationItemInner::Comment { content, .. } => {
                let payload = MsgPayload::Text(content.clone());
                Some(build_msg_desc(&payload, ""))
            },
            NotificationItemInner::Boost { first_slide: Some(slide), .. } => match slide {
                NewsContent::Text(c) => {
                    let payload = MsgPayload::Text(c.clone());
                    Some(build_msg_desc(&payload, ""))
                },
                NewsContent::Video(c) => {
                    let payload = MsgPayload::Video(c.clone());
                    Some(build_msg_desc(&payload, ""))
                },
                NewsContent::Audio(c) => {
                    let payload = MsgPayload::Audio(c.clone());
                    Some(build_msg_desc(&payload, ""))
                },
                NewsContent::File(c) => {
                    let payload = MsgPayload::File(c.clone());
                    Some(build_msg_desc(&payload, ""))
                },
                NewsContent::Image(_) => None,
            },
            NotificationItemInner::DescriptionChange { content: Some(c), .. } => {
                let payload = MsgPayload::Text(c.clone());
                Some(build_msg_desc(&payload, ""))
            },
            _ => None,
        }
    }

    /// The image reference a notification can render: the first boost
    /// slide's image source.
    pub fn image_source(&self) -> (r: Option<String>)
        ensures
            (match *self {
                NotificationItemInner::Boost {
                    first_slide: Some(NewsContent::Image(c)),
                    ..
                } => r == c.source,
                _ => r is None,
            }),
    {
        match self {
            NotificationItemInner::Boost { first_slide: Some(NewsContent::Image(c)), .. } => {
                clone_opt_string(&c.source)
            },
            _ => None,
        }
    }
}

/// Holds when `r` is the descriptor derived from the payload.
pub open spec fn opt_desc_ok(r: Option<ContentDesc>, p: MsgPayload) -> bool {
    msg_desc_ok(r, p, ""@)
}

fn clone_opt_parent(o: &Option<NotificationItemParent>) -> (r: Option<NotificationItemParent>)
    ensures
        r == *o,
{
    match o {
        Some(p) => Some(p.clone()),
        None => None,
    }
}

/// An assembled notification: presentation baseline plus the
/// classification.
#[derive(Debug)]
pub struct NotificationItem {
    pub title: String,
    pub sender: NotificationSender,
    pub room: NotificationRoom,
    pub icon_url: Option<String>,
    pub noisy: Option<bool>,
    pub thread_id: Option<String>,
    pub inner: NotificationItemInner,
}

impl NotificationItem {
    pub fn title(&self) -> (r: String)
        ensures
            r@ == self.title@,
    {
        self.title.clone()
    }

    /// The push-style key of this notification.
    pub fn push_style(&self) -> (r: String)
        ensures
            r@ == inner_key(self.inner),
    {
        self.inner.key()
    }

    pub fn sender(&self) -> (r: NotificationSender)
        ensures
            r == self.sender,
    {
        self.sender.clone()
    }

    pub fn room(&self) -> (r: NotificationRoom)
        ensures
            r == self.room,
    {
        self.room.clone()
    }

    pub fn icon_url(&self) -> (r: Option<String>)
        ensures
            r == self.icon_url,
    {
        clone_opt_string(&self.icon_url)
    }

    /// Whether the notification should make noise; unknown means quiet.
    pub fn noisy(&self) -> (r: bool)
        ensures
            r == (self.noisy == Some(true)),
    {
        match self.noisy {
            Some(b) => b,
            None => false,
        }
    }

    pub fn thread_id(&self) -> (r: Option<String>)
        ensures
            r == self.thread_id,
    {
        clone_opt_string(&self.thread_id)
    }

    /// The deep-link target of this notification.
    pub fn target_url(&self) -> (r: String)
        ensures
            r@ == inner_target_url(self.inner),
    {
        self.inner.target_url()
    }

    pub fn room_invite_str(&self) -> (r: Option<String>)
        ensures
            (match self.inner {
                NotificationItemInner::Invite { room_id } => (match r {
                    Some(id) => id@ == room_id@,
                    None => false,
                }),
                _ => r is None,
            }),
    {
        self.inner.room_invite()
    }

    pub fn has_image(&self) -> (r: bool)
        ensures
            r == (match self.inner {
                NotificationItemInner::Boost {
                    first_slide: Some(NewsContent::Image(c)),
                    ..
                } => c.source is Some,
                _ => false,
            }),
    {
        self.inner.image_source().is_some()
    }

    /// The fallback notification when the event cannot even be parsed: a
    /// generic "new messages" entry that forwards into the room. Fails
    /// exactly when the room could not be fetched.
    pub fn fallback(device_id: String, room_id: String, room: Option<NotificationRoom>) -> (r:
        Result<NotificationItem, ()>)
        ensures
            r is Ok <==> room is Some,
            (match (r, room) {
                (Ok(item), Some(ro)) => {
                    &&& item.title@ == "New messages"@
                    &&& item.sender.user_id@ == Seq::<char>::empty()
                    &&& item.sender.display_name is None
                    &&& item.sender.image is None
                    &&& item.room == ro
                    &&& item.icon_url is None
                    &&& item.noisy is None
                    &&& (match item.thread_id {
                        Some(t) => t@ == room_id@,
                        None => false,
                    })
                    &&& item.inner == (NotificationItemInner::Fallback { device_id, room_id })
                },
                (Err(()), None) => true,
                _ => false,
            }),
    {
        match room {
            Some(ro) => Ok(
                NotificationItem {
                    title: String::from_str("New messages"),
                    sender: NotificationSender::fallback(),
                    room: ro,
                    icon_url: None,
                    noisy: None,
                    thread_id: Some(room_id.clone()),
                    inner: NotificationItemInner::Fallback { device_id, room_id },
                },
            ),
            None => Err(()),
        }
    }

    /// Classifies one transport notification. The parent is the store's
    /// answer for `parent_id_for` of the event; resolution failure (`None`
    /// or an unsupported object) never fails classification.
    pub fn from(
        device_id: String,
        room_id: String,
        payload: TransportNotification,
        parent: Option<AnyObject>,
    ) -> (r: NotificationItem)
        requires
            event_dates_wf(payload.event),
        ensures
            classify_ok(r, device_id, room_id, payload, parent),
    {
        let sender = NotificationSender {
            user_id: payload.sender_id,
            display_name: payload.sender_display_name,
            image: payload.sender_avatar_url,
        };
        let room = NotificationRoom {
            room_id: room_id.clone(),
            display_name: payload.room_display_name.clone(),
            image: clone_opt_string(&payload.room_avatar_url),
        };
        match payload.event {
            NotificationEventModel::Invite => NotificationItem {
                title: payload.room_display_name,
                sender,
                room,
                icon_url: payload.room_avatar_url,
                noisy: payload.is_noisy,
                thread_id: Some(room_id.clone()),
                inner: NotificationItemInner::Invite { room_id },
            },
            NotificationEventModel::ChatMessage { msgtype } => NotificationItem {
                title: payload.room_display_name,
                sender,
                room,
                icon_url: payload.room_avatar_url,
                noisy: payload.is_noisy,
                thread_id: Some(room_id.clone()),
                inner: NotificationItemInner::ChatMessage {
                    is_dm: payload.is_direct_message_room,
                    content: msgtype,
                    room_id,
                },
            },
            NotificationEventModel::Other => NotificationItem {
                title: payload.room_display_name,
                sender,
                room,
                icon_url: payload.room_avatar_url,
                noisy: payload.is_noisy,
                thread_id: Some(room_id.clone()),
                inner: NotificationItemInner::Fallback { device_id, room_id },
            },
            NotificationEventModel::Acter(e) => {
                let parent_obj = match &parent {
                    Some(o) => match NotificationItemParent::try_from(o) {
                        Ok(p) => Some(p),
                        Err(()) => None,
                    },
                    None => None,
                };
                let (inner, title) = for_acter_object(
                    e,
                    parent_obj,
                    payload.room_display_name,
                    &device_id,
                    &room_id,
                );
                NotificationItem {
                    title,
                    sender,
                    room,
                    icon_url: payload.room_avatar_url,
                    noisy: payload.is_noisy,
                    thread_id: Some(room_id),
                    inner,
                }
            },
        }
    }
}

/// Calendar values carried by an event are renderable dates.
pub open spec fn event_dates_wf(e: NotificationEventModel) -> bool {
    match e {
        NotificationEventModel::Acter(ActerEvent::TaskUpdate { due_date, .. }) => match due_date {
            Some(Some(d)) => d.wf(),
            _ => true,
        },
        _ => true,
    }
}

/// What classifying an activity event yields, given the resolved parent
/// and the default (room) title: the first populated field in the fixed
/// precedence order decides the kind, creations and title changes override
/// the title, a due-date change titles the notification with the date.
pub open spec fn acter_class_ok(
    inner: NotificationItemInner,
    title: String,
    e: ActerEvent,
    pobj: Option<NotificationItemParent>,
    dt: String,
) -> bool {
    match e {
        ActerEvent::NewsEntry { event_id, room_id, first_slide } => {
            inner == (NotificationItemInner::Boost { first_slide, event_id }) && title == dt
        },
        ActerEvent::Comment { event_id, room_id, on_id, content } => {
            inner == (NotificationItemInner::Comment {
                parent_obj: pobj,
                parent_id: on_id,
                room_id,
                event_id,
                content,
            }) && title == dt
        },
        ActerEvent::Reaction { event_id, room_id, relates_to_id, key } => {
            inner == (NotificationItemInner::Reaction {
                parent_obj: pobj,
                parent_id: relates_to_id,
                room_id,
                event_id,
                key,
            }) && title == dt
        },
        ActerEvent::Pin { event_id, room_id, title: obj_title } => {
            inner == (NotificationItemInner::Creation {
                parent_obj: NotificationItemParent::Pin {
                    parent_id: event_id,
                    title: obj_title,
                },
                room_id,
                event_id,
            }) && title == obj_title
        },
        ActerEvent::PinUpdate { event_id, room_id, pin_id, title: new_title, content } => {
            match new_title {
                Some(t) => inner == (NotificationItemInner::TitleChange {
                    parent_obj: pobj,
                    parent_id: pin_id,
                    room_id,
                    event_id,
                }) && title == t,
                None => match content {
                    Some(c) => inner == (NotificationItemInner::DescriptionChange {
                        parent_obj: pobj,
                        parent_id: pin_id,
                        room_id,
                        event_id,
                        content: c,
                    }) && title == dt,
                    None => inner == (NotificationItemInner::OtherChanges {
                        parent_obj: pobj,
                        parent_id: pin_id,
                        room_id,
                        event_id,
                    }) && title == dt,
                },
            }
        },
        ActerEvent::CalendarEvent { event_id, room_id, title: obj_title } => {
            inner == (NotificationItemInner::Creation {
                parent_obj: NotificationItemParent::CalendarEvent {
                    parent_id: event_id,
                    title: obj_title,
                },
                room_id,
                event_id,
            }) && title == obj_title
        },
        ActerEvent::CalendarEventUpdate {
            event_id,
            room_id,
            calendar_event_id,
            title: new_title,
            description,
            utc_start,
            utc_end,
        } => {
            match new_title {
                Some(t) => inner == (NotificationItemInner::TitleChange {
                    parent_obj: pobj,
                    parent_id: calendar_event_id,
                    room_id,
                    event_id,
                }) && title == t,
                None => match description {
                    Some(c) => inner == (NotificationItemInner::DescriptionChange {
                        parent_obj: pobj,
                        parent_id: calendar_event_id,
                        room_id,
                        event_id,
                        content: c,
                    }) && title == dt,
                    None => match utc_start {
                        Some(d) => inner == (NotificationItemInner::EventDateChange {
                            parent_obj: pobj,
                            parent_id: calendar_event_id,
                            room_id,
                            event_id,
                            new_date: d,
                        }) && title == dt,
                        None => match utc_end {
                            Some(d) => inner == (NotificationItemInner::EventDateChange {
                                parent_obj: pobj,
                                parent_id: calendar_event_id,
                                room_id,
                                event_id,
                                new_date: d,
                            }) && title == dt,
                            None => inner == (NotificationItemInner::OtherChanges {
                                parent_obj: pobj,
                                parent_id: calendar_event_id,
                                room_id,
                                event_id,
                            }) && title == dt,
                        },
                    },
                },
            }
        },
        ActerEvent::Rsvp { event_id, room_id, to_id, status } => {
            inner == (NotificationItemInner::Rsvp {
                parent_obj: pobj,
                parent_id: to_id,
                room_id,
                event_id,
                rsvp: status,
            }) && title == dt
        },
        ActerEvent::TaskList { event_id, room_id, name } => {
            inner == (NotificationItemInner::Creation {
                parent_obj: NotificationItemParent::TaskList {
                    parent_id: event_id,
                    title: name,
                },
                room_id,
                event_id,
            }) && title == name
        },
        ActerEvent::TaskListUpdate { event_id, room_id, task_list_id, name, description } => {
            match name {
                Some(t) => inner == (NotificationItemInner::TitleChange {
                    parent_obj: pobj,
                    parent_id: task_list_id,
                    room_id,
                    event_id,
                }) && title == t,
                None => match description {
                    Some(c) => inner == (NotificationItemInner::DescriptionChange {
                        parent_obj: pobj,
                        parent_id: task_list_id,
                        room_id,
                        event_id,
                        content: c,
                    }) && title == dt,
                    None => inner == (NotificationItemInner::OtherChanges {
                        parent_obj: pobj,
                        parent_id: task_list_id,
                        room_id,
                        event_id,
                    }) && title == dt,
                },
            }
        },
        ActerEvent::Task { event_id, room_id, task_list_id, title: task_title } => {
            inner == (NotificationItemInner::TaskAdd {
                parent_obj: pobj,
                parent_id: task_list_id,
                room_id,
                event_id,
            }) && title == task_title
        },
        ActerEvent::TaskUpdate {
            event_id,
            room_id,
            task_id,
            title: new_title,
            description,
            due_date,
            progress_percent,
        } => {
            match new_title {
                Some(t) => inner == (NotificationItemInner::TitleChange {
                    parent_obj: pobj,
                    parent_id: task_id,
                    room_id,
                    event_id,
                }) && title == t,
                None => match description {
                    Some(c) => inner == (NotificationItemInner::DescriptionChange {
                        parent_obj: pobj,
                        parent_id: task_id,
                        room_id,
                        event_id,
                        content: c,
                    }) && title == dt,
                    None => match due_date {
                        Some(dd) => inner == (NotificationItemInner::TaskDueDateChange {
                            parent_obj: pobj,
                            parent_id: task_id,
                            room_id,
                            event_id,
                            new_due_date: dd,
                        }) && (match dd {
                            Some(date) => title@ == ymd_str(
                                date.year as nat,
                                date.month as nat,
                                date.day as nat,
                            ),
                            None => title@ == "removed due date"@,
                        }),
                        None => match progress_percent {
                            Some(p) => inner == (NotificationItemInner::TaskProgress {
                                parent_obj: pobj,
                                parent_id: task_id,
                                room_id,
                                event_id,
                                done: (match p {
                                    Some(pct) => pct >= 100,
                                    None => false,
                                }),
                            }) && title == dt,
                            None => inner == (NotificationItemInner::OtherChanges {
                                parent_obj: pobj,
                                parent_id: task_id,
                                room_id,
                                event_id,
                            }) && title == dt,
                        },
                    },
                },
            }
        },
        ActerEvent::RedactObject { event_id, room_id, object_id } => {
            inner == (NotificationItemInner::Redaction {
                parent_obj: pobj,
                parent_id: object_id,
                room_id,
                event_id,
            }) && title == dt
        },
        ActerEvent::Unsupported => false,
    }
}

/// What `NotificationItem::from` guarantees: the presentation baseline is
/// filled from the transport payload, and the classification follows the
/// override order — invite, then activity event, then chat message, with
/// the safe fallback for anything else.
pub open spec fn classify_ok(
    r: NotificationItem,
    device_id: String,
    room_id: String,
    payload: TransportNotification,
    parent: Option<AnyObject>,
) -> bool {
    &&& r.sender.user_id == payload.sender_id
    &&& r.sender.display_name == payload.sender_display_name
    &&& r.sender.image == payload.sender_avatar_url
    &&& r.room.room_id@ == room_id@
    &&& r.room.display_name@ == payload.room_display_name@
    &&& r.room.image == payload.room_avatar_url
    &&& r.icon_url == payload.room_avatar_url
    &&& r.noisy == payload.is_noisy
    &&& match r.thread_id {
        Some(t) => t@ == room_id@,
        None => false,
    }
    &&& match payload.event {
        NotificationEventModel::Invite => r.inner == (NotificationItemInner::Invite { room_id })
            && r.title == payload.room_display_name,
        NotificationEventModel::ChatMessage { msgtype } => r.inner
            == (NotificationItemInner::ChatMessage {
            is_dm: payload.is_direct_message_room,
            content: msgtype,
            room_id,
        }) && r.title == payload.room_display_name,
        NotificationEventModel::Other => r.inner == (NotificationItemInner::Fallback {
            device_id,
            room_id,
        }) && r.title == payload.room_display_name,
        NotificationEventModel::Acter(e) => (match e {
            ActerEvent::Unsupported => r.inner == (NotificationItemInner::Fallback {
                device_id,
                room_id,
            }) && r.title == payload.room_display_name,
            _ => acter_class_ok(
                r.inner,
                r.title,
                e,
                resolved_parent(parent),
                payload.room_display_name,
            ),
        }),
    }
}

/// The parent descriptor of the store's answer, when the store found a
/// supported object.
pub open spec fn resolved_parent(parent: Option<AnyObject>) -> Option<NotificationItemParent> {
    match parent {
        Some(o) => try_parent(o),
        None => None,
    }
}

fn for_acter_object(
    e: ActerEvent,
    pobj: Option<NotificationItemParent>,
    default_title: String,
    device_id: &String,
    room_id: &String,
) -> (r: (NotificationItemInner, String))
    requires
        (match e {
            ActerEvent::TaskUpdate { due_date: Some(Some(d)), .. } => d.wf(),
            _ => true,
        }),
    ensures
        (match e {
            ActerEvent::Unsupported => r.0 == (NotificationItemInner::Fallback {
                device_id: *device_id,
                room_id: *room_id,
            }) && r.1 == default_title,
            _ => acter_class_ok(r.0, r.1, e, pobj, default_title),
        }),
{
    match e {
        ActerEvent::NewsEntry { event_id, room_id: ev_room, first_slide } => (
            NotificationItemInner::Boost { first_slide, event_id },
            default_title,
        ),
        ActerEvent::Comment { event_id, room_id: ev_room, on_id, content } => (
            NotificationItemInner::Comment {
                parent_obj: pobj,
                parent_id: on_id,
                room_id: ev_room,
                event_id,
                content,
            },
            default_title,
        ),
        ActerEvent::Reaction { event_id, room_id: ev_room, relates_to_id, key } => (
            NotificationItemInner::Reaction {
                parent_obj: pobj,
                parent_id: relates_to_id,
                room_id: ev_room,
                event_id,
                key,
            },
            default_title,
        ),
        ActerEvent::Pin { event_id, room_id: ev_room, title } => (
            NotificationItemInner::Creation {
                parent_obj: NotificationItemParent::Pin {
                    parent_id: event_id.clone(),
                    title: title.clone(),
                },
                room_id: ev_room,
                event_id,
            },
            title,
        ),
        ActerEvent::PinUpdate { event_id, room_id: ev_room, pin_id, title, content } => {
            match title {
                Some(t) => (
                    NotificationItemInner::TitleChange {
                        parent_obj: pobj,
                        parent_id: pin_id,
                        room_id: ev_room,
                        event_id,
                    },
                    t,
                ),
                None => match content {
                    Some(c) => (
                        NotificationItemInner::DescriptionChange {
                            parent_obj: pobj,
                            parent_id: pin_id,
                            room_id: ev_room,
                            event_id,
                            content: c,
                        },
                        default_title,
                    ),
                    None => (
                        NotificationItemInner::OtherChanges {
                            parent_obj: pobj,
                            parent_id: pin_id,
                            room_id: ev_room,
                            event_id,
                        },
                        default_title,
                    ),
                },
            }
        },
        ActerEvent::CalendarEvent { event_id, room_id: ev_room, title } => (
            NotificationItemInner::Creation {
                parent_obj: NotificationItemParent::CalendarEvent {
                    parent_id: event_id.clone(),
                    title: title.clone(),
                },
                room_id: ev_room,
                event_id,
            },
            title,
        ),
        ActerEvent::CalendarEventUpdate {
            event_id,
            room_id: ev_room,
            calendar_event_id,
            title,
            description,
            utc_start,
            utc_end,
        } => {
            match title {
                Some(t) => (
                    NotificationItemInner::TitleChange {
                        parent_obj: pobj,
                        parent_id: calendar_event_id,
                        room_id: ev_room,
                        event_id,
                    },
                    t,
                ),
                None => match description {
                    Some(c) => (
                        NotificationItemInner::DescriptionChange {
                            parent_obj: pobj,
                            parent_id: calendar_event_id,
                            room_id: ev_room,
                            event_id,
                            content: c,
                        },
                        default_title,
                    ),
                    None => match utc_start {
                        Some(d) => (
                            NotificationItemInner::EventDateChange {
                                parent_obj: pobj,
                                parent_id: calendar_event_id,
                                room_id: ev_room,
                                event_id,
                                new_date: d,
                            },
                            default_title,
                        ),
                        None => match utc_end {
                            Some(d) => (
                                NotificationItemInner::EventDateChange {
                                    parent_obj: pobj,
                                    parent_id: calendar_event_id,
                                    room_id: ev_room,
                                    event_id,
                                    new_date: d,
                                },
                                default_title,
                            ),
                            None => (
                                NotificationItemInner::OtherChanges {
                                    parent_obj: pobj,
                                    parent_id: calendar_event_id,
                                    room_id: ev_room,
                                    event_id,
                                },
                                default_title,
                            ),
                        },
                    },
                },
            }
        },
        ActerEvent::Rsvp { event_id, room_id: ev_room, to_id, status } => (
            NotificationItemInner::Rsvp {
                parent_obj: pobj,
                parent_id: to_id,
                room_id: ev_room,
                event_id,
                rsvp: status,
            },
            default_title,
        ),
        ActerEvent::TaskList { event_id, room_id: ev_room, name } => (
            NotificationItemInner::Creation {
                parent_obj: NotificationItemParent::TaskList {
                    parent_id: event_id.clone(),
                    title: name.clone(),
                },
                room_id: ev_room,
                event_id,
            },
            name,
        ),
        ActerEvent::TaskListUpdate {
            event_id,
            room_id: ev_room,
            task_list_id,
            name,
            description,
        } => {
            match name {
                Some(t) => (
                    NotificationItemInner::TitleChange {
                        parent_obj: pobj,
                        parent_id: task_list_id,
                        room_id: ev_room,
                        event_id,
                    },
                    t,
                ),
                None => match description {
                    Some(c) => (
                        NotificationItemInner::DescriptionChange {
                            parent_obj: pobj,
                            parent_id: task_list_id,
                            room_id: ev_room,
                            event_id,
                            content: c,
                        },
                        default_title,
                    ),
                    None => (
                        NotificationItemInner::OtherChanges {
                            parent_obj: pobj,
                            parent_id: task_list_id,
                            room_id: ev_room,
                            event_id,
                        },
                        default_title,
                    ),
                },
            }
        },
        ActerEvent::Task { event_id, room_id: ev_room, task_list_id, title } => (
            NotificationItemInner::TaskAdd {
                parent_obj: pobj,
                parent_id: task_list_id,
                room_id: ev_room,
                event_id,
            },
            title,
        ),
        ActerEvent::TaskUpdate {
            event_id,
            room_id: ev_room,
            task_id,
            title,
            description,
            due_date,
            progress_percent,
        } => {
            match title {
                Some(t) => (
                    NotificationItemInner::TitleChange {
                        parent_obj: pobj,
                        parent_id: task_id,
                        room_id: ev_room,
                        event_id,
                    },
                    t,
                ),
                None => match description {
                    Some(c) => (
                        NotificationItemInner::DescriptionChange {
                            parent_obj: pobj,
                            parent_id: task_id,
                            room_id: ev_room,
                            event_id,
                            content: c,
                        },
                        default_title,
                    ),
                    None => match due_date {
                        Some(dd) => {
                            let title: String = match &dd {
                                Some(date) => format_ymd(date.year, date.month, date.day),
                                None => String::from_str("removed due date"),
                            };
                            (
                                NotificationItemInner::TaskDueDateChange {
                                    parent_obj: pobj,
                                    parent_id: task_id,
                                    room_id: ev_room,
                                    event_id,
                                    new_due_date: dd,
                                },
                                title,
                            )
                        },
                        None => match progress_percent {
                            Some(p) => (
                                NotificationItemInner::TaskProgress {
                                    parent_obj: pobj,
                                    parent_id: task_id,
                                    room_id: ev_room,
                                    event_id,
                                    done: (match p {
                                        Some(pct) => pct >= 100,
                                        None => false,
                                    }),
                                },
                                default_title,
                            ),
                            None => (
                                NotificationItemInner::OtherChanges {
                                    parent_obj: pobj,
                                    parent_id: task_id,
                                    room_id: ev_room,
                                    event_id,
                                },
                                default_title,
                            ),
                        },
                    },
                },
            }
        },
        ActerEvent::RedactObject { event_id, room_id: ev_room, object_id } => (
            NotificationItemInner::Redaction {
                parent_obj: pobj,
                parent_id: object_id,
                room_id: ev_room,
                event_id,
            },
            default_title,
        ),
        ActerEvent::Unsupported => (
            NotificationItemInner::Fallback {
                device_id: device_id.clone(),
                room_id: room_id.clone(),
            },
            default_title,
        ),
    }
}

/// Law: for a domain-object update event with several changed fields, the
/// classification is decided by the highest field in the precedence chain
/// — title, then description, then dates, then progress — and the rest
/// are ignored.
pub proof fn lemma_update_field_precedence(
    inner: NotificationItemInner,
    title: String,
    e: ActerEvent,
    pobj: Option<NotificationItemParent>,
    dt: String,
)
    requires
        acter_class_ok(inner, title, e, pobj, dt),
    ensures
        (e matches ActerEvent::PinUpdate { title: Some(_), .. } ==> inner is TitleChange),
        (e matches ActerEvent::PinUpdate { title: None, content: Some(_), .. } ==> inner
            is DescriptionChange),
        (e matches ActerEvent::CalendarEventUpdate { title: Some(_), .. } ==> inner
            is TitleChange),
        (e matches ActerEvent::CalendarEventUpdate { title: None, description: Some(_), .. }
            ==> inner is DescriptionChange),
        (e matches ActerEvent::CalendarEventUpdate {
            title: None,
            description: None,
            utc_start: Some(_),
            ..
        } ==> inner is EventDateChange),
        (e matches ActerEvent::CalendarEventUpdate {
            title: None,
            description: None,
            utc_start: None,
            utc_end: Some(_),
            ..
        } ==> inner is EventDateChange),
        (e matches ActerEvent::TaskListUpdate { name: Some(_), .. } ==> inner is TitleChange),
        (e matches ActerEvent::TaskListUpdate { name: None, description: Some(_), .. } ==> inner
            is DescriptionChange),
        (e matches ActerEvent::TaskUpdate { title: Some(_), .. } ==> inner is TitleChange),
        (e matches ActerEvent::TaskUpdate { title: None, description: Some(_), .. } ==> inner
            is DescriptionChange),
        (e matches ActerEvent::TaskUpdate {
            title: None,
            description: None,
            due_date: Some(_),
            ..
        } ==> inner is TaskDueDateChange),
        (e matches ActerEvent::TaskUpdate {
            title: None,
            description: None,
            due_date: None,
            progress_percent: Some(_),
            ..
        } ==> inner is TaskProgress),
{
}

/// Law: every classification's target URL is a rooted path, and parent
/// resolution failure only degrades the URL to the generic forward form
/// built from raw identifiers — the notification keeps a usable target
/// either way.
pub proof fn lemma_target_url_total(i: NotificationItemInner)
    ensures
        inner_target_url(i).len() > 0,
        inner_target_url(i)[0] == '/',
        (match i {
            NotificationItemInner::TitleChange { parent_obj: None, parent_id, room_id, event_id } => {
                inner_target_url(i) == forward_url(event_id, room_id, parent_id)
            },
            NotificationItemInner::Redaction { parent_obj: None, parent_id, room_id, event_id } => {
                inner_target_url(i) == forward_url(event_id, room_id, parent_id)
            },
            NotificationItemInner::Comment { parent_obj: None, parent_id, room_id, event_id, .. } => {
                inner_target_url(i) == forward_url(event_id, room_id, parent_id)
            },
            NotificationItemInner::Reaction { parent_obj: None, parent_id, room_id, event_id, .. } => {
                inner_target_url(i) == forward_url(event_id, room_id, parent_id)
            },
            _ => true,
        }),
{
    reveal_strlit("/forward?deviceId=");
    reveal_strlit("/forward?eventId=");
    reveal_strlit("/activities/invites");
    reveal_strlit("/chat/");
    reveal_strlit("/updates/");
    reveal_strlit("/pins/");
    reveal_strlit("/tasks/");
    reveal_strlit("/events/");
    match i {
        NotificationItemInner::Creation { parent_obj, .. } => {
            lemma_parent_url_rooted(parent_obj);
        },
        NotificationItemInner::TitleChange { parent_obj, .. } => {
            lemma_opt_parent_url_rooted(parent_obj);
        },
        NotificationItemInner::DescriptionChange { parent_obj, .. } => {
            lemma_opt_parent_url_rooted(parent_obj);
        },
        NotificationItemInner::EventDateChange { parent_obj, .. } => {
            lemma_opt_parent_url_rooted(parent_obj);
        },
        NotificationItemInner::Rsvp { parent_obj, .. } => {
            lemma_opt_parent_url_rooted(parent_obj);
        },
        NotificationItemInner::TaskProgress { parent_obj, .. } => {
            lemma_opt_parent_url_rooted(parent_obj);
        },
        NotificationItemInner::TaskDueDateChange { parent_obj, .. } => {
            lemma_opt_parent_url_rooted(parent_obj);
        },
        NotificationItemInner::Redaction { parent_obj, .. } => {
            lemma_opt_parent_url_rooted(parent_obj);
        },
        NotificationItemInner::OtherChanges { parent_obj, .. } => {
            lemma_opt_parent_url_rooted(parent_obj);
        },
        NotificationItemInner::Comment { parent_obj, .. } => {
            lemma_opt_parent_url_rooted(parent_obj);
        },
        NotificationItemInner::Reaction { parent_obj, .. } => {
            lemma_opt_parent_url_rooted(parent_obj);
        },
        _ => {},
    }
}

proof fn lemma_parent_url_rooted(p: NotificationItemParent)
    ensures
        parent_url(p).len() > 0,
        parent_url(p)[0] == '/',
{
    reveal_strlit("/updates/");
    reveal_strlit("/pins/");
    reveal_strlit("/tasks/");
    reveal_strlit("/events/");
}

proof fn lemma_opt_parent_url_rooted(p: Option<NotificationItemParent>)
    ensures
        (match p {
            Some(pp) => parent_url(pp).len() > 0 && parent_url(pp)[0] == '/',
            None => true,
        }),
{
    match p {
        Some(pp) => lemma_parent_url_rooted(pp),
        None => {},
    }
}

} // verus!
