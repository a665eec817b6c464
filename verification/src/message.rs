//! The compact message summary: a flat per-event record with an optional
//! content block, media descriptions, and the reply-quote stripping that
//! cleans a formatted body for display.

use vstd::prelude::*;

use vstd::string::StrSliceExecFns;

use crate::content::{clone_opt_string, FormattedBody, MsgPayload};
use crate::events::{Relation, SyncEvent, SyncEventContent};
use crate::live::{TimelineContentModel, TimelineEventModel, TimelineItemModel};

verus! {

/// What is known about an image attachment.
#[derive(Debug)]
pub struct ImageDescription {
    pub name: String,
    pub mimetype: Option<String>,
    pub size: Option<u64>,
    pub width: Option<u64>,
    pub height: Option<u64>,
}

impl Clone for ImageDescription {
    fn clone(&self) -> (res: Self)
        ensures
            res == *self,
    {
        ImageDescription {
            name: self.name.clone(),
            mimetype: clone_opt_string(&self.mimetype),
            size: self.size,
            width: self.width,
            height: self.height,
        }
    }
}

impl ImageDescription {
    pub fn new(
        name: String,
        mimetype: Option<String>,
        size: Option<u64>,
        width: Option<u64>,
        height: Option<u64>,
    ) -> (r: ImageDescription)
        ensures
            r == (ImageDescription { name, mimetype, size, width, height }),
    {
        ImageDescription { name, mimetype, size, width, height }
    }

    pub fn name(&self) -> (r: String)
        ensures
            r@ == self.name@,
    {
        self.name.clone()
    }

    pub fn mimetype(&self) -> (r: Option<String>)
        ensures
            r == self.mimetype,
    {
        clone_opt_string(&self.mimetype)
    }

    pub fn size(&self) -> (r: Option<u64>)
        ensures
            r == self.size,
    {
        self.size
    }

    pub fn width(&self) -> (r: Option<u64>)
        ensures
            r == self.width,
    {
        self.width
    }

    pub fn height(&self) -> (r: Option<u64>)
        ensures
            r == self.height,
    {
        self.height
    }
}

/// What is known about a file attachment.
#[derive(Debug)]
pub struct FileDescription {
    pub name: String,
    pub mimetype: Option<String>,
    pub size: Option<u64>,
}

impl Clone for FileDescription {
    fn clone(&self) -> (res: Self)
        ensures
            res == *self,
    {
        FileDescription {
            name: self.name.clone(),
            mimetype: clone_opt_string(&self.mimetype),
            size: self.size,
        }
    }
}

impl FileDescription {
    pub fn new(name: String, mimetype: Option<String>, size: Option<u64>) -> (r: FileDescription)
        ensures
            r == (FileDescription { name, mimetype, size }),
    {
        FileDescription { name, mimetype, size }
    }

    pub fn name(&self) -> (r: String)
        ensures
            r@ == self.name@,
    {
        self.name.clone()
    }

    pub fn mimetype(&self) -> (r: Option<String>)
        ensures
            r == self.mimetype,
    {
        clone_opt_string(&self.mimetype)
    }

    pub fn size(&self) -> (r: Option<u64>)
        ensures
            r == self.size,
    {
        self.size
    }
}

/// The content block of a message summary.
#[derive(Debug)]
pub struct RoomMessageContent {
    pub msgtype: String,
    pub body: String,
    pub formatted_body: Option<String>,
    pub image_description: Option<ImageDescription>,
    pub file_description: Option<FileDescription>,
    pub replying: bool,
}

impl Clone for RoomMessageContent {
    fn clone(&self) -> (res: Self)
        ensures
            res == *self,
    {
        let image_description = match &self.image_description {
            Some(d) => Some(d.clone()),
            None => None,
        };
        let file_description = match &self.file_description {
            Some(d) => Some(d.clone()),
            None => None,
        };
        RoomMessageContent {
            msgtype: self.msgtype.clone(),
            body: self.body.clone(),
            formatted_body: clone_opt_string(&self.formatted_body),
            image_description,
            file_description,
            replying: self.replying,
        }
    }
}

impl RoomMessageContent {
    pub fn set_body(&mut self, text: String)
        ensures
            *final(self) == (RoomMessageContent { body: text, ..*old(self) }),
    {
        self.body = text;
    }
}

/// The formatted body a summary keeps: only an HTML rendering.
pub open spec fn html_formatted(f: Option<FormattedBody>) -> Option<String> {
    match f {
        Some(fb) => if fb.html {
            Some(fb.body)
        } else {
            None
        },
        None => None,
    }
}

/// The image description derived from an image payload with metadata.
pub open spec fn image_desc_of(p: MsgPayload) -> Option<ImageDescription> {
    match p {
        MsgPayload::Image(c) => match c.info {
            Some(i) => Some(
                ImageDescription {
                    name: c.body,
                    mimetype: i.mimetype,
                    size: i.size,
                    width: i.width,
                    height: i.height,
                },
            ),
            None => None,
        },
        _ => None,
    }
}

/// The file description derived from a file payload with metadata.
pub open spec fn file_desc_of(p: MsgPayload) -> Option<FileDescription> {
    match p {
        MsgPayload::File(c) => match c.info {
            Some(i) => Some(
                FileDescription { name: c.body, mimetype: i.mimetype, size: i.size },
            ),
            None => None,
        },
        _ => None,
    }
}

/// The content block a message payload summarizes to: its kind string and
/// body, the HTML formatted body of a text message, and media
/// descriptions when their metadata is present.
pub open spec fn summary_content_ok(c: RoomMessageContent, p: MsgPayload, replying: bool) -> bool {
    &&& c.msgtype@ == p.msgtype_spec()
    &&& c.body@ == p.body_spec()
    &&& (match p {
        MsgPayload::Text(t) => c.formatted_body == html_formatted(t.formatted),
        _ => c.formatted_body is None,
    })
    &&& c.image_description == image_desc_of(p)
    &&& c.file_description == file_desc_of(p)
    &&& c.replying == replying
}

/// A compact summary of one message event.
#[derive(Debug)]
pub struct RoomMessage {
    pub event_id: String,
    pub room_id: String,
    pub sender: String,
    pub origin_server_ts: Option<u64>,
    pub content: Option<RoomMessageContent>,
}

impl Clone for RoomMessage {
    fn clone(&self) -> (res: Self)
        ensures
            res == *self,
    {
        let content = match &self.content {
            Some(c) => Some(c.clone()),
            None => None,
        };
        RoomMessage {
            event_id: self.event_id.clone(),
            room_id: self.room_id.clone(),
            sender: self.sender.clone(),
            origin_server_ts: self.origin_server_ts,
            content,
        }
    }
}

fn build_summary_content(p: &MsgPayload, replying: bool) -> (c: RoomMessageContent)
    ensures
        summary_content_ok(c, *p, replying),
{
    let formatted_body: Option<String> = match p {
        MsgPayload::Text(t) => match &t.formatted {
            Some(f) => if f.html {
                Some(f.body.clone())
            } else {
                None
            },
            None => None,
        },
        _ => None,
    };
    let image_description: Option<ImageDescription> = match p {
        MsgPayload::Image(c) => match &c.info {
            Some(i) => Some(
                ImageDescription {
                    name: c.body.clone(),
                    mimetype: clone_opt_string(&i.mimetype),
                    size: i.size,
                    width: i.width,
                    height: i.height,
                },
            ),
            None => None,
        },
        _ => None,
    };
    let file_description: Option<FileDescription> = match p {
        MsgPayload::File(c) => match &c.info {
            Some(i) => Some(
                FileDescription {
                    name: c.body.clone(),
                    mimetype: clone_opt_string(&i.mimetype),
                    size: i.size,
                },
            ),
            None => None,
        },
        _ => None,
    };
    let body: String = match p {
        MsgPayload::Text(t) => t.body.clone(),
        MsgPayload::Emote(t) => t.body.clone(),
        MsgPayload::Notice(t) => t.body.clone(),
        MsgPayload::ServerNotice(t) => t.body.clone(),
        MsgPayload::Image(c) => c.body.clone(),
        MsgPayload::Audio(c) => c.body.clone(),
        MsgPayload::Video(c) => c.body.clone(),
        MsgPayload::File(c) => c.body.clone(),
        MsgPayload::Location(c) => c.body.clone(),
        MsgPayload::Other { body, .. } => body.clone(),
    };
    RoomMessageContent {
        msgtype: p.msgtype(),
        body,
        formatted_body,
        image_description,
        file_description,
        replying,
    }
}

impl RoomMessage {
    pub fn new(
        event_id: String,
        room_id: String,
        sender: String,
        origin_server_ts: Option<u64>,
        content: Option<RoomMessageContent>,
    ) -> (r: RoomMessage)
        ensures
            r == (RoomMessage { event_id, room_id, sender, origin_server_ts, content }),
    {
        RoomMessage { event_id, room_id, sender, origin_server_ts, content }
    }

    /// Summarizes a message event.
    pub fn from_original(event: &SyncEvent, room_id: String) -> (r: RoomMessage)
        requires
            event.content matches SyncEventContent::RoomMessage { .. },
        ensures
            r.event_id@ == event.event_id@,
            r.room_id@ == room_id@,
            r.sender@ == event.sender@,
            r.origin_server_ts == Some(event.origin_server_ts),
            (match (r.content, event.content) {
                (Some(c), SyncEventContent::RoomMessage { msgtype, relates_to }) => {
                    summary_content_ok(
                        c,
                        msgtype,
                        relates_to matches Some(Relation::Reply { .. }),
                    )
                },
                _ => false,
            }),
    {
        match &event.content {
            SyncEventContent::RoomMessage { msgtype, relates_to } => {
                let replying = match relates_to {
                    Some(Relation::Reply { .. }) => true,
                    _ => false,
                };
                RoomMessage {
                    event_id: event.event_id.clone(),
                    room_id,
                    sender: event.sender.clone(),
                    origin_server_ts: Some(event.origin_server_ts),
                    content: Some(build_summary_content(msgtype, replying)),
                }
            },
            _ => vstd::pervasive::unreached(),
        }
    }

    /// Summarizes an encrypted event whose payload is not available: the
    /// content block is a fixed placeholder.
    pub fn from_timeline_event(event: &SyncEvent, room_id: String) -> (r: RoomMessage)
        requires
            event.content matches SyncEventContent::RoomEncrypted { .. },
        ensures
            r.event_id@ == event.event_id@,
            r.room_id@ == room_id@,
            r.sender@ == event.sender@,
            r.origin_server_ts == Some(event.origin_server_ts),
            (match r.content {
                Some(c) => c.msgtype@ == "m.room.encrypted"@ && c.body@
                    == "OriginalSyncRoomEncryptedEvent"@ && c.formatted_body is None
                    && c.image_description is None && c.file_description is None && !c.replying,
                None => false,
            }),
    {
        RoomMessage {
            event_id: event.event_id.clone(),
            room_id,
            sender: event.sender.clone(),
            origin_server_ts: Some(event.origin_server_ts),
            content: Some(
                RoomMessageContent {
                    msgtype: String::from_str("m.room.encrypted"),
                    body: String::from_str("OriginalSyncRoomEncryptedEvent"),
                    formatted_body: None,
                    image_description: None,
                    file_description: None,
                    replying: false,
                },
            ),
        }
    }

    /// Summarizes a live timeline record: a message yields a content
    /// block, anything else (redacted and degraded records) none.
    pub fn from_timeline_item(event: &TimelineEventModel, room_id: String) -> (r: RoomMessage)
        ensures
            r.room_id@ == room_id@,
            r.sender@ == event.sender@,
            r.origin_server_ts == Some(event.timestamp),
            (match event.event_id {
                Some(e) => r.event_id@ == e@,
                None => (match event.transaction_id {
                    Some(t) => r.event_id@ == t@,
                    None => r.event_id@ == Seq::<char>::empty(),
                }),
            }),
            (match (r.content, event.content) {
                (Some(c), TimelineContentModel::Message(m)) => summary_content_ok(
                    c,
                    m.msgtype,
                    m.in_reply_to is Some,
                ),
                (None, TimelineContentModel::Message(_)) => false,
                (None, _) => true,
                _ => false,
            }),
    {
        let event_id: String = match &event.event_id {
            Some(e) => e.clone(),
            None => match &event.transaction_id {
                Some(t) => t.clone(),
                None => String::new(),
            },
        };
        let content: Option<RoomMessageContent> = match &event.content {
            TimelineContentModel::Message(m) => {
                let replying = m.in_reply_to.is_some();
                Some(build_summary_content(&m.msgtype, replying))
            },
            _ => None,
        };
        RoomMessage {
            event_id,
            room_id,
            sender: event.sender.clone(),
            origin_server_ts: Some(event.timestamp),
            content,
        }
    }

    pub fn event_id(&self) -> (r: String)
        ensures
            r@ == self.event_id@,
    {
        self.event_id.clone()
    }

    pub fn room_id(&self) -> (r: String)
        ensures
            r@ == self.room_id@,
    {
        self.room_id.clone()
    }

    pub fn sender(&self) -> (r: String)
        ensures
            r@ == self.sender@,
    {
        self.sender.clone()
    }

    pub fn origin_server_ts(&self) -> (r: Option<u64>)
        ensures
            r == self.origin_server_ts,
    {
        self.origin_server_ts
    }

    /// A summary without a content block could not be decrypted.
    pub fn undecrypted(&self) -> (r: bool)
        ensures
            r == (self.content is None),
    {
        self.content.is_none()
    }

    pub fn msgtype(&self) -> (r: Option<String>)
        ensures
            (match self.content {
                Some(c) => (match r {
                    Some(t) => t@ == c.msgtype@,
                    None => false,
                }),
                None => r is None,
            }),
    {
        match &self.content {
            Some(c) => Some(c.msgtype.clone()),
            None => None,
        }
    }

    pub fn body(&self) -> (r: Option<String>)
        ensures
            (match self.content {
                Some(c) => (match r {
                    Some(b) => b@ == c.body@,
                    None => false,
                }),
                None => r is None,
            }),
    {
        match &self.content {
            Some(c) => Some(c.body.clone()),
            None => None,
        }
    }

    pub fn formatted_body(&self) -> (r: Option<String>)
        ensures
            (match self.content {
                Some(c) => r == c.formatted_body,
                None => r is None,
            }),
    {
        match &self.content {
            Some(c) => clone_opt_string(&c.formatted_body),
            None => None,
        }
    }

    pub fn image_description(&self) -> (r: Option<ImageDescription>)
        ensures
            (match self.content {
                Some(c) => r == c.image_description,
                None => r is None,
            }),
    {
        match &self.content {
            Some(c) => match &c.image_description {
                Some(d) => Some(d.clone()),
                None => None,
            },
            None => None,
        }
    }

    pub fn file_description(&self) -> (r: Option<FileDescription>)
        ensures
            (match self.content {
                Some(c) => r == c.file_description,
                None => r is None,
            }),
    {
        match &self.content {
            Some(c) => match &c.file_description {
                Some(d) => Some(d.clone()),
                None => None,
            },
            None => None,
        }
    }

    pub fn replying(&self) -> (r: Option<bool>)
        ensures
            (match self.content {
                Some(c) => r == Some(c.replying),
                None => r is None,
            }),
    {
        match &self.content {
            Some(c) => Some(c.replying),
            None => None,
        }
    }

    /// Replaces the body with the formatted body stripped of its leading
    /// reply quote, when a formatted body exists.
    pub fn simplify_body(&mut self)
        ensures
            *final(self) == (RoomMessage { content: final(self).content, ..*old(self) }),
            (match (old(self).content, final(self).content) {
                (Some(c), Some(d)) => (match c.formatted_body {
                    Some(f) => d == (RoomMessageContent { body: d.body, ..c }) && stripped_ok(
                        f@,
                        d.body@,
                    ),
                    None => d == c,
                }),
                (None, None) => true,
                _ => false,
            }),
    {
        if let Some(content) = &mut self.content {
            let stripped: Option<String> = match &content.formatted_body {
                Some(f) => Some(strip_reply(f.as_str())),
                None => None,
            };
            if let Some(text) = stripped {
                content.set_body(text);
            }
        }
    }
}

/// The text starts with the opening reply tag.
pub open spec fn is_reply_prefixed(t: Seq<char>) -> bool {
    t.len() >= 10 && t.subrange(0, 10) == "<mx-reply>"@
}

/// The closing reply tag (followed by one space) stands at `k`, leaving at
/// least one character inside the quote.
pub open spec fn close_tag_at(t: Seq<char>, k: int) -> bool {
    11 <= k && k + 12 <= t.len() && t.subrange(k, k + 12) == "</mx-reply> "@
}

/// The result of stripping a leading reply quote: when the text opens with
/// the reply tag and a closing tag exists, everything through the last
/// closing tag is removed; otherwise the text is unchanged.
pub open spec fn stripped_ok(t: Seq<char>, r: Seq<char>) -> bool {
    if is_reply_prefixed(t) && (exists|k: int| close_tag_at(t, k)) {
        exists|k: int|
            close_tag_at(t, k) && r == t.subrange(k + 12, t.len() as int) && (forall|j: int|
                j > k ==> !close_tag_at(t, j))
    } else {
        r == t
    }
}

/// Strips the leading reply quote from a formatted body.
pub fn strip_reply(formatted: &str) -> (r: String)
    ensures
        stripped_ok(formatted@, r@),
{
    let chars = crate::text::str_chars(formatted);
    let open_pat = crate::text::str_chars("<mx-reply>");
    let close_pat = crate::text::str_chars("</mx-reply> ");
    let n = chars.len();
    proof {
        reveal_strlit("<mx-reply>");
        reveal_strlit("</mx-reply> ");
    }
    if n < 10 || !crate::text::window_eq(&chars, 0, &open_pat) {
        proof {
            assert(!is_reply_prefixed(formatted@));
        }
        return formatted.to_owned();
    }
    if n < 23 {
        proof {
            assert forall|k: int| !close_tag_at(formatted@, k) by {}
        }
        return formatted.to_owned();
    }
    proof {
        assert(close_pat@.len() == 12);
    }
    let mut best: Option<usize> = None;
    let limit = n - 12;
    let mut k: usize = 11;
    while k <= limit
        invariant
            11 <= k <= limit + 1,
            limit == n - 12,
            23 <= n,
            n == chars@.len(),
            chars@ == formatted@,
            close_pat@ == "</mx-reply> "@,
            close_pat@.len() == 12,
            (match best {
                Some(b) => 11 <= b && b + 12 <= n && close_tag_at(formatted@, b as int) && (forall|
                    j: int,
                |
                    b < j < k ==> !close_tag_at(formatted@, j)),
                None => forall|j: int| j < k ==> !close_tag_at(formatted@, j),
            }),
        decreases limit + 1 - k,
    {
        if crate::text::window_eq(&chars, k, &close_pat) {
            best = Some(k);
        }
        k = k + 1;
    }
    proof {
        assert forall|j: int| j >= k ==> !close_tag_at(formatted@, j) by {}
    }
    match best {
        Some(b) => {
            let out = formatted.substring_char(b + 12, n).to_owned();
            proof {
                let t = formatted@;
                assert(close_tag_at(t, b as int));
                assert(forall|j: int| j > b ==> !close_tag_at(t, j));
            }
            out
        },
        None => {
            proof {
                assert(forall|j: int| !close_tag_at(formatted@, j));
            }
            formatted.to_owned()
        },
    }
}

/// Summarizes any protocol event: only message events yield a summary.
pub fn sync_event_to_message(event: &SyncEvent, room_id: String) -> (r: Option<RoomMessage>)
    ensures
        r is Some <==> event.content is RoomMessage,
        (match r {
            Some(m) => m.event_id@ == event.event_id@ && m.room_id@ == room_id@ && m.sender@
                == event.sender@ && m.content is Some,
            None => true,
        }),
{
    match &event.content {
        SyncEventContent::RoomMessage { .. } => Some(RoomMessage::from_original(event, room_id)),
        _ => None,
    }
}

/// Summarizes a live timeline entry: only event entries yield a summary.
pub fn timeline_item_to_message(item: &TimelineItemModel, room_id: String) -> (r: Option<
    RoomMessage,
>)
    ensures
        r is Some <==> item is Event,
        (match (r, item) {
            (Some(m), TimelineItemModel::Event(ev)) => m.room_id@ == room_id@ && m.sender@
                == ev.sender@,
            (None, _) => true,
            _ => false,
        }),
{
    match item {
        TimelineItemModel::Event(ev) => Some(RoomMessage::from_timeline_item(ev, room_id)),
        TimelineItemModel::Virtual(_) => None,
    }
}

} // verus!
