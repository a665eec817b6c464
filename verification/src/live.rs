//! Projection of the richer live-timeline records: unlike the bare sync
//! path this sees local echoes, send states, receipts, reactions and the
//! latest edit of a message, and it is total — every record, including
//! redacted, undecryptable or unparseable ones, yields a feed item.

use vstd::prelude::*;

use crate::content::{
    descriptor_of, fallback_of, is_fallback_text_desc, msg_desc_ok, build_msg_desc, ContentDesc,
    ImageContent, MsgPayload, clone_opt_string,
};
use crate::text::{civil_date_from_ms, civil_date_of, format_ymd, ymd_str, MAX_CIVIL_MS};
use crate::timeline::{
    receipts_unique, reactions_unique, send_state_info_ok, RoomEventItem, RoomMessage,
    RoomVirtualItem, ReactionRecord, SendState, UserReceipt,
};

verus! {

/// One sender of a reaction, as the live timeline reports it.
#[derive(Debug)]
pub struct ReactionSenderModel {
    pub sender_id: String,
    pub timestamp: u64,
}

/// One reaction key with everyone who reacted under it.
#[derive(Debug)]
pub struct ReactionGroupModel {
    pub key: String,
    pub senders: Vec<ReactionSenderModel>,
}

/// No two reaction groups under the same key.
pub open spec fn groups_unique(s: Seq<ReactionGroupModel>) -> bool {
    forall|i: int, j: int|
        #![trigger s[i].key, s[j].key]
        0 <= i < j < s.len() ==> s[i].key@ != s[j].key@
}

/// The membership transition a live member record reports.
#[derive(Clone, Copy, Debug, PartialEq, Eq, Structural)]
pub enum MembershipChangeKind {
    NoChange,
    ChangeError,
    Joined,
    Left,
    Banned,
    Unbanned,
    Kicked,
    Invited,
    KickedAndBanned,
    InvitationAccepted,
    InvitationRejected,
    InvitationRevoked,
    Knocked,
    KnockAccepted,
    KnockRetracted,
    KnockDenied,
    NotImplemented,
}

/// An old and a new value of one profile field.
#[derive(Debug)]
pub struct FieldChange {
    pub old: Option<String>,
    pub new: Option<String>,
}

/// A profile change: which of the two profile fields changed, and how.
#[derive(Debug)]
pub struct ProfileChangeModel {
    pub displayname_change: Option<FieldChange>,
    pub avatar_url_change: Option<FieldChange>,
}

/// The message-specific part of a live record: the typed payload, reply
/// and edit state, and the payload of the latest edit when one exists.
#[derive(Debug)]
pub struct MessageDetails {
    pub msgtype: MsgPayload,
    pub in_reply_to: Option<String>,
    pub is_edited: bool,
    pub latest_edit: Option<MsgPayload>,
}

/// What a live timeline record holds: a message, or one of the degraded
/// shapes that project into a minimal item.
#[derive(Debug)]
pub enum TimelineContentModel {
    Message(MessageDetails),
    RedactedMessage,
    Sticker { content: ImageContent },
    UnableToDecrypt,
    MembershipChange { change: Option<MembershipChangeKind> },
    ProfileChange(ProfileChangeModel),
    OtherState { event_type: String },
    FailedToParseMessageLike { event_type: String },
    FailedToParseState { event_type: String },
    Poll { fallback_text: Option<String> },
}

/// A live timeline record: identity and echo state, sender, timestamp,
/// overlays, and the content.
#[derive(Debug)]
pub struct TimelineEventModel {
    pub is_local_echo: bool,
    pub send_state: Option<SendState>,
    pub transaction_id: Option<String>,
    pub event_id: Option<String>,
    pub sender: String,
    pub timestamp: u64,
    pub read_receipts: Vec<UserReceipt>,
    pub reactions: Vec<ReactionGroupModel>,
    pub content: TimelineContentModel,
}

impl TimelineEventModel {
    /// Receipt and reaction groups are keyed uniquely.
    pub open spec fn wf(&self) -> bool {
        receipts_unique(self.read_receipts@) && groups_unique(self.reactions@)
    }
}

/// A projector-synthesized boundary: a day divider at a timestamp, or the
/// read marker.
#[derive(Debug)]
pub enum VirtualItemModel {
    DayDivider { ts_ms: u64 },
    ReadMarker,
}

/// A live timeline entry: an event record or a virtual boundary.
#[derive(Debug)]
pub enum TimelineItemModel {
    Event(TimelineEventModel),
    Virtual(VirtualItemModel),
}

/// The view of an optional viewer identity.
pub open spec fn opt_view(o: Option<&String>) -> Option<Seq<char>> {
    match o {
        Some(s) => Some(s@),
        None => None,
    }
}

/// Whether the viewer is the sender.
pub open spec fn viewer_is_sender(my_id: Option<Seq<char>>, sender: Seq<char>) -> bool {
    match my_id {
        Some(me) => me == sender,
        None => false,
    }
}

/// The reaction records a group contributes: one per sender, `sent_by_me`
/// judged against the viewer.
pub open spec fn group_records(g: ReactionGroupModel, my_id: Option<Seq<char>>) -> Seq<
    ReactionRecord,
> {
    g.senders@.map_values(
        |x: ReactionSenderModel| ReactionRecord {
            sender_id: x.sender_id,
            timestamp: x.timestamp,
            sent_by_me: viewer_is_sender(my_id, x.sender_id@),
        },
    )
}

/// The event-type string a live record projects under.
pub open spec fn live_event_type(c: TimelineContentModel) -> Seq<char> {
    match c {
        TimelineContentModel::Message(_) => "m.room.message"@,
        TimelineContentModel::RedactedMessage => "m.room.redaction"@,
        TimelineContentModel::Sticker { .. } => "m.sticker"@,
        TimelineContentModel::UnableToDecrypt => "m.room.encrypted"@,
        TimelineContentModel::MembershipChange { .. } => "m.room.member"@,
        TimelineContentModel::ProfileChange(_) => "m.room.member"@,
        TimelineContentModel::OtherState { event_type } => event_type@,
        TimelineContentModel::FailedToParseMessageLike { event_type } => event_type@,
        TimelineContentModel::FailedToParseState { event_type } => event_type@,
        TimelineContentModel::Poll { .. } => "m.poll.start"@,
    }
}

/// How the projected item is identified: a local echo keeps its event id
/// only once acknowledged and its transaction id until then; anything else
/// carries the record's event id.
pub open spec fn live_identity_ok(item: RoomEventItem, ev: TimelineEventModel) -> bool {
    if ev.is_local_echo {
        match ev.send_state {
            Some(SendState::Sent { event_id }) => item.evt_id == Some(event_id) && item.txn_id
                is None,
            _ => item.evt_id is None && item.txn_id == ev.transaction_id,
        }
    } else {
        item.evt_id == ev.event_id && item.txn_id is None
    }
}

/// The send state is carried over exactly for local echoes and absent
/// otherwise.
pub open spec fn live_send_state_ok(item: RoomEventItem, ev: TimelineEventModel) -> bool {
    if ev.is_local_echo && ev.send_state is Some {
        match (item.send_state, ev.send_state) {
            (Some(s), Some(inner)) => send_state_info_ok(s, inner),
            _ => false,
        }
    } else {
        item.send_state is None
    }
}

/// What every live projection guarantees: an event entry in the room whose
/// item carries the record's identity, sender, timestamp, event type and
/// send state.
pub open spec fn live_base(r: RoomMessage, ev: TimelineEventModel, room_id: Seq<char>) -> bool {
    &&& r.item_type@ == "event"@
    &&& r.room_id@ == room_id
    &&& r.virtual_item is None
    &&& match r.event_item {
        Some(item) => {
            &&& live_identity_ok(item, ev)
            &&& item.sender == ev.sender
            &&& item.origin_server_ts == ev.timestamp
            &&& item.event_type@ == live_event_type(ev.content)
            &&& live_send_state_ok(item, ev)
            &&& item.wf()
        },
        None => false,
    }
}

/// A minimal item: no message kind, no descriptor, no overlays.
pub open spec fn minimal_overlays(item: RoomEventItem) -> bool {
    &&& item.msg_type is None
    &&& item.content_desc is None
    &&& item.in_reply_to is None
    &&& item.read_receipts@.len() == 0
    &&& item.reactions@.len() == 0
    &&& !item.editable
    &&& !item.edited
}

/// The descriptor a projected live message carries: derived from the
/// latest edit when that edit's structured descriptor can be built, else
/// from the original payload, else the fallback line — which itself comes
/// from the latest edit when one exists.
pub open spec fn live_msg_desc_ok(d: Option<ContentDesc>, m: MessageDetails) -> bool {
    match m.latest_edit {
        Some(e) => match descriptor_of(e) {
            Some(de) => d == Some(de),
            None => match descriptor_of(m.msgtype) {
                Some(d0) => d == Some(d0),
                None => is_fallback_text_desc(d, fallback_of(e, "Unknown timeline item"@)),
            },
        },
        None => msg_desc_ok(d, m.msgtype, "Unknown timeline item"@),
    }
}

/// The descriptor of a sticker: an image description from its payload.
pub open spec fn sticker_desc(c: ImageContent) -> ContentDesc {
    ContentDesc::Image {
        name: c.body,
        source: c.source,
        mimetype: match c.info {
            Some(i) => i.mimetype,
            None => None,
        },
        size: match c.info {
            Some(i) => i.size,
            None => None,
        },
        width: match c.info {
            Some(i) => i.width,
            None => None,
        },
        height: match c.info {
            Some(i) => i.height,
            None => None,
        },
        blurhash: match c.info {
            Some(i) => i.blurhash,
            None => None,
        },
    }
}

/// The kind tag of each live membership transition.
pub open spec fn live_member_tag(k: MembershipChangeKind) -> Seq<char> {
    match k {
        MembershipChangeKind::NoChange => "None"@,
        MembershipChangeKind::ChangeError => "Error"@,
        MembershipChangeKind::Joined => "Joined"@,
        MembershipChangeKind::Left => "Left"@,
        MembershipChangeKind::Banned => "Banned"@,
        MembershipChangeKind::Unbanned => "Unbanned"@,
        MembershipChangeKind::Kicked => "Kicked"@,
        MembershipChangeKind::Invited => "Invited"@,
        MembershipChangeKind::KickedAndBanned => "KickedAndBanned"@,
        MembershipChangeKind::InvitationAccepted => "InvitationAccepted"@,
        MembershipChangeKind::InvitationRejected => "InvitationRejected"@,
        MembershipChangeKind::InvitationRevoked => "InvitationRevoked"@,
        MembershipChangeKind::Knocked => "Knocked"@,
        MembershipChangeKind::KnockAccepted => "KnockAccepted"@,
        MembershipChangeKind::KnockRetracted => "KnockRetracted"@,
        MembershipChangeKind::KnockDenied => "KnockDenied"@,
        MembershipChangeKind::NotImplemented => "NotImplemented"@,
    }
}

/// The fixed sentence of each live membership transition.
pub open spec fn live_member_fallback(k: MembershipChangeKind) -> Seq<char> {
    match k {
        MembershipChangeKind::NoChange => "not changed membership"@,
        MembershipChangeKind::ChangeError => "error in membership change"@,
        MembershipChangeKind::Joined => "joined"@,
        MembershipChangeKind::Left => "left"@,
        MembershipChangeKind::Banned => "banned"@,
        MembershipChangeKind::Unbanned => "unbanned"@,
        MembershipChangeKind::Kicked => "kicked"@,
        MembershipChangeKind::Invited => "invited"@,
        MembershipChangeKind::KickedAndBanned => "kicked and banned"@,
        MembershipChangeKind::InvitationAccepted => "accepted invitation"@,
        MembershipChangeKind::InvitationRejected => "rejected invitation"@,
        MembershipChangeKind::InvitationRevoked => "revoked invitation"@,
        MembershipChangeKind::Knocked => "knocked"@,
        MembershipChangeKind::KnockAccepted => "accepted knock"@,
        MembershipChangeKind::KnockRetracted => "retracted knock"@,
        MembershipChangeKind::KnockDenied => "denied knock"@,
        MembershipChangeKind::NotImplemented => "not implemented change"@,
    }
}

/// The sentence for a display-name change.
pub open spec fn name_change_line(nc: FieldChange) -> Seq<char> {
    match (nc.old, nc.new) {
        (Some(o), Some(n)) => "changed name "@ + o@ + " -> "@ + n@,
        (None, Some(n)) => "set name to "@ + n@,
        (Some(_), None) => "removed name"@,
        (None, None) => "kept name unset"@,
    }
}

/// Holds when `d` is the fixed image descriptor of a new profile picture.
pub open spec fn is_new_picture_desc(d: Option<ContentDesc>, uri: String) -> bool {
    match d {
        Some(ContentDesc::Image { name, source, mimetype, size, width, height, blurhash }) => {
            &&& name@ == "new_picture"@
            &&& source == Some(uri)
            &&& mimetype is None
            &&& size is None
            &&& width is None
            &&& height is None
            &&& blurhash is None
        },
        _ => false,
    }
}

/// The descriptor of a profile change: the new picture when an avatar was
/// set, else the display-name sentence, else nothing.
pub open spec fn profile_desc_ok(d: Option<ContentDesc>, p: ProfileChangeModel) -> bool {
    match p.avatar_url_change {
        Some(av) => match av.new {
            Some(uri) => is_new_picture_desc(d, uri),
            None => name_desc_ok(d, p),
        },
        None => name_desc_ok(d, p),
    }
}

/// The display-name part of a profile-change descriptor.
pub open spec fn name_desc_ok(d: Option<ContentDesc>, p: ProfileChangeModel) -> bool {
    match p.displayname_change {
        Some(nc) => is_fallback_text_desc(d, name_change_line(nc)),
        None => d is None,
    }
}

/// Reaction groups copied onto an item: same keys in order, each group's
/// records derived from its senders.
pub open spec fn reactions_copied(
    out: Seq<crate::timeline::ReactionEntry>,
    groups: Seq<ReactionGroupModel>,
    my_id: Option<Seq<char>>,
) -> bool {
    &&& out.len() == groups.len()
    &&& forall|k: int|
        0 <= k < out.len() ==> (#[trigger] out[k]).key == groups[k].key && out[k].records@
            == group_records(groups[k], my_id)
}

/// What the projection of each live record kind guarantees beyond the
/// base: messages carry their kind, descriptor, reply, edit state,
/// editability and overlay snapshots; member and profile records their
/// fixed sentences; everything else a minimal item.
pub open spec fn live_projection_ok(
    r: RoomMessage,
    ev: TimelineEventModel,
    room_id: Seq<char>,
    my_id: Option<Seq<char>>,
) -> bool {
    &&& live_base(r, ev, room_id)
    &&& match r.event_item {
        Some(item) => match ev.content {
            TimelineContentModel::Message(m) => {
                &&& item.msg_type is Some
                &&& match item.msg_type {
                    Some(t) => t@ == m.msgtype.msgtype_spec(),
                    None => false,
                }
                &&& live_msg_desc_ok(item.content_desc, m)
                &&& item.in_reply_to == m.in_reply_to
                &&& item.edited == m.is_edited
                &&& item.editable == (viewer_is_sender(my_id, ev.sender@) && (m.msgtype is Text
                    || m.msgtype is Emote))
                &&& item.read_receipts@ == ev.read_receipts@
                &&& reactions_copied(item.reactions@, ev.reactions@, my_id)
            },
            TimelineContentModel::RedactedMessage => minimal_overlays(item),
            TimelineContentModel::Sticker { content } => {
                &&& item.content_desc == Some(sticker_desc(content))
                &&& item.msg_type is None
                &&& item.in_reply_to is None
                &&& item.read_receipts@.len() == 0
                &&& item.reactions@.len() == 0
                &&& !item.editable
                &&& !item.edited
            },
            TimelineContentModel::UnableToDecrypt => minimal_overlays(item),
            TimelineContentModel::MembershipChange { change } => {
                &&& match change {
                    Some(k) => item.msg_type is Some && (match item.msg_type {
                        Some(t) => t@ == live_member_tag(k),
                        None => false,
                    }) && is_fallback_text_desc(item.content_desc, live_member_fallback(k)),
                    None => item.msg_type is None && is_fallback_text_desc(
                        item.content_desc,
                        "unknown error"@,
                    ),
                }
                &&& item.in_reply_to is None
                &&& item.read_receipts@.len() == 0
                &&& item.reactions@.len() == 0
                &&& !item.editable
                &&& !item.edited
            },
            TimelineContentModel::ProfileChange(p) => {
                &&& item.msg_type is Some
                &&& match item.msg_type {
                    Some(t) => t@ == "ProfileChange"@,
                    None => false,
                }
                &&& profile_desc_ok(item.content_desc, p)
                &&& item.in_reply_to is None
                &&& item.read_receipts@.len() == 0
                &&& item.reactions@.len() == 0
                &&& !item.editable
                &&& !item.edited
            },
            TimelineContentModel::OtherState { .. } => minimal_overlays(item),
            TimelineContentModel::FailedToParseMessageLike { .. } => minimal_overlays(item),
            TimelineContentModel::FailedToParseState { .. } => minimal_overlays(item),
            TimelineContentModel::Poll { fallback_text } => {
                &&& match fallback_text {
                    Some(t) => is_fallback_text_desc(item.content_desc, t@),
                    None => item.content_desc is None,
                }
                &&& item.msg_type is None
                &&& item.in_reply_to is None
                &&& item.read_receipts@.len() == 0
                &&& item.reactions@.len() == 0
                &&& !item.editable
                &&& !item.edited
            },
        },
        None => false,
    }
}

/// Law: projection of a live record is total — whatever the record holds,
/// the result is an event entry that keeps the record's sender and
/// timestamp, so no input makes the feed path fail.
pub proof fn lemma_live_projection_total(
    r: RoomMessage,
    ev: TimelineEventModel,
    room_id: Seq<char>,
    my_id: Option<Seq<char>>,
)
    requires
        live_projection_ok(r, ev, room_id, my_id),
    ensures
        r.event_item is Some,
        r.item_type@ == "event"@,
        (match r.event_item {
            Some(item) => item.sender == ev.sender && item.origin_server_ts == ev.timestamp
                && item.event_type@ == live_event_type(ev.content),
            None => false,
        }),
{
}

fn copy_receipts(item: &mut RoomEventItem, receipts: &Vec<UserReceipt>)
    requires
        receipts_unique(receipts@),
        old(item).read_receipts@.len() == 0,
    ensures
        *final(item) == (RoomEventItem { read_receipts: final(item).read_receipts, ..*old(item) }),
        final(item).read_receipts@ == receipts@,
{
    let mut i: usize = 0;
    while i < receipts.len()
        invariant
            0 <= i <= receipts.len(),
            receipts_unique(receipts@),
            *item == (RoomEventItem { read_receipts: item.read_receipts, ..*old(item) }),
            item.read_receipts@ == receipts@.take(i as int),
        decreases receipts.len() - i,
    {
        proof {
            assert forall|k: int|
                0 <= k < item.read_receipts@.len() implies item.read_receipts@[k].seen_by@
                != receipts@[i as int].seen_by@ by {
                assert(item.read_receipts@[k] == receipts@[k]);
            }
        }
        item.add_receipt(receipts[i].seen_by.clone(), receipts[i].ts);
        proof {
            assert(item.read_receipts@ =~= receipts@.take(i + 1));
        }
        i = i + 1;
    }
    proof {
        assert(receipts@.take(receipts@.len() as int) =~= receipts@);
    }
}

fn build_reaction_records(g: &ReactionGroupModel, my_id: Option<&String>) -> (r: Vec<
    ReactionRecord,
>)
    ensures
        r@ == group_records(*g, opt_view(my_id)),
{
    let mut out: Vec<ReactionRecord> = Vec::new();
    let mut j: usize = 0;
    while j < g.senders.len()
        invariant
            0 <= j <= g.senders.len(),
            out@.len() == j,
            forall|k: int| 0 <= k < j ==> out@[k] == group_records(*g, opt_view(my_id))[k],
        decreases g.senders.len() - j,
    {
        let sender = &g.senders[j];
        let by_me = match my_id {
            Some(me) => *me == sender.sender_id,
            None => false,
        };
        out.push(
            ReactionRecord {
                sender_id: sender.sender_id.clone(),
                timestamp: sender.timestamp,
                sent_by_me: by_me,
            },
        );
        j = j + 1;
    }
    proof {
        assert(out@ =~= group_records(*g, opt_view(my_id)));
    }
    out
}

fn copy_reactions(item: &mut RoomEventItem, groups: &Vec<ReactionGroupModel>, my_id: Option<
    &String,
>)
    requires
        groups_unique(groups@),
        old(item).reactions@.len() == 0,
    ensures
        *final(item) == (RoomEventItem { reactions: final(item).reactions, ..*old(item) }),
        reactions_copied(final(item).reactions@, groups@, opt_view(my_id)),
        reactions_unique(final(item).reactions@),
{
    let mut i: usize = 0;
    while i < groups.len()
        invariant
            0 <= i <= groups.len(),
            groups_unique(groups@),
            *item == (RoomEventItem { reactions: item.reactions, ..*old(item) }),
            item.reactions@.len() == i,
            forall|k: int|
                0 <= k < i ==> (#[trigger] item.reactions@[k]).key == groups@[k].key
                    && item.reactions@[k].records@ == group_records(groups@[k], opt_view(my_id)),
        decreases groups.len() - i,
    {
        let records = build_reaction_records(&groups[i], my_id);
        proof {
            assert forall|k: int|
                0 <= k < item.reactions@.len() implies item.reactions@[k].key@
                != groups@[i as int].key@ by {
                assert(item.reactions@[k].key == groups@[k].key);
            }
        }
        item.add_reaction(groups[i].key.clone(), records);
        i = i + 1;
    }
    proof {
        assert forall|a: int, b: int|
            0 <= a < b < item.reactions@.len() implies item.reactions@[a].key@
            != item.reactions@[b].key@ by {
            assert(item.reactions@[a].key == groups@[a].key);
            assert(item.reactions@[b].key == groups@[b].key);
        }
    }
}

impl RoomMessage {
    /// Projects one live timeline record into a feed item. Total: degraded
    /// records (redacted, undecryptable, unparseable, state patches)
    /// project into a minimal item rather than failing.
    pub fn from_timeline_event_item(
        event: &TimelineEventModel,
        room_id: String,
        my_id: Option<&String>,
    ) -> (r: RoomMessage)
        requires
            event.wf(),
        ensures
            live_projection_ok(r, *event, room_id@, opt_view(my_id)),
    {
        let mut evt_id: Option<String> = None;
        let mut txn_id: Option<String> = None;
        if event.is_local_echo {
            let mut acknowledged = false;
            if let Some(SendState::Sent { event_id }) = &event.send_state {
                evt_id = Some(event_id.clone());
                acknowledged = true;
            }
            if !acknowledged {
                txn_id = clone_opt_string(&event.transaction_id);
            }
        } else {
            evt_id = clone_opt_string(&event.event_id);
        }

        let event_type: String = match &event.content {
            TimelineContentModel::Message(_) => String::from_str("m.room.message"),
            TimelineContentModel::RedactedMessage => String::from_str("m.room.redaction"),
            TimelineContentModel::Sticker { .. } => String::from_str("m.sticker"),
            TimelineContentModel::UnableToDecrypt => String::from_str("m.room.encrypted"),
            TimelineContentModel::MembershipChange { .. } => String::from_str("m.room.member"),
            TimelineContentModel::ProfileChange(_) => String::from_str("m.room.member"),
            TimelineContentModel::OtherState { event_type } => event_type.clone(),
            TimelineContentModel::FailedToParseMessageLike { event_type } => event_type.clone(),
            TimelineContentModel::FailedToParseState { event_type } => event_type.clone(),
            TimelineContentModel::Poll { .. } => String::from_str("m.poll.start"),
        };

        let mut item = RoomEventItem::new(
            evt_id,
            txn_id,
            event.sender.clone(),
            event.timestamp,
            event_type,
        );

        match &event.content {
            TimelineContentModel::Message(m) => {
                item.set_msg_type(m.msgtype.msgtype());
                copy_receipts(&mut item, &event.read_receipts);
                copy_reactions(&mut item, &event.reactions, my_id);
                let desc: ContentDesc = match &m.latest_edit {
                    Some(e) => {
                        let edit_desc = build_msg_desc(e, "Unknown timeline item");
                        if has_structured_desc(e) {
                            edit_desc
                        } else {
                            let orig_desc = build_msg_desc(&m.msgtype, "Unknown timeline item");
                            if has_structured_desc(&m.msgtype) {
                                orig_desc
                            } else {
                                edit_desc
                            }
                        }
                    },
                    None => build_msg_desc(&m.msgtype, "Unknown timeline item"),
                };
                item.set_content_desc(desc);
                let sent_by_me = match my_id {
                    Some(me) => *me == event.sender,
                    None => false,
                };
                let kind_editable = match &m.msgtype {
                    MsgPayload::Text(_) => true,
                    MsgPayload::Emote(_) => true,
                    _ => false,
                };
                if sent_by_me && kind_editable {
                    item.set_editable(true);
                }
                if let Some(reply) = &m.in_reply_to {
                    item.set_in_reply_to(reply.clone());
                }
                if m.is_edited {
                    item.set_edited(true);
                }
            },
            TimelineContentModel::RedactedMessage => {},
            TimelineContentModel::Sticker { content } => {
                let desc = ContentDesc::Image {
                    name: content.body.clone(),
                    source: clone_opt_string(&content.source),
                    mimetype: match &content.info {
                        Some(i) => clone_opt_string(&i.mimetype),
                        None => None,
                    },
                    size: match &content.info {
                        Some(i) => i.size,
                        None => None,
                    },
                    width: match &content.info {
                        Some(i) => i.width,
                        None => None,
                    },
                    height: match &content.info {
                        Some(i) => i.height,
                        None => None,
                    },
                    blurhash: match &content.info {
                        Some(i) => clone_opt_string(&i.blurhash),
                        None => None,
                    },
                };
                item.set_content_desc(desc);
            },
            TimelineContentModel::UnableToDecrypt => {},
            TimelineContentModel::MembershipChange { change } => {
                let fallback: String = match change {
                    Some(MembershipChangeKind::NoChange) => {
                        item.set_msg_type(String::from_str("None"));
                        String::from_str("not changed membership")
                    },
                    Some(MembershipChangeKind::ChangeError) => {
                        item.set_msg_type(String::from_str("Error"));
                        String::from_str("error in membership change")
                    },
                    Some(MembershipChangeKind::Joined) => {
                        item.set_msg_type(String::from_str("Joined"));
                        String::from_str("joined")
                    },
                    Some(MembershipChangeKind::Left) => {
                        item.set_msg_type(String::from_str("Left"));
                        String::from_str("left")
                    },
                    Some(MembershipChangeKind::Banned) => {
                        item.set_msg_type(String::from_str("Banned"));
                        String::from_str("banned")
                    },
                    Some(MembershipChangeKind::Unbanned) => {
                        item.set_msg_type(String::from_str("Unbanned"));
                        String::from_str("unbanned")
                    },
                    Some(MembershipChangeKind::Kicked) => {
                        item.set_msg_type(String::from_str("Kicked"));
                        String::from_str("kicked")
                    },
                    Some(MembershipChangeKind::Invited) => {
                        item.set_msg_type(String::from_str("Invited"));
                        String::from_str("invited")
                    },
                    Some(MembershipChangeKind::KickedAndBanned) => {
                        item.set_msg_type(String::from_str("KickedAndBanned"));
                        String::from_str("kicked and banned")
                    },
                    Some(MembershipChangeKind::InvitationAccepted) => {
                        item.set_msg_type(String::from_str("InvitationAccepted"));
                        String::from_str("accepted invitation")
                    },
                    Some(MembershipChangeKind::InvitationRejected) => {
                        item.set_msg_type(String::from_str("InvitationRejected"));
                        String::from_str("rejected invitation")
                    },
                    Some(MembershipChangeKind::InvitationRevoked) => {
                        item.set_msg_type(String::from_str("InvitationRevoked"));
                        String::from_str("revoked invitation")
                    },
                    Some(MembershipChangeKind::Knocked) => {
                        item.set_msg_type(String::from_str("Knocked"));
                        String::from_str("knocked")
                    },
                    Some(MembershipChangeKind::KnockAccepted) => {
                        item.set_msg_type(String::from_str("KnockAccepted"));
                        String::from_str("accepted knock")
                    },
                    Some(MembershipChangeKind::KnockRetracted) => {
                        item.set_msg_type(String::from_str("KnockRetracted"));
                        String::from_str("retracted knock")
                    },
                    Some(MembershipChangeKind::KnockDenied) => {
                        item.set_msg_type(String::from_str("KnockDenied"));
                        String::from_str("denied knock")
                    },
                    Some(MembershipChangeKind::NotImplemented) => {
                        item.set_msg_type(String::from_str("NotImplemented"));
                        String::from_str("not implemented change")
                    },
                    None => String::from_str("unknown error"),
                };
                item.set_content_desc(ContentDesc::from_text(fallback));
            },
            TimelineContentModel::ProfileChange(p) => {
                item.set_msg_type(String::from_str("ProfileChange"));
                if let Some(nc) = &p.displayname_change {
                    let line: String = match (&nc.old, &nc.new) {
                        (Some(o), Some(n)) => {
                            let mut s = String::from_str("changed name ");
                            s.append(o.as_str());
                            s.append(" -> ");
                            s.append(n.as_str());
                            s
                        },
                        (None, Some(n)) => {
                            let mut s = String::from_str("set name to ");
                            s.append(n.as_str());
                            s
                        },
                        (Some(_), None) => String::from_str("removed name"),
                        (None, None) => String::from_str("kept name unset"),
                    };
                    item.set_content_desc(ContentDesc::from_text(line));
                }
                if let Some(av) = &p.avatar_url_change {
                    if let Some(uri) = &av.new {
                        item.set_content_desc(
                            ContentDesc::from_image(String::from_str("new_picture"), uri.clone()),
                        );
                    }
                }
            },
            TimelineContentModel::OtherState { .. } => {},
            TimelineContentModel::FailedToParseMessageLike { .. } => {},
            TimelineContentModel::FailedToParseState { .. } => {},
            TimelineContentModel::Poll { fallback_text } => {
                if let Some(t) = fallback_text {
                    item.set_content_desc(ContentDesc::from_text(t.clone()));
                }
            },
        }

        if event.is_local_echo {
            if let Some(send_state) = &event.send_state {
                item.set_send_state(send_state);
            }
        }
        RoomMessage::new_event_item(room_id, item)
    }

    /// Projects a virtual boundary: a day divider carries its calendar
    /// date when the timestamp is representable, the read marker nothing.
    pub fn from_timeline_virtual_item(event: &VirtualItemModel, room_id: String) -> (r: RoomMessage)
        ensures
            r.item_type@ == "virtual"@,
            r.room_id@ == room_id@,
            r.event_item is None,
            (match (r.virtual_item, *event) {
                (Some(v), VirtualItemModel::DayDivider { ts_ms }) => v.event_type@ == "DayDivider"@
                    && (if ts_ms <= MAX_CIVIL_MS {
                    match v.desc {
                        Some(d) => d@ == ymd_str(
                            civil_date_of(ts_ms).0 as nat,
                            civil_date_of(ts_ms).1 as nat,
                            civil_date_of(ts_ms).2 as nat,
                        ),
                        None => false,
                    }
                } else {
                    v.desc is None
                }),
                (Some(v), VirtualItemModel::ReadMarker) => v.event_type@ == "ReadMarker"@ && v.desc
                    is None,
                _ => false,
            }),
    {
        match event {
            VirtualItemModel::DayDivider { ts_ms } => {
                let desc: Option<String> = if *ts_ms <= MAX_CIVIL_MS {
                    let (y, m, d) = civil_date_from_ms(*ts_ms);
                    Some(format_ymd(y, m, d))
                } else {
                    None
                };
                let virtual_item = RoomVirtualItem::new(String::from_str("DayDivider"), desc);
                RoomMessage::new_virtual_item(room_id, virtual_item)
            },
            VirtualItemModel::ReadMarker => {
                let virtual_item = RoomVirtualItem::new(String::from_str("ReadMarker"), None);
                RoomMessage::new_virtual_item(room_id, virtual_item)
            },
        }
    }

    /// Projects any live timeline entry: events through the event path,
    /// virtual boundaries through the virtual path.
    pub fn from_timeline_item(item: &TimelineItemModel, room_id: String, my_id: Option<&String>)
        -> (r: RoomMessage)
        requires
            (match item {
                TimelineItemModel::Event(ev) => ev.wf(),
                TimelineItemModel::Virtual(_) => true,
            }),
        ensures
            (match item {
                TimelineItemModel::Event(ev) => live_projection_ok(
                    r,
                    *ev,
                    room_id@,
                    opt_view(my_id),
                ),
                TimelineItemModel::Virtual(_) => r.item_type@ == "virtual"@ && r.room_id@
                    == room_id@,
            }),
    {
        match item {
            TimelineItemModel::Event(ev) => RoomMessage::from_timeline_event_item(
                ev,
                room_id,
                my_id,
            ),
            TimelineItemModel::Virtual(v) => RoomMessage::from_timeline_virtual_item(v, room_id),
        }
    }
}

/// Whether a structured descriptor can be built from the payload: media
/// kinds need their metadata, notices and unknown kinds never have one.
fn has_structured_desc(p: &MsgPayload) -> (r: bool)
    ensures
        r == (descriptor_of(*p) is Some),
{
    match p {
        MsgPayload::Text(_) => true,
        MsgPayload::Emote(_) => true,
        MsgPayload::Notice(_) => false,
        MsgPayload::ServerNotice(_) => false,
        MsgPayload::Image(c) => c.info.is_some(),
        MsgPayload::Audio(c) => c.info.is_some(),
        MsgPayload::Video(c) => c.info.is_some(),
        MsgPayload::File(c) => c.info.is_some(),
        MsgPayload::Location(_) => true,
        MsgPayload::Other { .. } => false,
    }
}

} // verus!
