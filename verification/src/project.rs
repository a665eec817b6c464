//! Projection of raw protocol events into feed items: one constructor per
//! recognized event kind, each producing the fixed fallback line of its
//! kind, and a dispatcher over the whole event union.

use vstd::prelude::*;

use crate::content::{
    build_msg_desc, is_fallback_text_desc, msg_desc_ok, ContentDesc, MsgPayload,
};
use crate::events::{
    EncryptionScheme, MemberContent, MembershipState, PowerLevelEntry, Relation, SyncEvent,
    SyncEventContent,
};
use crate::text::{cat2, cat3, cat4, cat6, dec_str, int_dec_str, i64_to_string, join_comma,
    join_str, str_views, u64_to_string};
use crate::timeline::{RoomEventItem, RoomMessage};

verus! {

/// The descriptor of the projected item.
pub open spec fn projected_desc(r: RoomMessage) -> Option<ContentDesc> {
    match r.event_item {
        Some(i) => i.content_desc,
        None => None,
    }
}

/// The message-kind tag of the projected item.
pub open spec fn projected_msg_type(r: RoomMessage) -> Option<Seq<char>> {
    match r.event_item {
        Some(i) => match i.msg_type {
            Some(t) => Some(t@),
            None => None,
        },
        None => None,
    }
}

/// The editability flag of the projected item.
pub open spec fn projected_editable(r: RoomMessage) -> bool {
    match r.event_item {
        Some(i) => i.editable,
        None => false,
    }
}

/// The edited flag of the projected item.
pub open spec fn projected_edited(r: RoomMessage) -> bool {
    match r.event_item {
        Some(i) => i.edited,
        None => false,
    }
}

/// What every projection of a protocol event guarantees: an event entry in
/// the given room whose item carries the event's identity, sender and
/// timestamp, the given event-type string, and no overlays.
pub open spec fn projected_event_base(
    r: RoomMessage,
    ev: SyncEvent,
    room_id: Seq<char>,
    event_type: Seq<char>,
) -> bool {
    &&& r.item_type@ == "event"@
    &&& r.room_id@ == room_id
    &&& r.virtual_item is None
    &&& match r.event_item {
        Some(item) => {
            &&& item.evt_id == Some(ev.event_id)
            &&& item.txn_id is None
            &&& item.sender == ev.sender
            &&& item.origin_server_ts == ev.origin_server_ts
            &&& item.event_type@ == event_type
            &&& item.send_state is None
            &&& item.in_reply_to is None
            &&& item.read_receipts@.len() == 0
            &&& item.reactions@.len() == 0
            &&& item.wf()
        },
        None => false,
    }
}

/// The protocol event-type string of each event kind.
pub open spec fn sync_event_type(c: SyncEventContent) -> Seq<char> {
    match c {
        SyncEventContent::CallAnswer { .. } => "m.call.answer"@,
        SyncEventContent::CallCandidates { .. } => "m.call.candidates"@,
        SyncEventContent::CallHangup { .. } => "m.call.hangup"@,
        SyncEventContent::CallInvite { .. } => "m.call.invite"@,
        SyncEventContent::PolicyRuleRoom { .. } => "m.policy.rule.room"@,
        SyncEventContent::PolicyRuleServer => "m.policy.rule.server"@,
        SyncEventContent::PolicyRuleUser => "m.policy.rule.user"@,
        SyncEventContent::Reaction { .. } => "m.reaction"@,
        SyncEventContent::RoomAliases { .. } => "m.room.aliases"@,
        SyncEventContent::RoomAvatar => "m.room.avatar"@,
        SyncEventContent::RoomCanonicalAlias { .. } => "m.room.canonical_alias"@,
        SyncEventContent::RoomCreate => "m.room.create"@,
        SyncEventContent::RoomEncrypted { .. } => "m.room.encrypted"@,
        SyncEventContent::RoomEncryption { .. } => "m.room.encryption"@,
        SyncEventContent::RoomGuestAccess { .. } => "m.room.guest.access"@,
        SyncEventContent::RoomHistoryVisibility { .. } => "m.room.history_visibility"@,
        SyncEventContent::RoomJoinRules { .. } => "m.room.join.rules"@,
        SyncEventContent::RoomMember { .. } => "m.room.member"@,
        SyncEventContent::RoomMessage { .. } => "m.room.message"@,
        SyncEventContent::RoomName { .. } => "m.room.name"@,
        SyncEventContent::RoomPinnedEvents { .. } => "m.room.pinned_events"@,
        SyncEventContent::RoomPowerLevels { .. } => "m.room.power_levels"@,
        SyncEventContent::RoomRedaction { .. } => "m.room.redaction"@,
        SyncEventContent::RoomServerAcl { .. } => "m.room.server_acl"@,
        SyncEventContent::RoomThirdPartyInvite { .. } => "m.room.third_party_invite"@,
        SyncEventContent::RoomTombstone { .. } => "m.room.tombstone"@,
        SyncEventContent::RoomTopic { .. } => "m.room.topic"@,
        SyncEventContent::SpaceChild { .. } => "m.space.child"@,
        SyncEventContent::SpaceParent { .. } => "m.space.parent"@,
        SyncEventContent::Sticker { .. } => "m.sticker"@,
        SyncEventContent::Unknown { event_type } => event_type@,
    }
}

/// How an optional alias renders inside the canonical-alias line.
pub open spec fn debug_opt_str(o: Option<String>) -> Seq<char> {
    match o {
        None => "None"@,
        Some(s) => "Some(\""@ + s@ + "\")"@,
    }
}

/// The name of an encryption scheme.
pub open spec fn scheme_str(s: EncryptionScheme) -> Seq<char> {
    match s {
        EncryptionScheme::MegolmV1AesSha2 => "MegolmV1AesSha2"@,
        EncryptionScheme::OlmV1Curve25519AesSha2 => "OlmV1Curve25519AesSha2"@,
        EncryptionScheme::Unknown => "Unknown"@,
    }
}

/// The server-ACL line: the wording keys on whether the joined allow and
/// deny lists are empty.
pub open spec fn acl_fallback(a: Seq<char>, d: Seq<char>) -> Seq<char> {
    if a.len() == 0 && d.len() == 0 {
        "allowed "@ + a + ", denied "@ + d
    } else if a.len() == 0 {
        "allowed "@ + a
    } else if d.len() == 0 {
        "denied "@ + d
    } else {
        Seq::empty()
    }
}

/// The coarse message-kind tag a membership transition sets.
pub open spec fn member_msg_type(m: MemberContent) -> Seq<char> {
    match m.membership {
        MembershipState::Join => "Joined"@,
        MembershipState::Leave => "Left"@,
        MembershipState::Ban => "Banned"@,
        MembershipState::Invite => "Invited"@,
        MembershipState::Knock => "Knocked"@,
        MembershipState::Other => "ProfileChanged"@,
    }
}

/// The profile-change sentence table: twelve ordered cases over the new
/// display name, the new avatar, and the previous avatar and display name.
pub open spec fn profile_change_fallback(m: MemberContent) -> Seq<char> {
    match (m.displayname, m.avatar_url, m.prev_avatar_url, m.prev_displayname) {
        (Some(d), Some(_), Some(o), _) => "Updated avatar & changed name to "@ + o@ + " -> "@
            + d@,
        (Some(d), Some(_), None, _) => "Updated avatar & set name to "@ + d@,
        (Some(d), None, Some(o), Some(_)) => "Changed name "@ + o@ + " -> "@ + d@
            + ", removed avatar"@,
        (Some(d), None, None, Some(_)) => "Set name to "@ + d@ + ", removed avatar"@,
        (Some(d), None, Some(o), None) => "Changed name "@ + o@ + " -> "@ + d@,
        (Some(d), None, None, None) => "Set name to "@ + d@,
        (None, Some(_), None, _) => "Updated avatar"@,
        (None, Some(_), Some(_), _) => "Removed name, updated avatar"@,
        (None, None, Some(_), Some(_)) => "Removed name and avatar"@,
        (None, None, Some(_), None) => "Removed name"@,
        (None, None, None, Some(_)) => "Removed avatar"@,
        (None, None, None, None) => "Removed name"@,
    }
}

/// The fixed sentence a member event falls back to: one word per
/// membership transition, the profile-change table for custom states.
pub open spec fn member_fallback(m: MemberContent) -> Seq<char> {
    match m.membership {
        MembershipState::Join => "joined"@,
        MembershipState::Leave => "left"@,
        MembershipState::Ban => "banned"@,
        MembershipState::Invite => "invited"@,
        MembershipState::Knock => "knocked"@,
        MembershipState::Other => profile_change_fallback(m),
    }
}

/// The fixed fallback line of every event kind whose projection is a plain
/// text descriptor (message events derive their descriptor instead).
pub open spec fn sync_fallback(c: SyncEventContent) -> Seq<char> {
    match c {
        SyncEventContent::CallAnswer { sdp } => sdp@,
        SyncEventContent::CallCandidates { candidates } => "changed candidates to "@ + join_str(
            str_views(candidates@),
            ", "@,
        ),
        SyncEventContent::CallHangup { reason } => "hangup this call because "@ + reason@,
        SyncEventContent::CallInvite { sdp } => sdp@,
        SyncEventContent::PolicyRuleRoom { recommendation, entity, reason } => "recommended "@
            + recommendation@ + " about "@ + entity@ + " because "@ + reason@,
        SyncEventContent::PolicyRuleServer => "changed policy rule server"@,
        SyncEventContent::PolicyRuleUser => "changed policy rule user"@,
        SyncEventContent::Reaction { key } => "reacted by "@ + key@,
        SyncEventContent::RoomAliases { aliases } => "changed room aliases to "@ + join_str(
            str_views(aliases@),
            ", "@,
        ),
        SyncEventContent::RoomAvatar => "changed room avatar"@,
        SyncEventContent::RoomCanonicalAlias { alias, alt_aliases } => "changed canonical aliases ("@
            + join_str(str_views(alt_aliases@), ", "@) + ") of room alias ("@ + debug_opt_str(
            alias,
        ) + ")"@,
        SyncEventContent::RoomCreate => "created this room"@,
        SyncEventContent::RoomEncrypted { scheme } => "encrypted by "@ + scheme_str(scheme),
        SyncEventContent::RoomEncryption { algorithm } => "changed encryption to "@ + algorithm@,
        SyncEventContent::RoomGuestAccess { guest_access } => "changed room's guest access to "@
            + guest_access@,
        SyncEventContent::RoomHistoryVisibility { history_visibility } => "changed room's history visibility to "@
            + history_visibility@,
        SyncEventContent::RoomJoinRules { join_rule } => "changed room's join rules to "@
            + join_rule@,
        SyncEventContent::RoomMember { content } => member_fallback(content),
        SyncEventContent::RoomMessage { .. } => Seq::empty(),
        SyncEventContent::RoomName { name } => "changed name to "@ + name@,
        SyncEventContent::RoomPinnedEvents { pinned_count } => "pinned "@ + dec_str(
            pinned_count as nat,
        ) + " events"@,
        SyncEventContent::RoomPowerLevels { users } => "changed "@ + join_str(
            power_level_lines(users@),
            ", "@,
        ),
        SyncEventContent::RoomRedaction { reason } => match reason {
            Some(re) => "deleted this item because "@ + re@,
            None => "deleted this item"@,
        },
        SyncEventContent::RoomServerAcl { allow, deny } => acl_fallback(
            join_str(str_views(allow@), ", "@),
            join_str(str_views(deny@), ", "@),
        ),
        SyncEventContent::RoomThirdPartyInvite { display_name } => "invited "@ + display_name@,
        SyncEventContent::RoomTombstone { body } => body@,
        SyncEventContent::RoomTopic { topic } => "changed topic to "@ + topic@,
        SyncEventContent::SpaceChild { order } => match order {
            Some(o) => o@,
            None => Seq::empty(),
        },
        SyncEventContent::SpaceParent { via } => "changed parent to "@ + join_str(
            str_views(via@),
            ", "@,
        ),
        SyncEventContent::Sticker { body } => body@,
        SyncEventContent::Unknown { .. } => Seq::empty(),
    }
}

/// One line per user of a power-levels event.
pub open spec fn power_level_lines(users: Seq<PowerLevelEntry>) -> Seq<Seq<char>> {
    users.map_values(
        |e: PowerLevelEntry| "power level of "@ + e.user_id@ + " to "@ + int_dec_str(e.level as int),
    )
}

/// A message payload whose kind supports editing: plain text and emotes.
pub open spec fn is_editable_kind(p: MsgPayload) -> bool {
    p is Text || p is Emote
}

/// What the projection of each protocol event kind guarantees, beyond the
/// common base: state-like kinds carry their fixed fallback line, member
/// events additionally their kind tag, message events their derived
/// descriptor and edit flag. An unknown kind degrades to a minimal item
/// that carries only identity, sender, timestamp and the raw event-type
/// string, so no event is ever dropped or fails.
pub open spec fn sync_projection_ok(r: RoomMessage, ev: SyncEvent, room_id: Seq<char>) -> bool {
    &&& projected_event_base(r, ev, room_id, sync_event_type(ev.content))
    &&& match ev.content {
        SyncEventContent::RoomMessage { msgtype, relates_to } => {
            &&& msg_desc_ok(projected_desc(r), msgtype, "Unknown sync item"@)
            &&& projected_msg_type(r) == Some(msgtype.msgtype_spec())
            &&& projected_edited(r) == (relates_to matches Some(Relation::Replacement { .. }))
        },
        SyncEventContent::RoomMember { content } => {
            &&& is_fallback_text_desc(projected_desc(r), member_fallback(content))
            &&& projected_msg_type(r) == Some(member_msg_type(content))
            &&& !projected_edited(r)
            &&& !projected_editable(r)
        },
        SyncEventContent::Unknown { .. } => {
            &&& projected_desc(r) is None
            &&& projected_msg_type(r) is None
            &&& !projected_edited(r)
            &&& !projected_editable(r)
        },
        _ => {
            &&& is_fallback_text_desc(projected_desc(r), sync_fallback(ev.content))
            &&& projected_msg_type(r) is None
            &&& !projected_edited(r)
            &&& !projected_editable(r)
        },
    }
}

impl RoomMessage {
    fn base_event_item(ev: &SyncEvent, event_type: &str) -> (r: RoomEventItem)
        ensures
            r == (RoomEventItem {
                evt_id: Some(ev.event_id),
                txn_id: None::<String>,
                sender: ev.sender,
                send_state: None::<crate::timeline::EventSendState>,
                origin_server_ts: ev.origin_server_ts,
                event_type: r.event_type,
                msg_type: None::<String>,
                content_desc: None::<ContentDesc>,
                in_reply_to: None::<String>,
                read_receipts: r.read_receipts,
                reactions: r.reactions,
                editable: false,
                edited: false,
            }),
            r.event_type@ == event_type@,
            r.read_receipts@.len() == 0,
            r.reactions@.len() == 0,
            r.wf(),
    {
        RoomEventItem::new(
            Some(ev.event_id.clone()),
            None,
            ev.sender.clone(),
            ev.origin_server_ts,
            String::from_str(event_type),
        )
    }

    /// Builds the projection shared by every state-like event kind: the
    /// base item plus a plain text descriptor holding the kind's fixed
    /// fallback line.
    fn plain_state_message(ev: &SyncEvent, room_id: String, event_type: &str, body: String) -> (r:
        RoomMessage)
        requires
            event_type@ == sync_event_type(ev.content),
            body@ == sync_fallback(ev.content),
            !(ev.content is RoomMessage),
            !(ev.content is RoomMember),
            !(ev.content is Unknown),
        ensures
            sync_projection_ok(r, *ev, room_id@),
    {
        let mut item = Self::base_event_item(ev, event_type);
        item.set_content_desc(ContentDesc::from_text(body));
        RoomMessage::new_event_item(room_id, item)
    }

    pub fn call_answer_from_sync_event(event: &SyncEvent, room_id: String) -> (r: RoomMessage)
        requires
            event.content matches SyncEventContent::CallAnswer { .. },
        ensures
            sync_projection_ok(r, *event, room_id@),
    {
        let body = match &event.content {
            SyncEventContent::CallAnswer { sdp } => sdp.clone(),
            _ => vstd::pervasive::unreached(),
        };
        Self::plain_state_message(event, room_id, "m.call.answer", body)
    }

    pub fn call_candidates_from_sync_event(event: &SyncEvent, room_id: String) -> (r: RoomMessage)
        requires
            event.content matches SyncEventContent::CallCandidates { .. },
        ensures
            sync_projection_ok(r, *event, room_id@),
    {
        let body = match &event.content {
            SyncEventContent::CallCandidates { candidates } => {
                let joined = join_comma(candidates);
                cat2("changed candidates to ", joined.as_str())
            },
            _ => vstd::pervasive::unreached(),
        };
        Self::plain_state_message(event, room_id, "m.call.candidates", body)
    }

    pub fn call_hangup_from_sync_event(event: &SyncEvent, room_id: String) -> (r: RoomMessage)
        requires
            event.content matches SyncEventContent::CallHangup { .. },
        ensures
            sync_projection_ok(r, *event, room_id@),
    {
        let body = match &event.content {
            SyncEventContent::CallHangup { reason } => cat2(
                "hangup this call because ",
                reason.as_str(),
            ),
            _ => vstd::pervasive::unreached(),
        };
        Self::plain_state_message(event, room_id, "m.call.hangup", body)
    }

    pub fn call_invite_from_sync_event(event: &SyncEvent, room_id: String) -> (r: RoomMessage)
        requires
            event.content matches SyncEventContent::CallInvite { .. },
        ensures
            sync_projection_ok(r, *event, room_id@),
    {
        let body = match &event.content {
            SyncEventContent::CallInvite { sdp } => sdp.clone(),
            _ => vstd::pervasive::unreached(),
        };
        Self::plain_state_message(event, room_id, "m.call.invite", body)
    }

    pub fn policy_rule_room_from_sync_event(event: &SyncEvent, room_id: String) -> (r: RoomMessage)
        requires
            event.content matches SyncEventContent::PolicyRuleRoom { .. },
        ensures
            sync_projection_ok(r, *event, room_id@),
    {
        let body = match &event.content {
            SyncEventContent::PolicyRuleRoom { recommendation, entity, reason } => cat6(
                "recommended ",
                recommendation.as_str(),
                " about ",
                entity.as_str(),
                " because ",
                reason.as_str(),
            ),
            _ => vstd::pervasive::unreached(),
        };
        Self::plain_state_message(event, room_id, "m.policy.rule.room", body)
    }

    pub fn policy_rule_server_from_sync_event(event: &SyncEvent, room_id: String) -> (r:
        RoomMessage)
        requires
            event.content matches SyncEventContent::PolicyRuleServer,
        ensures
            sync_projection_ok(r, *event, room_id@),
    {
        Self::plain_state_message(event, room_id, "m.policy.rule.server", String::from_str("changed policy rule server"))
    }

    pub fn policy_rule_user_from_sync_event(event: &SyncEvent, room_id: String) -> (r: RoomMessage)
        requires
            event.content matches SyncEventContent::PolicyRuleUser,
        ensures
            sync_projection_ok(r, *event, room_id@),
    {
        Self::plain_state_message(event, room_id, "m.policy.rule.user", String::from_str("changed policy rule user"))
    }

    pub fn reaction_from_sync_event(event: &SyncEvent, room_id: String) -> (r: RoomMessage)
        requires
            event.content matches SyncEventContent::Reaction { .. },
        ensures
            sync_projection_ok(r, *event, room_id@),
    {
        let body = match &event.content {
            SyncEventContent::Reaction { key } => cat2("reacted by ", key.as_str()),
            _ => vstd::pervasive::unreached(),
        };
        Self::plain_state_message(event, room_id, "m.reaction", body)
    }

    pub fn room_aliases_from_sync_event(event: &SyncEvent, room_id: String) -> (r: RoomMessage)
        requires
            event.content matches SyncEventContent::RoomAliases { .. },
        ensures
            sync_projection_ok(r, *event, room_id@),
    {
        let body = match &event.content {
            SyncEventContent::RoomAliases { aliases } => {
                let joined = join_comma(aliases);
                cat2("changed room aliases to ", joined.as_str())
            },
            _ => vstd::pervasive::unreached(),
        };
        Self::plain_state_message(event, room_id, "m.room.aliases", body)
    }

    pub fn room_avatar_from_sync_event(event: &SyncEvent, room_id: String) -> (r: RoomMessage)
        requires
            event.content matches SyncEventContent::RoomAvatar,
        ensures
            sync_projection_ok(r, *event, room_id@),
    {
        Self::plain_state_message(event, room_id, "m.room.avatar", String::from_str("changed room avatar"))
    }

    pub fn room_canonical_alias_from_sync_event(event: &SyncEvent, room_id: String) -> (r:
        RoomMessage)
        requires
            event.content matches SyncEventContent::RoomCanonicalAlias { .. },
        ensures
            sync_projection_ok(r, *event, room_id@),
    {
        let body = match &event.content {
            SyncEventContent::RoomCanonicalAlias { alias, alt_aliases } => {
                let joined = join_comma(alt_aliases);
                let alias_dbg: String = match alias {
                    Some(a) => cat3("Some(\"", a.as_str(), "\")"),
                    None => String::from_str("None"),
                };
                cat4(
                    "changed canonical aliases (",
                    joined.as_str(),
                    ") of room alias (",
                    alias_dbg.as_str(),
                )
            },
            _ => vstd::pervasive::unreached(),
        };
        let mut body = body;
        body.append(")");
        proof {
            assert(body@ =~= sync_fallback(event.content));
        }
        Self::plain_state_message(event, room_id, "m.room.canonical_alias", body)
    }

    pub fn room_create_from_sync_event(event: &SyncEvent, room_id: String) -> (r: RoomMessage)
        requires
            event.content matches SyncEventContent::RoomCreate,
        ensures
            sync_projection_ok(r, *event, room_id@),
    {
        Self::plain_state_message(event, room_id, "m.room.create", String::from_str("created this room"))
    }

    pub fn room_encrypted_from_sync_event(event: &SyncEvent, room_id: String) -> (r: RoomMessage)
        requires
            event.content matches SyncEventContent::RoomEncrypted { .. },
        ensures
            sync_projection_ok(r, *event, room_id@),
    {
        let body = match &event.content {
            SyncEventContent::RoomEncrypted { scheme } => {
                let name: &str = match scheme {
                    EncryptionScheme::MegolmV1AesSha2 => "MegolmV1AesSha2",
                    EncryptionScheme::OlmV1Curve25519AesSha2 => "OlmV1Curve25519AesSha2",
                    EncryptionScheme::Unknown => "Unknown",
                };
                cat2("encrypted by ", name)
            },
            _ => vstd::pervasive::unreached(),
        };
        Self::plain_state_message(event, room_id, "m.room.encrypted", body)
    }

    pub fn room_encryption_from_sync_event(event: &SyncEvent, room_id: String) -> (r: RoomMessage)
        requires
            event.content matches SyncEventContent::RoomEncryption { .. },
        ensures
            sync_projection_ok(r, *event, room_id@),
    {
        let body = match &event.content {
            SyncEventContent::RoomEncryption { algorithm } => cat2(
                "changed encryption to ",
                algorithm.as_str(),
            ),
            _ => vstd::pervasive::unreached(),
        };
        Self::plain_state_message(event, room_id, "m.room.encryption", body)
    }

    pub fn room_guest_access_from_sync_event(event: &SyncEvent, room_id: String) -> (r: RoomMessage)
        requires
            event.content matches SyncEventContent::RoomGuestAccess { .. },
        ensures
            sync_projection_ok(r, *event, room_id@),
    {
        let body = match &event.content {
            SyncEventContent::RoomGuestAccess { guest_access } => cat2(
                "changed room's guest access to ",
                guest_access.as_str(),
            ),
            _ => vstd::pervasive::unreached(),
        };
        Self::plain_state_message(event, room_id, "m.room.guest.access", body)
    }

    pub fn room_history_visibility_from_sync_event(event: &SyncEvent, room_id: String) -> (r:
        RoomMessage)
        requires
            event.content matches SyncEventContent::RoomHistoryVisibility { .. },
        ensures
            sync_projection_ok(r, *event, room_id@),
    {
        let body = match &event.content {
            SyncEventContent::RoomHistoryVisibility { history_visibility } => cat2(
                "changed room's history visibility to ",
                history_visibility.as_str(),
            ),
            _ => vstd::pervasive::unreached(),
        };
        Self::plain_state_message(event, room_id, "m.room.history_visibility", body)
    }

    pub fn room_join_rules_from_sync_event(event: &SyncEvent, room_id: String) -> (r: RoomMessage)
        requires
            event.content matches SyncEventContent::RoomJoinRules { .. },
        ensures
            sync_projection_ok(r, *event, room_id@),
    {
        let body = match &event.content {
            SyncEventContent::RoomJoinRules { join_rule } => cat2(
                "changed room's join rules to ",
                join_rule.as_str(),
            ),
            _ => vstd::pervasive::unreached(),
        };
        Self::plain_state_message(event, room_id, "m.room.join.rules", body)
    }

    pub fn room_member_from_sync_event(event: &SyncEvent, room_id: String) -> (r: RoomMessage)
        requires
            event.content matches SyncEventContent::RoomMember { .. },
        ensures
            sync_projection_ok(r, *event, room_id@),
    {
        let mut item = Self::base_event_item(event, "m.room.member");
        let body = match &event.content {
            SyncEventContent::RoomMember { content } => {
                match content.membership {
                    MembershipState::Join => {
                        item.set_msg_type(String::from_str("Joined"));
                        String::from_str("joined")
                    },
                    MembershipState::Leave => {
                        item.set_msg_type(String::from_str("Left"));
                        String::from_str("left")
                    },
                    MembershipState::Ban => {
                        item.set_msg_type(String::from_str("Banned"));
                        String::from_str("banned")
                    },
                    MembershipState::Invite => {
                        item.set_msg_type(String::from_str("Invited"));
                        String::from_str("invited")
                    },
                    MembershipState::Knock => {
                        item.set_msg_type(String::from_str("Knocked"));
                        String::from_str("knocked")
                    },
                    MembershipState::Other => {
                        item.set_msg_type(String::from_str("ProfileChanged"));
                        match (
                            &content.displayname,
                            &content.avatar_url,
                            &content.prev_avatar_url,
                            &content.prev_displayname,
                        ) {
                            (Some(d), Some(_), Some(o), _) => cat4(
                                "Updated avatar & changed name to ",
                                o.as_str(),
                                " -> ",
                                d.as_str(),
                            ),
                            (Some(d), Some(_), None, _) => cat2(
                                "Updated avatar & set name to ",
                                d.as_str(),
                            ),
                            (Some(d), None, Some(o), Some(_)) => {
                                let mut s = cat4("Changed name ", o.as_str(), " -> ", d.as_str());
                                s.append(", removed avatar");
                                s
                            },
                            (Some(d), None, None, Some(_)) => cat3(
                                "Set name to ",
                                d.as_str(),
                                ", removed avatar",
                            ),
                            (Some(d), None, Some(o), None) => cat4(
                                "Changed name ",
                                o.as_str(),
                                " -> ",
                                d.as_str(),
                            ),
                            (Some(d), None, None, None) => cat2("Set name to ", d.as_str()),
                            (None, Some(_), None, _) => String::from_str("Updated avatar"),
                            (None, Some(_), Some(_), _) => String::from_str(
                                "Removed name, updated avatar",
                            ),
                            (None, None, Some(_), Some(_)) => String::from_str(
                                "Removed name and avatar",
                            ),
                            (None, None, Some(_), None) => String::from_str("Removed name"),
                            (None, None, None, Some(_)) => String::from_str("Removed avatar"),
                            (None, None, None, None) => String::from_str("Removed name"),
                        }
                    },
                }
            },
            _ => vstd::pervasive::unreached(),
        };
        item.set_content_desc(ContentDesc::from_text(body));
        RoomMessage::new_event_item(room_id, item)
    }

    /// Projects a room message event from the richer event form, deciding
    /// editability against the viewer: editable only when editing is
    /// enabled, the viewer is the sender, and the kind supports editing.
    pub fn room_message_from_event(
        event: &SyncEvent,
        room_id: String,
        viewer_id: Option<&String>,
        has_editable: bool,
    ) -> (r: RoomMessage)
        requires
            event.content matches SyncEventContent::RoomMessage { .. },
        ensures
            projected_event_base(r, *event, room_id@, "m.room.message"@),
            (match event.content {
                SyncEventContent::RoomMessage { msgtype, relates_to } => {
                    &&& msg_desc_ok(projected_desc(r), msgtype, "Unknown sync item"@)
                    &&& projected_msg_type(r) == Some(msgtype.msgtype_spec())
                    &&& projected_edited(r) == (relates_to matches Some(
                        Relation::Replacement { .. },
                    ))
                    &&& projected_editable(r) == (has_editable && (match viewer_id {
                        Some(v) => v@ == event.sender@,
                        None => false,
                    }) && is_editable_kind(msgtype))
                },
                _ => false,
            }),
    {
        let mut item = Self::base_event_item(event, "m.room.message");
        match &event.content {
            SyncEventContent::RoomMessage { msgtype, relates_to } => {
                let viewer_is_sender = match viewer_id {
                    Some(v) => *v == event.sender,
                    None => false,
                };
                let kind_editable = match msgtype {
                    MsgPayload::Text(_) => true,
                    MsgPayload::Emote(_) => true,
                    _ => false,
                };
                if has_editable && viewer_is_sender && kind_editable {
                    item.set_editable(true);
                }
                item.set_msg_type(msgtype.msgtype());
                item.set_content_desc(build_msg_desc(msgtype, "Unknown sync item"));
                if let Some(Relation::Replacement { .. }) = relates_to {
                    item.set_edited(true);
                }
            },
            _ => vstd::pervasive::unreached(),
        }
        RoomMessage::new_event_item(room_id, item)
    }

    /// Projects a room message event from a bare sync record; the caller
    /// says whether the viewer sent it.
    pub fn room_message_from_sync_event(event: &SyncEvent, room_id: String, sent_by_me: bool) -> (r:
        RoomMessage)
        requires
            event.content matches SyncEventContent::RoomMessage { .. },
        ensures
            projected_event_base(r, *event, room_id@, "m.room.message"@),
            (match event.content {
                SyncEventContent::RoomMessage { msgtype, relates_to } => {
                    &&& msg_desc_ok(projected_desc(r), msgtype, "Unknown sync item"@)
                    &&& projected_msg_type(r) == Some(msgtype.msgtype_spec())
                    &&& projected_edited(r) == (relates_to matches Some(
                        Relation::Replacement { .. },
                    ))
                    &&& projected_editable(r) == (sent_by_me && is_editable_kind(msgtype))
                },
                _ => false,
            }),
            !sent_by_me ==> sync_projection_ok(r, *event, room_id@),
    {
        let mut item = Self::base_event_item(event, "m.room.message");
        match &event.content {
            SyncEventContent::RoomMessage { msgtype, relates_to } => {
                let kind_editable = match msgtype {
                    MsgPayload::Text(_) => true,
                    MsgPayload::Emote(_) => true,
                    _ => false,
                };
                if sent_by_me && kind_editable {
                    item.set_editable(true);
                }
                item.set_msg_type(msgtype.msgtype());
                item.set_content_desc(build_msg_desc(msgtype, "Unknown sync item"));
                if let Some(Relation::Replacement { .. }) = relates_to {
                    item.set_edited(true);
                }
            },
            _ => vstd::pervasive::unreached(),
        }
        RoomMessage::new_event_item(room_id, item)
    }

    pub fn room_name_from_sync_event(event: &SyncEvent, room_id: String) -> (r: RoomMessage)
        requires
            event.content matches SyncEventContent::RoomName { .. },
        ensures
            sync_projection_ok(r, *event, room_id@),
    {
        let body = match &event.content {
            SyncEventContent::RoomName { name } => cat2("changed name to ", name.as_str()),
            _ => vstd::pervasive::unreached(),
        };
        Self::plain_state_message(event, room_id, "m.room.name", body)
    }

    pub fn room_pinned_events_from_sync_event(event: &SyncEvent, room_id: String) -> (r:
        RoomMessage)
        requires
            event.content matches SyncEventContent::RoomPinnedEvents { .. },
        ensures
            sync_projection_ok(r, *event, room_id@),
    {
        let body = match &event.content {
            SyncEventContent::RoomPinnedEvents { pinned_count } => {
                let n = u64_to_string(*pinned_count);
                cat3("pinned ", n.as_str(), " events")
            },
            _ => vstd::pervasive::unreached(),
        };
        Self::plain_state_message(event, room_id, "m.room.pinned_events", body)
    }

    pub fn room_power_levels_from_sync_event(event: &SyncEvent, room_id: String) -> (r: RoomMessage)
        requires
            event.content matches SyncEventContent::RoomPowerLevels { .. },
        ensures
            sync_projection_ok(r, *event, room_id@),
    {
        let body = match &event.content {
            SyncEventContent::RoomPowerLevels { users } => {
                let mut parts: Vec<String> = Vec::new();
                let mut i: usize = 0;
                while i < users.len()
                    invariant
                        0 <= i <= users.len(),
                        parts@.len() == i,
                        forall|k: int|
                            0 <= k < i ==> parts@[k]@ == power_level_lines(users@)[k],
                    decreases users.len() - i,
                {
                    let lvl = i64_to_string(users[i].level);
                    parts.push(cat4(
                        "power level of ",
                        users[i].user_id.as_str(),
                        " to ",
                        lvl.as_str(),
                    ));
                    i = i + 1;
                }
                let joined = join_comma(&parts);
                proof {
                    assert(str_views(parts@) =~= power_level_lines(users@));
                }
                cat2("changed ", joined.as_str())
            },
            _ => vstd::pervasive::unreached(),
        };
        Self::plain_state_message(event, room_id, "m.room.power_levels", body)
    }

    pub fn room_redaction_from_sync_event(event: &SyncEvent, room_id: String) -> (r: RoomMessage)
        requires
            event.content matches SyncEventContent::RoomRedaction { .. },
        ensures
            sync_projection_ok(r, *event, room_id@),
    {
        let body = match &event.content {
            SyncEventContent::RoomRedaction { reason } => match reason {
                Some(re) => cat2("deleted this item because ", re.as_str()),
                None => String::from_str("deleted this item"),
            },
            _ => vstd::pervasive::unreached(),
        };
        Self::plain_state_message(event, room_id, "m.room.redaction", body)
    }

    pub fn room_server_acl_from_sync_event(event: &SyncEvent, room_id: String) -> (r: RoomMessage)
        requires
            event.content matches SyncEventContent::RoomServerAcl { .. },
        ensures
            sync_projection_ok(r, *event, room_id@),
    {
        let body = match &event.content {
            SyncEventContent::RoomServerAcl { allow, deny } => {
                let a = join_comma(allow);
                let d = join_comma(deny);
                match (a.as_str().is_empty(), d.as_str().is_empty()) {
                    (true, true) => cat4("allowed ", a.as_str(), ", denied ", d.as_str()),
                    (true, false) => cat2("allowed ", a.as_str()),
                    (false, true) => cat2("denied ", d.as_str()),
                    (false, false) => String::new(),
                }
            },
            _ => vstd::pervasive::unreached(),
        };
        Self::plain_state_message(event, room_id, "m.room.server_acl", body)
    }

    pub fn room_third_party_invite_from_sync_event(event: &SyncEvent, room_id: String) -> (r:
        RoomMessage)
        requires
            event.content matches SyncEventContent::RoomThirdPartyInvite { .. },
        ensures
            sync_projection_ok(r, *event, room_id@),
    {
        let body = match &event.content {
            SyncEventContent::RoomThirdPartyInvite { display_name } => cat2(
                "invited ",
                display_name.as_str(),
            ),
            _ => vstd::pervasive::unreached(),
        };
        Self::plain_state_message(event, room_id, "m.room.third_party_invite", body)
    }

    pub fn room_tombstone_from_sync_event(event: &SyncEvent, room_id: String) -> (r: RoomMessage)
        requires
            event.content matches SyncEventContent::RoomTombstone { .. },
        ensures
            sync_projection_ok(r, *event, room_id@),
    {
        let body = match &event.content {
            SyncEventContent::RoomTombstone { body } => body.clone(),
            _ => vstd::pervasive::unreached(),
        };
        Self::plain_state_message(event, room_id, "m.room.tombstone", body)
    }

    pub fn room_topic_from_sync_event(event: &SyncEvent, room_id: String) -> (r: RoomMessage)
        requires
            event.content matches SyncEventContent::RoomTopic { .. },
        ensures
            sync_projection_ok(r, *event, room_id@),
    {
        let body = match &event.content {
            SyncEventContent::RoomTopic { topic } => cat2("changed topic to ", topic.as_str()),
            _ => vstd::pervasive::unreached(),
        };
        Self::plain_state_message(event, room_id, "m.room.topic", body)
    }

    pub fn space_child_from_sync_event(event: &SyncEvent, room_id: String) -> (r: RoomMessage)
        requires
            event.content matches SyncEventContent::SpaceChild { .. },
        ensures
            sync_projection_ok(r, *event, room_id@),
    {
        let body = match &event.content {
            SyncEventContent::SpaceChild { order } => match order {
                Some(o) => o.clone(),
                None => String::new(),
            },
            _ => vstd::pervasive::unreached(),
        };
        Self::plain_state_message(event, room_id, "m.space.child", body)
    }

    pub fn space_parent_from_sync_event(event: &SyncEvent, room_id: String) -> (r: RoomMessage)
        requires
            event.content matches SyncEventContent::SpaceParent { .. },
        ensures
            sync_projection_ok(r, *event, room_id@),
    {
        let body = match &event.content {
            SyncEventContent::SpaceParent { via } => {
                let joined = join_comma(via);
                cat2("changed parent to ", joined.as_str())
            },
            _ => vstd::pervasive::unreached(),
        };
        Self::plain_state_message(event, room_id, "m.space.parent", body)
    }

    pub fn sticker_from_sync_event(event: &SyncEvent, room_id: String) -> (r: RoomMessage)
        requires
            event.content matches SyncEventContent::Sticker { .. },
        ensures
            sync_projection_ok(r, *event, room_id@),
    {
        let body = match &event.content {
            SyncEventContent::Sticker { body } => body.clone(),
            _ => vstd::pervasive::unreached(),
        };
        Self::plain_state_message(event, room_id, "m.sticker", body)
    }

    /// Projects an event of a kind this library does not know: a minimal
    /// item carrying only identity, sender, timestamp and the raw
    /// event-type string, with no descriptor and no overlays, so the feed
    /// still gets a renderable row.
    pub fn unknown_from_sync_event(event: &SyncEvent, room_id: String) -> (r: RoomMessage)
        requires
            event.content matches SyncEventContent::Unknown { .. },
        ensures
            sync_projection_ok(r, *event, room_id@),
    {
        let event_type: String = match &event.content {
            SyncEventContent::Unknown { event_type } => event_type.clone(),
            _ => vstd::pervasive::unreached(),
        };
        let item = RoomEventItem::new(
            Some(event.event_id.clone()),
            None,
            event.sender.clone(),
            event.origin_server_ts,
            event_type,
        );
        RoomMessage::new_event_item(room_id, item)
    }
}



/// Law: the protocol-event projection is total — every event kind,
/// including unknown ones, yields an event entry that keeps the event's
/// identity, sender, timestamp and event-type string, so no event is
/// dropped and no input makes the feed path fail.
pub proof fn lemma_sync_projection_total(m: RoomMessage, ev: SyncEvent, room_id: Seq<char>)
    requires
        sync_projection_ok(m, ev, room_id),
    ensures
        m.event_item is Some,
        m.item_type@ == "event"@,
        (match m.event_item {
            Some(item) => item.evt_id == Some(ev.event_id) && item.sender == ev.sender
                && item.origin_server_ts == ev.origin_server_ts && item.event_type@
                == sync_event_type(ev.content),
            None => false,
        }),
{
}

/// Law: a message event's projection carries the structured descriptor of
/// its payload exactly when one can be built — the descriptor's variant
/// then matches the message kind — and the short fallback line otherwise.
pub proof fn lemma_message_descriptor(r: RoomMessage, ev: SyncEvent, room_id: Seq<char>)
    requires
        ev.content matches SyncEventContent::RoomMessage { .. },
        sync_projection_ok(r, ev, room_id),
    ensures
        (match ev.content {
            SyncEventContent::RoomMessage { msgtype, .. } => {
                &&& (crate::content::descriptor_of(msgtype) is Some ==> projected_desc(r)
                    == crate::content::descriptor_of(msgtype) && (match projected_desc(r) {
                    Some(d) => crate::content::variant_matches(msgtype, d),
                    None => false,
                }))
                &&& (crate::content::descriptor_of(msgtype) is None ==> is_fallback_text_desc(
                    projected_desc(r),
                    crate::content::fallback_of(msgtype, "Unknown sync item"@),
                ))
            },
            _ => false,
        }),
{
    match ev.content {
        SyncEventContent::RoomMessage { msgtype, .. } => {
            crate::content::lemma_projected_descriptor(
                msgtype,
                projected_desc(r),
                "Unknown sync item"@,
            );
        },
        _ => {},
    }
}

/// Law: a member event projects to exactly the sentence and kind tag of
/// the fixed transition table — one word per membership transition, the
/// twelve-case profile table for custom states.
pub proof fn lemma_membership_table(r: RoomMessage, ev: SyncEvent, room_id: Seq<char>)
    requires
        ev.content matches SyncEventContent::RoomMember { .. },
        sync_projection_ok(r, ev, room_id),
    ensures
        (match ev.content {
            SyncEventContent::RoomMember { content } => is_fallback_text_desc(
                projected_desc(r),
                member_fallback(content),
            ) && projected_msg_type(r) == Some(member_msg_type(content)),
            _ => false,
        }),
{
}

/// Projects any protocol event into a feed item: recognized kinds get
/// their fixed projection, an unknown kind degrades to a minimal item
/// carrying the raw event-type string — no event disappears.
pub fn any_sync_event_to_message(event: &SyncEvent, room_id: String) -> (r: Option<RoomMessage>)
    ensures
        (match r {
            Some(m) => sync_projection_ok(m, *event, room_id@),
            None => false,
        }),
{
    match &event.content {
        SyncEventContent::CallAnswer { .. } => Some(
            RoomMessage::call_answer_from_sync_event(event, room_id),
        ),
        SyncEventContent::CallCandidates { .. } => Some(
            RoomMessage::call_candidates_from_sync_event(event, room_id),
        ),
        SyncEventContent::CallHangup { .. } => Some(
            RoomMessage::call_hangup_from_sync_event(event, room_id),
        ),
        SyncEventContent::CallInvite { .. } => Some(
            RoomMessage::call_invite_from_sync_event(event, room_id),
        ),
        SyncEventContent::PolicyRuleRoom { .. } => Some(
            RoomMessage::policy_rule_room_from_sync_event(event, room_id),
        ),
        SyncEventContent::PolicyRuleServer => Some(
            RoomMessage::policy_rule_server_from_sync_event(event, room_id),
        ),
        SyncEventContent::PolicyRuleUser => Some(
            RoomMessage::policy_rule_user_from_sync_event(event, room_id),
        ),
        SyncEventContent::Reaction { .. } => Some(
            RoomMessage::reaction_from_sync_event(event, room_id),
        ),
        SyncEventContent::RoomAliases { .. } => Some(
            RoomMessage::room_aliases_from_sync_event(event, room_id),
        ),
        SyncEventContent::RoomAvatar => Some(
            RoomMessage::room_avatar_from_sync_event(event, room_id),
        ),
        SyncEventContent::RoomCanonicalAlias { .. } => Some(
            RoomMessage::room_canonical_alias_from_sync_event(event, room_id),
        ),
        SyncEventContent::RoomCreate => Some(
            RoomMessage::room_create_from_sync_event(event, room_id),
        ),
        SyncEventContent::RoomEncrypted { .. } => Some(
            RoomMessage::room_encrypted_from_sync_event(event, room_id),
        ),
        SyncEventContent::RoomEncryption { .. } => Some(
            RoomMessage::room_encryption_from_sync_event(event, room_id),
        ),
        SyncEventContent::RoomGuestAccess { .. } => Some(
            RoomMessage::room_guest_access_from_sync_event(event, room_id),
        ),
        SyncEventContent::RoomHistoryVisibility { .. } => Some(
            RoomMessage::room_history_visibility_from_sync_event(event, room_id),
        ),
        SyncEventContent::RoomJoinRules { .. } => Some(
            RoomMessage::room_join_rules_from_sync_event(event, room_id),
        ),
        SyncEventContent::RoomMember { .. } => Some(
            RoomMessage::room_member_from_sync_event(event, room_id),
        ),
        SyncEventContent::RoomMessage { .. } => Some(
            RoomMessage::room_message_from_sync_event(event, room_id, false),
        ),
        SyncEventContent::RoomName { .. } => Some(
            RoomMessage::room_name_from_sync_event(event, room_id),
        ),
        SyncEventContent::RoomPinnedEvents { .. } => Some(
            RoomMessage::room_pinned_events_from_sync_event(event, room_id),
        ),
        SyncEventContent::RoomPowerLevels { .. } => Some(
            RoomMessage::room_power_levels_from_sync_event(event, room_id),
        ),
        SyncEventContent::RoomRedaction { .. } => Some(
            RoomMessage::room_redaction_from_sync_event(event, room_id),
        ),
        SyncEventContent::RoomServerAcl { .. } => Some(
            RoomMessage::room_server_acl_from_sync_event(event, room_id),
        ),
        SyncEventContent::RoomThirdPartyInvite { .. } => Some(
            RoomMessage::room_third_party_invite_from_sync_event(event, room_id),
        ),
        SyncEventContent::RoomTombstone { .. } => Some(
            RoomMessage::room_tombstone_from_sync_event(event, room_id),
        ),
        SyncEventContent::RoomTopic { .. } => Some(
            RoomMessage::room_topic_from_sync_event(event, room_id),
        ),
        SyncEventContent::SpaceChild { .. } => Some(
            RoomMessage::space_child_from_sync_event(event, room_id),
        ),
        SyncEventContent::SpaceParent { .. } => Some(
            RoomMessage::space_parent_from_sync_event(event, room_id),
        ),
        SyncEventContent::Sticker { .. } => Some(
            RoomMessage::sticker_from_sync_event(event, room_id),
        ),
        SyncEventContent::Unknown { .. } => Some(
            RoomMessage::unknown_from_sync_event(event, room_id),
        ),
    }
}

} // verus!
