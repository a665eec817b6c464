//! The protocol-event model the projector dispatches on: a closed tagged
//! union of the recognized event kinds, each carrying the plain fields its
//! projection reads, plus an explicit unknown kind for everything else.

use vstd::prelude::*;

use crate::content::MsgPayload;

verus! {

/// One user's power level, as named in a power-levels state event.
#[derive(Debug)]
pub struct PowerLevelEntry {
    pub user_id: String,
    pub level: i64,
}

/// The encryption scheme named by an encrypted event.
#[derive(Clone, Copy, Debug, PartialEq, Eq, Structural)]
pub enum EncryptionScheme {
    MegolmV1AesSha2,
    OlmV1Curve25519AesSha2,
    Unknown,
}

/// A membership state: the five protocol states, and `Other` for custom
/// states, whose member events read as profile changes.
#[derive(Clone, Copy, Debug, PartialEq, Eq, Structural)]
pub enum MembershipState {
    Join,
    Leave,
    Ban,
    Invite,
    Knock,
    Other,
}

/// The relation a message event declares to an earlier event.
#[derive(Debug)]
pub enum Relation {
    Reply { event_id: String },
    Replacement { event_id: String },
    Other,
}

/// The content of a member state event: the new membership, the new profile
/// fields, and the previous profile fields when the server supplied them.
#[derive(Debug)]
pub struct MemberContent {
    pub membership: MembershipState,
    pub displayname: Option<String>,
    pub avatar_url: Option<String>,
    pub prev_displayname: Option<String>,
    pub prev_avatar_url: Option<String>,
}

/// The recognized protocol event kinds, with the fields each projection
/// reads; `Unknown` carries the raw event-type string of anything else.
#[derive(Debug)]
pub enum SyncEventContent {
    CallAnswer { sdp: String },
    CallCandidates { candidates: Vec<String> },
    CallHangup { reason: String },
    CallInvite { sdp: String },
    PolicyRuleRoom { recommendation: String, entity: String, reason: String },
    PolicyRuleServer,
    PolicyRuleUser,
    Reaction { key: String },
    RoomAliases { aliases: Vec<String> },
    RoomAvatar,
    RoomCanonicalAlias { alias: Option<String>, alt_aliases: Vec<String> },
    RoomCreate,
    RoomEncrypted { scheme: EncryptionScheme },
    RoomEncryption { algorithm: String },
    RoomGuestAccess { guest_access: String },
    RoomHistoryVisibility { history_visibility: String },
    RoomJoinRules { join_rule: String },
    RoomMember { content: MemberContent },
    RoomMessage { msgtype: MsgPayload, relates_to: Option<Relation> },
    RoomName { name: String },
    RoomPinnedEvents { pinned_count: u64 },
    RoomPowerLevels { users: Vec<PowerLevelEntry> },
    RoomRedaction { reason: Option<String> },
    RoomServerAcl { allow: Vec<String>, deny: Vec<String> },
    RoomThirdPartyInvite { display_name: String },
    RoomTombstone { body: String },
    RoomTopic { topic: String },
    SpaceChild { order: Option<String> },
    SpaceParent { via: Vec<String> },
    Sticker { body: String },
    Unknown { event_type: String },
}

/// A protocol event with its identity, sender and timestamp, and its
/// kind-specific content.
#[derive(Debug)]
pub struct SyncEvent {
    pub event_id: String,
    pub sender: String,
    pub origin_server_ts: u64,
    pub content: SyncEventContent,
}

} // verus!
