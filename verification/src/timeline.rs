//! The feed-facing timeline items: event items with their derived state
//! (send state, content descriptor, receipts, reactions, edit flags),
//! virtual items, and the room-scoped wrapper around either.

use vstd::prelude::*;

use crate::content::{clone_opt_string, ContentDesc};

verus! {

/// The delivery state of a locally sent event, as the transport reports it.
#[derive(Debug)]
pub enum SendState {
    NotSentYet,
    Cancelled,
    SendingFailed { error: String },
    Sent { event_id: String },
}

/// The delivery state flattened for consumers: a state word, an error line
/// for failed sends, and the acknowledged event id for successful ones.
#[derive(Debug)]
pub struct EventSendState {
    pub state: String,
    pub error: Option<String>,
    pub event_id: Option<String>,
}

/// The state word `EventSendState::new` derives.
pub open spec fn send_state_word(inner: SendState) -> Seq<char> {
    match inner {
        SendState::NotSentYet => "NotSentYet"@,
        SendState::Cancelled => "Cancelled"@,
        SendState::SendingFailed { .. } => "SendingFailed"@,
        SendState::Sent { .. } => "Sent"@,
    }
}

/// How a flattened send state reflects the transport state: the right state
/// word, the error only for a failed send, the event id only for an
/// acknowledged one.
pub open spec fn send_state_info_ok(s: EventSendState, inner: SendState) -> bool {
    &&& s.state@ == send_state_word(inner)
    &&& match inner {
        SendState::SendingFailed { error } => s.error == Some(error),
        _ => s.error is None,
    }
    &&& match inner {
        SendState::Sent { event_id } => s.event_id == Some(event_id),
        _ => s.event_id is None,
    }
}

impl Clone for EventSendState {
    fn clone(&self) -> (res: Self)
        ensures
            res == *self,
    {
        EventSendState {
            state: self.state.clone(),
            error: clone_opt_string(&self.error),
            event_id: clone_opt_string(&self.event_id),
        }
    }
}

impl EventSendState {
    /// Flattens a transport send state: the error is kept only for a failed
    /// send, the event id only for an acknowledged one.
    pub fn new(inner: &SendState) -> (r: EventSendState)
        ensures
            send_state_info_ok(r, *inner),
    {
        match inner {
            SendState::NotSentYet => EventSendState {
                state: String::from_str("NotSentYet"),
                error: None,
                event_id: None,
            },
            SendState::Cancelled => EventSendState {
                state: String::from_str("Cancelled"),
                error: None,
                event_id: None,
            },
            SendState::SendingFailed { error } => EventSendState {
                state: String::from_str("SendingFailed"),
                error: Some(error.clone()),
                event_id: None,
            },
            SendState::Sent { event_id } => EventSendState {
                state: String::from_str("Sent"),
                error: None,
                event_id: Some(event_id.clone()),
            },
        }
    }

    pub fn state(&self) -> (r: String)
        ensures
            r@ == self.state@,
    {
        self.state.clone()
    }

    pub fn error(&self) -> (r: Option<String>)
        ensures
            r == self.error,
    {
        clone_opt_string(&self.error)
    }

    pub fn event_id(&self) -> (r: Option<String>)
        ensures
            r == self.event_id,
    {
        clone_opt_string(&self.event_id)
    }
}

/// One user's read receipt as carried on a timeline item: who has seen it
/// and, when known, the receipt's timestamp.
#[derive(Debug)]
pub struct UserReceipt {
    pub seen_by: String,
    pub ts: Option<u64>,
}

impl Clone for UserReceipt {
    fn clone(&self) -> (res: Self)
        ensures
            res == *self,
    {
        UserReceipt { seen_by: self.seen_by.clone(), ts: self.ts }
    }
}

/// One sender's reaction under one key: who reacted, when, and whether the
/// sender is the viewer.
#[derive(Debug)]
pub struct ReactionRecord {
    pub sender_id: String,
    pub timestamp: u64,
    pub sent_by_me: bool,
}

impl Clone for ReactionRecord {
    fn clone(&self) -> (res: Self)
        ensures
            res == *self,
    {
        ReactionRecord {
            sender_id: self.sender_id.clone(),
            timestamp: self.timestamp,
            sent_by_me: self.sent_by_me,
        }
    }
}

impl ReactionRecord {
    pub fn new(sender_id: String, timestamp: u64, sent_by_me: bool) -> (r: ReactionRecord)
        ensures
            r == (ReactionRecord { sender_id, timestamp, sent_by_me }),
    {
        ReactionRecord { sender_id, timestamp, sent_by_me }
    }

    pub fn sender_id(&self) -> (r: String)
        ensures
            r@ == self.sender_id@,
    {
        self.sender_id.clone()
    }

    pub fn timestamp(&self) -> (r: u64)
        ensures
            r == self.timestamp,
    {
        self.timestamp
    }

    pub fn sent_by_me(&self) -> (r: bool)
        ensures
            r == self.sent_by_me,
    {
        self.sent_by_me
    }
}

/// All reactions grouped under one reaction key, in arrival order.
#[derive(Debug)]
pub struct ReactionEntry {
    pub key: String,
    pub records: Vec<ReactionRecord>,
}

pub fn clone_reaction_records(v: &Vec<ReactionRecord>) -> (r: Vec<ReactionRecord>)
    ensures
        r@ == v@,
{
    let mut out: Vec<ReactionRecord> = Vec::new();
    let mut i: usize = 0;
    while i < v.len()
        invariant
            0 <= i <= v.len(),
            out@ == v@.take(i as int),
        decreases v.len() - i,
    {
        out.push(v[i].clone());
        proof {
            assert(out@ =~= v@.take(i + 1));
        }
        i = i + 1;
    }
    proof {
        assert(v@.take(v@.len() as int) =~= v@);
    }
    out
}

impl Clone for ReactionEntry {
    fn clone(&self) -> (res: Self)
        ensures
            res.key == self.key,
            res.records@ == self.records@,
    {
        ReactionEntry { key: self.key.clone(), records: clone_reaction_records(&self.records) }
    }
}

fn clone_receipts(v: &Vec<UserReceipt>) -> (r: Vec<UserReceipt>)
    ensures
        r@ == v@,
{
    let mut out: Vec<UserReceipt> = Vec::new();
    let mut i: usize = 0;
    while i < v.len()
        invariant
            0 <= i <= v.len(),
            out@ == v@.take(i as int),
        decreases v.len() - i,
    {
        out.push(v[i].clone());
        proof {
            assert(out@ =~= v@.take(i + 1));
        }
        i = i + 1;
    }
    proof {
        assert(v@.take(v@.len() as int) =~= v@);
    }
    out
}

fn clone_reactions(v: &Vec<ReactionEntry>) -> (r: Vec<ReactionEntry>)
    ensures
        reactions_like(r@, v@),
{
    let mut out: Vec<ReactionEntry> = Vec::new();
    let mut i: usize = 0;
    while i < v.len()
        invariant
            0 <= i <= v.len(),
            out@.len() == i,
            reactions_like(out@, v@.take(i as int)),
        decreases v.len() - i,
    {
        out.push(v[i].clone());
        i = i + 1;
    }
    proof {
        assert(v@.take(v@.len() as int) =~= v@);
    }
    out
}

/// No two receipts for the same user.
pub open spec fn receipts_unique(s: Seq<UserReceipt>) -> bool {
    forall|i: int, j: int|
        #![trigger s[i].seen_by, s[j].seen_by]
        0 <= i < j < s.len() ==> s[i].seen_by@ != s[j].seen_by@
}

/// No two reaction groups under the same key.
pub open spec fn reactions_unique(s: Seq<ReactionEntry>) -> bool {
    forall|i: int, j: int|
        #![trigger s[i].key, s[j].key]
        0 <= i < j < s.len() ==> s[i].key@ != s[j].key@
}

proof fn lemma_receipts_unique_same_key(s: Seq<UserReceipt>, user: Seq<char>, i: int, k: int)
    requires
        receipts_unique(s),
        0 <= i < s.len(),
        0 <= k < s.len(),
        s[i].seen_by@ == user,
        s[k].seen_by@ == user,
    ensures
        i == k,
{
    if i < k {
        assert(s[i].seen_by@ != s[k].seen_by@);
    } else if k < i {
        assert(s[k].seen_by@ != s[i].seen_by@);
    }
}

proof fn lemma_reactions_unique_same_key(s: Seq<ReactionEntry>, key: Seq<char>, i: int, k: int)
    requires
        reactions_unique(s),
        0 <= i < s.len(),
        0 <= k < s.len(),
        s[i].key@ == key,
        s[k].key@ == key,
    ensures
        i == k,
{
    if i < k {
        assert(s[i].key@ != s[k].key@);
    } else if k < i {
        assert(s[k].key@ != s[i].key@);
    }
}

/// Reaction-group sequences that hold the same keys and records; two `Vec`s
/// with equal contents are not themselves equal values, so contracts that
/// copy reaction groups speak through this predicate.
pub open spec fn reactions_like(a: Seq<ReactionEntry>, b: Seq<ReactionEntry>) -> bool {
    a.len() == b.len() && forall|k: int|
        0 <= k < a.len() ==> (#[trigger] a[k]).key == b[k].key && a[k].records@ == b[k].records@
}

/// Event items that agree on every field, reading reaction groups through
/// `reactions_like`.
pub open spec fn item_like(a: RoomEventItem, b: RoomEventItem) -> bool {
    a.evt_id == b.evt_id && a.txn_id == b.txn_id && a.sender == b.sender && a.send_state
        == b.send_state && a.origin_server_ts == b.origin_server_ts && a.event_type == b.event_type
        && a.msg_type == b.msg_type && a.content_desc == b.content_desc && a.in_reply_to
        == b.in_reply_to && a.read_receipts@ == b.read_receipts@ && reactions_like(
        a.reactions@,
        b.reactions@,
    ) && a.editable == b.editable && a.edited == b.edited
}

/// Optional event items that agree per `item_like`.
pub open spec fn opt_item_like(a: Option<RoomEventItem>, b: Option<RoomEventItem>) -> bool {
    match (a, b) {
        (Some(x), Some(y)) => item_like(x, y),
        (None, None) => true,
        _ => false,
    }
}

/// Room messages that agree on every field, reading event items through
/// `item_like`.
pub open spec fn msg_like(a: RoomMessage, b: RoomMessage) -> bool {
    a.item_type == b.item_type && a.room_id == b.room_id && opt_item_like(
        a.event_item,
        b.event_item,
    ) && a.virtual_item == b.virtual_item
}

/// A renderable feed event: identity (event id or transaction id), sender,
/// timestamp, type, and the derived display state layered on top.
#[derive(Debug)]
pub struct RoomEventItem {
    pub evt_id: Option<String>,
    pub txn_id: Option<String>,
    pub sender: String,
    pub send_state: Option<EventSendState>,
    pub origin_server_ts: u64,
    pub event_type: String,
    pub msg_type: Option<String>,
    pub content_desc: Option<ContentDesc>,
    pub in_reply_to: Option<String>,
    pub read_receipts: Vec<UserReceipt>,
    pub reactions: Vec<ReactionEntry>,
    pub editable: bool,
    pub edited: bool,
}

impl Clone for RoomEventItem {
    fn clone(&self) -> (res: Self)
        ensures
            item_like(res, *self),
    {
        let send_state = match &self.send_state {
            Some(s) => Some(s.clone()),
            None => None,
        };
        let content_desc = match &self.content_desc {
            Some(d) => Some(d.clone()),
            None => None,
        };
        RoomEventItem {
            evt_id: clone_opt_string(&self.evt_id),
            txn_id: clone_opt_string(&self.txn_id),
            sender: self.sender.clone(),
            send_state,
            origin_server_ts: self.origin_server_ts,
            event_type: self.event_type.clone(),
            msg_type: clone_opt_string(&self.msg_type),
            content_desc,
            in_reply_to: clone_opt_string(&self.in_reply_to),
            read_receipts: clone_receipts(&self.read_receipts),
            reactions: clone_reactions(&self.reactions),
            editable: self.editable,
            edited: self.edited,
        }
    }
}

impl RoomEventItem {
    /// Receipt and reaction groups are keyed uniquely.
    pub open spec fn wf(&self) -> bool {
        receipts_unique(self.read_receipts@) && reactions_unique(self.reactions@)
    }

    /// A fresh item carrying identity alone: no message kind, no content,
    /// no overlays.
    pub fn new(
        evt_id: Option<String>,
        txn_id: Option<String>,
        sender: String,
        origin_server_ts: u64,
        event_type: String,
    ) -> (r: RoomEventItem)
        ensures
            r == (RoomEventItem {
                evt_id,
                txn_id,
                sender,
                send_state: None::<EventSendState>,
                origin_server_ts,
                event_type,
                msg_type: None::<String>,
                content_desc: None::<ContentDesc>,
                in_reply_to: None::<String>,
                read_receipts: r.read_receipts,
                reactions: r.reactions,
                editable: false,
                edited: false,
            }),
            r.read_receipts@ == Seq::<UserReceipt>::empty(),
            r.reactions@ == Seq::<ReactionEntry>::empty(),
            r.wf(),
    {
        RoomEventItem {
            evt_id,
            txn_id,
            sender,
            send_state: None,
            origin_server_ts,
            event_type,
            msg_type: None,
            content_desc: None,
            in_reply_to: None,
            read_receipts: Vec::new(),
            reactions: Vec::new(),
            editable: false,
            edited: false,
        }
    }

    /// The event id when acknowledged, else the transaction id; exactly one
    /// of the two identifies a well-formed item.
    pub fn unique_id(&self) -> (r: String)
        requires
            self.evt_id is Some || self.txn_id is Some,
        ensures
            (match self.evt_id {
                Some(e) => r@ == e@,
                None => r@ == self.txn_id->0@,
            }),
    {
        if let Some(evt_id) = &self.evt_id {
            return evt_id.clone();
        }
        match &self.txn_id {
            Some(txn_id) => txn_id.clone(),
            None => vstd::pervasive::unreached(),
        }
    }

    pub fn evt_id(&self) -> (r: Option<String>)
        ensures
            r == self.evt_id,
    {
        clone_opt_string(&self.evt_id)
    }

    pub fn sender(&self) -> (r: String)
        ensures
            r@ == self.sender@,
    {
        self.sender.clone()
    }

    pub(crate) fn set_send_state(&mut self, send_state: &SendState)
        ensures
            *final(self) == (RoomEventItem {
                send_state: final(self).send_state,
                ..*old(self)
            }),
            (match final(self).send_state {
                Some(s) => send_state_info_ok(s, *send_state),
                None => false,
            }),
    {
        self.send_state = Some(EventSendState::new(send_state));
    }

    pub fn send_state(&self) -> (r: Option<EventSendState>)
        ensures
            r == self.send_state,
    {
        match &self.send_state {
            Some(s) => Some(s.clone()),
            None => None,
        }
    }

    pub fn origin_server_ts(&self) -> (r: u64)
        ensures
            r == self.origin_server_ts,
    {
        self.origin_server_ts
    }

    pub fn event_type(&self) -> (r: String)
        ensures
            r@ == self.event_type@,
    {
        self.event_type.clone()
    }

    pub fn msg_type(&self) -> (r: Option<String>)
        ensures
            r == self.msg_type,
    {
        clone_opt_string(&self.msg_type)
    }

    pub(crate) fn set_msg_type(&mut self, value: String)
        ensures
            *final(self) == (RoomEventItem { msg_type: Some(value), ..*old(self) }),
    {
        self.msg_type = Some(value);
    }

    pub fn content_desc(&self) -> (r: Option<ContentDesc>)
        ensures
            r == self.content_desc,
    {
        match &self.content_desc {
            Some(d) => Some(d.clone()),
            None => None,
        }
    }

    pub(crate) fn set_content_desc(&mut self, value: ContentDesc)
        ensures
            *final(self) == (RoomEventItem { content_desc: Some(value), ..*old(self) }),
    {
        self.content_desc = Some(value);
    }

    pub fn in_reply_to(&self) -> (r: Option<String>)
        ensures
            r == self.in_reply_to,
    {
        clone_opt_string(&self.in_reply_to)
    }

    pub(crate) fn set_in_reply_to(&mut self, value: String)
        ensures
            *final(self) == (RoomEventItem { in_reply_to: Some(value), ..*old(self) }),
    {
        self.in_reply_to = Some(value);
    }

    /// Records that `seen_by` has read up to some event: last write wins,
    /// earlier users keep their place.
    pub(crate) fn add_receipt(&mut self, seen_by: String, ts: Option<u64>)
        requires
            receipts_unique(old(self).read_receipts@),
        ensures
            *final(self) == (RoomEventItem {
                read_receipts: final(self).read_receipts,
                ..*old(self)
            }),
            receipts_unique(final(self).read_receipts@),
            ({
                let s = old(self).read_receipts@;
                let t = final(self).read_receipts@;
                if exists|k: int| 0 <= k < s.len() && s[k].seen_by@ == seen_by@ {
                    t.len() == s.len() && (forall|k: int|
                        0 <= k < s.len() && s[k].seen_by@ != seen_by@ ==> t[k] == s[k]) && (
                    forall|k: int|
                        0 <= k < s.len() && s[k].seen_by@ == seen_by@ ==> t[k] == (UserReceipt {
                            seen_by,
                            ts,
                        }))
                } else {
                    t == s.push(UserReceipt { seen_by, ts })
                }
            }),
    {
        let mut i: usize = 0;
        while i < self.read_receipts.len()
            invariant
                0 <= i <= self.read_receipts.len(),
                *self == (RoomEventItem { read_receipts: self.read_receipts, ..*old(self) }),
                self.read_receipts@ == old(self).read_receipts@,
                receipts_unique(old(self).read_receipts@),
                forall|k: int| 0 <= k < i ==> self.read_receipts@[k].seen_by@ != seen_by@,
            decreases self.read_receipts.len() - i,
        {
            if self.read_receipts[i].seen_by == seen_by {
                self.read_receipts[i] = UserReceipt { seen_by, ts };
                proof {
                    let s = old(self).read_receipts@;
                    let t = self.read_receipts@;
                    assert(s[i as int].seen_by@ == seen_by@);
                    assert forall|k: int| 0 <= k < t.len() implies t[k].seen_by@
                        == s[k].seen_by@ by {}
                    assert forall|k: int|
                        0 <= k < s.len() && s[k].seen_by@ == seen_by@ implies t[k] == (UserReceipt {
                        seen_by,
                        ts,
                    }) by {
                        lemma_receipts_unique_same_key(s, seen_by@, i as int, k);
                    }
                }
                return ;
            }
            i = i + 1;
        }
        self.read_receipts.push(UserReceipt { seen_by, ts });
    }

    /// The users that have left a read receipt, in stored order.
    pub fn read_users(&self) -> (r: Vec<String>)
        ensures
            r@.len() == self.read_receipts@.len(),
            forall|k: int| 0 <= k < r@.len() ==> r@[k]@ == self.read_receipts@[k].seen_by@,
    {
        let mut users: Vec<String> = Vec::new();
        let mut i: usize = 0;
        while i < self.read_receipts.len()
            invariant
                0 <= i <= self.read_receipts.len(),
                users@.len() == i,
                forall|k: int| 0 <= k < i ==> users@[k]@ == self.read_receipts@[k].seen_by@,
            decreases self.read_receipts.len() - i,
        {
            users.push(self.read_receipts[i].seen_by.clone());
            i = i + 1;
        }
        users
    }

    /// The receipt timestamp of one user, when present and known.
    pub fn receipt_ts(&self, seen_by: String) -> (r: Option<u64>)
        requires
            receipts_unique(self.read_receipts@),
        ensures
            (forall|k: int|
                0 <= k < self.read_receipts@.len() && self.read_receipts@[k].seen_by@ == seen_by@
                    ==> r == self.read_receipts@[k].ts),
            (forall|k: int|
                0 <= k < self.read_receipts@.len() ==> self.read_receipts@[k].seen_by@ != seen_by@)
                ==> r is None,
    {
        let mut i: usize = 0;
        while i < self.read_receipts.len()
            invariant
                0 <= i <= self.read_receipts.len(),
                receipts_unique(self.read_receipts@),
                forall|k: int| 0 <= k < i ==> self.read_receipts@[k].seen_by@ != seen_by@,
            decreases self.read_receipts.len() - i,
        {
            if self.read_receipts[i].seen_by == seen_by {
                proof {
                    let s = self.read_receipts@;
                    assert forall|k: int|
                        0 <= k < s.len() && s[k].seen_by@ == seen_by@ implies s[k].ts == s[i as int].ts by {
                        lemma_receipts_unique_same_key(s, seen_by@, i as int, k);
                    }
                }
                return self.read_receipts[i].ts;
            }
            i = i + 1;
        }
        None
    }

    /// Stores the reaction records under a key: last write wins, earlier
    /// keys keep their place.
    pub(crate) fn add_reaction(&mut self, key: String, records: Vec<ReactionRecord>)
        requires
            reactions_unique(old(self).reactions@),
        ensures
            *final(self) == (RoomEventItem { reactions: final(self).reactions, ..*old(self) }),
            reactions_unique(final(self).reactions@),
            ({
                let s = old(self).reactions@;
                let t = final(self).reactions@;
                if exists|k: int| 0 <= k < s.len() && s[k].key@ == key@ {
                    t.len() == s.len() && (forall|k: int|
                        0 <= k < s.len() && s[k].key@ != key@ ==> t[k] == s[k]) && (forall|k: int|
                        0 <= k < s.len() && s[k].key@ == key@ ==> t[k] == (ReactionEntry {
                            key,
                            records,
                        }))
                } else {
                    t == s.push(ReactionEntry { key, records })
                }
            }),
    {
        let mut i: usize = 0;
        while i < self.reactions.len()
            invariant
                0 <= i <= self.reactions.len(),
                *self == (RoomEventItem { reactions: self.reactions, ..*old(self) }),
                self.reactions@ == old(self).reactions@,
                reactions_unique(old(self).reactions@),
                forall|k: int| 0 <= k < i ==> self.reactions@[k].key@ != key@,
            decreases self.reactions.len() - i,
        {
            if self.reactions[i].key == key {
                self.reactions[i] = ReactionEntry { key, records };
                proof {
                    let s = old(self).reactions@;
                    let t = self.reactions@;
                    assert(s[i as int].key@ == key@);
                    assert forall|k: int| 0 <= k < t.len() implies t[k].key@ == s[k].key@ by {}
                    assert forall|k: int|
                        0 <= k < s.len() && s[k].key@ == key@ implies t[k] == (ReactionEntry {
                        key,
                        records,
                    }) by {
                        lemma_reactions_unique_same_key(s, key@, i as int, k);
                    }
                }
                return ;
            }
            i = i + 1;
        }
        self.reactions.push(ReactionEntry { key, records });
    }

    /// The reaction keys present, in stored order.
    pub fn reaction_keys(&self) -> (r: Vec<String>)
        ensures
            r@.len() == self.reactions@.len(),
            forall|k: int| 0 <= k < r@.len() ==> r@[k]@ == self.reactions@[k].key@,
    {
        let mut keys: Vec<String> = Vec::new();
        let mut i: usize = 0;
        while i < self.reactions.len()
            invariant
                0 <= i <= self.reactions.len(),
                keys@.len() == i,
                forall|k: int| 0 <= k < i ==> keys@[k]@ == self.reactions@[k].key@,
            decreases self.reactions.len() - i,
        {
            keys.push(self.reactions[i].key.clone());
            i = i + 1;
        }
        keys
    }

    /// The reaction records under one key, when the key is present.
    pub fn reaction_records(&self, key: String) -> (r: Option<Vec<ReactionRecord>>)
        requires
            reactions_unique(self.reactions@),
        ensures
            (forall|k: int|
                0 <= k < self.reactions@.len() && self.reactions@[k].key@ == key@ ==> (match r {
                    Some(v) => v@ == self.reactions@[k].records@,
                    None => false,
                })),
            (forall|k: int| 0 <= k < self.reactions@.len() ==> self.reactions@[k].key@ != key@)
                ==> r is None,
    {
        let mut i: usize = 0;
        while i < self.reactions.len()
            invariant
                0 <= i <= self.reactions.len(),
                reactions_unique(self.reactions@),
                forall|k: int| 0 <= k < i ==> self.reactions@[k].key@ != key@,
            decreases self.reactions.len() - i,
        {
            if self.reactions[i].key == key {
                proof {
                    let s = self.reactions@;
                    assert forall|k: int|
                        0 <= k < s.len() && s[k].key@ == key@ implies s[k].records
                            == s[i as int].records by {
                        lemma_reactions_unique_same_key(s, key@, i as int, k);
                    }
                }
                return Some(clone_reaction_records(&self.reactions[i].records));
            }
            i = i + 1;
        }
        None
    }

    pub fn is_editable(&self) -> (r: bool)
        ensures
            r == self.editable,
    {
        self.editable
    }

    pub(crate) fn set_editable(&mut self, value: bool)
        ensures
            *final(self) == (RoomEventItem { editable: value, ..*old(self) }),
    {
        self.editable = value;
    }

    pub fn was_edited(&self) -> (r: bool)
        ensures
            r == self.edited,
    {
        self.edited
    }

    pub(crate) fn set_edited(&mut self, value: bool)
        ensures
            *final(self) == (RoomEventItem { edited: value, ..*old(self) }),
    {
        self.edited = value;
    }
}

/// A feed entry the projector synthesizes rather than derives from a
/// protocol event: a day divider (with its date line) or the read marker.
#[derive(Debug)]
pub struct RoomVirtualItem {
    pub event_type: String,
    pub desc: Option<String>,
}

impl Clone for RoomVirtualItem {
    fn clone(&self) -> (res: Self)
        ensures
            res == *self,
    {
        RoomVirtualItem { event_type: self.event_type.clone(), desc: clone_opt_string(&self.desc) }
    }
}

impl RoomVirtualItem {
    pub fn new(event_type: String, desc: Option<String>) -> (r: RoomVirtualItem)
        ensures
            r == (RoomVirtualItem { event_type, desc }),
    {
        RoomVirtualItem { event_type, desc }
    }

    pub fn event_type(&self) -> (r: String)
        ensures
            r@ == self.event_type@,
    {
        self.event_type.clone()
    }

    pub fn desc(&self) -> (r: Option<String>)
        ensures
            r == self.desc,
    {
        clone_opt_string(&self.desc)
    }
}

/// A room-scoped feed entry: either an event item or a virtual item,
/// tagged with which of the two it is.
#[derive(Debug)]
pub struct RoomMessage {
    pub item_type: String,
    pub room_id: String,
    pub event_item: Option<RoomEventItem>,
    pub virtual_item: Option<RoomVirtualItem>,
}

impl Clone for RoomMessage {
    fn clone(&self) -> (res: Self)
        ensures
            msg_like(res, *self),
    {
        let event_item = match &self.event_item {
            Some(e) => Some(e.clone()),
            None => None,
        };
        let virtual_item = match &self.virtual_item {
            Some(v) => Some(v.clone()),
            None => None,
        };
        RoomMessage {
            item_type: self.item_type.clone(),
            room_id: self.room_id.clone(),
            event_item,
            virtual_item,
        }
    }
}

impl RoomMessage {
    /// An event entry: its item type is the word `event`.
    pub fn new_event_item(room_id: String, event_item: RoomEventItem) -> (r: RoomMessage)
        ensures
            r.item_type@ == "event"@,
            r.room_id == room_id,
            r.event_item == Some(event_item),
            r.virtual_item is None,
    {
        RoomMessage {
            item_type: String::from_str("event"),
            room_id,
            event_item: Some(event_item),
            virtual_item: None,
        }
    }

    /// A virtual entry: its item type is the word `virtual`.
    pub fn new_virtual_item(room_id: String, virtual_item: RoomVirtualItem) -> (r: RoomMessage)
        ensures
            r.item_type@ == "virtual"@,
            r.room_id == room_id,
            r.event_item is None,
            r.virtual_item == Some(virtual_item),
    {
        RoomMessage {
            item_type: String::from_str("virtual"),
            room_id,
            event_item: None,
            virtual_item: Some(virtual_item),
        }
    }

    pub fn item_type(&self) -> (r: String)
        ensures
            r@ == self.item_type@,
    {
        self.item_type.clone()
    }

    pub fn room_id(&self) -> (r: String)
        ensures
            r@ == self.room_id@,
    {
        self.room_id.clone()
    }

    pub fn event_item(&self) -> (r: Option<RoomEventItem>)
        ensures
            opt_item_like(r, self.event_item),
    {
        match &self.event_item {
            Some(e) => Some(e.clone()),
            None => None,
        }
    }

    /// The unique id of the carried event item, if this entry carries one.
    pub fn event_id(&self) -> (r: Option<String>)
        requires
            (match self.event_item {
                Some(e) => e.evt_id is Some || e.txn_id is Some,
                None => true,
            }),
        ensures
            r is Some <==> self.event_item is Some,
            (match self.event_item {
                Some(e) => (match r {
                    Some(id) => (match e.evt_id {
                        Some(eid) => id@ == eid@,
                        None => id@ == e.txn_id->0@,
                    }),
                    None => false,
                }),
                None => r is None,
            }),
    {
        match &self.event_item {
            Some(e) => Some(e.unique_id()),
            None => None,
        }
    }

    /// The event type of the carried event item, or the word `virtual` for
    /// a virtual entry.
    pub fn event_type(&self) -> (r: String)
        ensures
            (match self.event_item {
                Some(e) => r@ == e.event_type@,
                None => r@ == "virtual"@,
            }),
    {
        match &self.event_item {
            Some(e) => e.event_type(),
            None => String::from_str("virtual"),
        }
    }

    pub fn origin_server_ts(&self) -> (r: Option<u64>)
        ensures
            (match self.event_item {
                Some(e) => r == Some(e.origin_server_ts),
                None => r is None,
            }),
    {
        match &self.event_item {
            Some(e) => Some(e.origin_server_ts),
            None => None,
        }
    }

    pub(crate) fn set_event_item(&mut self, event_item: Option<RoomEventItem>)
        ensures
            *final(self) == (RoomMessage { event_item, ..*old(self) }),
    {
        self.event_item = event_item;
    }

    pub fn virtual_item(&self) -> (r: Option<RoomVirtualItem>)
        ensures
            r == self.virtual_item,
    {
        match &self.virtual_item {
            Some(v) => Some(v.clone()),
            None => None,
        }
    }
}

} // verus!
