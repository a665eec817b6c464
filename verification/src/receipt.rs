//! Read receipts: the per-user records extracted from an ephemeral receipt
//! event, grouped per room.

use vstd::prelude::*;

verus! {

/// A read receipt left by one user: the event they have seen and when.
#[derive(Debug)]
pub struct ReceiptRecord {
    pub event_id: String,
    pub user_id: String,
    pub timestamp: u64,
}

impl Clone for ReceiptRecord {
    fn clone(&self) -> (res: Self)
        ensures
            res == *self,
    {
        ReceiptRecord {
            event_id: self.event_id.clone(),
            user_id: self.user_id.clone(),
            timestamp: self.timestamp,
        }
    }
}

impl ReceiptRecord {
    pub fn new(event_id: String, user_id: String, timestamp: u64) -> (r: ReceiptRecord)
        ensures
            r == (ReceiptRecord { event_id, user_id, timestamp }),
    {
        ReceiptRecord { event_id, user_id, timestamp }
    }

    pub fn event_id(&self) -> (r: String)
        ensures
            r@ == self.event_id@,
    {
        self.event_id.clone()
    }

    pub fn user_id(&self) -> (r: String)
        ensures
            r@ == self.user_id@,
    {
        self.user_id.clone()
    }

    pub fn timestamp(&self) -> (r: u64)
        ensures
            r == self.timestamp,
    {
        self.timestamp
    }
}

/// All read receipts of one ephemeral receipt event, for one room.
#[derive(Debug)]
pub struct ReceiptEvent {
    pub room_id: String,
    pub receipt_records: Vec<ReceiptRecord>,
}

impl ReceiptEvent {
    pub fn new(room_id: String) -> (r: ReceiptEvent)
        ensures
            r.room_id@ == room_id@,
            r.receipt_records@ == Seq::<ReceiptRecord>::empty(),
    {
        ReceiptEvent { room_id, receipt_records: Vec::new() }
    }

    pub fn room_id(&self) -> (r: String)
        ensures
            r@ == self.room_id@,
    {
        self.room_id.clone()
    }

    /// Appends one record; earlier records are kept in order.
    pub fn add_receipt_record(&mut self, event_id: String, user_id: String, timestamp: u64)
        ensures
            final(self).room_id == old(self).room_id,
            final(self).receipt_records@ == old(self).receipt_records@.push(
                ReceiptRecord { event_id, user_id, timestamp },
            ),
    {
        self.receipt_records.push(ReceiptRecord { event_id, user_id, timestamp });
    }

    pub fn receipt_records(&self) -> (r: Vec<ReceiptRecord>)
        ensures
            r@ == self.receipt_records@,
    {
        let mut out: Vec<ReceiptRecord> = Vec::new();
        let mut i: usize = 0;
        while i < self.receipt_records.len()
            invariant
                0 <= i <= self.receipt_records.len(),
                out@ == self.receipt_records@.take(i as int),
            decreases self.receipt_records.len() - i,
        {
            out.push(self.receipt_records[i].clone());
            proof {
                assert(out@ =~= self.receipt_records@.take(i + 1));
            }
            i = i + 1;
        }
        proof {
            assert(self.receipt_records@.take(self.receipt_records@.len() as int)
                =~= self.receipt_records@);
        }
        out
    }
}

/// The read receipts one event gathered, as delivered by the transport.
#[derive(Debug)]
pub struct EventReadReceipts {
    pub event_id: String,
    pub reads: Vec<UserRead>,
}

/// One user's read position and its timestamp.
#[derive(Debug)]
pub struct UserRead {
    pub user_id: String,
    pub timestamp: u64,
}

/// The records one entry contributes: one per reading user, in order.
pub open spec fn records_of_entry(e: EventReadReceipts) -> Seq<ReceiptRecord> {
    e.reads@.map_values(
        |u: UserRead| ReceiptRecord {
            event_id: e.event_id,
            user_id: u.user_id,
            timestamp: u.timestamp,
        },
    )
}

/// The records of all entries, in entry order.
pub open spec fn records_of(entries: Seq<EventReadReceipts>) -> Seq<ReceiptRecord>
    decreases entries.len(),
{
    if entries.len() == 0 {
        Seq::empty()
    } else {
        records_of_entry(entries[0]) + records_of(entries.drop_first())
    }
}

proof fn lemma_records_of_push(entries: Seq<EventReadReceipts>, e: EventReadReceipts)
    ensures
        records_of(entries.push(e)) == records_of(entries) + records_of_entry(e),
    decreases entries.len(),
{
    if entries.len() == 0 {
        assert(entries.push(e)[0] == e);
        assert(entries.push(e).drop_first() =~= entries);
        assert(records_of(entries) =~= Seq::<ReceiptRecord>::empty());
        assert(records_of(entries.push(e)) =~= records_of_entry(e) + records_of(entries));
        assert(records_of(entries.push(e)) =~= records_of(entries) + records_of_entry(e));
    } else {
        lemma_records_of_push(entries.drop_first(), e);
        assert(entries.push(e).drop_first() =~= entries.drop_first().push(e));
        assert(entries.push(e)[0] == entries[0]);
        assert(records_of(entries.push(e)) =~= records_of(entries) + records_of_entry(e));
    }
}

/// Flattens the receipts of an ephemeral receipt event into one
/// `ReceiptEvent` for the room, keeping event and user order.
pub fn receipt_event_from_content(room_id: String, entries: &Vec<EventReadReceipts>) -> (r:
    ReceiptEvent)
    ensures
        r.room_id@ == room_id@,
        r.receipt_records@ == records_of(entries@),
{
    let mut msg = ReceiptEvent::new(room_id);
    let mut i: usize = 0;
    while i < entries.len()
        invariant
            0 <= i <= entries.len(),
            msg.room_id@ == room_id@,
            msg.receipt_records@ == records_of(entries@.take(i as int)),
        decreases entries.len() - i,
    {
        let entry = &entries[i];
        let mut j: usize = 0;
        while j < entry.reads.len()
            invariant
                0 <= j <= entry.reads.len(),
                entry == &entries@[i as int],
                i < entries.len(),
                msg.receipt_records@ == records_of(entries@.take(i as int)) + records_of_entry(
                    entries@[i as int],
                ).take(j as int),
                msg.room_id@ == room_id@,
            decreases entry.reads.len() - j,
        {
            let read = &entry.reads[j];
            msg.add_receipt_record(entry.event_id.clone(), read.user_id.clone(), read.timestamp);
            proof {
                assert(records_of_entry(entries@[i as int]).take(j + 1)
                    =~= records_of_entry(entries@[i as int]).take(j as int).push(
                    records_of_entry(entries@[i as int])[j as int],
                ));
            }
            j = j + 1;
        }
        proof {
            assert(records_of_entry(entries@[i as int]).take(entry.reads@.len() as int)
                =~= records_of_entry(entries@[i as int]));
            assert(entries@.take(i + 1) =~= entries@.take(i as int).push(entries@[i as int]));
            lemma_records_of_push(entries@.take(i as int), entries@[i as int]);
        }
        i = i + 1;
    }
    proof {
        assert(entries@.take(entries@.len() as int) =~= entries@);
    }
    msg
}

} // verus!
