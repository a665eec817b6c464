//! Timeline diffs: the change records a live timeline stream hands to the
//! feed consumer, with accessors that expose only the fields meaningful
//! for each action.

use vstd::prelude::*;

use crate::message::RoomMessage;

verus! {

/// One change to the timeline: an action word and the fields that action
/// carries.
#[derive(Debug)]
pub struct TimelineDiff {
    pub action: String,
    pub values: Option<Vec<RoomMessage>>,
    pub index: Option<usize>,
    pub value: Option<RoomMessage>,
    pub new_index: Option<usize>,
    pub old_index: Option<usize>,
}

fn clone_messages(v: &Vec<RoomMessage>) -> (r: Vec<RoomMessage>)
    ensures
        r@ == v@,
{
    let mut out: Vec<RoomMessage> = Vec::new();
    let mut i: usize = 0;
    while i < v.len()
        invariant
            0 <= i <= v.len(),
            out@ == v@.take(i as int),
        decreases v.len() - i,
    {
        out.push(v[i].clone());
        proof {
            assert(out@ =~= v@.take(i + 1));
        }
        i = i + 1;
    }
    proof {
        assert(v@.take(v@.len() as int) =~= v@);
    }
    out
}

impl TimelineDiff {
    /// A wholesale replacement appending many entries.
    pub fn new_append(values: Vec<RoomMessage>) -> (r: TimelineDiff)
        ensures
            r.action@ == "Append"@,
            r.values == Some(values),
            r.index is None,
            r.value is None,
            r.new_index is None,
            r.old_index is None,
    {
        TimelineDiff {
            action: String::from_str("Append"),
            values: Some(values),
            index: None,
            value: None,
            new_index: None,
            old_index: None,
        }
    }

    pub fn new_insert(index: usize, value: RoomMessage) -> (r: TimelineDiff)
        ensures
            r.action@ == "Insert"@,
            r.values is None,
            r.index == Some(index),
            r.value == Some(value),
            r.new_index is None,
            r.old_index is None,
    {
        TimelineDiff {
            action: String::from_str("Insert"),
            values: None,
            index: Some(index),
            value: Some(value),
            new_index: None,
            old_index: None,
        }
    }

    pub fn new_set(index: usize, value: RoomMessage) -> (r: TimelineDiff)
        ensures
            r.action@ == "Set"@,
            r.values is None,
            r.index == Some(index),
            r.value == Some(value),
            r.new_index is None,
            r.old_index is None,
    {
        TimelineDiff {
            action: String::from_str("Set"),
            values: None,
            index: Some(index),
            value: Some(value),
            new_index: None,
            old_index: None,
        }
    }

    pub fn new_remove(index: usize) -> (r: TimelineDiff)
        ensures
            r.action@ == "Remove"@,
            r.values is None,
            r.index == Some(index),
            r.value is None,
            r.new_index is None,
            r.old_index is None,
    {
        TimelineDiff {
            action: String::from_str("Remove"),
            values: None,
            index: Some(index),
            value: None,
            new_index: None,
            old_index: None,
        }
    }

    pub fn new_push_back(value: RoomMessage) -> (r: TimelineDiff)
        ensures
            r.action@ == "PushBack"@,
            r.values is None,
            r.index is None,
            r.value == Some(value),
            r.new_index is None,
            r.old_index is None,
    {
        TimelineDiff {
            action: String::from_str("PushBack"),
            values: None,
            index: None,
            value: Some(value),
            new_index: None,
            old_index: None,
        }
    }

    pub fn new_push_front(value: RoomMessage) -> (r: TimelineDiff)
        ensures
            r.action@ == "PushFront"@,
            r.values is None,
            r.index is None,
            r.value == Some(value),
            r.new_index is None,
            r.old_index is None,
    {
        TimelineDiff {
            action: String::from_str("PushFront"),
            values: None,
            index: None,
            value: Some(value),
            new_index: None,
            old_index: None,
        }
    }

    pub fn new_pop_back() -> (r: TimelineDiff)
        ensures
            r.action@ == "PopBack"@,
            r.values is None,
            r.index is None,
            r.value is None,
            r.new_index is None,
            r.old_index is None,
    {
        TimelineDiff {
            action: String::from_str("PopBack"),
            values: None,
            index: None,
            value: None,
            new_index: None,
            old_index: None,
        }
    }

    pub fn new_pop_front() -> (r: TimelineDiff)
        ensures
            r.action@ == "PopFront"@,
            r.values is None,
            r.index is None,
            r.value is None,
            r.new_index is None,
            r.old_index is None,
    {
        TimelineDiff {
            action: String::from_str("PopFront"),
            values: None,
            index: None,
            value: None,
            new_index: None,
            old_index: None,
        }
    }

    pub fn new_clear() -> (r: TimelineDiff)
        ensures
            r.action@ == "Clear"@,
            r.values is None,
            r.index is None,
            r.value is None,
            r.new_index is None,
            r.old_index is None,
    {
        TimelineDiff {
            action: String::from_str("Clear"),
            values: None,
            index: None,
            value: None,
            new_index: None,
            old_index: None,
        }
    }

    pub fn new_reset(values: Vec<RoomMessage>) -> (r: TimelineDiff)
        ensures
            r.action@ == "Reset"@,
            r.values == Some(values),
            r.index is None,
            r.value is None,
            r.new_index is None,
            r.old_index is None,
    {
        TimelineDiff {
            action: String::from_str("Reset"),
            values: Some(values),
            index: None,
            value: None,
            new_index: None,
            old_index: None,
        }
    }

    pub fn action(&self) -> (r: String)
        ensures
            r@ == self.action@,
    {
        self.action.clone()
    }

    /// The replaced entries; exposed only for a `Replace` action.
    pub fn values(&self) -> (r: Option<Vec<RoomMessage>>)
        ensures
            self.action@ == "Replace"@ ==> (match (r, self.values) {
                (Some(out), Some(v)) => out@ == v@,
                (None, None) => true,
                _ => false,
            }),
            self.action@ != "Replace"@ ==> r is None,
    {
        if self.action == String::from_str("Replace") {
            match &self.values {
                Some(v) => Some(clone_messages(v)),
                None => None,
            }
        } else {
            None
        }
    }

    /// The position; exposed only for the indexed actions.
    pub fn index(&self) -> (r: Option<usize>)
        ensures
            (self.action@ == "InsertAt"@ || self.action@ == "UpdateAt"@ || self.action@
                == "RemoveAt"@) ==> r == self.index,
            !(self.action@ == "InsertAt"@ || self.action@ == "UpdateAt"@ || self.action@
                == "RemoveAt"@) ==> r is None,
    {
        if self.action == String::from_str("InsertAt") || self.action == String::from_str(
            "UpdateAt",
        ) || self.action == String::from_str("RemoveAt") {
            self.index
        } else {
            None
        }
    }

    /// The carried entry; exposed only for the single-entry actions.
    pub fn value(&self) -> (r: Option<RoomMessage>)
        ensures
            (self.action@ == "InsertAt"@ || self.action@ == "UpdateAt"@ || self.action@
                == "Push"@) ==> (match (r, self.value) {
                (Some(out), Some(v)) => out == v,
                (None, None) => true,
                _ => false,
            }),
            !(self.action@ == "InsertAt"@ || self.action@ == "UpdateAt"@ || self.action@
                == "Push"@) ==> r is None,
    {
        if self.action == String::from_str("InsertAt") || self.action == String::from_str(
            "UpdateAt",
        ) || self.action == String::from_str("Push") {
            match &self.value {
                Some(v) => Some(v.clone()),
                None => None,
            }
        } else {
            None
        }
    }

    /// The source position of a move.
    pub fn old_index(&self) -> (r: Option<usize>)
        ensures
            self.action@ == "Move"@ ==> r == self.old_index,
            self.action@ != "Move"@ ==> r is None,
    {
        if self.action == String::from_str("Move") {
            self.old_index
        } else {
            None
        }
    }

    /// The target position of a move.
    pub fn new_index(&self) -> (r: Option<usize>)
        ensures
            self.action@ == "Move"@ ==> r == self.new_index,
            self.action@ != "Move"@ ==> r is None,
    {
        if self.action == String::from_str("Move") {
            self.new_index
        } else {
            None
        }
    }
}

/// Whether an edit of an event is permitted: only its sender may replace
/// a message.
pub fn edit_permitted(sender: &String, my_id: Option<&String>) -> (r: bool)
    ensures
        r == (match my_id {
            Some(me) => me@ == sender@,
            None => false,
        }),
{
    match my_id {
        Some(me) => *me == *sender,
        None => false,
    }
}

} // verus!
