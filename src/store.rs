//! A store that holds at most one record per trade hash and per message.
use vstd::prelude::*;

use crate::model::{DiscordMessage, MessageRecord};

verus! {

/// How a store operation failed.
pub enum StoreError {
    /// A record with the same trade hash or the same message is already held.
    AlreadyExists,
    /// The store could not be reached or refused the request; the cause as it reported it.
    TransportFailure(String),
    /// A write timed out and the store cannot say whether it took effect.
    AmbiguousOutcome(String),
}

/// The predicate "this record carries trade hash `h`".
pub open spec fn hash_is(h: Seq<char>) -> spec_fn(MessageRecord) -> bool {
    |r: MessageRecord| r.trade_hash == h
}

/// Some record of `s` carries trade hash `h`.
pub open spec fn holds_hash(s: Seq<MessageRecord>, h: Seq<char>) -> bool {
    exists|i: int| 0 <= i < s.len() && #[trigger] s[i].trade_hash == h
}

/// Some record of `s` is for message `m`.
pub open spec fn holds_message(s: Seq<MessageRecord>, m: u64) -> bool {
    exists|i: int| 0 <= i < s.len() && #[trigger] s[i].message_id == m
}

/// `rec` clashes with a record of `s`: same trade hash or same message.
pub open spec fn routed(s: Seq<MessageRecord>, rec: MessageRecord) -> bool {
    holds_hash(s, rec.trade_hash) || holds_message(s, rec.message_id)
}

/// No two records of `s` share a trade hash or a message.
pub open spec fn unique_keys(s: Seq<MessageRecord>) -> bool {
    forall|i: int, j: int|
        0 <= i < j < s.len() ==> #[trigger] s[i].trade_hash != #[trigger] s[j].trade_hash
            && s[i].message_id != s[j].message_id
}

/// The records of `s` that carry trade hash `h`, in the order they were stored.
pub open spec fn records_with_hash(s: Seq<MessageRecord>, h: Seq<char>) -> Seq<MessageRecord> {
    s.filter(hash_is(h))
}

/// One more write attempt, the count stopping at its largest value.
pub open spec fn bump(n: u64) -> u64 {
    if n < u64::MAX {
        (n + 1) as u64
    } else {
        n
    }
}

/// The records of a sequence of messages.
pub open spec fn records_of(v: Seq<DiscordMessage>) -> Seq<MessageRecord> {
    v.map_values(|m: DiscordMessage| m@)
}

/// An in-memory uniqueness store, which also counts the writes attempted on it.
pub struct MemoryStore {
    records: Vec<DiscordMessage>,
    writes: u64,
}

impl View for MemoryStore {
    type V = Seq<MessageRecord>;

    closed spec fn view(&self) -> Seq<MessageRecord> {
        records_of(self.records@)
    }
}

impl MemoryStore {
    /// The store's invariant: its records have unique trade hashes and messages.
    pub open spec fn wf(&self) -> bool {
        unique_keys(self@)
    }

    /// The number of writes attempted so far.
    pub closed spec fn spec_write_attempts(&self) -> u64 {
        self.writes
    }

    /// An empty store.
    pub fn new() -> (r: Self)
        ensures
            r.wf(),
            r@ == Seq::<MessageRecord>::empty(),
            r.spec_write_attempts() == 0,
    {
        let r = MemoryStore { records: Vec::new(), writes: 0 };
        assert(r@ =~= Seq::<MessageRecord>::empty());
        r
    }

    /// The number of writes attempted so far.
    pub fn write_attempts(&self) -> (r: u64)
        ensures
            r == self.spec_write_attempts(),
    {
        self.writes
    }

    /// The number of records held.
    pub fn len(&self) -> (r: usize)
        ensures
            r == self@.len(),
    {
        self.records.len()
    }

    /// Whether `record` clashes with a record held.
    fn clashes(&self, record: &DiscordMessage) -> (r: bool)
        ensures
            r == routed(self@, record@),
    {
        let mut i: usize = 0;
        while i < self.records.len()
            invariant
                i <= self.records@.len(),
                forall|k: int|
                    0 <= k < i ==> self@[k].trade_hash != record@.trade_hash
                        && self@[k].message_id != record@.message_id,
            decreases self.records@.len() - i,
        {
            let held = &self.records[i];
            assert(self@[i as int] == held@);
            if held.message_id == record.message_id || held.trade_hash == record.trade_hash {
                assert(self@[i as int].message_id == record@.message_id
                    || self@[i as int].trade_hash == record@.trade_hash);
                return true;
            }
            i = i + 1;
        }
        proof {
            assert forall|k: int| 0 <= k < self@.len() implies self@[k].trade_hash != record@.trade_hash by {}
            assert forall|k: int| 0 <= k < self@.len() implies self@[k].message_id != record@.message_id by {}
        }
        false
    }

    /// Stores `record` unless a record with its trade hash or its message is held;
    /// a held record is never overwritten. Each call counts as one write attempt.
    pub fn insert_if_unique(&mut self, record: DiscordMessage) -> (r: Result<(), StoreError>)
        requires
            old(self).wf(),
        ensures
            final(self).wf(),
            final(self).spec_write_attempts() == bump(old(self).spec_write_attempts()),
            routed(old(self)@, record@) ==> (r matches Err(StoreError::AlreadyExists)
                && final(self)@ == old(self)@),
            !routed(old(self)@, record@) ==> r is Ok && final(self)@ == old(self)@.push(record@),
    {
        self.writes = self.writes.saturating_add(1);
        if self.clashes(&record) {
            return Err(StoreError::AlreadyExists);
        }
        let ghost before = self@;
        let ghost rec = record@;
        self.records.push(record);
        assert(self@ =~= before.push(rec));
        Ok(())
    }

    /// The records that carry `trade_hash`, in the order they were stored.
    pub fn find_by_trade_hash(&self, trade_hash: &str) -> (r: Vec<DiscordMessage>)
        ensures
            records_of(r@) == records_with_hash(self@, trade_hash@),
    {
        let key = trade_hash.to_owned();
        let mut found: Vec<DiscordMessage> = Vec::new();
        let mut i: usize = 0;
        while i < self.records.len()
            invariant
                i <= self.records@.len(),
                key@ == trade_hash@,
                records_of(found@) == self@.subrange(0, i as int).filter(hash_is(trade_hash@)),
            decreases self.records@.len() - i,
        {
            let held = &self.records[i];
            let ghost prefix = self@.subrange(0, i as int + 1);
            let ghost pred = hash_is(trade_hash@);
            proof {
                reveal(Seq::filter);
                assert(prefix.drop_last() =~= self@.subrange(0, i as int));
                assert(prefix.last() == held@);
                assert(prefix.filter(pred) == (if pred(held@) {
                    self@.subrange(0, i as int).filter(pred).push(held@)
                } else {
                    self@.subrange(0, i as int).filter(pred)
                }));
            }
            if held.trade_hash.eq(&key) {
                let ghost before = found@;
                found.push(held.duplicate());
                assert(records_of(found@) =~= records_of(before).push(held@));
            }
            i = i + 1;
        }
        assert(self@.subrange(0, self@.len() as int) =~= self@);
        found
    }
}

} // verus!
