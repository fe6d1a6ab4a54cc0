//! Registering a message under a trade hash, and finding it again.
//!
//! The decisions are split from the store calls: `check_trade_hash`,
//! `registration_result` and `lookup_result` hold them, so that a caller
//! working against a remote store reaches the same outcomes as `register` and
//! `lookup_by_trade_hash` do against a `MemoryStore`.
use vstd::prelude::*;

use crate::errors::{Errors, HashRoutingError};
use crate::model::{DiscordMessage, MessageRecord};
use crate::store::{
    bump, holds_hash, records_of, records_with_hash, routed, unique_keys, MemoryStore, StoreError,
};

verus! {

/// The record of the four values.
pub open spec fn record_of(message_id: u64, channel_id: u64, guild_id: u64, trade_hash: Seq<char>) -> MessageRecord {
    MessageRecord { channel_id, guild_id, message_id, trade_hash }
}

/// The kind that a store failure is reported as.
pub open spec fn store_error_kind(e: StoreError) -> Errors {
    match e {
        StoreError::AlreadyExists => Errors::TradeHashAlreadyRouted,
        StoreError::TransportFailure(_) => Errors::StoreUnavailable,
        StoreError::AmbiguousOutcome(_) => Errors::AmbiguousOutcome,
    }
}

/// The cause that a store failure carries, if any.
pub open spec fn store_error_cause(e: StoreError) -> Option<Seq<char>> {
    match e {
        StoreError::AlreadyExists => None,
        StoreError::TransportFailure(c) => Some(c@),
        StoreError::AmbiguousOutcome(c) => Some(c@),
    }
}

/// The characters of an optional cause.
pub open spec fn cause_view(c: Option<String>) -> Option<Seq<char>> {
    match c {
        Some(s) => Some(s@),
        None => None,
    }
}

/// A registration result, with the error reduced to its kind.
pub open spec fn registered_view(r: Result<String, HashRoutingError>) -> Result<Seq<char>, Errors> {
    match r {
        Ok(h) => Ok(h@),
        Err(e) => Err(e.error),
    }
}

/// A lookup result, with the error reduced to its kind.
pub open spec fn found_view(r: Result<Vec<DiscordMessage>, HashRoutingError>) -> Result<Seq<MessageRecord>, Errors> {
    match r {
        Ok(v) => Ok(records_of(v@)),
        Err(e) => Err(e.error),
    }
}

/// What the rows found for one trade hash are reported as: none is "not found",
/// more than one breaks the store's uniqueness.
pub open spec fn rows_outcome(found: Seq<MessageRecord>) -> Result<Seq<MessageRecord>, Errors> {
    if found.len() == 0 {
        Err(Errors::TradeHashNotFound)
    } else if found.len() > 1 {
        Err(Errors::IntegrityViolation)
    } else {
        Ok(found)
    }
}

/// Registering `rec` in a store that holds `s`: the records held after, and the result.
pub open spec fn register_spec(s: Seq<MessageRecord>, rec: MessageRecord) -> (Seq<MessageRecord>, Result<Seq<char>, Errors>) {
    if rec.trade_hash.len() == 0 {
        (s, Err(Errors::TradeHashInvalid))
    } else if routed(s, rec) {
        (s, Err(Errors::TradeHashAlreadyRouted))
    } else {
        (s.push(rec), Ok(rec.trade_hash))
    }
}

/// Looking up trade hash `h` in a store that holds `s`.
pub open spec fn lookup_spec(s: Seq<MessageRecord>, h: Seq<char>) -> Result<Seq<MessageRecord>, Errors> {
    if h.len() == 0 {
        Err(Errors::TradeHashInvalid)
    } else {
        rows_outcome(records_with_hash(s, h))
    }
}

/// Rejects an empty trade hash before any store is asked.
pub fn check_trade_hash(trade_hash: &str) -> (r: Result<(), HashRoutingError>)
    ensures
        r is Ok <==> trade_hash@.len() > 0,
        r matches Err(e) ==> e.error == Errors::TradeHashInvalid && e.cause is None,
{
    if trade_hash.is_empty() {
        Err(HashRoutingError::of_kind(Errors::TradeHashInvalid))
    } else {
        Ok(())
    }
}

/// The routing error for a store failure, keeping the cause it reported.
pub fn store_failure(e: StoreError) -> (r: HashRoutingError)
    ensures
        r.error == store_error_kind(e),
        cause_view(r.cause) == store_error_cause(e),
{
    match e {
        StoreError::AlreadyExists => HashRoutingError::of_kind(Errors::TradeHashAlreadyRouted),
        StoreError::TransportFailure(c) => HashRoutingError { error: Errors::StoreUnavailable, cause: Some(c) },
        StoreError::AmbiguousOutcome(c) => HashRoutingError { error: Errors::AmbiguousOutcome, cause: Some(c) },
    }
}

/// The result of a registration, given what the store answered to the write:
/// the trade hash itself on success.
pub fn registration_result(trade_hash: String, outcome: Result<(), StoreError>) -> (r: Result<String, HashRoutingError>)
    ensures
        outcome is Ok ==> (r matches Ok(h) && h@ == trade_hash@),
        outcome matches Err(e) ==> (r matches Err(f) && f.error == store_error_kind(e)
            && cause_view(f.cause) == store_error_cause(e)),
{
    match outcome {
        Ok(()) => Ok(trade_hash),
        Err(e) => Err(store_failure(e)),
    }
}

/// The result of a lookup, given the rows the store found for the trade hash.
pub fn lookup_result(outcome: Result<Vec<DiscordMessage>, StoreError>) -> (r: Result<Vec<DiscordMessage>, HashRoutingError>)
    ensures
        outcome matches Ok(rows) ==> found_view(r) == rows_outcome(records_of(rows@)),
        outcome matches Ok(rows) ==> (r is Err ==> r->Err_0.cause is None),
        outcome matches Err(e) ==> (r matches Err(f) && f.error == store_error_kind(e)
            && cause_view(f.cause) == store_error_cause(e)),
{
    match outcome {
        Ok(rows) => {
            if rows.len() == 0 {
                Err(HashRoutingError::of_kind(Errors::TradeHashNotFound))
            } else if rows.len() > 1 {
                Err(HashRoutingError::of_kind(Errors::IntegrityViolation))
            } else {
                Ok(rows)
            }
        },
        Err(e) => Err(store_failure(e)),
    }
}

/// Routes message `message_id` of channel `channel_id` in guild `guild_id` to
/// `trade_hash`, and answers with the trade hash. An empty hash is refused
/// before the store is written to; a hash or a message that is already routed
/// is refused by the store and nothing is overwritten.
pub fn register(store: &mut MemoryStore, message_id: u64, channel_id: u64, guild_id: u64, trade_hash: String) -> (r: Result<String, HashRoutingError>)
    requires
        old(store).wf(),
    ensures
        final(store).wf(),
        (final(store)@, registered_view(r)) == register_spec(old(store)@, record_of(message_id, channel_id, guild_id, trade_hash@)),
        r matches Err(e) ==> e.cause is None,
        trade_hash@.len() == 0 ==> final(store).spec_write_attempts() == old(store).spec_write_attempts(),
        trade_hash@.len() > 0 ==> final(store).spec_write_attempts() == bump(old(store).spec_write_attempts()),
{
    if let Err(e) = check_trade_hash(trade_hash.as_str()) {
        return Err(e);
    }
    let echo = trade_hash.clone();
    let record = DiscordMessage::new(channel_id, guild_id, message_id, trade_hash);
    let outcome = store.insert_if_unique(record);
    registration_result(echo, outcome)
}

/// The one record routed to `trade_hash`. An empty hash is refused, a hash with
/// no record is reported as not found.
pub fn lookup_by_trade_hash(store: &MemoryStore, trade_hash: &str) -> (r: Result<Vec<DiscordMessage>, HashRoutingError>)
    ensures
        found_view(r) == lookup_spec(store@, trade_hash@),
        r matches Err(e) ==> e.cause is None,
{
    if let Err(e) = check_trade_hash(trade_hash) {
        return Err(e);
    }
    let rows = store.find_by_trade_hash(trade_hash);
    lookup_result(Ok(rows))
}

/// No record is found for a hash that no record carries.
proof fn lemma_absent_hash_finds_nothing(s: Seq<MessageRecord>, h: Seq<char>)
    requires
        !holds_hash(s, h),
    ensures
        records_with_hash(s, h) == Seq::<MessageRecord>::empty(),
    decreases s.len(),
{
    reveal(Seq::filter);
    if s.len() > 0 {
        let d = s.drop_last();
        assert forall|i: int| 0 <= i < d.len() implies d[i].trade_hash != h by {
            assert(d[i] == s[i]);
        }
        lemma_absent_hash_finds_nothing(d, h);
        assert(s[s.len() - 1].trade_hash != h);
    }
    assert(records_with_hash(s, h) =~= Seq::<MessageRecord>::empty());
}

/// Once `rec` is added to records none of which carries its hash, it is the one
/// record found for that hash.
proof fn lemma_added_record_found_alone(s: Seq<MessageRecord>, rec: MessageRecord)
    requires
        !holds_hash(s, rec.trade_hash),
    ensures
        records_with_hash(s.push(rec), rec.trade_hash) == seq![rec],
{
    reveal(Seq::filter);
    lemma_absent_hash_finds_nothing(s, rec.trade_hash);
    assert(s.push(rec).drop_last() =~= s);
    assert(records_with_hash(s.push(rec), rec.trade_hash) =~= seq![rec]);
}

/// A store whose keys are unique holds at most one record for any trade hash,
/// so a lookup in it never reports a broken uniqueness.
pub proof fn lemma_unique_keys_one_record_per_hash(s: Seq<MessageRecord>, h: Seq<char>)
    requires
        unique_keys(s),
    ensures
        records_with_hash(s, h).len() <= 1,
        lookup_spec(s, h) != Err::<Seq<MessageRecord>, Errors>(Errors::IntegrityViolation),
    decreases s.len(),
{
    reveal(Seq::filter);
    if s.len() > 0 {
        let d = s.drop_last();
        assert(unique_keys(d)) by {
            assert forall|i: int, j: int| 0 <= i < j < d.len() implies #[trigger] d[i].trade_hash
                != #[trigger] d[j].trade_hash && d[i].message_id != d[j].message_id by {
                assert(d[i] == s[i] && d[j] == s[j]);
            }
        }
        if s.last().trade_hash == h {
            assert forall|i: int| 0 <= i < d.len() implies d[i].trade_hash != h by {
                assert(d[i] == s[i]);
                assert(s[i].trade_hash != s[s.len() - 1].trade_hash);
            }
            lemma_absent_hash_finds_nothing(d, h);
        } else {
            lemma_unique_keys_one_record_per_hash(d, h);
        }
    }
}

/// Two records with the same trade hash and different messages, registered one
/// after the other in a store where neither the hash nor the first message is
/// routed: the first is accepted, the second is refused as already routed, and
/// exactly one record is found for the hash afterwards.
pub proof fn lemma_second_registration_refused(s: Seq<MessageRecord>, r1: MessageRecord, r2: MessageRecord)
    requires
        r1.trade_hash == r2.trade_hash,
        r1.message_id != r2.message_id,
        r1.trade_hash.len() > 0,
        !routed(s, r1),
    ensures
        register_spec(s, r1).1 == Ok::<Seq<char>, Errors>(r1.trade_hash),
        register_spec(register_spec(s, r1).0, r2).1 == Err::<Seq<char>, Errors>(Errors::TradeHashAlreadyRouted),
        register_spec(register_spec(s, r1).0, r2).0 == s.push(r1),
        records_with_hash(register_spec(register_spec(s, r1).0, r2).0, r1.trade_hash).len() == 1,
{
    let t = s.push(r1);
    assert(t[s.len() as int].trade_hash == r2.trade_hash);
    assert(holds_hash(t, r2.trade_hash));
    lemma_added_record_found_alone(s, r1);
}

/// After a registration succeeds, looking up its trade hash gives exactly the
/// registered record.
pub proof fn lemma_register_then_lookup(s: Seq<MessageRecord>, rec: MessageRecord)
    requires
        register_spec(s, rec).1 is Ok,
    ensures
        lookup_spec(register_spec(s, rec).0, rec.trade_hash) == Ok::<Seq<MessageRecord>, Errors>(seq![rec]),
{
    lemma_added_record_found_alone(s, rec);
}

/// On an empty store every non-empty trade hash is reported as not found.
pub proof fn lemma_lookup_in_empty_store(h: Seq<char>)
    requires
        h.len() > 0,
    ensures
        lookup_spec(Seq::<MessageRecord>::empty(), h) == Err::<Seq<MessageRecord>, Errors>(Errors::TradeHashNotFound),
{
    lemma_absent_hash_finds_nothing(Seq::<MessageRecord>::empty(), h);
}

/// A registration with an empty trade hash is refused as invalid and leaves the
/// records as they were.
pub proof fn lemma_empty_hash_refused(s: Seq<MessageRecord>, rec: MessageRecord)
    requires
        rec.trade_hash.len() == 0,
    ensures
        register_spec(s, rec) == (s, Err::<Seq<char>, Errors>(Errors::TradeHashInvalid)),
{
}

/// Two registrations of one new trade hash for two different new messages,
/// whichever the store takes first: exactly one succeeds, and the other is
/// refused as already routed.
pub proof fn lemma_racing_registrations(s: Seq<MessageRecord>, r1: MessageRecord, r2: MessageRecord)
    requires
        r1.trade_hash == r2.trade_hash,
        r1.message_id != r2.message_id,
        r1.trade_hash.len() > 0,
        !routed(s, r1),
        !routed(s, r2),
    ensures
        register_spec(s, r1).1 is Ok && register_spec(register_spec(s, r1).0, r2).1
            == Err::<Seq<char>, Errors>(Errors::TradeHashAlreadyRouted),
        register_spec(s, r2).1 is Ok && register_spec(register_spec(s, r2).0, r1).1
            == Err::<Seq<char>, Errors>(Errors::TradeHashAlreadyRouted),
{
    lemma_second_registration_refused(s, r1, r2);
    lemma_second_registration_refused(s, r2, r1);
}

} // verus!
