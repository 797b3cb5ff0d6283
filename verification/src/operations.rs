//! The three operations on a store of polls and candidates, each on the
//! accounts that its request resolved to.

use crate::address::{address_view, Address};
use crate::auth::{AuthorizationGate, Caller};
use crate::error::PollError;
use crate::record::{
    byte_len, next_count, Candidate, Poll, Record, CANDIDATE_SPACE, MAX_DESCRIPTION_LEN,
    MAX_NAME_LEN, POLL_SPACE,
};
use crate::store::{RecordStore, Slot};
use vstd::prelude::*;

verus! {

/// The accounts of a request to create a poll.
#[derive(Clone, Copy, Debug, PartialEq, Eq)]
pub struct InitializePoll {
    /// Who asks, and pays for the new record.
    pub signer: Caller,
    /// Where the poll is to live, if its id resolved to an address.
    pub poll: Option<Address>,
}

/// The accounts of a request to register a candidate.
#[derive(Clone, Copy, Debug, PartialEq, Eq)]
pub struct InitializeCandidate {
    /// Who asks, and pays for the new record.
    pub signer: Caller,
    /// Where the candidate's poll lives, if its id resolved to an address.
    pub poll: Option<Address>,
    /// Where the candidate is to live, if poll id and name resolved to an
    /// address.
    pub candidate: Option<Address>,
}

/// The accounts of a request to cast a vote.
#[derive(Clone, Copy, Debug, PartialEq, Eq)]
pub struct Vote {
    /// Who asks.
    pub signer: Caller,
    /// Where the candidate's poll lives, if its id resolved to an address.
    /// It is resolved with the request and otherwise left alone.
    pub poll: Option<Address>,
    /// Where the candidate lives, if poll id and name resolved to an
    /// address.
    pub candidate: Option<Address>,
}

/// True when a poll lives at `address`.
pub open spec fn poll_at(records: Map<Seq<u8>, Slot>, address: Option<Seq<u8>>) -> bool {
    address matches Some(a) && records.contains_key(a) && records[a].record is Poll
}

/// True when a candidate lives at `address`.
pub open spec fn candidate_at(records: Map<Seq<u8>, Slot>, address: Option<Seq<u8>>) -> bool {
    address matches Some(a) && records.contains_key(a) && records[a].record is Candidate
}

/// True when some record lives at `address`.
pub open spec fn occupied(records: Map<Seq<u8>, Slot>, address: Option<Seq<u8>>) -> bool {
    address matches Some(a) && records.contains_key(a)
}

/// The record with its counter advanced by one: a poll's count of
/// candidates, a candidate's count of votes.
pub open spec fn counted(record: Record) -> Record {
    match record {
        Record::Poll(poll) => Record::Poll(
            Poll { candidate_amount: (poll.candidate_amount + 1) as u64, ..poll },
        ),
        Record::Candidate(candidate) => Record::Candidate(
            Candidate { candidate_votes: (candidate.candidate_votes + 1) as u64, ..candidate },
        ),
    }
}

/// The record's counter: a poll's count of candidates, a candidate's count
/// of votes.
pub open spec fn counter(record: Record) -> u64 {
    match record {
        Record::Poll(poll) => poll.candidate_amount,
        Record::Candidate(candidate) => candidate.candidate_votes,
    }
}

/// The records with the counter of the record at `address` advanced by one.
pub open spec fn count_at(records: Map<Seq<u8>, Slot>, address: Seq<u8>) -> Map<Seq<u8>, Slot> {
    records.insert(
        address,
        Slot { record: counted(records[address].record), space: records[address].space },
    )
}

/// What `initialize_poll` answers.
pub open spec fn initialize_poll_result(
    records: Map<Seq<u8>, Slot>,
    signer: Caller,
    poll: Option<Seq<u8>>,
    description: String,
) -> Result<(), PollError> {
    if !AuthorizationGate::permits(signer) {
        Err(PollError::Unauthorized)
    } else if byte_len(description@) > MAX_DESCRIPTION_LEN {
        Err(PollError::DescriptionTooLong)
    } else if poll is None {
        Err(PollError::AddressUnavailable)
    } else if occupied(records, poll) {
        Err(PollError::DuplicatePoll)
    } else {
        Ok(())
    }
}

/// The records that `initialize_poll` leaves.
pub open spec fn initialize_poll_records(
    records: Map<Seq<u8>, Slot>,
    signer: Caller,
    poll: Option<Seq<u8>>,
    poll_id: u64,
    description: String,
    poll_start: u64,
    poll_end: u64,
) -> Map<Seq<u8>, Slot> {
    if initialize_poll_result(records, signer, poll, description) is Ok {
        records.insert(
            poll->0,
            Slot {
                record: Record::Poll(
                    Poll { description, poll_id, poll_start, poll_end, candidate_amount: 0 },
                ),
                space: POLL_SPACE,
            },
        )
    } else {
        records
    }
}

/// What `initialize_candidate` answers.
pub open spec fn initialize_candidate_result(
    records: Map<Seq<u8>, Slot>,
    signer: Caller,
    poll: Option<Seq<u8>>,
    candidate: Option<Seq<u8>>,
    candidate_name: String,
) -> Result<(), PollError> {
    if !AuthorizationGate::permits(signer) {
        Err(PollError::Unauthorized)
    } else if byte_len(candidate_name@) > MAX_NAME_LEN {
        Err(PollError::NameTooLong)
    } else if !poll_at(records, poll) {
        Err(PollError::PollNotFound)
    } else if candidate is None {
        Err(PollError::AddressUnavailable)
    } else if occupied(records, candidate) {
        Err(PollError::DuplicateCandidate)
    } else if counter(records[poll->0].record) == u64::MAX {
        Err(PollError::CounterOverflow)
    } else {
        Ok(())
    }
}

/// The records that `initialize_candidate` leaves.
pub open spec fn initialize_candidate_records(
    records: Map<Seq<u8>, Slot>,
    signer: Caller,
    poll: Option<Seq<u8>>,
    candidate: Option<Seq<u8>>,
    candidate_name: String,
) -> Map<Seq<u8>, Slot> {
    if initialize_candidate_result(records, signer, poll, candidate, candidate_name) is Ok {
        count_at(records, poll->0).insert(
            candidate->0,
            Slot {
                record: Record::Candidate(Candidate { candidate_name, candidate_votes: 0 }),
                space: CANDIDATE_SPACE,
            },
        )
    } else {
        records
    }
}

/// What `vote` answers.
pub open spec fn vote_result(
    records: Map<Seq<u8>, Slot>,
    signer: Caller,
    candidate: Option<Seq<u8>>,
) -> Result<(), PollError> {
    if !AuthorizationGate::permits(signer) {
        Err(PollError::Unauthorized)
    } else if !candidate_at(records, candidate) {
        Err(PollError::CandidateNotFound)
    } else if counter(records[candidate->0].record) == u64::MAX {
        Err(PollError::CounterOverflow)
    } else {
        Ok(())
    }
}

/// The records that `vote` leaves.
pub open spec fn vote_records(
    records: Map<Seq<u8>, Slot>,
    signer: Caller,
    candidate: Option<Seq<u8>>,
) -> Map<Seq<u8>, Slot> {
    if vote_result(records, signer, candidate) is Ok {
        count_at(records, candidate->0)
    } else {
        records
    }
}

/// Advances the counter of the record at `address`, which can take it.
fn count(store: &mut RecordStore, address: &Address)
    requires
        old(store)@.contains_key(address@),
        counter(old(store)@[address@].record) < u64::MAX,
    ensures
        final(store)@ == count_at(old(store)@, address@),
{
    let advance = |record: Record| -> (advanced: Record)
        requires
            counter(record) < u64::MAX,
        ensures
            advanced == counted(record),
        {
            match record {
                Record::Poll(poll) => Record::Poll(
                    Poll {
                        description: poll.description,
                        poll_id: poll.poll_id,
                        poll_start: poll.poll_start,
                        poll_end: poll.poll_end,
                        candidate_amount: poll.candidate_amount + 1,
                    },
                ),
                Record::Candidate(candidate) => Record::Candidate(
                    Candidate {
                        candidate_name: candidate.candidate_name,
                        candidate_votes: candidate.candidate_votes + 1,
                    },
                ),
            }
        };
    let _ = store.mutate(address, advance);
}

/// Creates the poll `poll_id` at the address that the request resolved to.
///
/// The caller must be permitted, the description must be
/// within its bound, and the address must be there and free; failing that,
/// the matching error is answered and the store is left as it was.
pub fn initialize_poll(
    store: &mut RecordStore,
    ctx: &InitializePoll,
    poll_id: u64,
    poll_description: String,
    poll_start: u64,
    poll_end: u64,
) -> (result: Result<(), PollError>)
    ensures
        result == initialize_poll_result(
            old(store)@,
            ctx.signer,
            address_view(ctx.poll),
            poll_description,
        ),
        final(store)@ == initialize_poll_records(
            old(store)@,
            ctx.signer,
            address_view(ctx.poll),
            poll_id,
            poll_description,
            poll_start,
            poll_end,
        ),
{
    if !AuthorizationGate::check(&ctx.signer) {
        return Err(PollError::Unauthorized);
    }
    let poll = match Poll::new(poll_id, poll_description, poll_start, poll_end) {
        Ok(poll) => poll,
        Err(error) => { return Err(error); },
    };
    let address = match ctx.poll {
        Some(address) => address,
        None => { return Err(PollError::AddressUnavailable); },
    };
    match store.create_if_absent(address, Record::Poll(poll), POLL_SPACE) {
        Ok(_) => Ok(()),
        Err(_) => Err(PollError::DuplicatePoll),
    }
}

/// Registers the candidate `candidate_name` under the poll that the request
/// resolved to, and counts it in that poll.
///
/// The caller must be permitted, the name must be within its
/// bound, the poll must exist, the candidate's address must be there and
/// free, and the poll's counter must have room; failing that, the matching
/// error is answered and the store is left as it was.
pub fn initialize_candidate(
    store: &mut RecordStore,
    ctx: &InitializeCandidate,
    candidate_name: String,
) -> (result: Result<(), PollError>)
    ensures
        result == initialize_candidate_result(
            old(store)@,
            ctx.signer,
            address_view(ctx.poll),
            address_view(ctx.candidate),
            candidate_name,
        ),
        final(store)@ == initialize_candidate_records(
            old(store)@,
            ctx.signer,
            address_view(ctx.poll),
            address_view(ctx.candidate),
            candidate_name,
        ),
{
    if !AuthorizationGate::check(&ctx.signer) {
        return Err(PollError::Unauthorized);
    }
    let candidate = match Candidate::new(candidate_name) {
        Ok(candidate) => candidate,
        Err(error) => { return Err(error); },
    };
    let poll_address = match ctx.poll {
        Some(address) => address,
        None => { return Err(PollError::PollNotFound); },
    };
    let registered = match store.get(&poll_address) {
        Some(Record::Poll(poll)) => poll.candidate_amount,
        _ => { return Err(PollError::PollNotFound); },
    };
    let candidate_address = match ctx.candidate {
        Some(address) => address,
        None => { return Err(PollError::AddressUnavailable); },
    };
    if store.contains(&candidate_address) {
        return Err(PollError::DuplicateCandidate);
    }
    if let Err(error) = next_count(registered) {
        return Err(error);
    }
    count(store, &poll_address);
    let record = Record::Candidate(candidate);
    let _ = store.create_if_absent(candidate_address, record, CANDIDATE_SPACE);
    Ok(())
}

/// Casts one vote for the candidate that the request resolved to.
///
/// The caller must be permitted, the candidate must exist,
/// and its counter must have room; failing that, the matching error is
/// answered and the store is left as it was.
pub fn vote(store: &mut RecordStore, ctx: &Vote) -> (result: Result<(), PollError>)
    ensures
        result == vote_result(old(store)@, ctx.signer, address_view(ctx.candidate)),
        final(store)@ == vote_records(old(store)@, ctx.signer, address_view(ctx.candidate)),
{
    if !AuthorizationGate::check(&ctx.signer) {
        return Err(PollError::Unauthorized);
    }
    let address = match ctx.candidate {
        Some(address) => address,
        None => { return Err(PollError::CandidateNotFound); },
    };
    let votes = match store.get(&address) {
        Some(Record::Candidate(candidate)) => candidate.candidate_votes,
        _ => { return Err(PollError::CandidateNotFound); },
    };
    if let Err(error) = next_count(votes) {
        return Err(error);
    }
    count(store, &address);
    Ok(())
}

} // verus!
