//! What holds of the ledger over whole histories of calls.

use crate::address::{candidate_address, poll_address};
use crate::auth::{AuthorizationGate, Caller};
use crate::error::PollError;
use crate::operations::{
    candidate_at, counted, counter, initialize_candidate_records, initialize_candidate_result,
    initialize_poll_records, initialize_poll_result, occupied, poll_at, vote_records,
    vote_result,
};
use crate::record::{byte_len, Poll, Record, MAX_DESCRIPTION_LEN, MAX_NAME_LEN};
use crate::store::Slot;
use vstd::prelude::*;

verus! {

/// One call of a ledger operation, with its arguments.
pub enum Call {
    /// A call of `PollLedger::initialize_poll`.
    InitializePoll {
        caller: Caller,
        poll_id: u64,
        description: String,
        poll_start: u64,
        poll_end: u64,
    },
    /// A call of `PollLedger::initialize_candidate`.
    InitializeCandidate { caller: Caller, poll_id: u64, candidate_name: String },
    /// A call of `PollLedger::vote`.
    Vote { caller: Caller, poll_id: u64, candidate_name: String },
}

/// What the ledger answers to `call` when it holds `records`.
pub open spec fn outcome(program_id: Seq<u8>, records: Map<Seq<u8>, Slot>, call: Call) -> Result<
    (),
    PollError,
> {
    match call {
        Call::InitializePoll { caller, poll_id, description, poll_start, poll_end } => {
            initialize_poll_result(
                records,
                caller,
                poll_address(program_id, poll_id),
                description,
            )
        },
        Call::InitializeCandidate { caller, poll_id, candidate_name } => {
            initialize_candidate_result(
                records,
                caller,
                poll_address(program_id, poll_id),
                candidate_address(program_id, poll_id, candidate_name@),
                candidate_name,
            )
        },
        Call::Vote { caller, poll_id, candidate_name } => {
            vote_result(records, caller, candidate_address(program_id, poll_id, candidate_name@))
        },
    }
}

/// The records that `call` leaves in a ledger that held `records`.
pub open spec fn apply(program_id: Seq<u8>, records: Map<Seq<u8>, Slot>, call: Call) -> Map<
    Seq<u8>,
    Slot,
> {
    match call {
        Call::InitializePoll { caller, poll_id, description, poll_start, poll_end } => {
            initialize_poll_records(
                records,
                caller,
                poll_address(program_id, poll_id),
                poll_id,
                description,
                poll_start,
                poll_end,
            )
        },
        Call::InitializeCandidate { caller, poll_id, candidate_name } => {
            initialize_candidate_records(
                records,
                caller,
                poll_address(program_id, poll_id),
                candidate_address(program_id, poll_id, candidate_name@),
                candidate_name,
            )
        },
        Call::Vote { caller, poll_id, candidate_name } => {
            vote_records(records, caller, candidate_address(program_id, poll_id, candidate_name@))
        },
    }
}

/// The records that `calls`, made one after the other, leave in a ledger
/// that held `records`.
pub open spec fn run(program_id: Seq<u8>, records: Map<Seq<u8>, Slot>, calls: Seq<Call>) -> Map<
    Seq<u8>,
    Slot,
>
    decreases calls.len(),
{
    if calls.len() == 0 {
        records
    } else {
        apply(program_id, run(program_id, records, calls.drop_last()), calls.last())
    }
}

/// True of a call that votes for the candidate at `target`.
pub open spec fn votes_for(program_id: Seq<u8>, call: Call, target: Seq<u8>) -> bool {
    call matches Call::Vote { poll_id, candidate_name, .. } && candidate_address(
        program_id,
        poll_id,
        candidate_name@,
    ) == Some(target)
}

/// True of a call that registers a candidate at `target`.
pub open spec fn registers_at(program_id: Seq<u8>, call: Call, target: Seq<u8>) -> bool {
    call matches Call::InitializeCandidate { poll_id, candidate_name, .. } && candidate_address(
        program_id,
        poll_id,
        candidate_name@,
    ) == Some(target)
}

/// True of a call that registers a candidate under the poll at `target`.
pub open spec fn registers_under(program_id: Seq<u8>, call: Call, target: Seq<u8>) -> bool {
    call matches Call::InitializeCandidate { poll_id, .. } && poll_address(program_id, poll_id)
        == Some(target)
}

/// True of a call that creates a poll at `target`.
pub open spec fn creates_at(program_id: Seq<u8>, call: Call, target: Seq<u8>) -> bool {
    call matches Call::InitializePoll { poll_id, .. } && poll_address(program_id, poll_id) == Some(
        target,
    )
}

/// How many of `calls` succeeded, among those that `selected` picks.
pub open spec fn successes(
    program_id: Seq<u8>,
    records: Map<Seq<u8>, Slot>,
    calls: Seq<Call>,
    selected: spec_fn(Call) -> bool,
) -> nat
    decreases calls.len(),
{
    if calls.len() == 0 {
        0
    } else {
        let earlier = successes(program_id, records, calls.drop_last(), selected);
        let before = run(program_id, records, calls.drop_last());
        if selected(calls.last()) && outcome(program_id, before, calls.last()) is Ok {
            earlier + 1
        } else {
            earlier
        }
    }
}

/// How many of `calls` succeeded as votes for the candidate at `target`.
pub open spec fn votes_cast(
    program_id: Seq<u8>,
    records: Map<Seq<u8>, Slot>,
    calls: Seq<Call>,
    target: Seq<u8>,
) -> nat {
    successes(program_id, records, calls, |call: Call| votes_for(program_id, call, target))
}

/// How many of `calls` succeeded in registering a candidate at `target`.
pub open spec fn registrations_at(
    program_id: Seq<u8>,
    records: Map<Seq<u8>, Slot>,
    calls: Seq<Call>,
    target: Seq<u8>,
) -> nat {
    successes(program_id, records, calls, |call: Call| registers_at(program_id, call, target))
}

/// How many of `calls` succeeded in registering a candidate under the poll
/// at `target`.
pub open spec fn registrations_under(
    program_id: Seq<u8>,
    records: Map<Seq<u8>, Slot>,
    calls: Seq<Call>,
    target: Seq<u8>,
) -> nat {
    successes(program_id, records, calls, |call: Call| registers_under(program_id, call, target))
}

/// How many of `calls` succeeded in creating a poll at `target`.
pub open spec fn creations_at(
    program_id: Seq<u8>,
    records: Map<Seq<u8>, Slot>,
    calls: Seq<Call>,
    target: Seq<u8>,
) -> nat {
    successes(program_id, records, calls, |call: Call| creates_at(program_id, call, target))
}

/// A call that fails leaves the records as they were.
pub proof fn law_failure_changes_nothing(
    program_id: Seq<u8>,
    records: Map<Seq<u8>, Slot>,
    call: Call,
)
    requires
        outcome(program_id, records, call) is Err,
    ensures
        apply(program_id, records, call) == records,
{
}

/// No call removes a record, moves it, resizes it or turns it into a record
/// of the other kind: at most, it advances the record's counter by one.
pub proof fn law_call_keeps_records(
    program_id: Seq<u8>,
    records: Map<Seq<u8>, Slot>,
    call: Call,
    address: Seq<u8>,
)
    requires
        records.contains_key(address),
    ensures
        apply(program_id, records, call).contains_key(address),
        apply(program_id, records, call)[address].space == records[address].space,
        apply(program_id, records, call)[address].record == records[address].record || (counter(
            records[address].record,
        ) < u64::MAX && apply(program_id, records, call)[address].record == counted(
            records[address].record,
        )),
{
}

/// A poll is created once. After `initialize_poll` has succeeded for a poll
/// id, a second call for that id, by a permitted caller and with a
/// description within its bound, answers `DuplicatePoll` and changes
/// nothing: the poll still holds what the first call gave it.
pub proof fn law_second_poll_is_duplicate(
    program_id: Seq<u8>,
    records: Map<Seq<u8>, Slot>,
    poll_id: u64,
    first: Call,
    second: Call,
)
    requires
        first matches Call::InitializePoll { poll_id: id, .. } && id == poll_id,
        second matches Call::InitializePoll { poll_id: id, caller, description, .. } && id
            == poll_id && AuthorizationGate::permits(caller) && byte_len(description@)
            <= MAX_DESCRIPTION_LEN,
        outcome(program_id, records, first) is Ok,
    ensures
        outcome(program_id, apply(program_id, records, first), second) == Err::<(), PollError>(
            PollError::DuplicatePoll,
        ),
        apply(program_id, apply(program_id, records, first), second) == apply(
            program_id,
            records,
            first,
        ),
        poll_address(program_id, poll_id) matches Some(address)
            && first matches Call::InitializePoll { description, poll_start, poll_end, .. }
            && apply(program_id, records, first)[address].record == Record::Poll(
            Poll { description, poll_id, poll_start, poll_end, candidate_amount: 0 },
        ),
{
}

/// A candidate is registered once. After `initialize_candidate` has
/// succeeded, a second call with the same arguments answers
/// `DuplicateCandidate` and changes nothing: over both calls the poll has
/// counted one candidate more, not two.
pub proof fn law_second_registration_is_duplicate(
    program_id: Seq<u8>,
    records: Map<Seq<u8>, Slot>,
    call: Call,
)
    requires
        call is InitializeCandidate,
        outcome(program_id, records, call) is Ok,
    ensures
        outcome(program_id, apply(program_id, records, call), call) == Err::<(), PollError>(
            PollError::DuplicateCandidate,
        ),
        apply(program_id, apply(program_id, records, call), call) == apply(
            program_id,
            records,
            call,
        ),
        poll_address(program_id, call->InitializeCandidate_poll_id) matches Some(poll) && counter(
            apply(program_id, records, call)[poll].record,
        ) == counter(records[poll].record) + 1,
{
}

/// Without its poll no candidate is registered. For a permitted caller and a
/// name within its bound, `initialize_candidate` answers `PollNotFound`
/// where no poll lives at the poll's address, and creates no record.
pub proof fn law_registration_needs_poll(
    program_id: Seq<u8>,
    records: Map<Seq<u8>, Slot>,
    call: Call,
)
    requires
        call matches Call::InitializeCandidate { caller, poll_id, candidate_name }
            && AuthorizationGate::permits(caller) && byte_len(candidate_name@) <= MAX_NAME_LEN
            && !poll_at(records, poll_address(program_id, poll_id)),
    ensures
        outcome(program_id, records, call) == Err::<(), PollError>(PollError::PollNotFound),
        apply(program_id, records, call) == records,
{
}

/// Without its candidate no vote is counted. For a permitted caller, `vote`
/// answers `CandidateNotFound` where no candidate lives at the candidate's
/// address, and changes nothing.
pub proof fn law_vote_needs_candidate(
    program_id: Seq<u8>,
    records: Map<Seq<u8>, Slot>,
    call: Call,
)
    requires
        call matches Call::Vote { caller, poll_id, candidate_name } && AuthorizationGate::permits(
            caller,
        ) && !candidate_at(records, candidate_address(program_id, poll_id, candidate_name@)),
    ensures
        outcome(program_id, records, call) == Err::<(), PollError>(PollError::CandidateNotFound),
        apply(program_id, records, call) == records,
{
}

/// Records are never destroyed. Whatever calls are made, a record stays at
/// its address, keeps its kind and its reserved space, and its counter does
/// not go down.
pub proof fn law_records_persist(
    program_id: Seq<u8>,
    records: Map<Seq<u8>, Slot>,
    calls: Seq<Call>,
    address: Seq<u8>,
)
    requires
        records.contains_key(address),
    ensures
        run(program_id, records, calls).contains_key(address),
        run(program_id, records, calls)[address].space == records[address].space,
        run(program_id, records, calls)[address].record is Poll
            <==> records[address].record is Poll,
        counter(run(program_id, records, calls)[address].record) >= counter(
            records[address].record,
        ),
    decreases calls.len(),
{
    if calls.len() > 0 {
        law_records_persist(program_id, records, calls.drop_last(), address);
        law_call_keeps_records(
            program_id,
            run(program_id, records, calls.drop_last()),
            calls.last(),
            address,
        );
    }
}

/// What one call does to the tally of the candidate at `target`.
proof fn lemma_call_tally(
    program_id: Seq<u8>,
    records: Map<Seq<u8>, Slot>,
    call: Call,
    target: Seq<u8>,
)
    requires
        candidate_at(records, Some(target)),
    ensures
        candidate_at(apply(program_id, records, call), Some(target)),
        counter(apply(program_id, records, call)[target].record) == counter(
            records[target].record,
        ) + if votes_for(program_id, call, target) && outcome(program_id, records, call) is Ok {
            1int
        } else {
            0int
        },
{
}

/// Every vote is counted, and nothing else is. After any calls, the tally of
/// a candidate is what it was before them, plus the number of those calls
/// that succeeded as votes for the candidate's address, whatever the other
/// calls were and however they were interleaved.
pub proof fn law_tally_counts_votes(
    program_id: Seq<u8>,
    records: Map<Seq<u8>, Slot>,
    calls: Seq<Call>,
    target: Seq<u8>,
)
    requires
        candidate_at(records, Some(target)),
    ensures
        candidate_at(run(program_id, records, calls), Some(target)),
        counter(run(program_id, records, calls)[target].record) == counter(
            records[target].record,
        ) + votes_cast(program_id, records, calls, target),
    decreases calls.len(),
{
    if calls.len() > 0 {
        law_tally_counts_votes(program_id, records, calls.drop_last(), target);
        lemma_call_tally(
            program_id,
            run(program_id, records, calls.drop_last()),
            calls.last(),
            target,
        );
    }
}

/// What one call does to the candidate count of the poll at `target`.
proof fn lemma_call_candidate_count(
    program_id: Seq<u8>,
    records: Map<Seq<u8>, Slot>,
    call: Call,
    target: Seq<u8>,
)
    requires
        poll_at(records, Some(target)),
    ensures
        poll_at(apply(program_id, records, call), Some(target)),
        counter(apply(program_id, records, call)[target].record) == counter(
            records[target].record,
        ) + if registers_under(program_id, call, target) && outcome(
            program_id,
            records,
            call,
        ) is Ok {
            1int
        } else {
            0int
        },
{
}

/// A poll counts its candidates. After any calls, the candidate count of a
/// poll is what it was before them, plus the number of those calls that
/// succeeded in registering a candidate under the poll's address.
pub proof fn law_poll_counts_candidates(
    program_id: Seq<u8>,
    records: Map<Seq<u8>, Slot>,
    calls: Seq<Call>,
    target: Seq<u8>,
)
    requires
        poll_at(records, Some(target)),
    ensures
        poll_at(run(program_id, records, calls), Some(target)),
        counter(run(program_id, records, calls)[target].record) == counter(
            records[target].record,
        ) + registrations_under(program_id, records, calls, target),
    decreases calls.len(),
{
    if calls.len() > 0 {
        law_poll_counts_candidates(program_id, records, calls.drop_last(), target);
        lemma_call_candidate_count(
            program_id,
            run(program_id, records, calls.drop_last()),
            calls.last(),
            target,
        );
    }
}

/// A candidate exists by registration alone, and is registered at most once.
/// After any calls a candidate lives at an address if and only if one lived
/// there before them or one of them succeeded in registering a candidate
/// there; at most one of them did, and none where a record lived there
/// before.
pub proof fn law_candidate_registered_at_most_once(
    program_id: Seq<u8>,
    records: Map<Seq<u8>, Slot>,
    calls: Seq<Call>,
    target: Seq<u8>,
)
    ensures
        candidate_at(run(program_id, records, calls), Some(target)) == (candidate_at(
            records,
            Some(target),
        ) || registrations_at(program_id, records, calls, target) > 0),
        registrations_at(program_id, records, calls, target) <= 1,
        occupied(records, Some(target)) ==> registrations_at(program_id, records, calls, target)
            == 0,
    decreases calls.len(),
{
    if calls.len() > 0 {
        law_candidate_registered_at_most_once(program_id, records, calls.drop_last(), target);
        if occupied(records, Some(target)) {
            law_records_persist(program_id, records, calls.drop_last(), target);
        }
    }
}

/// A poll exists by creation alone, and is created at most once. After any
/// calls a poll lives at an address if and only if one lived there before
/// them or one of them succeeded in creating a poll there; at most one of
/// them did, and none where a record lived there before.
pub proof fn law_poll_created_at_most_once(
    program_id: Seq<u8>,
    records: Map<Seq<u8>, Slot>,
    calls: Seq<Call>,
    target: Seq<u8>,
)
    ensures
        poll_at(run(program_id, records, calls), Some(target)) == (poll_at(records, Some(target))
            || creations_at(program_id, records, calls, target) > 0),
        creations_at(program_id, records, calls, target) <= 1,
        occupied(records, Some(target)) ==> creations_at(program_id, records, calls, target) == 0,
    decreases calls.len(),
{
    if calls.len() > 0 {
        law_poll_created_at_most_once(program_id, records, calls.drop_last(), target);
        if occupied(records, Some(target)) {
            law_records_persist(program_id, records, calls.drop_last(), target);
        }
    }
}

/// A vote before registration is not counted. Where no candidate lived at an
/// address and none of the calls made since succeeded in registering one
/// there, a vote for that address by a permitted caller answers
/// `CandidateNotFound` and changes nothing.
pub proof fn law_vote_before_registration(
    program_id: Seq<u8>,
    records: Map<Seq<u8>, Slot>,
    calls: Seq<Call>,
    vote: Call,
    target: Seq<u8>,
)
    requires
        !candidate_at(records, Some(target)),
        registrations_at(program_id, records, calls, target) == 0,
        votes_for(program_id, vote, target),
        AuthorizationGate::permits(vote->Vote_caller),
    ensures
        outcome(program_id, run(program_id, records, calls), vote) == Err::<(), PollError>(
            PollError::CandidateNotFound,
        ),
        apply(program_id, run(program_id, records, calls), vote) == run(
            program_id,
            records,
            calls,
        ),
{
    law_candidate_registered_at_most_once(program_id, records, calls, target);
}

/// A registration before the poll's creation does not take place. Where no
/// poll lived at an address and none of the calls made since succeeded in
/// creating one there, a registration under that address by a permitted
/// caller, with a name within its bound, answers `PollNotFound` and changes
/// nothing.
pub proof fn law_registration_before_creation(
    program_id: Seq<u8>,
    records: Map<Seq<u8>, Slot>,
    calls: Seq<Call>,
    registration: Call,
    target: Seq<u8>,
)
    requires
        !poll_at(records, Some(target)),
        creations_at(program_id, records, calls, target) == 0,
        registers_under(program_id, registration, target),
        AuthorizationGate::permits(registration->InitializeCandidate_caller),
        byte_len(registration->InitializeCandidate_candidate_name@) <= MAX_NAME_LEN,
    ensures
        outcome(program_id, run(program_id, records, calls), registration) == Err::<
            (),
            PollError,
        >(PollError::PollNotFound),
        apply(program_id, run(program_id, records, calls), registration) == run(
            program_id,
            records,
            calls,
        ),
{
    law_poll_created_at_most_once(program_id, records, calls, target);
}

/// A tally is the number of votes. From the registration of a candidate on,
/// whatever calls are made, the candidate's tally is the number of those
/// calls that succeeded as votes for the candidate's address.
pub proof fn law_tally_is_votes_since_registration(
    program_id: Seq<u8>,
    records: Map<Seq<u8>, Slot>,
    registration: Call,
    calls: Seq<Call>,
    target: Seq<u8>,
)
    requires
        registers_at(program_id, registration, target),
        outcome(program_id, records, registration) is Ok,
    ensures
        candidate_at(
            run(program_id, apply(program_id, records, registration), calls),
            Some(target),
        ),
        counter(run(program_id, apply(program_id, records, registration), calls)[target].record)
            == votes_cast(program_id, apply(program_id, records, registration), calls, target),
{
    law_tally_counts_votes(program_id, apply(program_id, records, registration), calls, target);
}

/// True when every record is within its bound and has the space reserved
/// that records of its kind require.
pub open spec fn sound(records: Map<Seq<u8>, Slot>) -> bool {
    forall|address: Seq<u8>| #[trigger]
        records.contains_key(address) ==> records[address].record.bounded()
            && records[address].space == records[address].record.required_space()
}

/// The ledger keeps its records sound, and a sound record fits the space
/// reserved for it: no call makes a record outgrow its space.
pub proof fn law_records_fit(program_id: Seq<u8>, records: Map<Seq<u8>, Slot>, calls: Seq<Call>)
    requires
        sound(records),
    ensures
        sound(run(program_id, records, calls)),
        forall|address: Seq<u8>| #[trigger]
            run(program_id, records, calls).contains_key(address) ==> run(
                program_id,
                records,
                calls,
            )[address].record.stored_len() <= run(program_id, records, calls)[address].space,
    decreases calls.len(),
{
    if calls.len() > 0 {
        law_records_fit(program_id, records, calls.drop_last());
    }
}

/// True of a call that votes for the candidate `candidate_name` of the poll
/// `poll_id`.
pub open spec fn votes_for_name(call: Call, poll_id: u64, candidate_name: Seq<char>) -> bool {
    call matches Call::Vote { poll_id: id, candidate_name: name, .. } && id == poll_id && name@
        == candidate_name
}

/// How many of `calls` succeeded as votes for the candidate `candidate_name`
/// of the poll `poll_id`.
pub open spec fn votes_cast_for_name(
    program_id: Seq<u8>,
    records: Map<Seq<u8>, Slot>,
    calls: Seq<Call>,
    poll_id: u64,
    candidate_name: Seq<char>,
) -> nat {
    successes(
        program_id,
        records,
        calls,
        |call: Call| votes_for_name(call, poll_id, candidate_name),
    )
}

/// True when no vote among `calls` is for another candidate that lives at
/// the address of the candidate `candidate_name` of the poll `poll_id`.
pub open spec fn address_unshared(
    program_id: Seq<u8>,
    calls: Seq<Call>,
    poll_id: u64,
    candidate_name: Seq<char>,
) -> bool {
    candidate_address(program_id, poll_id, candidate_name) matches Some(target) ==> forall|i: int|
        0 <= i < calls.len() && #[trigger] votes_for(program_id, calls[i], target)
            ==> votes_for_name(calls[i], poll_id, candidate_name)
}

/// Where a candidate shares its address with no other, the votes for its
/// address are the votes for its name.
proof fn lemma_votes_by_name(
    program_id: Seq<u8>,
    records: Map<Seq<u8>, Slot>,
    calls: Seq<Call>,
    poll_id: u64,
    candidate_name: Seq<char>,
)
    requires
        candidate_address(program_id, poll_id, candidate_name) is Some,
        address_unshared(program_id, calls, poll_id, candidate_name),
    ensures
        votes_cast(
            program_id,
            records,
            calls,
            candidate_address(program_id, poll_id, candidate_name)->0,
        ) == votes_cast_for_name(program_id, records, calls, poll_id, candidate_name),
    decreases calls.len(),
{
    if calls.len() > 0 {
        let earlier = calls.drop_last();
        assert(address_unshared(program_id, earlier, poll_id, candidate_name));
        lemma_votes_by_name(program_id, records, earlier, poll_id, candidate_name);
    }
}

/// N votes make a tally of N. From the registration of a candidate on,
/// whatever calls are made, the candidate's tally is the number of those
/// calls that succeeded as votes for its poll id and name, however they were
/// interleaved with votes for other candidates, as long as none of those
/// lives at this candidate's address.
pub proof fn law_tally_is_votes_for_name(
    program_id: Seq<u8>,
    records: Map<Seq<u8>, Slot>,
    registration: Call,
    calls: Seq<Call>,
)
    requires
        registration is InitializeCandidate,
        outcome(program_id, records, registration) is Ok,
        address_unshared(
            program_id,
            calls,
            registration->InitializeCandidate_poll_id,
            registration->InitializeCandidate_candidate_name@,
        ),
    ensures
        candidate_address(
            program_id,
            registration->InitializeCandidate_poll_id,
            registration->InitializeCandidate_candidate_name@,
        ) matches Some(target) && candidate_at(
            run(program_id, apply(program_id, records, registration), calls),
            Some(target),
        ) && counter(
            run(program_id, apply(program_id, records, registration), calls)[target].record,
        ) == votes_cast_for_name(
            program_id,
            apply(program_id, records, registration),
            calls,
            registration->InitializeCandidate_poll_id,
            registration->InitializeCandidate_candidate_name@,
        ),
{
    let poll_id = registration->InitializeCandidate_poll_id;
    let name = registration->InitializeCandidate_candidate_name@;
    let target = candidate_address(program_id, poll_id, name)->0;
    law_tally_is_votes_since_registration(program_id, records, registration, calls, target);
    lemma_votes_by_name(
        program_id,
        apply(program_id, records, registration),
        calls,
        poll_id,
        name,
    );
}

/// A poll's count is the number of its candidates. From the creation of a
/// poll on, whatever calls are made, the poll's candidate count is the
/// number of those calls that succeeded in registering a candidate under
/// the poll's address.
pub proof fn law_candidate_count_is_registrations_since_creation(
    program_id: Seq<u8>,
    records: Map<Seq<u8>, Slot>,
    creation: Call,
    calls: Seq<Call>,
    target: Seq<u8>,
)
    requires
        creates_at(program_id, creation, target),
        outcome(program_id, records, creation) is Ok,
    ensures
        poll_at(run(program_id, apply(program_id, records, creation), calls), Some(target)),
        counter(run(program_id, apply(program_id, records, creation), calls)[target].record)
            == registrations_under(program_id, apply(program_id, records, creation), calls, target),
{
    law_poll_counts_candidates(program_id, apply(program_id, records, creation), calls, target);
}

} // verus!
