//! The ledger of polls: the three operations, each on a caller and the
//! identifiers of the records it is about.

use crate::address::{candidate_address, poll_address, AddressDeriver};
use crate::auth::{AuthorizationGate, Caller};
use crate::error::PollError;
use crate::operations::{
    candidate_at, initialize_candidate_records, initialize_candidate_result,
    initialize_poll_records, initialize_poll_result, poll_at, vote_records, vote_result,
    InitializeCandidate, InitializePoll, Vote,
};
use crate::record::{byte_len, Candidate, Poll, Record, MAX_NAME_LEN};
use crate::store::{RecordStore, Slot};
use vstd::prelude::*;

verus! {

/// The id of the voting program, under which its ledger derives addresses.
pub const PROGRAM_ID: [u8; 32] = [
    88, 234, 89, 95, 22, 238, 164, 223, 141, 186, 96, 119, 168, 117, 30, 22,
    179, 83, 90, 60, 252, 30, 17, 40, 233, 216, 44, 38, 182, 187, 155, 196,
];

/// Polls, their candidates and the votes cast, kept in a store of its own
/// under addresses derived from poll ids and candidate names.
pub struct PollLedger {
    deriver: AddressDeriver,
    store: RecordStore,
}

impl View for PollLedger {
    type V = Map<Seq<u8>, Slot>;

    /// The records of the ledger, by address.
    closed spec fn view(&self) -> Map<Seq<u8>, Slot> {
        self.store@
    }
}

impl PollLedger {
    /// The program id under which the ledger derives its addresses.
    pub closed spec fn program_id(&self) -> Seq<u8> {
        self.deriver.program_id()
    }

    /// A ledger without records, whose addresses are derived under
    /// `program_id`.
    pub fn new(program_id: [u8; 32]) -> (ledger: Self)
        ensures
            ledger.program_id() == program_id@,
            ledger@ == Map::<Seq<u8>, Slot>::empty(),
    {
        PollLedger { deriver: AddressDeriver::new(program_id), store: RecordStore::new() }
    }

    /// The store that holds the ledger's records.
    pub fn store(&self) -> (store: &RecordStore)
        ensures
            store@ == self@,
    {
        &self.store
    }

    /// The deriver of the ledger's addresses.
    pub fn deriver(&self) -> (deriver: &AddressDeriver)
        ensures
            deriver.program_id() == self.program_id(),
    {
        &self.deriver
    }

    /// Creates the poll `poll_id`, with no candidate yet.
    ///
    /// Answers `Unauthorized` for a caller that is not permitted,
    /// `DescriptionTooLong` for a description beyond its bound,
    /// `AddressUnavailable` where the id has no address, and `DuplicatePoll`
    /// where a record lives at the poll's address already. After an error the
    /// ledger is as it was.
    pub fn initialize_poll(
        &mut self,
        caller: &Caller,
        poll_id: u64,
        poll_description: String,
        poll_start: u64,
        poll_end: u64,
    ) -> (result: Result<(), PollError>)
        ensures
            final(self).program_id() == old(self).program_id(),
            result == initialize_poll_result(
                old(self)@,
                *caller,
                poll_address(old(self).program_id(), poll_id),
                poll_description,
            ),
            final(self)@ == initialize_poll_records(
                old(self)@,
                *caller,
                poll_address(old(self).program_id(), poll_id),
                poll_id,
                poll_description,
                poll_start,
                poll_end,
            ),
    {
        let ctx = InitializePoll { signer: *caller, poll: self.deriver.derive_for_poll(poll_id) };
        crate::operations::initialize_poll(
            &mut self.store,
            &ctx,
            poll_id,
            poll_description,
            poll_start,
            poll_end,
        )
    }

    /// Registers the candidate `candidate_name` under the poll `poll_id`, and
    /// counts it in that poll.
    ///
    /// Answers `Unauthorized` for a caller that is not permitted,
    /// `NameTooLong` for a name beyond its bound, `PollNotFound` where no
    /// poll lives at the poll's address, `AddressUnavailable` where the
    /// candidate has no address, `DuplicateCandidate` where a record lives at
    /// the candidate's address already, and `CounterOverflow` where the poll
    /// can count no further candidate. After an error the ledger is as it
    /// was.
    pub fn initialize_candidate(
        &mut self,
        caller: &Caller,
        poll_id: u64,
        candidate_name: String,
    ) -> (result: Result<(), PollError>)
        ensures
            final(self).program_id() == old(self).program_id(),
            result == initialize_candidate_result(
                old(self)@,
                *caller,
                poll_address(old(self).program_id(), poll_id),
                candidate_address(old(self).program_id(), poll_id, candidate_name@),
                candidate_name,
            ),
            final(self)@ == initialize_candidate_records(
                old(self)@,
                *caller,
                poll_address(old(self).program_id(), poll_id),
                candidate_address(old(self).program_id(), poll_id, candidate_name@),
                candidate_name,
            ),
    {
        let ctx = InitializeCandidate {
            signer: *caller,
            poll: self.deriver.derive_for_poll(poll_id),
            candidate: self.deriver.derive_for_candidate(poll_id, candidate_name.as_str()),
        };
        crate::operations::initialize_candidate(&mut self.store, &ctx, candidate_name)
    }

    /// Casts one vote for the candidate `candidate_name` of the poll
    /// `poll_id`.
    ///
    /// Answers `Unauthorized` for a caller that is not permitted,
    /// `CandidateNotFound` where no candidate lives at the candidate's
    /// address, as for every name beyond its bound, and `CounterOverflow`
    /// where the candidate can count no further vote. After an error the
    /// ledger is as it was.
    pub fn vote(&mut self, caller: &Caller, poll_id: u64, candidate_name: String) -> (result:
        Result<(), PollError>)
        ensures
            final(self).program_id() == old(self).program_id(),
            result == vote_result(
                old(self)@,
                *caller,
                candidate_address(old(self).program_id(), poll_id, candidate_name@),
            ),
            final(self)@ == vote_records(
                old(self)@,
                *caller,
                candidate_address(old(self).program_id(), poll_id, candidate_name@),
            ),
            AuthorizationGate::permits(*caller) && byte_len(candidate_name@) > MAX_NAME_LEN
                ==> result == Err::<(), PollError>(PollError::CandidateNotFound),
    {
        let ctx = Vote {
            signer: *caller,
            poll: self.deriver.derive_for_poll(poll_id),
            candidate: self.deriver.derive_for_candidate(poll_id, candidate_name.as_str()),
        };
        crate::operations::vote(&mut self.store, &ctx)
    }

    /// Looks up the poll `poll_id`.
    pub fn poll(&self, poll_id: u64) -> (found: Option<&Poll>)
        ensures
            found is Some <==> poll_at(self@, poll_address(self.program_id(), poll_id)),
            found matches Some(poll) ==> Record::Poll(*poll) == self@[poll_address(
                self.program_id(),
                poll_id,
            )->0].record,
    {
        match self.deriver.derive_for_poll(poll_id) {
            Some(address) => match self.store.get(&address) {
                Some(Record::Poll(poll)) => Some(poll),
                _ => None,
            },
            None => None,
        }
    }

    /// Looks up the candidate `candidate_name` of the poll `poll_id`.
    pub fn candidate(&self, poll_id: u64, candidate_name: &str) -> (found: Option<&Candidate>)
        ensures
            found is Some <==> candidate_at(
                self@,
                candidate_address(self.program_id(), poll_id, candidate_name@),
            ),
            found matches Some(candidate) ==> Record::Candidate(*candidate)
                == self@[candidate_address(
                self.program_id(),
                poll_id,
                candidate_name@,
            )->0].record,
    {
        match self.deriver.derive_for_candidate(poll_id, candidate_name) {
            Some(address) => match self.store.get(&address) {
                Some(Record::Candidate(candidate)) => Some(candidate),
                _ => None,
            },
            None => None,
        }
    }
}

} // verus!
