//! The errors that the store and the ledger operations report.

use vstd::prelude::*;

verus! {

/// Why a store operation did not take place.
#[derive(Clone, Copy, Debug, PartialEq, Eq, Structural)]
pub enum StoreError {
    /// A record already lives at the address.
    AlreadyExists,
    /// No record lives at the address.
    NotFound,
}

/// Why a ledger operation did not take place.
#[derive(Clone, Copy, Debug, PartialEq, Eq, Structural)]
pub enum PollError {
    /// The authorization gate did not permit the caller.
    Unauthorized,
    /// A poll already lives at the poll's address.
    DuplicatePoll,
    /// A record already lives at the candidate's address.
    DuplicateCandidate,
    /// No poll lives at the poll's address.
    PollNotFound,
    /// No candidate lives at the candidate's address.
    CandidateNotFound,
    /// The poll description is longer than `MAX_DESCRIPTION_LEN` bytes.
    DescriptionTooLong,
    /// The candidate name is longer than `MAX_NAME_LEN` bytes.
    NameTooLong,
    /// A counter already holds the largest value it can.
    CounterOverflow,
    /// No address could be derived for a record that was to be created.
    AddressUnavailable,
}

} // verus!
