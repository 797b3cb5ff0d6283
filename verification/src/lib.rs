//! A ballot-tallying store: polls, the candidates registered under them, and
//! the votes cast for each candidate, kept as records at derived addresses.
//!
//! - [`address`]: storage addresses, derived from a namespace tag and the
//!   key of a record.
//! - [`store`]: records kept at addresses, created once and changed in place.
//! - [`auth`]: who may initiate an operation.
//! - [`operations`]: creating a poll, registering a candidate and casting a
//!   vote, on the accounts that a request resolved to.
//! - [`ledger`]: the same operations on poll ids and candidate names, over a
//!   store of the ledger's own.
//! - [`laws`]: what holds of the ledger over whole histories of calls.

pub mod address;
pub mod auth;
pub mod error;
pub mod laws;
pub mod ledger;
pub mod operations;
pub mod record;
pub mod store;

pub use address::{Address, AddressDeriver};
pub use auth::{AuthorizationGate, Caller};
pub use error::{PollError, StoreError};
pub use ledger::{PollLedger, PROGRAM_ID};
pub use operations::{
    initialize_candidate, initialize_poll, vote, InitializeCandidate, InitializePoll, Vote,
};
pub use record::{Candidate, Poll, Record, ANCHOR_DISCRIMINATOR_SIZE};
pub use store::{Handle, RecordStore, Slot};
