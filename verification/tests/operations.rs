use voting::address::Address;
use voting::auth::Caller;
use voting::error::PollError;
use voting::operations::{
    initialize_candidate, initialize_poll, vote, InitializeCandidate, InitializePoll, Vote,
};
use voting::record::{Candidate, Poll, Record, CANDIDATE_SPACE, POLL_SPACE};
use voting::store::RecordStore;

fn address(byte: u8) -> Address {
    Address { bytes: [byte; 32] }
}

fn permitted() -> Caller {
    Caller { key: address(200), is_signer: true, is_writable: true }
}

fn unsigned() -> Caller {
    Caller { key: address(201), is_signer: false, is_writable: true }
}

fn read_only() -> Caller {
    Caller { key: address(202), is_signer: true, is_writable: false }
}

fn poll_ctx(signer: Caller, poll: u8) -> InitializePoll {
    InitializePoll { signer, poll: Some(address(poll)) }
}

fn candidate_ctx(signer: Caller, poll: u8, candidate: u8) -> InitializeCandidate {
    InitializeCandidate { signer, poll: Some(address(poll)), candidate: Some(address(candidate)) }
}

fn vote_ctx(signer: Caller, candidate: u8) -> Vote {
    Vote { signer, poll: None, candidate: Some(address(candidate)) }
}

fn poll_record(id: u64, description: &str, start: u64, end: u64, amount: u64) -> Record {
    Record::Poll(Poll {
        description: String::from(description),
        poll_id: id,
        poll_start: start,
        poll_end: end,
        candidate_amount: amount,
    })
}

fn candidate_record(name: &str, votes: u64) -> Record {
    Record::Candidate(Candidate { candidate_name: String::from(name), candidate_votes: votes })
}

/// Registers `name`, by `signer`, at address `candidate` under the poll at
/// address `poll`.
fn register(
    store: &mut RecordStore,
    signer: Caller,
    poll: u8,
    candidate: u8,
    name: &str,
) -> Result<(), PollError> {
    initialize_candidate(store, &candidate_ctx(signer, poll, candidate), String::from(name))
}

/// A store with the poll 1 at address 1 and its candidate "Red" at address 2.
fn store_with_red() -> RecordStore {
    let mut store = RecordStore::new();
    let ctx = poll_ctx(permitted(), 1);
    assert_eq!(initialize_poll(&mut store, &ctx, 1, String::from("Color"), 5, 9), Ok(()));
    assert_eq!(register(&mut store, permitted(), 1, 2, "Red"), Ok(()));
    store
}

#[test]
fn poll_is_created_with_its_arguments() {
    let mut store = RecordStore::new();
    let made =
        initialize_poll(&mut store, &poll_ctx(permitted(), 1), 42, String::from("Color"), 5, 9);
    assert_eq!(made, Ok(()));
    assert_eq!(store.get(&address(1)), Some(&poll_record(42, "Color", 5, 9, 0)));
    assert_eq!(store.reserved_space(&address(1)), Some(POLL_SPACE));
}

#[test]
fn poll_by_unsigned_caller_is_unauthorized() {
    let mut store = RecordStore::new();
    let made = initialize_poll(&mut store, &poll_ctx(unsigned(), 1), 1, String::new(), 0, 0);
    assert_eq!(made, Err(PollError::Unauthorized));
    assert_eq!(store.get(&address(1)), None);
}

#[test]
fn poll_by_read_only_caller_is_unauthorized() {
    let mut store = RecordStore::new();
    let made = initialize_poll(&mut store, &poll_ctx(read_only(), 1), 1, String::new(), 0, 0);
    assert_eq!(made, Err(PollError::Unauthorized));
    assert_eq!(store.get(&address(1)), None);
}

#[test]
fn poll_with_long_description_is_rejected() {
    let mut store = RecordStore::new();
    let made = initialize_poll(&mut store, &poll_ctx(permitted(), 1), 1, "d".repeat(201), 0, 0);
    assert_eq!(made, Err(PollError::DescriptionTooLong));
    assert_eq!(store.get(&address(1)), None);
    let made = initialize_poll(&mut store, &poll_ctx(permitted(), 1), 1, "d".repeat(200), 0, 0);
    assert_eq!(made, Ok(()));
}

#[test]
fn poll_without_address_is_unavailable() {
    let mut store = RecordStore::new();
    let ctx = InitializePoll { signer: permitted(), poll: None };
    assert_eq!(
        initialize_poll(&mut store, &ctx, 1, String::new(), 0, 0),
        Err(PollError::AddressUnavailable)
    );
}

#[test]
fn poll_at_occupied_address_is_duplicate() {
    let mut store = store_with_red();
    let made = initialize_poll(&mut store, &poll_ctx(permitted(), 1), 1, String::from("x"), 0, 0);
    assert_eq!(made, Err(PollError::DuplicatePoll));
    assert_eq!(store.get(&address(1)), Some(&poll_record(1, "Color", 5, 9, 1)));
    // The address of a candidate is occupied just the same.
    let made = initialize_poll(&mut store, &poll_ctx(permitted(), 2), 7, String::from("x"), 0, 0);
    assert_eq!(made, Err(PollError::DuplicatePoll));
    assert_eq!(store.get(&address(2)), Some(&candidate_record("Red", 0)));
}

#[test]
fn poll_errors_come_in_order() {
    let mut store = store_with_red();
    let missing = InitializePoll { signer: unsigned(), poll: None };
    assert_eq!(
        initialize_poll(&mut store, &missing, 1, "d".repeat(201), 0, 0),
        Err(PollError::Unauthorized)
    );
    let missing = InitializePoll { signer: permitted(), poll: None };
    assert_eq!(
        initialize_poll(&mut store, &missing, 1, "d".repeat(201), 0, 0),
        Err(PollError::DescriptionTooLong)
    );
    assert_eq!(
        initialize_poll(&mut store, &poll_ctx(permitted(), 1), 1, "d".repeat(201), 0, 0),
        Err(PollError::DescriptionTooLong)
    );
}

#[test]
fn candidate_is_created_and_counted() {
    let store = store_with_red();
    assert_eq!(store.get(&address(1)), Some(&poll_record(1, "Color", 5, 9, 1)));
    assert_eq!(store.get(&address(2)), Some(&candidate_record("Red", 0)));
    assert_eq!(store.reserved_space(&address(1)), Some(POLL_SPACE));
    assert_eq!(store.reserved_space(&address(2)), Some(CANDIDATE_SPACE));
}

#[test]
fn candidate_by_unsigned_caller_is_unauthorized() {
    let mut store = store_with_red();
    let made = register(&mut store, unsigned(), 1, 3, "Blue");
    assert_eq!(made, Err(PollError::Unauthorized));
    assert_eq!(store.get(&address(3)), None);
    assert_eq!(store.get(&address(1)), Some(&poll_record(1, "Color", 5, 9, 1)));
}

#[test]
fn candidate_with_long_name_is_rejected() {
    let mut store = store_with_red();
    let made = initialize_candidate(&mut store, &candidate_ctx(permitted(), 1, 3), "n".repeat(33));
    assert_eq!(made, Err(PollError::NameTooLong));
    assert_eq!(store.get(&address(3)), None);
    assert_eq!(store.get(&address(1)), Some(&poll_record(1, "Color", 5, 9, 1)));
    let made = initialize_candidate(&mut store, &candidate_ctx(permitted(), 1, 3), "n".repeat(32));
    assert_eq!(made, Ok(()));
}

#[test]
fn candidate_without_poll_is_not_registered() {
    let mut store = store_with_red();
    // No record at the poll's address.
    let made = register(&mut store, permitted(), 9, 3, "Blue");
    assert_eq!(made, Err(PollError::PollNotFound));
    assert_eq!(store.get(&address(3)), None);
    // No address for the poll.
    let ctx = InitializeCandidate { signer: permitted(), poll: None, candidate: Some(address(3)) };
    assert_eq!(
        initialize_candidate(&mut store, &ctx, String::from("Blue")),
        Err(PollError::PollNotFound)
    );
    assert_eq!(store.get(&address(3)), None);
    // A candidate, not a poll, at the poll's address.
    let made = register(&mut store, permitted(), 2, 3, "Blue");
    assert_eq!(made, Err(PollError::PollNotFound));
    assert_eq!(store.get(&address(3)), None);
    assert_eq!(store.get(&address(2)), Some(&candidate_record("Red", 0)));
}

#[test]
fn candidate_without_address_is_unavailable() {
    let mut store = store_with_red();
    let ctx = InitializeCandidate { signer: permitted(), poll: Some(address(1)), candidate: None };
    assert_eq!(
        initialize_candidate(&mut store, &ctx, String::from("Blue")),
        Err(PollError::AddressUnavailable)
    );
    assert_eq!(store.get(&address(1)), Some(&poll_record(1, "Color", 5, 9, 1)));
}

#[test]
fn candidate_at_occupied_address_is_duplicate() {
    let mut store = store_with_red();
    let made = register(&mut store, permitted(), 1, 2, "Red");
    assert_eq!(made, Err(PollError::DuplicateCandidate));
    assert_eq!(store.get(&address(1)), Some(&poll_record(1, "Color", 5, 9, 1)));
    assert_eq!(store.get(&address(2)), Some(&candidate_record("Red", 0)));
    // The poll's own address is occupied just the same.
    let made = register(&mut store, permitted(), 1, 1, "Red");
    assert_eq!(made, Err(PollError::DuplicateCandidate));
    assert_eq!(store.get(&address(1)), Some(&poll_record(1, "Color", 5, 9, 1)));
}

#[test]
fn candidate_of_full_poll_overflows() {
    let mut store = RecordStore::new();
    let full = poll_record(1, "Color", 0, 0, u64::MAX);
    assert!(store.create_if_absent(address(1), full.clone(), POLL_SPACE).is_ok());
    let made = register(&mut store, permitted(), 1, 2, "Red");
    assert_eq!(made, Err(PollError::CounterOverflow));
    assert_eq!(store.get(&address(1)), Some(&full));
    assert_eq!(store.get(&address(2)), None);
}

#[test]
fn last_candidate_fills_the_poll() {
    let mut store = RecordStore::new();
    let nearly = poll_record(1, "Color", 0, 0, u64::MAX - 1);
    assert!(store.create_if_absent(address(1), nearly, POLL_SPACE).is_ok());
    let made = register(&mut store, permitted(), 1, 2, "Red");
    assert_eq!(made, Ok(()));
    assert_eq!(store.get(&address(1)), Some(&poll_record(1, "Color", 0, 0, u64::MAX)));
    // A second registration of the same candidate is a duplicate before it
    // is an overflow.
    let made = register(&mut store, permitted(), 1, 2, "Red");
    assert_eq!(made, Err(PollError::DuplicateCandidate));
}

#[test]
fn candidate_errors_come_in_order() {
    let mut store = store_with_red();
    let nothing = InitializeCandidate { signer: unsigned(), poll: None, candidate: None };
    assert_eq!(
        initialize_candidate(&mut store, &nothing, "n".repeat(33)),
        Err(PollError::Unauthorized)
    );
    let nothing = InitializeCandidate { signer: permitted(), poll: None, candidate: None };
    assert_eq!(
        initialize_candidate(&mut store, &nothing, "n".repeat(33)),
        Err(PollError::NameTooLong)
    );
    assert_eq!(
        initialize_candidate(&mut store, &nothing, String::from("Blue")),
        Err(PollError::PollNotFound)
    );
}

#[test]
fn vote_advances_the_tally_by_one() {
    let mut store = store_with_red();
    assert_eq!(vote(&mut store, &vote_ctx(permitted(), 2)), Ok(()));
    assert_eq!(store.get(&address(2)), Some(&candidate_record("Red", 1)));
    assert_eq!(vote(&mut store, &vote_ctx(permitted(), 2)), Ok(()));
    assert_eq!(store.get(&address(2)), Some(&candidate_record("Red", 2)));
    assert_eq!(store.get(&address(1)), Some(&poll_record(1, "Color", 5, 9, 1)));
    assert_eq!(store.reserved_space(&address(2)), Some(CANDIDATE_SPACE));
}

#[test]
fn vote_leaves_the_poll_address_alone() {
    let mut store = store_with_red();
    let ctx = Vote { signer: permitted(), poll: Some(address(77)), candidate: Some(address(2)) };
    assert_eq!(vote(&mut store, &ctx), Ok(()));
    assert_eq!(store.get(&address(77)), None);
    assert_eq!(store.get(&address(2)), Some(&candidate_record("Red", 1)));
}

#[test]
fn vote_by_unsigned_caller_is_unauthorized() {
    let mut store = store_with_red();
    assert_eq!(vote(&mut store, &vote_ctx(unsigned(), 2)), Err(PollError::Unauthorized));
    assert_eq!(vote(&mut store, &vote_ctx(read_only(), 2)), Err(PollError::Unauthorized));
    assert_eq!(store.get(&address(2)), Some(&candidate_record("Red", 0)));
}

#[test]
fn vote_without_candidate_is_not_counted() {
    let mut store = store_with_red();
    // No record at the candidate's address.
    assert_eq!(vote(&mut store, &vote_ctx(permitted(), 3)), Err(PollError::CandidateNotFound));
    assert_eq!(store.get(&address(3)), None);
    // No address for the candidate.
    let ctx = Vote { signer: permitted(), poll: Some(address(1)), candidate: None };
    assert_eq!(vote(&mut store, &ctx), Err(PollError::CandidateNotFound));
    // A poll, not a candidate, at the candidate's address.
    assert_eq!(vote(&mut store, &vote_ctx(permitted(), 1)), Err(PollError::CandidateNotFound));
    assert_eq!(store.get(&address(1)), Some(&poll_record(1, "Color", 5, 9, 1)));
    assert_eq!(store.get(&address(2)), Some(&candidate_record("Red", 0)));
}

#[test]
fn vote_for_full_tally_overflows() {
    let mut store = RecordStore::new();
    let full = candidate_record("Red", u64::MAX);
    assert!(store.create_if_absent(address(2), full.clone(), CANDIDATE_SPACE).is_ok());
    assert_eq!(vote(&mut store, &vote_ctx(permitted(), 2)), Err(PollError::CounterOverflow));
    assert_eq!(store.get(&address(2)), Some(&full));
}

#[test]
fn last_vote_fills_the_tally() {
    let mut store = RecordStore::new();
    let nearly = candidate_record("Red", u64::MAX - 1);
    assert!(store.create_if_absent(address(2), nearly, CANDIDATE_SPACE).is_ok());
    assert_eq!(vote(&mut store, &vote_ctx(permitted(), 2)), Ok(()));
    assert_eq!(store.get(&address(2)), Some(&candidate_record("Red", u64::MAX)));
    assert_eq!(vote(&mut store, &vote_ctx(permitted(), 2)), Err(PollError::CounterOverflow));
}

#[test]
fn vote_errors_come_in_order() {
    let mut store = store_with_red();
    let nothing = Vote { signer: unsigned(), poll: None, candidate: None };
    assert_eq!(vote(&mut store, &nothing), Err(PollError::Unauthorized));
    let nothing = Vote { signer: permitted(), poll: None, candidate: None };
    assert_eq!(vote(&mut store, &nothing), Err(PollError::CandidateNotFound));
}
