//! The records that the store keeps: polls and candidates.

use crate::error::PollError;
use vstd::prelude::*;
use vstd::utf8::encode_utf8;

verus! {

/// Bytes taken by the header that precedes every stored record.
pub const ANCHOR_DISCRIMINATOR_SIZE: usize = 8;

/// Bytes taken by the length that precedes an encoded text.
pub const LENGTH_PREFIX_SIZE: usize = 4;

/// Bytes taken by an encoded 64-bit integer.
pub const INTEGER_SIZE: usize = 8;

/// Largest number of bytes in a poll description.
pub const MAX_DESCRIPTION_LEN: usize = 200;

/// Largest number of bytes in a candidate name.
pub const MAX_NAME_LEN: usize = 32;

/// Space reserved for a poll record: the header, the description at its
/// longest, the id, both timestamps and the candidate counter.
pub const POLL_SPACE: usize = ANCHOR_DISCRIMINATOR_SIZE + LENGTH_PREFIX_SIZE
    + MAX_DESCRIPTION_LEN + 4 * INTEGER_SIZE;

/// Space reserved for a candidate record: the header, the name at its
/// longest and the vote counter.
pub const CANDIDATE_SPACE: usize = ANCHOR_DISCRIMINATOR_SIZE + LENGTH_PREFIX_SIZE
    + MAX_NAME_LEN + INTEGER_SIZE;

/// A poll that candidates can be registered under.
#[derive(Clone, Debug, PartialEq, Eq)]
pub struct Poll {
    /// What the poll is about, in at most `MAX_DESCRIPTION_LEN` bytes.
    pub description: String,
    /// The id that the poll was created under.
    pub poll_id: u64,
    /// When the poll opens. Kept, never enforced.
    pub poll_start: u64,
    /// When the poll closes. Kept, never enforced.
    pub poll_end: u64,
    /// How many candidates were registered under the poll.
    pub candidate_amount: u64,
}

/// A candidate of a poll, with the votes cast for it.
#[derive(Clone, Debug, PartialEq, Eq)]
pub struct Candidate {
    /// The candidate's name, in at most `MAX_NAME_LEN` bytes.
    pub candidate_name: String,
    /// How many votes were cast for the candidate.
    pub candidate_votes: u64,
}

/// A stored record.
#[derive(Clone, Debug, PartialEq, Eq)]
pub enum Record {
    Poll(Poll),
    Candidate(Candidate),
}

/// Number of bytes that `text` takes as UTF-8.
pub open spec fn byte_len(text: Seq<char>) -> nat {
    encode_utf8(text).len()
}

/// Counts the bytes that `text` takes as UTF-8.
pub fn text_len(text: &str) -> (len: usize)
    ensures
        len == byte_len(text@),
{
    text.as_bytes().len()
}

impl Poll {
    /// Bytes that the encoded poll takes, without the record header.
    pub open spec fn encoded_len(&self) -> nat {
        LENGTH_PREFIX_SIZE as nat + byte_len(self.description@) + 4 * INTEGER_SIZE as nat
    }

    /// True when the description is within its bound.
    pub open spec fn bounded(&self) -> bool {
        byte_len(self.description@) <= MAX_DESCRIPTION_LEN
    }

    /// A fresh poll, with no candidate registered yet. A description longer
    /// than `MAX_DESCRIPTION_LEN` bytes is rejected.
    pub fn new(poll_id: u64, description: String, poll_start: u64, poll_end: u64) -> (poll: Result<
        Poll,
        PollError,
    >)
        ensures
            byte_len(description@) > MAX_DESCRIPTION_LEN ==> poll == Err::<Poll, PollError>(
                PollError::DescriptionTooLong,
            ),
            byte_len(description@) <= MAX_DESCRIPTION_LEN ==> poll == Ok::<Poll, PollError>(
                Poll { description, poll_id, poll_start, poll_end, candidate_amount: 0 },
            ),
    {
        if text_len(description.as_str()) > MAX_DESCRIPTION_LEN {
            return Err(PollError::DescriptionTooLong);
        }
        Ok(Poll { description, poll_id, poll_start, poll_end, candidate_amount: 0 })
    }
}

impl Candidate {
    /// Bytes that the encoded candidate takes, without the record header.
    pub open spec fn encoded_len(&self) -> nat {
        LENGTH_PREFIX_SIZE as nat + byte_len(self.candidate_name@) + INTEGER_SIZE as nat
    }

    /// True when the name is within its bound.
    pub open spec fn bounded(&self) -> bool {
        byte_len(self.candidate_name@) <= MAX_NAME_LEN
    }

    /// A fresh candidate, with no vote cast for it yet. A name longer than
    /// `MAX_NAME_LEN` bytes is rejected.
    pub fn new(candidate_name: String) -> (candidate: Result<Candidate, PollError>)
        ensures
            byte_len(candidate_name@) > MAX_NAME_LEN ==> candidate == Err::<Candidate, PollError>(
                PollError::NameTooLong,
            ),
            byte_len(candidate_name@) <= MAX_NAME_LEN ==> candidate == Ok::<Candidate, PollError>(
                Candidate { candidate_name, candidate_votes: 0 },
            ),
    {
        if text_len(candidate_name.as_str()) > MAX_NAME_LEN {
            return Err(PollError::NameTooLong);
        }
        Ok(Candidate { candidate_name, candidate_votes: 0 })
    }
}

impl Record {
    /// Bytes that the stored record takes, header included.
    pub open spec fn stored_len(&self) -> nat {
        match self {
            Record::Poll(poll) => ANCHOR_DISCRIMINATOR_SIZE as nat + poll.encoded_len(),
            Record::Candidate(candidate) => {
                ANCHOR_DISCRIMINATOR_SIZE as nat + candidate.encoded_len()
            },
        }
    }

    /// True when the record's text is within its bound.
    pub open spec fn bounded(&self) -> bool {
        match self {
            Record::Poll(poll) => poll.bounded(),
            Record::Candidate(candidate) => candidate.bounded(),
        }
    }

    /// The space that a record of this kind requires at its creation.
    pub open spec fn required_space(&self) -> nat {
        match self {
            Record::Poll(_) => POLL_SPACE as nat,
            Record::Candidate(_) => CANDIDATE_SPACE as nat,
        }
    }
}

/// The counter's next value. A counter that already holds the largest value
/// is not advanced.
pub fn next_count(counter: u64) -> (next: Result<u64, PollError>)
    ensures
        counter == u64::MAX ==> next == Err::<u64, PollError>(PollError::CounterOverflow),
        counter < u64::MAX ==> next == Ok::<u64, PollError>((counter + 1) as u64),
{
    match counter.checked_add(1) {
        Some(next) => Ok(next),
        None => Err(PollError::CounterOverflow),
    }
}

/// A record within its bound fits the space required for its kind.
pub proof fn lemma_bounded_record_fits(record: Record)
    requires
        record.bounded(),
    ensures
        record.stored_len() <= record.required_space(),
{
}

} // verus!
