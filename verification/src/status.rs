//! The closed set of job lifecycle states and its text codec.
//!
//! The backing store has no native enumeration type, so a job's status
//! is persisted as one of four fixed words. The codec keeps arbitrary
//! text out of the in-memory type: every string decodes to some status,
//! and unknown text decodes to `ERROR`.

use vstd::prelude::*;

verus! {

use crate::text::str_eq;

/// A job's lifecycle state.
#[derive(Clone, Copy, PartialEq, Eq, Structural, Debug)]
pub enum Status {
    QUEUED,
    RUNNING,
    COMPLETE,
    ERROR,
}

/// The stored word for each status.
pub open spec fn status_text(s: Status) -> Seq<char> {
    match s {
        Status::QUEUED => "QUEUED"@,
        Status::RUNNING => "RUNNING"@,
        Status::COMPLETE => "COMPLETE"@,
        Status::ERROR => "ERROR"@,
    }
}

/// The status a stored word decodes to; anything outside the closed set
/// falls back to `ERROR`.
pub open spec fn status_of_text(t: Seq<char>) -> Status {
    if t == "QUEUED"@ {
        Status::QUEUED
    } else if t == "RUNNING"@ {
        Status::RUNNING
    } else if t == "COMPLETE"@ {
        Status::COMPLETE
    } else {
        Status::ERROR
    }
}

impl Status {
    /// Encode the status as the word the store keeps.
    pub fn to_str(&self) -> (s: &str)
        ensures
            s@ == status_text(*self),
    {
        match self {
            Status::QUEUED => "QUEUED",
            Status::RUNNING => "RUNNING",
            Status::COMPLETE => "COMPLETE",
            Status::ERROR => "ERROR",
        }
    }

    /// Decode a stored word back into a status.
    pub fn from_str(input: &str) -> (s: Status)
        ensures
            s == status_of_text(input@),
    {
        if str_eq(input, "QUEUED") {
            Status::QUEUED
        } else if str_eq(input, "RUNNING") {
            Status::RUNNING
        } else if str_eq(input, "COMPLETE") {
            Status::COMPLETE
        } else {
            Status::ERROR
        }
    }
}

/// Law: the codec round-trips. Decoding the stored word of any status
/// yields that status again, so no status is ever confused with another
/// at the store boundary.
pub proof fn lemma_status_round_trip(s: Status)
    ensures
        status_of_text(status_text(s)) == s,
{
    reveal_strlit("QUEUED");
    reveal_strlit("RUNNING");
    reveal_strlit("COMPLETE");
    reveal_strlit("ERROR");
    assert("QUEUED"@.len() == 6);
    assert("RUNNING"@.len() == 7);
    assert("COMPLETE"@.len() == 8);
    assert("ERROR"@.len() == 5);
}

/// Law: every status encodes to a non-empty stored word, so a persisted
/// record never carries an empty status.
pub proof fn lemma_status_text_nonempty(s: Status)
    ensures
        status_text(s).len() > 0,
{
    reveal_strlit("QUEUED");
    reveal_strlit("RUNNING");
    reveal_strlit("COMPLETE");
    reveal_strlit("ERROR");
}

} // verus!
