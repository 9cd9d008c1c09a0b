//! How the forum answered, and how many pages a thread has.

use crate::text::{push_decimal, decimal};
use vstd::prelude::*;

verus! {

/// Number of replies that the forum puts on one page.
pub const PAGE_SIZE: i32 = 40;

/// Status code of an answer that carries what was asked for.
pub const STATUS_OK: u16 = 200;

/// Status code of an answer that refuses the credentials.
pub const STATUS_UNAUTHORIZED: u16 = 401;

/// An answer of the forum that carries no data.
#[derive(Clone, Copy, Debug, PartialEq, Eq, Structural)]
pub enum Failure {
    /// The forum refused the credentials.
    Unauthorized,
    /// The forum answered with this status code, which is neither success
    /// nor a refusal of the credentials.
    Unexpected(u16),
}

/// What the status code of an answer says: success, or which failure.
pub open spec fn status_meaning(code: u16) -> Result<(), Failure> {
    if code == STATUS_OK {
        Ok(())
    } else if code == STATUS_UNAUTHORIZED {
        Err(Failure::Unauthorized)
    } else {
        Err(Failure::Unexpected(code))
    }
}

/// Sorts the status code of an answer: only on `Ok` is there a body to read.
pub fn check_status(code: u16) -> (r: Result<(), Failure>)
    ensures
        r == status_meaning(code),
{
    if code == STATUS_OK {
        Ok(())
    } else if code == STATUS_UNAUTHORIZED {
        Err(Failure::Unauthorized)
    } else {
        Err(Failure::Unexpected(code))
    }
}

/// The line that reports `failure` to the operator.
pub open spec fn failure_notice(failure: Failure) -> Seq<char> {
    match failure {
        Failure::Unauthorized => "Status: Authentication failed."@,
        Failure::Unexpected(code) => "Unexpected status code: "@ + decimal(code as nat),
    }
}

impl Failure {
    /// The line that reports this failure to the operator.
    pub fn notice(&self) -> (line: String)
        ensures
            line@ == failure_notice(*self),
    {
        match self {
            Failure::Unauthorized => String::from_str("Status: Authentication failed."),
            Failure::Unexpected(code) => {
                let mut line = String::from_str("Unexpected status code: ");
                push_decimal(&mut line, *code as u128);
                line
            },
        }
    }
}

/// What the forum tells of a thread.
#[derive(Clone, Copy, Debug, PartialEq, Eq, Structural)]
pub struct Thread {
    /// Number of replies in the thread.
    pub reply_count: i32,
}

/// The number of pages that `reply_count` replies fill: the quotient by the
/// page size, rounded up. A count below zero fills no page.
pub open spec fn pages_for(reply_count: int) -> int {
    if reply_count <= 0 {
        0
    } else {
        (reply_count + PAGE_SIZE - 1) / (PAGE_SIZE as int)
    }
}

/// The page count that follows from the answer to the question about the
/// thread: that of its reply count, or zero where the forum gave no data.
pub open spec fn resolved_pages(reply: Result<Thread, Failure>) -> int {
    match reply {
        Ok(thread) => pages_for(thread.reply_count as int),
        Err(_) => 0,
    }
}

/// Page count of a thread with `reply_count` replies.
pub fn page_count(reply_count: i32) -> (pages: i32)
    ensures
        pages == pages_for(reply_count as int),
{
    if reply_count <= 0 {
        0
    } else {
        (reply_count - 1) / PAGE_SIZE + 1
    }
}

/// Page count of the thread, from the forum's answer about it. A failure
/// counts as a thread without pages.
pub fn get_pages(reply: &Result<Thread, Failure>) -> (pages: i32)
    ensures
        pages == resolved_pages(*reply),
{
    match reply {
        Ok(thread) => page_count(thread.reply_count),
        Err(_) => 0,
    }
}

/// The page count is the least number of pages that hold all the replies:
/// it is never negative, its pages have room for every reply, and one page
/// fewer would not.
pub proof fn law_page_count_is_ceiling(reply_count: int)
    requires
        reply_count >= 0,
    ensures
        pages_for(reply_count) >= 0,
        pages_for(reply_count) * PAGE_SIZE >= reply_count,
        (pages_for(reply_count) - 1) * PAGE_SIZE < reply_count,
{
}

} // verus!
