//! Completion tokens: markers that the device signals when a submitted frame
//! has finished.

use vstd::prelude::*;

verus! {

/// The future that a new submission is joined with, so that it starts only
/// after the previous frame's work.
#[derive(Debug, Clone, Copy, PartialEq, Eq, Structural)]
pub enum PreviousFuture {
    /// An immediately ready future: the slot was never submitted to.
    Now,
    /// The future of the submission that the token with this ticket tracks.
    Signaled(u64),
}

/// A completion token. It is neither `Clone` nor `Copy`: both ways of reading
/// it take it by value, so a token is consumed exactly once.
#[derive(Debug)]
pub struct Fence {
    ticket: u64,
}

impl Fence {
    /// The ticket under which the device-side future is kept.
    pub closed spec fn view(&self) -> u64 {
        self.ticket
    }

    /// A token for the submission that the device filed under `ticket`.
    pub fn new(ticket: u64) -> (r: Fence)
        ensures
            r@ == ticket,
    {
        Fence { ticket }
    }

    /// The ticket, read without consuming the token.
    pub fn ticket(&self) -> (r: u64)
        ensures
            r == self@,
    {
        self.ticket
    }

    /// Consumes the token and names the joinable future of its submission.
    pub fn get_boxed(self) -> (r: PreviousFuture)
        ensures
            r == PreviousFuture::Signaled(self@),
    {
        PreviousFuture::Signaled(self.ticket)
    }

    /// Consumes the token and names the ticket that the caller must block on.
    pub fn wait(self) -> (r: u64)
        ensures
            r == self@,
    {
        self.ticket
    }
}

/// The ticket of an optional token.
pub open spec fn ticket_of(fence: Option<Fence>) -> Option<u64> {
    match fence {
        Some(f) => Some(f@),
        None => None,
    }
}

} // verus!
