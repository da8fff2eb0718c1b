//! The source of version markers.
use vstd::prelude::*;

verus! {

/// The marker that follows `n`: one more, wrapping to zero after `u32::MAX`.
pub open spec fn next_nonce(n: u32) -> u32 {
    if n == u32::MAX {
        0
    } else {
        (n + 1) as u32
    }
}

/// A monotonic counter of version markers, wrapping on overflow.
///
/// All containers whose versions are compared with each other draw their markers
/// from one source; a program keeps one per thread.
pub struct NonceSource {
    last: u32,
}

impl NonceSource {
    /// The marker handed out most recently (zero before the first).
    pub closed spec fn last_spec(&self) -> u32 {
        self.last
    }

    /// A fresh source; its first marker is 1.
    pub fn new() -> (r: NonceSource)
        ensures
            r.last_spec() == 0,
    {
        NonceSource { last: 0 }
    }

    /// A source that resumes after `last`: its first marker is `next_nonce(last)`.
    pub fn from_last(last: u32) -> (r: NonceSource)
        ensures
            r.last_spec() == last,
    {
        NonceSource { last }
    }

    /// The marker handed out most recently.
    pub fn last(&self) -> (r: u32)
        ensures
            r == self.last_spec(),
    {
        self.last
    }

    /// Advances the counter by one, wrapping, and returns the new marker.
    pub fn nonce(&mut self) -> (r: u32)
        ensures
            r == next_nonce(old(self).last_spec()),
            final(self).last_spec() == r,
    {
        self.last = self.last.wrapping_add(1);
        self.last
    }
}

} // verus!
