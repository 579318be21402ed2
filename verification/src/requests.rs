//! Request identifiers and per-request task state.

use vstd::prelude::*;

verus! {

/// A currently executing request, held in the registry under its id.
///
/// The task starts as `Pending`, holding the cooperative cancel capability
/// for the spawned exchange.  The completing unit performs the one-time
/// transition to `Streaming`, consuming the capability and installing the
/// body cursor: the receiving half of the bounded chunk channel that the
/// exchange worker fills.
pub enum RequestTask {
    /// The network exchange has started but not yet completed.  `abort`
    /// records whether the cancel capability is still held.
    Pending { abort: bool },
    /// The exchange completed; response metadata was delivered and body
    /// bytes are pulled progressively through the cursor.
    Streaming { body: std::sync::mpsc::Receiver<Vec<u8>> },
}

/// Allocator for request identifiers: a monotonic counter that never hands
/// out `0`, which is reserved to mean "no active request".  Wraparound after
/// `u32::MAX - 1` allocations restarts at `1`; the registry treats a
/// collision after wraparound as a broken invariant rather than reusing a
/// live id.
pub struct RequestIds {
    next: u32,
}

impl RequestIds {
    /// The id the next allocation will return.
    pub closed spec fn spec_next(&self) -> u32 {
        self.next
    }

    pub fn new() -> (r: RequestIds)
        ensures
            r.spec_next() == 1u32,
    {
        RequestIds { next: 1 }
    }

    /// The id the next allocation will return, without allocating it.
    pub fn peek(&self) -> (id: u32)
        ensures
            id == self.spec_next(),
    {
        self.next
    }

    /// Increments the request id counter.
    /// The returned id is never `0`.
    pub fn new_request_id(&mut self) -> (id: u32)
        requires
            old(self).spec_next() != 0,
        ensures
            id != 0,
            id == old(self).spec_next(),
            final(self).spec_next() == (if id == u32::MAX {
                1u32
            } else {
                (id + 1) as u32
            }),
            final(self).spec_next() != 0,
    {
        let id = self.next;
        self.next = if self.next == u32::MAX {
            1
        } else {
            self.next + 1
        };
        id
    }
}

} // verus!
