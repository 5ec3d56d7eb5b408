//! What the read loop of an open connection does with the outcome of a read.

use vstd::prelude::*;

verus! {

/// The size of the buffer that one read may fill, in bytes.
pub const READ_BUFFER_SIZE: usize = 4096;

/// The outcome of one read that does not block.
#[derive(Clone, Copy, Debug, PartialEq, Eq, Structural)]
pub enum ReadEvent {
    /// The read gave this many bytes.
    Read(usize),
    /// Nothing was there to read yet.
    WouldBlock,
    /// The read failed for any other reason.
    Failed,
}

/// What the loop does next.
#[derive(Clone, Copy, Debug, PartialEq, Eq, Structural)]
pub enum ReadStep {
    /// This many bytes came in; wait for more.
    Received(usize),
    /// Nothing came in; wait again.
    Again,
    /// The peer has shut the connection down in good order; leave the loop.
    Closed,
    /// The read failed; leave the loop and report it.
    Failed,
}

impl ReadStep {
    /// Whether the loop ends with this step.
    pub open spec fn is_last(self) -> bool {
        self == ReadStep::Closed || self == ReadStep::Failed
    }

    /// Whether the loop ends with this step.
    pub fn ends_loop(&self) -> (last: bool)
        ensures
            last == self.is_last(),
    {
        match self {
            ReadStep::Closed => true,
            ReadStep::Failed => true,
            _ => false,
        }
    }
}

/// The step that follows an outcome.
pub open spec fn step_for(event: ReadEvent) -> ReadStep {
    match event {
        ReadEvent::Read(n) => if n == 0 {
            ReadStep::Closed
        } else {
            ReadStep::Received(n)
        },
        ReadEvent::WouldBlock => ReadStep::Again,
        ReadEvent::Failed => ReadStep::Failed,
    }
}

/// Decides what the read loop does after one read: a read of no bytes ends
/// it in good order, a read that would block is tried again, any other failure
/// ends it, and bytes that came in keep it going.
pub fn on_read(event: ReadEvent) -> (step: ReadStep)
    ensures
        step == step_for(event),
{
    match event {
        ReadEvent::Read(n) => if n == 0 {
            ReadStep::Closed
        } else {
            ReadStep::Received(n)
        },
        ReadEvent::WouldBlock => ReadStep::Again,
        ReadEvent::Failed => ReadStep::Failed,
    }
}

} // verus!
