//! The policy of the loop that listens on the serial link. The loop itself
//! waits and reads; what it does after each read is decided here.

use vstd::prelude::*;

verus! {

/// The number of bytes that the listener asks for in one read.
pub const READ_BUFFER_SIZE: usize = 256;

/// How long the listener waits, in seconds, before it reads again after the
/// link had nothing to give.
pub const RETRY_DELAY_SECS: u64 = 2;

/// How an attempt to read from the link ended.
#[derive(Clone, Copy, Debug, PartialEq, Eq, Structural)]
pub enum ReadOutcome {
    /// The link delivered this many bytes.
    Received(usize),
    /// The link had nothing to give yet.
    WouldBlock,
    /// The link failed in any other way.
    Failed,
}

/// What the listener does next.
#[derive(Clone, Copy, Debug, PartialEq, Eq, Structural)]
pub enum ListenerStep {
    /// Report the first `bytes` bytes of the read buffer, signal that the
    /// listener is ready for more, and read again.
    Report { bytes: usize },
    /// Wait for `seconds` seconds, then read again.
    Wait { seconds: u64 },
    /// Report the failure and stop listening.
    Stop,
}

/// The step that follows a read: received bytes are reported, as many as were
/// received but never more than the read buffer holds; a link with nothing to
/// give is asked again after the retry delay; any other failure ends the loop.
pub open spec fn step_after(outcome: ReadOutcome) -> ListenerStep {
    match outcome {
        ReadOutcome::Received(bytes) => ListenerStep::Report {
            bytes: if bytes <= READ_BUFFER_SIZE {
                bytes
            } else {
                READ_BUFFER_SIZE
            },
        },
        ReadOutcome::WouldBlock => ListenerStep::Wait { seconds: RETRY_DELAY_SECS },
        ReadOutcome::Failed => ListenerStep::Stop,
    }
}

/// Decides what the listener does after a read that ended in `outcome`.
pub fn next_step(outcome: ReadOutcome) -> (step: ListenerStep)
    ensures
        step == step_after(outcome),
{
    match outcome {
        ReadOutcome::Received(bytes) => {
            if bytes <= READ_BUFFER_SIZE {
                ListenerStep::Report { bytes }
            } else {
                ListenerStep::Report { bytes: READ_BUFFER_SIZE }
            }
        },
        ReadOutcome::WouldBlock => ListenerStep::Wait { seconds: RETRY_DELAY_SECS },
        ReadOutcome::Failed => ListenerStep::Stop,
    }
}

} // verus!
