//! Completion records of overlapped operations: what the completion-port
//! watcher makes of a dequeued packet, and what the awaiting task receives.
use vstd::prelude::*;

verus! {

/// The operating system's code for success.
pub const ERROR_SUCCESS: i32 = 0;

/// Returned by a dequeue once the completion port itself has been closed.
pub const ERROR_ABANDONED_WAIT_0: i32 = 735;

/// The error code and number of bytes transferred by one I/O operation.
#[derive(Clone, Copy, Debug, PartialEq, Eq, Structural)]
pub struct OverlappedCompletionInfo {
    pub error: i32,
    pub bytes_transferred: u32,
}

/// How a pipe operation failed.
#[derive(Clone, Copy, Debug, PartialEq, Eq, Structural)]
pub enum PipeError {
    /// The operating system reported this error code.
    Os(i32),
    /// The completion was dropped before it was delivered.
    Cancelled,
}

impl OverlappedCompletionInfo {
    /// What the awaiting task receives: the byte count when the operation
    /// succeeded, else the operating system's error.
    pub fn into_result(self) -> (r: Result<u32, PipeError>)
        ensures
            self.error == ERROR_SUCCESS ==> r == Ok::<u32, PipeError>(self.bytes_transferred),
            self.error != ERROR_SUCCESS ==> r == Err::<u32, PipeError>(PipeError::Os(self.error)),
    {
        if self.error == ERROR_SUCCESS {
            Ok(self.bytes_transferred)
        } else {
            Err(PipeError::Os(self.error))
        }
    }
}

/// What an awaiting task makes of its result channel: the delivered record,
/// or `None` when the sending half went away without sending.
pub fn overlapped_result(delivered: Option<OverlappedCompletionInfo>) -> (r: Result<u32, PipeError>)
    ensures
        delivered is None ==> r == Err::<u32, PipeError>(PipeError::Cancelled),
        delivered is Some && delivered->0.error == ERROR_SUCCESS ==> r == Ok::<u32, PipeError>(
            delivered->0.bytes_transferred,
        ),
        delivered is Some && delivered->0.error != ERROR_SUCCESS ==> r == Err::<u32, PipeError>(
            PipeError::Os(delivered->0.error),
        ),
{
    match delivered {
        Some(info) => info.into_result(),
        None => Err(PipeError::Cancelled),
    }
}

/// What the watcher does with the outcome of one dequeue.
#[derive(Clone, Copy, Debug, PartialEq, Eq, Structural)]
pub enum CompletionEvent {
    /// Hand this record to the operation whose packet was dequeued.
    Resolve(OverlappedCompletionInfo),
    /// No packet came out; wait again.
    Ignore,
    /// The process-wide port was closed, which must never happen.
    PortClosed,
}

/// The watcher's decision after a dequeue returned `dequeued`, with a packet
/// attached or not, the last error code and the bytes transferred. Every
/// packet that carries an operation is resolved, with success or with the
/// error code, unless the port itself is gone.
pub fn completion_event(
    dequeued: bool,
    has_packet: bool,
    last_error: i32,
    bytes_transferred: u32,
) -> (e: CompletionEvent)
    ensures
        !dequeued && last_error == ERROR_ABANDONED_WAIT_0 ==> e == CompletionEvent::PortClosed,
        !(!dequeued && last_error == ERROR_ABANDONED_WAIT_0) && !has_packet ==> e
            == CompletionEvent::Ignore,
        dequeued && has_packet ==> e == CompletionEvent::Resolve(
            OverlappedCompletionInfo { error: ERROR_SUCCESS, bytes_transferred },
        ),
        !dequeued && has_packet && last_error != ERROR_ABANDONED_WAIT_0 ==> e
            == CompletionEvent::Resolve(OverlappedCompletionInfo { error: last_error, bytes_transferred }),
{
    if !dequeued && last_error == ERROR_ABANDONED_WAIT_0 {
        CompletionEvent::PortClosed
    } else if !has_packet {
        CompletionEvent::Ignore
    } else if dequeued {
        CompletionEvent::Resolve(OverlappedCompletionInfo { error: ERROR_SUCCESS, bytes_transferred })
    } else {
        CompletionEvent::Resolve(OverlappedCompletionInfo { error: last_error, bytes_transferred })
    }
}

} // verus!
