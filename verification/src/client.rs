use vstd::prelude::*;

verus! {

/// Why a channel operation between a client and the background task failed.
#[derive(Debug, Clone, Copy, PartialEq, Eq, Structural)]
pub enum ChannelFailure {
    /// The other side of the channel has been dropped.
    Disconnected,
    /// The operation did not complete before its deadline.
    Timeout,
}

/// The kind of I/O error with which closing a client fails.
#[derive(Debug, Clone, Copy, PartialEq, Eq, Structural)]
pub enum CloseErrorKind {
    /// The background task is gone.
    BrokenPipe,
    /// The background task did not answer in time.
    TimedOut,
}

/// The error kind that a failed close request or close confirmation reports.
pub open spec fn spec_close_error_kind(failure: ChannelFailure) -> CloseErrorKind {
    match failure {
        ChannelFailure::Disconnected => CloseErrorKind::BrokenPipe,
        ChannelFailure::Timeout => CloseErrorKind::TimedOut,
    }
}

/// Maps the failure of one step of closing a client (sending the close
/// request, or waiting for the confirmation) to the I/O error kind reported.
pub fn close_error_kind(failure: ChannelFailure) -> (kind: CloseErrorKind)
    ensures
        kind == spec_close_error_kind(failure),
{
    match failure {
        ChannelFailure::Disconnected => CloseErrorKind::BrokenPipe,
        ChannelFailure::Timeout => CloseErrorKind::TimedOut,
    }
}

/// A timed out step of closing is reported as a timeout, a vanished
/// background task as a broken pipe, and the two are told apart.
pub proof fn lemma_close_error_kinds(f: ChannelFailure)
    ensures
        (spec_close_error_kind(f) == CloseErrorKind::TimedOut) <==> (f == ChannelFailure::Timeout),
        (spec_close_error_kind(f) == CloseErrorKind::BrokenPipe) <==> (f == ChannelFailure::Disconnected),
{
}

} // verus!
