use vstd::prelude::*;

verus! {

/// A request that a [`Client`](crate) hands to the background task.
#[derive(Debug, Clone, Copy, PartialEq, Eq, Structural)]
pub enum Command {
    /// Drop the current connection and connect again.
    Reconnect,
    /// Close the connection and stop the background task.
    Close,
}

} // verus!
