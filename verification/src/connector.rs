use vstd::prelude::*;

verus! {

/// Seconds waited between two connection attempts, unless a connector says otherwise.
pub const DEFAULT_RETRY_DELAY_SECS: u64 = 5;

/// Seconds between two ping messages, unless a connector says otherwise.
pub const DEFAULT_PING_INTERVAL_SECS: u64 = 5;

/// Capacity of the queue of messages waiting to be sent, unless a connector says otherwise.
pub const DEFAULT_REQUEST_QUEUE_SIZE: usize = 500;

} // verus!
