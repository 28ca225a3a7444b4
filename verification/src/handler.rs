use vstd::prelude::*;

verus! {

/// Retry strategy to use when connection fails or server close the connection.
#[derive(Debug, Clone, Copy, PartialEq, Eq, Structural)]
pub enum RetryStrategy {
    /// Retry connecting to the server.
    Retry,
    /// Close the connection and end all tasks.
    Close,
}

/// The strategy after the server closed the connection, unless a handler says otherwise.
pub const DEFAULT_CLOSE_STRATEGY: RetryStrategy = RetryStrategy::Retry;

/// The strategy after a failed connection attempt, unless a handler says otherwise.
pub const DEFAULT_CONNECT_FAILURE_STRATEGY: RetryStrategy = RetryStrategy::Retry;

/// The strategy after the connection broke, unless a handler says otherwise.
pub const DEFAULT_DISCONNECT_STRATEGY: RetryStrategy = RetryStrategy::Retry;

} // verus!
