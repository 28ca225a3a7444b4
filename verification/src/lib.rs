//! Decision logic of a tokio based websocket client: the messages exchanged
//! with the server, the close codes, and the state machine that drives a
//! connection (ping/pong supervision, reconnection and closing).

pub mod client;
mod command;
mod connector;
mod handler;
pub mod laws;
pub mod message;
pub mod task;

pub use crate::client::{close_error_kind, ChannelFailure, CloseErrorKind};
pub use crate::command::Command;
pub use crate::connector::{
    DEFAULT_PING_INTERVAL_SECS, DEFAULT_REQUEST_QUEUE_SIZE, DEFAULT_RETRY_DELAY_SECS,
};
pub use crate::handler::{
    RetryStrategy, DEFAULT_CLOSE_STRATEGY, DEFAULT_CONNECT_FAILURE_STRATEGY,
    DEFAULT_DISCONNECT_STRATEGY,
};
pub use crate::message::{CloseCode, Message, MessageView};
pub use crate::task::{Action, ActionView, Event, EventView, Phase, TaskState, TaskStateView};
