//! The decisions of the task that owns a websocket connection.
//!
//! The connection is driven by a loop that alternates outside work (awaiting
//! the stream, the handler, the connector, a timer) with decisions.  The
//! decisions live here as a state machine: [`TaskState::step`] takes the
//! outcome of the last piece of outside work (an [`Event`]) and gives the next
//! state and the next piece of work to perform (an [`Action`]).
use vstd::prelude::*;

use crate::command::Command;
use crate::handler::RetryStrategy;
use crate::message::{CloseCode, Message, MessageView};

verus! {

/// Where the task stands: what outside work it is waiting for.
#[derive(Debug, Clone, Copy, PartialEq, Eq, Structural)]
pub enum Phase {
    /// Waiting for the outcome of a connection attempt.
    Connecting,
    /// Waiting for the retry strategy after a failed connection attempt.
    ConnectFailed,
    /// Waiting for the retry delay to elapse.
    RetryWaiting,
    /// Waiting for the handler to acknowledge a new connection.
    Connected,
    /// Waiting for a tick, a message to send, a command or a server message.
    Running,
    /// Waiting for the outcome of sending a ping.
    SendingPing,
    /// Waiting for the outcome of sending a client message.
    SendingMessage,
    /// Waiting for the outcome of sending the close frame a client asked for.
    SendingCloseRequest,
    /// Waiting for the outcome of answering a ping with a pong.
    SendingPong,
    /// Waiting for the outcome of echoing the close frame of the server.
    SendingCloseReply,
    /// Waiting for the handler to process a text or binary message.
    Dispatching,
    /// Waiting for the retry strategy after the server closed the connection.
    AwaitingCloseStrategy,
    /// Waiting for the retry strategy after the connection broke.
    AwaitingDisconnectStrategy,
    /// Waiting for the stream to close before connecting again.
    ClosingForReconnect,
    /// Waiting for the stream to close before the task stops.
    ClosingBeforeStop,
    /// Waiting for the final closing of the stream.
    ShuttingDown,
    /// The task is over.
    Finished,
}

/// The outcome of a piece of outside work.
#[derive(Debug, PartialEq, Eq)]
pub enum Event {
    /// The ping interval ticked.
    Tick,
    /// A client queued a message for the server.
    Outgoing(Message),
    /// A client sent a command.
    Requested(Command),
    /// Every client has been dropped: a request channel is disconnected.
    SendersDropped,
    /// The server sent a message.
    Received(Message),
    /// Reading from the stream failed.
    ReadFailed,
    /// Sending on the stream completed; `true` when it succeeded.
    Sent(bool),
    /// The stream has been closed (whatever the outcome of closing it).
    StreamClosed,
    /// A connection attempt completed; `true` when it succeeded.
    ConnectOutcome(bool),
    /// The handler answered with a retry strategy.
    Strategy(RetryStrategy),
    /// The handler finished processing a callback without a result.
    HandlerDone,
    /// The retry delay elapsed.
    RetryElapsed,
}

/// The mathematical content of an [`Event`].
pub enum EventView {
    Tick,
    Outgoing(MessageView),
    Requested(Command),
    SendersDropped,
    Received(MessageView),
    ReadFailed,
    Sent(bool),
    StreamClosed,
    ConnectOutcome(bool),
    Strategy(RetryStrategy),
    HandlerDone,
    RetryElapsed,
}

impl View for Event {
    type V = EventView;

    open spec fn view(&self) -> EventView {
        match self {
            Event::Tick => EventView::Tick,
            Event::Outgoing(m) => EventView::Outgoing(m@),
            Event::Requested(c) => EventView::Requested(*c),
            Event::SendersDropped => EventView::SendersDropped,
            Event::Received(m) => EventView::Received(m@),
            Event::ReadFailed => EventView::ReadFailed,
            Event::Sent(ok) => EventView::Sent(*ok),
            Event::StreamClosed => EventView::StreamClosed,
            Event::ConnectOutcome(ok) => EventView::ConnectOutcome(*ok),
            Event::Strategy(s) => EventView::Strategy(*s),
            Event::HandlerDone => EventView::HandlerDone,
            Event::RetryElapsed => EventView::RetryElapsed,
        }
    }
}

/// The next piece of outside work to perform.
#[derive(Debug, PartialEq, Eq)]
pub enum Action {
    /// Attempt a connection to the server.
    Connect,
    /// Tell the handler that the connection succeeded.
    CallOnConnect,
    /// Ask the handler for a strategy after a failed connection attempt.
    CallOnConnectFailure,
    /// Ask the connector for the retry delay and sleep for it.
    WaitRetryDelay,
    /// The first connection is up: start the background task and hand out a client.
    Launch,
    /// The first connection could not be made: no client is handed out.
    GiveUp,
    /// Wait for the next tick, client request or server message.
    Listen,
    /// Send this message on the stream.
    Send(Message),
    /// Hand a text message to the handler.
    CallOnText(String),
    /// Hand a binary message to the handler.
    CallOnBinary(Vec<u8>),
    /// Tell the handler that the server closed the connection, and ask for a strategy.
    CallOnClose(CloseCode, String),
    /// Ask the handler for a strategy after the connection broke.
    CallOnDisconnect,
    /// Close the stream.
    CloseStream,
    /// Confirm to the clients that the task is over.
    ConfirmClose,
}

/// The mathematical content of an [`Action`].
pub enum ActionView {
    Connect,
    CallOnConnect,
    CallOnConnectFailure,
    WaitRetryDelay,
    Launch,
    GiveUp,
    Listen,
    Send(MessageView),
    CallOnText(Seq<char>),
    CallOnBinary(Seq<u8>),
    CallOnClose(CloseCode, Seq<char>),
    CallOnDisconnect,
    CloseStream,
    ConfirmClose,
}

impl View for Action {
    type V = ActionView;

    open spec fn view(&self) -> ActionView {
        match self {
            Action::Connect => ActionView::Connect,
            Action::CallOnConnect => ActionView::CallOnConnect,
            Action::CallOnConnectFailure => ActionView::CallOnConnectFailure,
            Action::WaitRetryDelay => ActionView::WaitRetryDelay,
            Action::Launch => ActionView::Launch,
            Action::GiveUp => ActionView::GiveUp,
            Action::Listen => ActionView::Listen,
            Action::Send(m) => ActionView::Send(m@),
            Action::CallOnText(t) => ActionView::CallOnText(t@),
            Action::CallOnBinary(b) => ActionView::CallOnBinary(b@),
            Action::CallOnClose(code, reason) => ActionView::CallOnClose(*code, reason@),
            Action::CallOnDisconnect => ActionView::CallOnDisconnect,
            Action::CloseStream => ActionView::CloseStream,
            Action::ConfirmClose => ActionView::ConfirmClose,
        }
    }
}

/// The mathematical content of a [`TaskState`].
pub struct TaskStateView {
    pub phase: Phase,
    /// The payload of the last ping sent, or of the next one when it was answered.
    pub last_ping: u8,
    /// Whether the last ping has been answered.
    pub ponged: bool,
    /// Whether a client asked to close the connection.
    pub want_to_close: bool,
    /// Whether the first connection succeeded and the background task runs.
    pub launched: bool,
    /// The close frame of the server, while it is being echoed.
    pub pending_close: Option<(CloseCode, Seq<char>)>,
}

/// The state of the task that owns a connection.
pub struct TaskState {
    phase: Phase,
    last_ping: u8,
    ponged: bool,
    want_to_close: bool,
    launched: bool,
    pending_close: Option<(CloseCode, String)>,
}

impl View for TaskState {
    type V = TaskStateView;

    closed spec fn view(&self) -> TaskStateView {
        TaskStateView {
            phase: self.phase,
            last_ping: self.last_ping,
            ponged: self.ponged,
            want_to_close: self.want_to_close,
            launched: self.launched,
            pending_close: match self.pending_close {
                Some((code, reason)) => Some((code, reason@)),
                None => None,
            },
        }
    }
}

/// The reason sent with the close frame that a client asks for.
pub open spec fn explicit_close_reason() -> Seq<char> {
    "Client is explicitly closing the stream"@
}

/// The payload of the ping that follows the one with payload `p`.
pub open spec fn next_ping_id(p: u8) -> u8 {
    if p == 255 { 0 } else { (p + 1) as u8 }
}

/// Whether the task has not finished its first connection yet.
pub open spec fn is_connecting_phase(p: Phase) -> bool {
    p == Phase::Connecting || p == Phase::ConnectFailed || p == Phase::RetryWaiting
        || p == Phase::Connected
}

/// The consistency of a task state.
pub open spec fn wf(s: TaskStateView) -> bool {
    &&& (s.phase == Phase::SendingCloseReply <==> s.pending_close is Some)
    &&& !s.launched ==> {
        &&& is_connecting_phase(s.phase) || s.phase == Phase::Finished
        &&& !s.want_to_close
        &&& s.ponged
        &&& s.last_ping == 0
    }
}

/// The state in which a connection is first attempted.
pub open spec fn initial_state() -> TaskStateView {
    TaskStateView {
        phase: Phase::Connecting,
        last_ping: 0,
        ponged: true,
        want_to_close: false,
        launched: false,
        pending_close: None,
    }
}

/// Whether the task, in state `s`, is waiting for an outcome like `e`.
pub open spec fn accepts(s: TaskStateView, e: EventView) -> bool {
    match s.phase {
        Phase::Connecting => e is ConnectOutcome,
        Phase::ConnectFailed => e is Strategy,
        Phase::RetryWaiting => e is RetryElapsed,
        Phase::Connected => e is HandlerDone,
        Phase::Running => e is Tick || e is Outgoing || e is Requested || e is SendersDropped
            || e is Received || e is ReadFailed,
        Phase::SendingPing => e is Sent,
        Phase::SendingMessage => e is Sent,
        Phase::SendingCloseRequest => e is Sent,
        Phase::SendingPong => e is Sent,
        Phase::SendingCloseReply => e is Sent,
        Phase::Dispatching => e is HandlerDone,
        Phase::AwaitingCloseStrategy => e is Strategy,
        Phase::AwaitingDisconnectStrategy => e is Strategy,
        Phase::ClosingForReconnect => e is StreamClosed,
        Phase::ClosingBeforeStop => e is StreamClosed,
        Phase::ShuttingDown => e is StreamClosed,
        Phase::Finished => false,
    }
}

/// Whether `e` is an outcome of performing the work `a`.
pub open spec fn answers(a: ActionView, e: EventView) -> bool {
    match a {
        ActionView::Connect => e is ConnectOutcome,
        ActionView::CallOnConnect => e is HandlerDone,
        ActionView::CallOnConnectFailure => e is Strategy,
        ActionView::WaitRetryDelay => e is RetryElapsed,
        ActionView::Launch | ActionView::Listen => e is Tick || e is Outgoing || e is Requested
            || e is SendersDropped || e is Received || e is ReadFailed,
        ActionView::GiveUp => false,
        ActionView::Send(_) => e is Sent,
        ActionView::CallOnText(_) => e is HandlerDone,
        ActionView::CallOnBinary(_) => e is HandlerDone,
        ActionView::CallOnClose(_, _) => e is Strategy,
        ActionView::CallOnDisconnect => e is Strategy,
        ActionView::CloseStream => e is StreamClosed,
        ActionView::ConfirmClose => false,
    }
}

/// `s` moved to phase `p`.
pub open spec fn in_phase(s: TaskStateView, p: Phase) -> TaskStateView {
    TaskStateView { phase: p, ..s }
}

/// Go back to waiting for ticks, requests and server messages.
pub open spec fn listen(s: TaskStateView) -> (TaskStateView, ActionView) {
    (in_phase(s, Phase::Running), ActionView::Listen)
}

/// The connection broke: ask the handler whether to connect again.
pub open spec fn disconnect(s: TaskStateView) -> (TaskStateView, ActionView) {
    (in_phase(s, Phase::AwaitingDisconnectStrategy), ActionView::CallOnDisconnect)
}

/// Close the stream, then connect again.
pub open spec fn reconnect(s: TaskStateView) -> (TaskStateView, ActionView) {
    (in_phase(s, Phase::ClosingForReconnect), ActionView::CloseStream)
}

/// Leave the loop: close the stream, then confirm the end of the task.
pub open spec fn stop(s: TaskStateView) -> (TaskStateView, ActionView) {
    (in_phase(s, Phase::ShuttingDown), ActionView::CloseStream)
}

/// Close the stream, then leave the loop.
pub open spec fn close_then_stop(s: TaskStateView) -> (TaskStateView, ActionView) {
    (in_phase(s, Phase::ClosingBeforeStop), ActionView::CloseStream)
}

/// The next state and the next piece of work, given the outcome `e` of the
/// work that the task in state `s` was waiting for.
pub open spec fn next(s: TaskStateView, e: EventView) -> (TaskStateView, ActionView) {
    match s.phase {
        Phase::Connecting => match e {
            EventView::ConnectOutcome(true) => (in_phase(s, Phase::Connected), ActionView::CallOnConnect),
            _ => (in_phase(s, Phase::ConnectFailed), ActionView::CallOnConnectFailure),
        },
        Phase::ConnectFailed => match e {
            EventView::Strategy(RetryStrategy::Retry) => (in_phase(s, Phase::RetryWaiting), ActionView::WaitRetryDelay),
            _ => if s.launched {
                close_then_stop(s)
            } else {
                (in_phase(s, Phase::Finished), ActionView::GiveUp)
            },
        },
        Phase::RetryWaiting => (in_phase(s, Phase::Connecting), ActionView::Connect),
        Phase::Connected => if s.launched {
            listen(s)
        } else {
            (TaskStateView { phase: Phase::Running, launched: true, ..s }, ActionView::Launch)
        },
        Phase::Running => next_running(s, e),
        Phase::SendingPing => match e {
            EventView::Sent(true) => (TaskStateView { phase: Phase::Running, ponged: false, ..s }, ActionView::Listen),
            _ => disconnect(s),
        },
        Phase::SendingMessage => match e {
            EventView::Sent(true) => listen(s),
            _ => disconnect(s),
        },
        Phase::SendingCloseRequest => match e {
            EventView::Sent(true) => (TaskStateView { phase: Phase::Running, want_to_close: true, ..s }, ActionView::Listen),
            _ => stop(s),
        },
        Phase::SendingPong => match e {
            EventView::Sent(false) => if s.want_to_close { listen(s) } else { disconnect(s) },
            _ => listen(s),
        },
        Phase::SendingCloseReply => {
            let (code, reason) = s.pending_close.unwrap();
            (
                TaskStateView { phase: Phase::AwaitingCloseStrategy, pending_close: None, ..s },
                ActionView::CallOnClose(code, reason),
            )
        },
        Phase::Dispatching => listen(s),
        Phase::AwaitingCloseStrategy => match e {
            EventView::Strategy(RetryStrategy::Retry) => reconnect(s),
            _ => close_then_stop(s),
        },
        Phase::AwaitingDisconnectStrategy => match e {
            EventView::Strategy(RetryStrategy::Retry) => reconnect(s),
            _ => close_then_stop(s),
        },
        Phase::ClosingForReconnect => (in_phase(s, Phase::Connecting), ActionView::Connect),
        Phase::ClosingBeforeStop => stop(s),
        Phase::ShuttingDown => (in_phase(s, Phase::Finished), ActionView::ConfirmClose),
        Phase::Finished => (s, ActionView::Listen),
    }
}

/// The decision of the select loop, for an event of the [`Phase::Running`] phase.
pub open spec fn next_running(s: TaskStateView, e: EventView) -> (TaskStateView, ActionView) {
    match e {
        EventView::Tick => if s.want_to_close {
            listen(s)
        } else if s.ponged {
            (in_phase(s, Phase::SendingPing), ActionView::Send(MessageView::Ping(seq![s.last_ping])))
        } else {
            disconnect(s)
        },
        EventView::Outgoing(m) => if s.want_to_close {
            listen(s)
        } else {
            (in_phase(s, Phase::SendingMessage), ActionView::Send(m))
        },
        EventView::Requested(Command::Reconnect) => if s.want_to_close { listen(s) } else { reconnect(s) },
        EventView::Requested(Command::Close) => if s.want_to_close {
            listen(s)
        } else {
            (
                in_phase(s, Phase::SendingCloseRequest),
                ActionView::Send(MessageView::Close(CloseCode::Normal, explicit_close_reason())),
            )
        },
        EventView::SendersDropped => if s.want_to_close { listen(s) } else { stop(s) },
        EventView::Received(MessageView::Text(t)) => (in_phase(s, Phase::Dispatching), ActionView::CallOnText(t)),
        EventView::Received(MessageView::Binary(b)) => (in_phase(s, Phase::Dispatching), ActionView::CallOnBinary(b)),
        EventView::Received(MessageView::Ping(d)) => (in_phase(s, Phase::SendingPong), ActionView::Send(MessageView::Pong(d))),
        EventView::Received(MessageView::Pong(b)) => if b.len() != 1 {
            if s.want_to_close { listen(s) } else { reconnect(s) }
        } else if b[0] == s.last_ping {
            (
                TaskStateView { phase: Phase::Running, ponged: true, last_ping: next_ping_id(s.last_ping), ..s },
                ActionView::Listen,
            )
        } else if s.want_to_close {
            listen(s)
        } else {
            reconnect(s)
        },
        EventView::Received(MessageView::Close(code, reason)) => if s.want_to_close {
            stop(s)
        } else {
            (
                TaskStateView { phase: Phase::SendingCloseReply, pending_close: Some((code, reason)), ..s },
                ActionView::Send(MessageView::Close(code, Seq::empty())),
            )
        },
        _ => if s.want_to_close { listen(s) } else { reconnect(s) },
    }
}

impl TaskState {
    #[verifier::type_invariant]
    spec fn inv(self) -> bool {
        wf(self@)
    }

    /// The phase the task is in.
    pub fn phase(&self) -> (p: Phase)
        ensures
            p == self@.phase,
    {
        self.phase
    }

    /// The payload of the last ping sent, or of the next one when it was answered.
    pub fn last_ping(&self) -> (p: u8)
        ensures
            p == self@.last_ping,
    {
        self.last_ping
    }

    /// Whether the last ping has been answered.
    pub fn ponged(&self) -> (b: bool)
        ensures
            b == self@.ponged,
    {
        self.ponged
    }

    /// Whether a client asked to close the connection.
    pub fn want_to_close(&self) -> (b: bool)
        ensures
            b == self@.want_to_close,
    {
        self.want_to_close
    }

    /// Whether the first connection succeeded and the background task runs.
    pub fn launched(&self) -> (b: bool)
        ensures
            b == self@.launched,
    {
        self.launched
    }

    /// The state in which the first connection is attempted, and the first
    /// piece of work: attempting it.
    pub fn start() -> (res: (TaskState, Action))
        ensures
            res.0@ == initial_state(),
            res.1@ == ActionView::Connect,
    {
        (
            TaskState {
                phase: Phase::Connecting,
                last_ping: 0,
                ponged: true,
                want_to_close: false,
                launched: false,
                pending_close: None,
            },
            Action::Connect,
        )
    }

    /// Whether the task waits for an outcome like `event`.
    pub fn accepts(&self, event: &Event) -> (b: bool)
        ensures
            b == accepts(self@, event@),
    {
        match self.phase {
            Phase::Connecting => matches!(event, Event::ConnectOutcome(_)),
            Phase::ConnectFailed => matches!(event, Event::Strategy(_)),
            Phase::RetryWaiting => matches!(event, Event::RetryElapsed),
            Phase::Connected => matches!(event, Event::HandlerDone),
            Phase::Running => matches!(event, Event::Tick) || matches!(event, Event::Outgoing(_))
                || matches!(event, Event::Requested(_)) || matches!(event, Event::SendersDropped)
                || matches!(event, Event::Received(_)) || matches!(event, Event::ReadFailed),
            Phase::SendingPing => matches!(event, Event::Sent(_)),
            Phase::SendingMessage => matches!(event, Event::Sent(_)),
            Phase::SendingCloseRequest => matches!(event, Event::Sent(_)),
            Phase::SendingPong => matches!(event, Event::Sent(_)),
            Phase::SendingCloseReply => matches!(event, Event::Sent(_)),
            Phase::Dispatching => matches!(event, Event::HandlerDone),
            Phase::AwaitingCloseStrategy => matches!(event, Event::Strategy(_)),
            Phase::AwaitingDisconnectStrategy => matches!(event, Event::Strategy(_)),
            Phase::ClosingForReconnect => matches!(event, Event::StreamClosed),
            Phase::ClosingBeforeStop => matches!(event, Event::StreamClosed),
            Phase::ShuttingDown => matches!(event, Event::StreamClosed),
            Phase::Finished => false,
        }
    }
}


impl TaskState {
    /// This state moved to phase `p`.
    fn into_phase(self, p: Phase) -> (s: TaskState)
        requires
            p != Phase::SendingCloseReply,
            self@.phase != Phase::SendingCloseReply,
            self@.launched || is_connecting_phase(p) || p == Phase::Finished,
        ensures
            s@ == in_phase(self@, p),
    {
        proof { use_type_invariant(&self); }
        TaskState { phase: p, ..self }
    }

    /// Decides what to do with the outcome `event` of the outside work that
    /// the task waits for, and gives the next state and the next work.
    pub fn step(self, event: Event) -> (res: (TaskState, Action))
        requires
            accepts(self@, event@),
        ensures
            res.0@ == next(self@, event@).0,
            res.1@ == next(self@, event@).1,
    {
        proof { use_type_invariant(&self); }
        match self.phase {
            Phase::Connecting | Phase::ConnectFailed | Phase::RetryWaiting | Phase::Connected => {
                self.connect_stream(event)
            },
            Phase::Running => self.select(event),
            Phase::SendingPing | Phase::SendingMessage | Phase::SendingCloseRequest
            | Phase::SendingPong | Phase::SendingCloseReply => {
                let ok = match event {
                    Event::Sent(ok) => ok,
                    _ => false,
                };
                self.send_completed(ok)
            },
            Phase::Dispatching => (self.into_phase(Phase::Running), Action::Listen),
            Phase::AwaitingCloseStrategy | Phase::AwaitingDisconnectStrategy => {
                let strategy = match event {
                    Event::Strategy(s) => s,
                    _ => RetryStrategy::Close,
                };
                self.handle_strategy(strategy)
            },
            Phase::ClosingForReconnect => (self.into_phase(Phase::Connecting), Action::Connect),
            Phase::ClosingBeforeStop => (self.into_phase(Phase::ShuttingDown), Action::CloseStream),
            Phase::ShuttingDown => (self.into_phase(Phase::Finished), Action::ConfirmClose),
            Phase::Finished => (self, Action::Listen),
        }
    }

    /// The decisions of a connection attempt: retry on failure as long as the
    /// handler says so, and tell the handler when it succeeds.
    fn connect_stream(self, event: Event) -> (res: (TaskState, Action))
        requires
            is_connecting_phase(self@.phase),
            accepts(self@, event@),
        ensures
            res.0@ == next(self@, event@).0,
            res.1@ == next(self@, event@).1,
    {
        proof { use_type_invariant(&self); }
        match self.phase {
            Phase::Connecting => match event {
                Event::ConnectOutcome(true) => (self.into_phase(Phase::Connected), Action::CallOnConnect),
                _ => (self.into_phase(Phase::ConnectFailed), Action::CallOnConnectFailure),
            },
            Phase::ConnectFailed => match event {
                Event::Strategy(RetryStrategy::Retry) => {
                    (self.into_phase(Phase::RetryWaiting), Action::WaitRetryDelay)
                },
                _ => if self.launched {
                    (self.into_phase(Phase::ClosingBeforeStop), Action::CloseStream)
                } else {
                    (self.into_phase(Phase::Finished), Action::GiveUp)
                },
            },
            Phase::RetryWaiting => (self.into_phase(Phase::Connecting), Action::Connect),
            _ => if self.launched {
                (self.into_phase(Phase::Running), Action::Listen)
            } else {
                (TaskState { phase: Phase::Running, launched: true, ..self }, Action::Launch)
            },
        }
    }

    /// The select loop: a tick, a client message, a command or a server message.
    fn select(self, event: Event) -> (res: (TaskState, Action))
        requires
            self@.phase == Phase::Running,
            accepts(self@, event@),
        ensures
            res.0@ == next(self@, event@).0,
            res.1@ == next(self@, event@).1,
    {
        proof { use_type_invariant(&self); }
        match event {
            Event::Tick => {
                if self.want_to_close {
                    (self, Action::Listen)
                } else {
                    self.handle_ping_pong()
                }
            },
            Event::Outgoing(message) => {
                if self.want_to_close {
                    (self, Action::Listen)
                } else {
                    (self.into_phase(Phase::SendingMessage), Action::Send(message))
                }
            },
            Event::Requested(command) => {
                if self.want_to_close {
                    (self, Action::Listen)
                } else {
                    self.handle_command(command)
                }
            },
            Event::SendersDropped => {
                if self.want_to_close {
                    (self, Action::Listen)
                } else {
                    (self.into_phase(Phase::ShuttingDown), Action::CloseStream)
                }
            },
            Event::Received(message) => self.handle_message(message),
            _ => {
                if self.want_to_close {
                    (self, Action::Listen)
                } else {
                    (self.into_phase(Phase::ClosingForReconnect), Action::CloseStream)
                }
            },
        }
    }

    /// A tick: ping the server if the last ping was answered, else the
    /// connection is considered broken.
    fn handle_ping_pong(self) -> (res: (TaskState, Action))
        requires
            self@.phase == Phase::Running,
            !self@.want_to_close,
        ensures
            res.0@ == next(self@, EventView::Tick).0,
            res.1@ == next(self@, EventView::Tick).1,
    {
        proof { use_type_invariant(&self); }
        if self.ponged {
            let mut payload: Vec<u8> = Vec::new();
            payload.push(self.last_ping);
            proof { assert(payload@ =~= seq![self.last_ping]); }
            let ping = Message::Ping(payload);
            (self.into_phase(Phase::SendingPing), Action::Send(ping))
        } else {
            (self.into_phase(Phase::AwaitingDisconnectStrategy), Action::CallOnDisconnect)
        }
    }

    /// A command of a client: reconnect, or send a close frame to the server.
    fn handle_command(self, command: Command) -> (res: (TaskState, Action))
        requires
            self@.phase == Phase::Running,
            !self@.want_to_close,
        ensures
            res.0@ == next(self@, EventView::Requested(command)).0,
            res.1@ == next(self@, EventView::Requested(command)).1,
    {
        proof { use_type_invariant(&self); }
        match command {
            Command::Reconnect => (self.into_phase(Phase::ClosingForReconnect), Action::CloseStream),
            Command::Close => {
                let reason = String::from_str("Client is explicitly closing the stream");
                proof { reveal_strlit("Client is explicitly closing the stream"); }
                (
                    self.into_phase(Phase::SendingCloseRequest),
                    Action::Send(Message::Close(CloseCode::Normal, reason)),
                )
            },
        }
    }

    /// A message from the server.
    fn handle_message(self, message: Message) -> (res: (TaskState, Action))
        requires
            self@.phase == Phase::Running,
        ensures
            res.0@ == next(self@, EventView::Received(message@)).0,
            res.1@ == next(self@, EventView::Received(message@)).1,
    {
        proof { use_type_invariant(&self); }
        match message {
            Message::Text(text) => (self.into_phase(Phase::Dispatching), Action::CallOnText(text)),
            Message::Binary(buf) => (self.into_phase(Phase::Dispatching), Action::CallOnBinary(buf)),
            Message::Ping(data) => (self.into_phase(Phase::SendingPong), Action::Send(Message::Pong(data))),
            Message::Pong(buf) => {
                if buf.len() != 1 {
                    if self.want_to_close {
                        (self, Action::Listen)
                    } else {
                        (self.into_phase(Phase::ClosingForReconnect), Action::CloseStream)
                    }
                } else if buf[0] == self.last_ping {
                    let next_ping = self.last_ping.wrapping_add(1);
                    (TaskState { ponged: true, last_ping: next_ping, ..self }, Action::Listen)
                } else if self.want_to_close {
                    (self, Action::Listen)
                } else {
                    (self.into_phase(Phase::ClosingForReconnect), Action::CloseStream)
                }
            },
            Message::Close(code, reason) => {
                if self.want_to_close {
                    (self.into_phase(Phase::ShuttingDown), Action::CloseStream)
                } else {
                    (
                        TaskState {
                            phase: Phase::SendingCloseReply,
                            pending_close: Some((code, reason)),
                            ..self
                        },
                        Action::Send(Message::Close(code, String::new())),
                    )
                }
            },
        }
    }

    /// The outcome of sending on the stream.
    fn send_completed(self, ok: bool) -> (res: (TaskState, Action))
        requires
            self@.phase == Phase::SendingPing || self@.phase == Phase::SendingMessage
                || self@.phase == Phase::SendingCloseRequest || self@.phase == Phase::SendingPong
                || self@.phase == Phase::SendingCloseReply,
        ensures
            res.0@ == next(self@, EventView::Sent(ok)).0,
            res.1@ == next(self@, EventView::Sent(ok)).1,
    {
        proof { use_type_invariant(&self); }
        match self.phase {
            Phase::SendingPing => if ok {
                (TaskState { phase: Phase::Running, ponged: false, ..self }, Action::Listen)
            } else {
                (self.into_phase(Phase::AwaitingDisconnectStrategy), Action::CallOnDisconnect)
            },
            Phase::SendingMessage => if ok {
                (self.into_phase(Phase::Running), Action::Listen)
            } else {
                (self.into_phase(Phase::AwaitingDisconnectStrategy), Action::CallOnDisconnect)
            },
            Phase::SendingCloseRequest => if ok {
                (TaskState { phase: Phase::Running, want_to_close: true, ..self }, Action::Listen)
            } else {
                (self.into_phase(Phase::ShuttingDown), Action::CloseStream)
            },
            Phase::SendingPong => if !ok && !self.want_to_close {
                (self.into_phase(Phase::AwaitingDisconnectStrategy), Action::CallOnDisconnect)
            } else {
                (self.into_phase(Phase::Running), Action::Listen)
            },
            _ => {
                let TaskState { phase, last_ping, ponged, want_to_close, launched, pending_close } = self;
                match pending_close {
                    Some((code, reason)) => (
                        TaskState {
                            phase: Phase::AwaitingCloseStrategy,
                            last_ping,
                            ponged,
                            want_to_close,
                            launched,
                            pending_close: None,
                        },
                        Action::CallOnClose(code, reason),
                    ),
                    None => (
                        TaskState {
                            phase: Phase::AwaitingCloseStrategy,
                            last_ping,
                            ponged,
                            want_to_close,
                            launched,
                            pending_close: None,
                        },
                        Action::CallOnDisconnect,
                    ),
                }
            },
        }
    }

    /// The strategy of the handler after the server closed the connection or
    /// the connection broke: reconnect, or close the stream and stop.
    fn handle_strategy(self, strategy: RetryStrategy) -> (res: (TaskState, Action))
        requires
            self@.phase == Phase::AwaitingCloseStrategy || self@.phase == Phase::AwaitingDisconnectStrategy,
        ensures
            res.0@ == next(self@, EventView::Strategy(strategy)).0,
            res.1@ == next(self@, EventView::Strategy(strategy)).1,
    {
        proof { use_type_invariant(&self); }
        match strategy {
            RetryStrategy::Retry => (self.into_phase(Phase::ClosingForReconnect), Action::CloseStream),
            RetryStrategy::Close => (self.into_phase(Phase::ClosingBeforeStop), Action::CloseStream),
        }
    }
}

} // verus!
