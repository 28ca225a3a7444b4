use tokio_websocket_client::{
    Action, CloseCode, Command, Event, Message, Phase, RetryStrategy, TaskState,
};

fn run(state: TaskState, event: Event) -> (TaskState, Action) {
    assert!(state.accepts(&event), "event {event:?} not expected in {:?}", state.phase());
    state.step(event)
}

/// A task whose first connection is up and which listens.
fn running() -> TaskState {
    let (state, action) = TaskState::start();
    assert_eq!(action, Action::Connect);
    let (state, action) = run(state, Event::ConnectOutcome(true));
    assert_eq!(action, Action::CallOnConnect);
    let (state, action) = run(state, Event::HandlerDone);
    assert_eq!(action, Action::Launch);
    assert_eq!(state.phase(), Phase::Running);
    state
}

#[test]
fn start_attempts_a_connection() {
    let (state, action) = TaskState::start();
    assert_eq!(action, Action::Connect);
    assert_eq!(state.phase(), Phase::Connecting);
    assert_eq!(state.last_ping(), 0);
    assert!(state.ponged());
    assert!(!state.want_to_close());
    assert!(!state.launched());
}

#[test]
fn first_connection_launches_the_task() {
    let state = running();
    assert!(state.launched());
    assert!(state.ponged());
    assert_eq!(state.last_ping(), 0);
}

#[test]
fn failed_first_connection_gives_up_on_close() {
    let (state, _) = TaskState::start();
    let (state, action) = run(state, Event::ConnectOutcome(false));
    assert_eq!(action, Action::CallOnConnectFailure);
    let (state, action) = run(state, Event::Strategy(RetryStrategy::Close));
    assert_eq!(action, Action::GiveUp);
    assert_eq!(state.phase(), Phase::Finished);
    assert!(!state.accepts(&Event::StreamClosed));
    assert!(!state.accepts(&Event::Tick));
}

#[test]
fn failed_connection_is_retried_after_the_delay() {
    let (state, _) = TaskState::start();
    let mut state = state;
    for _ in 0..3 {
        let (s, action) = run(state, Event::ConnectOutcome(false));
        assert_eq!(action, Action::CallOnConnectFailure);
        let (s, action) = run(s, Event::Strategy(RetryStrategy::Retry));
        assert_eq!(action, Action::WaitRetryDelay);
        assert_eq!(s.phase(), Phase::RetryWaiting);
        let (s, action) = run(s, Event::RetryElapsed);
        assert_eq!(action, Action::Connect);
        assert_eq!(s.phase(), Phase::Connecting);
        state = s;
    }
    let (state, action) = run(state, Event::ConnectOutcome(true));
    assert_eq!(action, Action::CallOnConnect);
    let (_, action) = run(state, Event::HandlerDone);
    assert_eq!(action, Action::Launch);
}

#[test]
fn ping_answered_by_its_pong() {
    let state = running();
    let (state, action) = run(state, Event::Tick);
    assert_eq!(action, Action::Send(Message::Ping(vec![0])));
    assert_eq!(state.phase(), Phase::SendingPing);
    let (state, action) = run(state, Event::Sent(true));
    assert_eq!(action, Action::Listen);
    assert!(!state.ponged());
    let (state, action) = run(state, Event::Received(Message::Pong(vec![0])));
    assert_eq!(action, Action::Listen);
    assert!(state.ponged());
    assert_eq!(state.last_ping(), 1);
    let (state, action) = run(state, Event::Tick);
    assert_eq!(action, Action::Send(Message::Ping(vec![1])));
    assert_eq!(state.last_ping(), 1);
}

#[test]
fn ping_payload_wraps_after_255() {
    let mut state = running();
    for i in 0..=255u8 {
        let (s, action) = run(state, Event::Tick);
        assert_eq!(action, Action::Send(Message::Ping(vec![i])));
        let (s, _) = run(s, Event::Sent(true));
        let (s, _) = run(s, Event::Received(Message::Pong(vec![i])));
        state = s;
    }
    assert_eq!(state.last_ping(), 0);
    assert!(state.ponged());
}

#[test]
fn unanswered_ping_asks_the_handler() {
    let state = running();
    let (state, _) = run(state, Event::Tick);
    let (state, _) = run(state, Event::Sent(true));
    let (state, action) = run(state, Event::Tick);
    assert_eq!(action, Action::CallOnDisconnect);
    assert_eq!(state.phase(), Phase::AwaitingDisconnectStrategy);
    let (state, action) = run(state, Event::Strategy(RetryStrategy::Retry));
    assert_eq!(action, Action::CloseStream);
    let (state, action) = run(state, Event::StreamClosed);
    assert_eq!(action, Action::Connect);
    let (state, action) = run(state, Event::ConnectOutcome(true));
    assert_eq!(action, Action::CallOnConnect);
    let (state, action) = run(state, Event::HandlerDone);
    assert_eq!(action, Action::Listen);
    // the ping state survives the reconnection
    assert!(!state.ponged());
    assert_eq!(state.last_ping(), 0);
}

#[test]
fn unanswered_ping_and_close_strategy_stops() {
    let state = running();
    let (state, _) = run(state, Event::Tick);
    let (state, _) = run(state, Event::Sent(true));
    let (state, _) = run(state, Event::Tick);
    let (state, action) = run(state, Event::Strategy(RetryStrategy::Close));
    assert_eq!(action, Action::CloseStream);
    assert_eq!(state.phase(), Phase::ClosingBeforeStop);
    let (state, action) = run(state, Event::StreamClosed);
    assert_eq!(action, Action::CloseStream);
    let (state, action) = run(state, Event::StreamClosed);
    assert_eq!(action, Action::ConfirmClose);
    assert_eq!(state.phase(), Phase::Finished);
}

#[test]
fn failed_ping_send_asks_the_handler() {
    let state = running();
    let (state, _) = run(state, Event::Tick);
    let (state, action) = run(state, Event::Sent(false));
    assert_eq!(action, Action::CallOnDisconnect);
    // the ping was not sent, it is still considered answered
    assert!(state.ponged());
}

#[test]
fn malformed_pong_reconnects_unless_closing() {
    let state = running();
    let (state, action) = run(state, Event::Received(Message::Pong(vec![0, 0])));
    assert_eq!(action, Action::CloseStream);
    assert_eq!(state.phase(), Phase::ClosingForReconnect);

    let state = running();
    let (state, _) = run(state, Event::Requested(Command::Close));
    let (state, _) = run(state, Event::Sent(true));
    assert!(state.want_to_close());
    let (state, action) = run(state, Event::Received(Message::Pong(vec![])));
    assert_eq!(action, Action::Listen);
    assert_eq!(state.phase(), Phase::Running);
    let (state, action) = run(state, Event::Received(Message::Pong(vec![0, 0])));
    assert_eq!(action, Action::Listen);
    assert_eq!(state.phase(), Phase::Running);
    assert!(state.ponged());
    assert_eq!(state.last_ping(), 0);
}

#[test]
fn wrong_pong_reconnects_unless_closing() {
    let state = running();
    let (state, action) = run(state, Event::Received(Message::Pong(vec![7])));
    assert_eq!(action, Action::CloseStream);
    assert_eq!(state.phase(), Phase::ClosingForReconnect);

    let state = running();
    let (state, _) = run(state, Event::Requested(Command::Close));
    let (state, _) = run(state, Event::Sent(true));
    let (state, action) = run(state, Event::Received(Message::Pong(vec![7])));
    assert_eq!(action, Action::Listen);
    assert_eq!(state.phase(), Phase::Running);
    assert_eq!(state.last_ping(), 0);
}

#[test]
fn client_close_handshake_confirms() {
    let state = running();
    let (state, action) = run(state, Event::Requested(Command::Close));
    assert_eq!(
        action,
        Action::Send(Message::Close(
            CloseCode::Normal,
            "Client is explicitly closing the stream".to_string()
        ))
    );
    let (state, action) = run(state, Event::Sent(true));
    assert_eq!(action, Action::Listen);
    assert!(state.want_to_close());
    let (state, action) =
        run(state, Event::Received(Message::Close(CloseCode::Normal, "bye".to_string())));
    assert_eq!(action, Action::CloseStream);
    assert_eq!(state.phase(), Phase::ShuttingDown);
    let (state, action) = run(state, Event::StreamClosed);
    assert_eq!(action, Action::ConfirmClose);
    assert_eq!(state.phase(), Phase::Finished);
}

#[test]
fn failed_close_request_stops() {
    let state = running();
    let (state, _) = run(state, Event::Requested(Command::Close));
    let (state, action) = run(state, Event::Sent(false));
    assert_eq!(action, Action::CloseStream);
    assert_eq!(state.phase(), Phase::ShuttingDown);
    assert!(!state.want_to_close());
}

#[test]
fn closing_ignores_clients() {
    let state = running();
    let (state, _) = run(state, Event::Requested(Command::Close));
    let (state, _) = run(state, Event::Sent(true));
    let (state, action) = run(state, Event::Tick);
    assert_eq!(action, Action::Listen);
    let (state, action) = run(state, Event::Outgoing(Message::Text("late".to_string())));
    assert_eq!(action, Action::Listen);
    let (state, action) = run(state, Event::Requested(Command::Reconnect));
    assert_eq!(action, Action::Listen);
    let (state, action) = run(state, Event::Requested(Command::Close));
    assert_eq!(action, Action::Listen);
    let (state, action) = run(state, Event::SendersDropped);
    assert_eq!(action, Action::Listen);
    let (state, action) = run(state, Event::ReadFailed);
    assert_eq!(action, Action::Listen);
    assert_eq!(state.phase(), Phase::Running);
    assert!(state.want_to_close());
    assert!(state.ponged());
}

#[test]
fn server_close_is_echoed_and_handed_to_the_handler() {
    let state = running();
    let (state, action) =
        run(state, Event::Received(Message::Close(CloseCode::Away, "maintenance".to_string())));
    assert_eq!(action, Action::Send(Message::Close(CloseCode::Away, String::new())));
    assert_eq!(state.phase(), Phase::SendingCloseReply);
    let (state, action) = run(state, Event::Sent(false));
    assert_eq!(action, Action::CallOnClose(CloseCode::Away, "maintenance".to_string()));
    let (state, action) = run(state, Event::Strategy(RetryStrategy::Retry));
    assert_eq!(action, Action::CloseStream);
    assert_eq!(state.phase(), Phase::ClosingForReconnect);
}

#[test]
fn server_close_with_close_strategy_stops() {
    let state = running();
    let (state, _) =
        run(state, Event::Received(Message::Close(CloseCode::Normal, String::new())));
    let (state, _) = run(state, Event::Sent(true));
    let (state, action) = run(state, Event::Strategy(RetryStrategy::Close));
    assert_eq!(action, Action::CloseStream);
    let (state, action) = run(state, Event::StreamClosed);
    assert_eq!(action, Action::CloseStream);
    let (_, action) = run(state, Event::StreamClosed);
    assert_eq!(action, Action::ConfirmClose);
}

#[test]
fn server_ping_is_answered() {
    let state = running();
    let (state, action) = run(state, Event::Received(Message::Ping(vec![1, 2, 3])));
    assert_eq!(action, Action::Send(Message::Pong(vec![1, 2, 3])));
    let (state, action) = run(state, Event::Sent(false));
    assert_eq!(action, Action::CallOnDisconnect);
    assert_eq!(state.phase(), Phase::AwaitingDisconnectStrategy);
}

#[test]
fn failed_pong_while_closing_is_ignored() {
    let state = running();
    let (state, _) = run(state, Event::Requested(Command::Close));
    let (state, _) = run(state, Event::Sent(true));
    let (state, _) = run(state, Event::Received(Message::Ping(vec![9])));
    let (state, action) = run(state, Event::Sent(false));
    assert_eq!(action, Action::Listen);
    assert_eq!(state.phase(), Phase::Running);
}

#[test]
fn data_messages_reach_the_handler() {
    let state = running();
    let (state, action) = run(state, Event::Received(Message::Text("hello world".to_string())));
    assert_eq!(action, Action::CallOnText("hello world".to_string()));
    assert_eq!(state.phase(), Phase::Dispatching);
    let (state, action) = run(state, Event::HandlerDone);
    assert_eq!(action, Action::Listen);
    let (state, action) = run(state, Event::Received(Message::Binary(vec![4, 5])));
    assert_eq!(action, Action::CallOnBinary(vec![4, 5]));
    let (state, _) = run(state, Event::HandlerDone);
    assert_eq!(state.phase(), Phase::Running);
}

#[test]
fn outgoing_messages_are_sent() {
    let state = running();
    let (state, action) = run(state, Event::Outgoing(Message::Text("hello world".to_string())));
    assert_eq!(action, Action::Send(Message::Text("hello world".to_string())));
    let (state, action) = run(state, Event::Sent(true));
    assert_eq!(action, Action::Listen);
    let (state, _) = run(state, Event::Outgoing(Message::Binary(vec![1])));
    let (state, action) = run(state, Event::Sent(false));
    assert_eq!(action, Action::CallOnDisconnect);
    assert_eq!(state.phase(), Phase::AwaitingDisconnectStrategy);
}

#[test]
fn forced_reconnection() {
    let state = running();
    let (state, action) = run(state, Event::Requested(Command::Reconnect));
    assert_eq!(action, Action::CloseStream);
    let (state, action) = run(state, Event::StreamClosed);
    assert_eq!(action, Action::Connect);
    let (state, action) = run(state, Event::ConnectOutcome(false));
    assert_eq!(action, Action::CallOnConnectFailure);
    let (state, action) = run(state, Event::Strategy(RetryStrategy::Close));
    assert_eq!(action, Action::CloseStream);
    assert_eq!(state.phase(), Phase::ClosingBeforeStop);
}

#[test]
fn dropped_clients_stop_the_task() {
    let state = running();
    let (state, action) = run(state, Event::SendersDropped);
    assert_eq!(action, Action::CloseStream);
    let (state, action) = run(state, Event::StreamClosed);
    assert_eq!(action, Action::ConfirmClose);
    assert_eq!(state.phase(), Phase::Finished);
}

#[test]
fn read_failure_reconnects() {
    let state = running();
    let (state, action) = run(state, Event::ReadFailed);
    assert_eq!(action, Action::CloseStream);
    assert_eq!(state.phase(), Phase::ClosingForReconnect);
}

#[test]
fn unexpected_events_are_not_accepted() {
    let (state, _) = TaskState::start();
    assert!(!state.accepts(&Event::Tick));
    assert!(!state.accepts(&Event::Sent(true)));
    assert!(state.accepts(&Event::ConnectOutcome(false)));
    let state = running();
    assert!(!state.accepts(&Event::StreamClosed));
    assert!(!state.accepts(&Event::HandlerDone));
    assert!(state.accepts(&Event::ReadFailed));
}
