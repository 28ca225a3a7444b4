//! Properties of the connection task that hold over all states and spans of
//! several steps.
use vstd::prelude::*;

use crate::command::Command;
use crate::handler::RetryStrategy;
use crate::message::{CloseCode, MessageView};
use crate::task::{
    accepts, answers, close_then_stop, disconnect, explicit_close_reason, in_phase, initial_state, listen,
    next, next_ping_id, reconnect, stop, wf, ActionView, EventView, Phase, TaskStateView,
};

verus! {

/// The state in which the first connection is attempted is consistent.
pub proof fn lemma_initial_state_wf()
    ensures
        wf(initial_state()),
{
}

/// Every step keeps a consistent state consistent.
pub proof fn lemma_next_preserves_wf(s: TaskStateView, e: EventView)
    requires
        wf(s),
        accepts(s, e),
    ensures
        wf(next(s, e).0),
{
}

/// Once the task is over, it waits for nothing more.
pub proof fn lemma_finished_is_final(s: TaskStateView, e: EventView)
    requires
        s.phase == Phase::Finished,
    ensures
        !accepts(s, e),
{
}

/// The end of the task is confirmed only right after the stream was closed,
/// and every way out of the loop starts by closing the stream.
pub proof fn lemma_confirm_only_after_closing(s: TaskStateView, e: EventView)
    requires
        accepts(s, e),
    ensures
        next(s, e).1 is ConfirmClose ==> s.phase == Phase::ShuttingDown && e is StreamClosed,
        next(s, e).0.phase == Phase::ShuttingDown ==> next(s, e).1 is CloseStream,
        next(s, e).0.phase == Phase::Finished ==> (next(s, e).1 is ConfirmClose || next(s, e).1 is GiveUp),
{
}

/// A close request, once accepted, is never withdrawn.
pub proof fn lemma_close_request_is_sticky(s: TaskStateView, e: EventView)
    requires
        s.want_to_close,
    ensures
        next(s, e).0.want_to_close,
{
}

/// The background task is launched once: only from the first connection,
/// and it stays launched.
pub proof fn lemma_launched_once(s: TaskStateView, e: EventView)
    ensures
        s.launched ==> next(s, e).0.launched,
        next(s, e).1 is Launch ==> !s.launched && next(s, e).0.launched,
        next(s, e).1 is GiveUp ==> !s.launched,
{
}

/// The ping payload changes only when the server answers the last ping with
/// a pong that carries it, and then it moves to the next payload.
pub proof fn lemma_ping_id_advances_only_on_pong(s: TaskStateView, e: EventView)
    requires
        accepts(s, e),
        next(s, e).0.last_ping != s.last_ping,
    ensures
        s.phase == Phase::Running,
        e == EventView::Received(MessageView::Pong(seq![s.last_ping])),
        next(s, e).0.last_ping == next_ping_id(s.last_ping),
        next(s, e).0.ponged,
{
    if let EventView::Received(MessageView::Pong(b)) = e {
        assert(b =~= seq![s.last_ping]);
    }
}

/// A ping that the server answers with its payload keeps the connection
/// healthy: the task is back listening, with the ping answered and the next
/// payload chosen.
pub proof fn lemma_ping_pong_roundtrip(s: TaskStateView)
    requires
        s.phase == Phase::Running,
        !s.want_to_close,
        s.ponged,
    ensures
        ({
            let (s1, a1) = next(s, EventView::Tick);
            let (s2, a2) = next(s1, EventView::Sent(true));
            let (s3, a3) = next(s2, EventView::Received(MessageView::Pong(seq![s.last_ping])));
            &&& a1 == ActionView::Send(MessageView::Ping(seq![s.last_ping]))
            &&& s2.phase == Phase::Running && !s2.ponged && a2 == ActionView::Listen
            &&& s3 == TaskStateView { ponged: true, last_ping: next_ping_id(s.last_ping), ..s }
            &&& a3 == ActionView::Listen
        }),
{
}

/// A ping still unanswered at the next tick means the connection is lost:
/// the handler is asked what to do.
pub proof fn lemma_unanswered_ping_is_a_disconnection(s: TaskStateView)
    requires
        s.phase == Phase::Running,
        !s.want_to_close,
        !s.ponged,
    ensures
        next(s, EventView::Tick) == disconnect(s),
{
}

/// A pong that does not carry exactly the payload of the last ping makes the
/// task reconnect, unless a close was requested: it then listens again.
pub proof fn lemma_invalid_pong_reconnects(s: TaskStateView, b: Seq<u8>)
    requires
        s.phase == Phase::Running,
        b != seq![s.last_ping],
    ensures
        next(s, EventView::Received(MessageView::Pong(b)))
            == (if s.want_to_close { listen(s) } else { reconnect(s) }),
{
    if b.len() == 1 {
        assert(b[0] != s.last_ping) by {
            if b[0] == s.last_ping {
                assert(b =~= seq![s.last_ping]);
            }
        }
    }
}

/// Failing to read from the stream makes the task reconnect, unless a close
/// was requested.
pub proof fn lemma_read_failure_reconnects(s: TaskStateView)
    requires
        s.phase == Phase::Running,
    ensures
        next(s, EventView::ReadFailed) == (if s.want_to_close { listen(s) } else { reconnect(s) }),
{
}

/// A ping of the server is answered with a pong carrying the same payload.
pub proof fn lemma_ping_is_answered(s: TaskStateView, d: Seq<u8>)
    requires
        s.phase == Phase::Running,
    ensures
        next(s, EventView::Received(MessageView::Ping(d))).1 == ActionView::Send(MessageView::Pong(d)),
{
}

/// Text and binary messages of the server go to the handler unchanged, and
/// the task then listens again with its state unchanged.
pub proof fn lemma_data_reaches_handler(s: TaskStateView, t: Seq<char>, b: Seq<u8>)
    requires
        s.phase == Phase::Running,
    ensures
        next(s, EventView::Received(MessageView::Text(t))).1 == ActionView::CallOnText(t),
        next(s, EventView::Received(MessageView::Binary(b))).1 == ActionView::CallOnBinary(b),
        next(next(s, EventView::Received(MessageView::Text(t))).0, EventView::HandlerDone) == (s, ActionView::Listen),
        next(next(s, EventView::Received(MessageView::Binary(b))).0, EventView::HandlerDone) == (s, ActionView::Listen),
{
}

/// While a client has not asked to close, the message it queues is sent as
/// it is, and the task listens again when the send succeeds.
pub proof fn lemma_outgoing_message_is_sent(s: TaskStateView, m: MessageView)
    requires
        s.phase == Phase::Running,
        !s.want_to_close,
    ensures
        next(s, EventView::Outgoing(m)).1 == ActionView::Send(m),
        next(next(s, EventView::Outgoing(m)).0, EventView::Sent(true)) == (s, ActionView::Listen),
        next(next(s, EventView::Outgoing(m)).0, EventView::Sent(false)) == disconnect(s),
{
}

/// Once a client asked to close, the task ignores ticks, client messages and
/// commands: it neither pings nor sends, and its state does not change.
pub proof fn lemma_closing_ignores_clients(s: TaskStateView, e: EventView)
    requires
        s.phase == Phase::Running,
        s.want_to_close,
        e is Tick || e is Outgoing || e is Requested || e is SendersDropped,
    ensures
        next(s, e) == (s, ActionView::Listen),
{
}

/// Once a client asked to close, no event sends the task to the handler's
/// disconnection callback or to a reconnection.
pub proof fn lemma_no_reconnection_after_close_request(s: TaskStateView, e: EventView)
    requires
        s.phase == Phase::Running,
        s.want_to_close,
        accepts(s, e),
    ensures
        next(s, e).0.phase != Phase::ClosingForReconnect,
        next(s, e).0.phase != Phase::AwaitingDisconnectStrategy,
        !(next(s, e).1 is CallOnDisconnect),
{
}

/// The close requested by a client: the task sends a normal close frame,
/// waits for the server to echo it, closes the stream and confirms the end.
pub proof fn lemma_client_close_handshake(s: TaskStateView, code: CloseCode, reason: Seq<char>)
    requires
        s.phase == Phase::Running,
        !s.want_to_close,
    ensures
        ({
            let (s1, a1) = next(s, EventView::Requested(Command::Close));
            let (s2, a2) = next(s1, EventView::Sent(true));
            let (s3, a3) = next(s2, EventView::Received(MessageView::Close(code, reason)));
            let (s4, a4) = next(s3, EventView::StreamClosed);
            &&& a1 == ActionView::Send(MessageView::Close(CloseCode::Normal, explicit_close_reason()))
            &&& s2.want_to_close && s2.phase == Phase::Running && a2 == ActionView::Listen
            &&& s3.phase == Phase::ShuttingDown && a3 == ActionView::CloseStream
            &&& s4.phase == Phase::Finished && a4 == ActionView::ConfirmClose
        }),
        next(next(s, EventView::Requested(Command::Close)).0, EventView::Sent(false)) == stop(s),
{
}

/// A forced reconnection closes the stream, then connects again.
pub proof fn lemma_forced_reconnection(s: TaskStateView)
    requires
        s.phase == Phase::Running,
        !s.want_to_close,
    ensures
        next(s, EventView::Requested(Command::Reconnect)) == reconnect(s),
        next(reconnect(s).0, EventView::StreamClosed) == (in_phase(s, Phase::Connecting), ActionView::Connect),
{
}

/// When every client is gone, the task closes the stream and stops.
pub proof fn lemma_clients_gone_stops(s: TaskStateView)
    requires
        s.phase == Phase::Running,
        !s.want_to_close,
    ensures
        next(s, EventView::SendersDropped) == stop(s),
        next(stop(s).0, EventView::StreamClosed) == (in_phase(s, Phase::Finished), ActionView::ConfirmClose),
{
}

/// A close of the server that no client asked for: the task echoes the
/// status with an empty reason, then hands the status and the reason to the
/// handler, whatever the outcome of the echo.
pub proof fn lemma_server_close_reaches_handler(s: TaskStateView, code: CloseCode, reason: Seq<char>, ok: bool)
    requires
        wf(s),
        s.phase == Phase::Running,
        !s.want_to_close,
    ensures
        ({
            let (s1, a1) = next(s, EventView::Received(MessageView::Close(code, reason)));
            let (s2, a2) = next(s1, EventView::Sent(ok));
            &&& a1 == ActionView::Send(MessageView::Close(code, Seq::empty()))
            &&& s2 == in_phase(s, Phase::AwaitingCloseStrategy)
            &&& a2 == ActionView::CallOnClose(code, reason)
        }),
{
}

/// The strategy that the handler gives when the connection broke or the
/// server closed it: `Retry` closes the stream and connects again, `Close`
/// closes the stream and stops the task.
pub proof fn lemma_strategy_after_loss(s: TaskStateView)
    requires
        s.phase == Phase::AwaitingCloseStrategy || s.phase == Phase::AwaitingDisconnectStrategy,
    ensures
        next(s, EventView::Strategy(RetryStrategy::Retry)) == reconnect(s),
        next(s, EventView::Strategy(RetryStrategy::Close)) == close_then_stop(s),
        next(close_then_stop(s).0, EventView::StreamClosed) == stop(s),
{
}

/// A failed connection attempt is retried, after the retry delay, as long as
/// the handler answers `Retry`: the task comes back to the very state of the
/// attempt.
pub proof fn lemma_connection_retried(s: TaskStateView)
    requires
        s.phase == Phase::Connecting,
    ensures
        ({
            let (s1, a1) = next(s, EventView::ConnectOutcome(false));
            let (s2, a2) = next(s1, EventView::Strategy(RetryStrategy::Retry));
            let (s3, a3) = next(s2, EventView::RetryElapsed);
            &&& a1 == ActionView::CallOnConnectFailure
            &&& a2 == ActionView::WaitRetryDelay
            &&& s3 == s && a3 == ActionView::Connect
        }),
{
}

/// The handler stops the connection attempts by answering `Close`: the first
/// connection then gives up with no client, a reconnection closes the stream
/// and stops the task.
pub proof fn lemma_connection_abandoned(s: TaskStateView)
    requires
        s.phase == Phase::Connecting,
    ensures
        ({
            let (s1, a1) = next(s, EventView::ConnectOutcome(false));
            let (s2, a2) = next(s1, EventView::Strategy(RetryStrategy::Close));
            &&& !s.launched ==> s2.phase == Phase::Finished && a2 == ActionView::GiveUp
            &&& s.launched ==> (s2, a2) == close_then_stop(s)
        }),
{
}

/// A successful connection is announced to the handler; the first one then
/// launches the task, a later one resumes listening with the ping state kept.
pub proof fn lemma_connection_established(s: TaskStateView)
    requires
        s.phase == Phase::Connecting,
    ensures
        ({
            let (s1, a1) = next(s, EventView::ConnectOutcome(true));
            let (s2, a2) = next(s1, EventView::HandlerDone);
            &&& a1 == ActionView::CallOnConnect
            &&& s2 == TaskStateView { phase: Phase::Running, launched: true, ..s }
            &&& a2 == (if s.launched { ActionView::Listen } else { ActionView::Launch })
        }),
{
}

/// The task always waits for the outcome of the work it asks for: whatever
/// outcome that work has, the task accepts it.  Only giving up and confirming
/// the end ask for no further work, and the task is then over.
pub proof fn lemma_outcome_of_work_is_accepted(s: TaskStateView, e: EventView, outcome: EventView)
    requires
        wf(s),
        accepts(s, e),
    ensures
        answers(next(s, e).1, outcome) ==> accepts(next(s, e).0, outcome),
        (next(s, e).1 is GiveUp || next(s, e).1 is ConfirmClose) <==> next(s, e).0.phase == Phase::Finished,
{
}

/// The first piece of work is a connection attempt, whose outcome the
/// initial state accepts.
pub proof fn lemma_start_accepts_connect_outcome(outcome: EventView)
    ensures
        answers(ActionView::Connect, outcome) ==> accepts(initial_state(), outcome),
{
}

/// A ping of the server whose pong is sent leaves the task listening with its
/// state as it was: no handler callback, no change of the ping supervision.
pub proof fn lemma_answered_ping_changes_nothing(s: TaskStateView, d: Seq<u8>)
    requires
        s.phase == Phase::Running,
    ensures
        next(next(s, EventView::Received(MessageView::Ping(d))).0, EventView::Sent(true)) == (s, ActionView::Listen),
        next(next(s, EventView::Received(MessageView::Ping(d))).0, EventView::Sent(false))
            == (if s.want_to_close { (s, ActionView::Listen) } else { disconnect(s) }),
{
}

/// A close is requested only by a client: the task starts closing only when
/// the close frame a client asked for has been sent.
pub proof fn lemma_close_requested_only_by_client(s: TaskStateView, e: EventView)
    requires
        accepts(s, e),
        !s.want_to_close,
        next(s, e).0.want_to_close,
    ensures
        s.phase == Phase::SendingCloseRequest,
        e == EventView::Sent(true),
{
}

/// The ping supervision changes in two ways only: a ping that was sent is
/// waiting for its pong, and a pong that carries the payload of the last
/// ping answers it.
pub proof fn lemma_ponged_changes_only_by_ping_and_pong(s: TaskStateView, e: EventView)
    requires
        accepts(s, e),
        next(s, e).0.ponged != s.ponged,
    ensures
        (s.phase == Phase::SendingPing && e == EventView::Sent(true) && !next(s, e).0.ponged)
            || (s.phase == Phase::Running
                && e == EventView::Received(MessageView::Pong(seq![s.last_ping]))
                && next(s, e).0.ponged),
{
    if let EventView::Received(MessageView::Pong(b)) = e {
        if s.phase == Phase::Running && b.len() == 1 && b[0] == s.last_ping {
            assert(b =~= seq![s.last_ping]);
        }
    }
}

/// A lost connection is only reported to the handler: asking it what to do
/// changes nothing of the state but the phase.
pub proof fn lemma_disconnection_keeps_state(s: TaskStateView, e: EventView)
    requires
        accepts(s, e),
        next(s, e).1 is CallOnDisconnect,
    ensures
        next(s, e).0 == in_phase(s, Phase::AwaitingDisconnectStrategy),
        s.phase == Phase::Running || s.phase == Phase::SendingPing || s.phase == Phase::SendingMessage
            || s.phase == Phase::SendingPong,
{
}

/// Apart from the ping supervision, the close request, the launch and the
/// echo of a server close, a step changes nothing of the state but the phase.
pub proof fn lemma_other_steps_change_only_the_phase(s: TaskStateView, e: EventView)
    requires
        wf(s),
        accepts(s, e),
        !(s.phase == Phase::SendingPing && e == EventView::Sent(true)),
        !(s.phase == Phase::Running && e == EventView::Received(MessageView::Pong(seq![s.last_ping]))),
        !(s.phase == Phase::SendingCloseRequest && e == EventView::Sent(true)),
        !(s.phase == Phase::Connected && !s.launched),
        !(s.phase == Phase::Running && e is Received && e->Received_0 is Close && !s.want_to_close),
        s.phase != Phase::SendingCloseReply,
    ensures
        next(s, e).0 == in_phase(s, next(s, e).0.phase),
{
    if let EventView::Received(MessageView::Pong(b)) = e {
        if s.phase == Phase::Running && b.len() == 1 && b[0] == s.last_ping {
            assert(b =~= seq![s.last_ping]);
        }
    }
}

/// The work the task asks for always matches the phase it enters: it waits
/// for the outcome of exactly that work.
pub proof fn lemma_action_matches_phase(s: TaskStateView, e: EventView)
    requires
        wf(s),
        accepts(s, e),
    ensures
        ({
            let (t, a) = next(s, e);
            &&& t.phase == Phase::Connecting <==> a is Connect
            &&& t.phase == Phase::Connected <==> a is CallOnConnect
            &&& t.phase == Phase::ConnectFailed <==> a is CallOnConnectFailure
            &&& t.phase == Phase::RetryWaiting <==> a is WaitRetryDelay
            &&& t.phase == Phase::Running <==> (a is Listen || a is Launch)
            &&& t.phase == Phase::Dispatching <==> (a is CallOnText || a is CallOnBinary)
            &&& t.phase == Phase::AwaitingCloseStrategy <==> a is CallOnClose
            &&& t.phase == Phase::AwaitingDisconnectStrategy <==> a is CallOnDisconnect
            &&& (t.phase == Phase::SendingPing || t.phase == Phase::SendingMessage
                || t.phase == Phase::SendingCloseRequest || t.phase == Phase::SendingPong
                || t.phase == Phase::SendingCloseReply) <==> a is Send
            &&& (t.phase == Phase::ClosingForReconnect || t.phase == Phase::ClosingBeforeStop
                || t.phase == Phase::ShuttingDown) <==> a is CloseStream
            &&& t.phase == Phase::Finished <==> (a is GiveUp || a is ConfirmClose)
        }),
{
}

/// A pong carrying the payload of the last ping answers it, whatever came
/// before: the ping is marked answered, the next payload is chosen, the task
/// listens again, and nothing else changes.
pub proof fn lemma_matching_pong_answers_ping(s: TaskStateView)
    requires
        s.phase == Phase::Running,
    ensures
        next(s, EventView::Received(MessageView::Pong(seq![s.last_ping])))
            == (TaskStateView { ponged: true, last_ping: next_ping_id(s.last_ping), ..s }, ActionView::Listen),
{
    assert(seq![s.last_ping].len() == 1);
}

/// The outcome of a send: a successful one brings the task back to listening
/// (with the ping marked pending after a ping, and the close requested after
/// the client's close frame); a failed one is a lost connection, except for
/// the client's close frame, which stops the task, and for a pong while
/// closing, which is ignored.
pub proof fn lemma_send_outcome(s: TaskStateView, ok: bool)
    requires
        s.phase == Phase::SendingPing || s.phase == Phase::SendingMessage
            || s.phase == Phase::SendingCloseRequest || s.phase == Phase::SendingPong,
    ensures
        ok && s.phase == Phase::SendingPing ==> next(s, EventView::Sent(ok))
            == (TaskStateView { phase: Phase::Running, ponged: false, ..s }, ActionView::Listen),
        ok && (s.phase == Phase::SendingMessage || s.phase == Phase::SendingPong)
            ==> next(s, EventView::Sent(ok)) == (in_phase(s, Phase::Running), ActionView::Listen),
        ok && s.phase == Phase::SendingCloseRequest ==> next(s, EventView::Sent(ok))
            == (TaskStateView { phase: Phase::Running, want_to_close: true, ..s }, ActionView::Listen),
        !ok && (s.phase == Phase::SendingPing || s.phase == Phase::SendingMessage)
            ==> next(s, EventView::Sent(ok)) == disconnect(s),
        !ok && s.phase == Phase::SendingPong ==> next(s, EventView::Sent(ok))
            == (if s.want_to_close { (in_phase(s, Phase::Running), ActionView::Listen) } else { disconnect(s) }),
        !ok && s.phase == Phase::SendingCloseRequest ==> next(s, EventView::Sent(ok)) == stop(s),
{
}

/// Once the client's close was requested, the server's close frame ends the
/// loop: the stream is closed and the end is confirmed next.
pub proof fn lemma_server_close_while_closing_stops(s: TaskStateView, code: CloseCode, reason: Seq<char>)
    requires
        s.phase == Phase::Running,
        s.want_to_close,
    ensures
        next(s, EventView::Received(MessageView::Close(code, reason))) == stop(s),
        next(stop(s).0, EventView::StreamClosed) == (in_phase(s, Phase::Finished), ActionView::ConfirmClose),
{
}

/// What follows a closed stream: a new connection attempt when reconnecting,
/// the final closing when stopping, and the confirmation after the final
/// closing; nothing else changes.
pub proof fn lemma_stream_closed_outcome(s: TaskStateView)
    requires
        s.phase == Phase::ClosingForReconnect || s.phase == Phase::ClosingBeforeStop
            || s.phase == Phase::ShuttingDown,
    ensures
        s.phase == Phase::ClosingForReconnect ==> next(s, EventView::StreamClosed)
            == (in_phase(s, Phase::Connecting), ActionView::Connect),
        s.phase == Phase::ClosingBeforeStop ==> next(s, EventView::StreamClosed) == stop(s),
        s.phase == Phase::ShuttingDown ==> next(s, EventView::StreamClosed)
            == (in_phase(s, Phase::Finished), ActionView::ConfirmClose),
{
}

/// Ping payloads count up by one, modulo 256.
pub proof fn lemma_ping_id_counts_modulo_256(p: u8)
    ensures
        next_ping_id(p) as int == (p as int + 1) % 256,
{
}

} // verus!
