# tokio_websocket_client

A tokio based websocket client: ping/pong supervision, automatic reconnection
with a retry strategy chosen by a handler, and any websocket backend.

- `src/` is the verified library. `task.rs` holds the state machine that takes
  every decision of the connection task: given the outcome of the last piece of
  outside work (an `Event`), `TaskState::step` gives the next state and the next
  piece of work (an `Action`), and its contract equals the transition function
  `next`. `laws.rs` proves properties of that machine over all states
  (ping/pong round trips, reconnection, the close handshake, the order of the
  shutdown). `message.rs` holds the messages and the close codes, with their
  numeric conversions; `client.rs` the error kinds of a failed close.
- `app/` runs the machine: it performs the actions (connecting, reading and
  writing the stream, calling the handler, sleeping, talking to the clients
  over channels) and hands back their outcomes. It also holds the `Handler`
  and `Connector` traits, `StreamWrapper` and `Client`.
- `tests/` drives the machine and the conversions on concrete values.
