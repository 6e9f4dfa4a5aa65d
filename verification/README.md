# shaved_iced

Helpers for wiring asynchronous side-effects into Iced applications through
stream composition: a connection hands the application a `Sender`, runs every
incoming message through the application's update function before an operator
sees it, and hands whatever the operator produces back to the application as
updates (feeding it into the sender as well).

- `src/` is the verified library: the decisions the connection protocol makes
  (`announce`, `receive`, `deliver`, `ready_sender`), the fan-out step of
  combined operators (`FanOut`, `broadcast`), the `Sender`, `Message` and
  `Error` types, and the laws of the protocol (`connection.rs`), among them
  how the state folds the messages it takes in.
- `src/channel.rs` holds the library's handles on `futures` channels (`Sender`,
  `FanOut`) and the trusted hand-offs to them; only those hand-offs record what
  was handed to a channel and what it accepted.
- `app/` assembles the Iced subscription and the `futures` streams around those
  decisions, and gives `Sender` its `Sink` impl.
- `tests/` runs the library against real `futures` channels.
