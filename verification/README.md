# actor

Actors over bounded mailboxes, with what they decide verified by Verus.

- `src/` is the library. `lifecycle` is the worker: told what happened, it says what
  to do next. `lifecycle_laws` proves what holds of every run of it: messages are
  handled in order and none is lost, the start hook comes first, the stop hook runs
  once, a cancellation lets at most the rest of a batch through. `static_actor` and `dynamic_actor`
  hold the addresses, the errors and the results of sending and asking, for actors with
  one message type and with many. `mailbox`, `reply` and `token` state what is taken on
  trust of tokio's channels and cancellation tokens.
- `app/` runs actors on tokio: it awaits mailboxes, hooks, handlers and replies.
- `tests/` runs the library against the real channels and tokens.
