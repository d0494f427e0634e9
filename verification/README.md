# interprocess_typed

Typed, serde-compatible messages over local sockets (Unix domain sockets,
Windows named pipes), on top of `interprocess` and `async-io-typed`.

- `src/` is the Verus-verified library: the error type and its conversion from
  the framing layer's errors (`error`), the readiness of a poll and the
  conversion of every polled result (`polled`), and the default message size
  limit (`limits`). Laws about the conversions are proof functions beside them.
- `app/` holds the socket types (`LocalSocketListenerTyped`,
  `LocalSocketStreamTyped` and its typed halves) with their async, `Stream`
  and `Sink` plumbing. Their type parameter carries serde bounds, which Verus
  does not accept on a datatype, so they sit outside the verified part and
  call it for every decision they make.
- `tests/` checks the conversions on concrete values and sends messages over a
  real local socket through them.
