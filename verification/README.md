# vireon_php

A C ABI binding for the Vireon QUIC pub/sub SDK, split in two:

- `src/` — the verified library (Verus). It holds the handle registry that
  stands behind every `isize` handle given to a C caller, the translation of
  C arguments into connection settings (TLS mode, delivery policy, reconnect,
  client identity, size limits), the conversion of received messages and of
  error texts into what a C string can hold, and the receive rules (batch
  size, batch collection, end-of-stream closing a receiver).
- `app/` — the `extern "C"` functions themselves: pointers, the global tokio
  runtime, the thread-local last error, and the calls into the SDK.
- `tests/` — tests of the library on concrete values.
