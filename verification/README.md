# vine

Vine is the message layer between an editor host and its side-car processes:
notifications and requests over gRPC, a bidirectional stream multiplexer, and
the handlers that turn a side-car's notifications into effects on the host.

The library under `src/` is verified with Verus:

- `Json`, `Strings`: the JSON value model every payload is read from, and the
  text helpers the handlers use.
- `Error`: the error type, its messages, and its mapping to and from gRPC
  status codes.
- `Client`: the connection pool with per-connection health and eviction, the
  shutdown flag, request admission (method name, size, timeout bound), unary
  completion, and the steps of waiting for a connection.
- `Multiplexer`: the correlation of requests and responses on one stream, the
  meaning of each inbound frame, and the drain on close.
- `Server::Notification`: one handler per notification; each answers with the
  list of effects (`Host::HostAction`) the embedder performs.
- `DevLog`: the tag filter of the development log.
- `Runtime`: the clock, async-runtime, concurrent-map and gRPC-status items the
  library calls, each with the contract it relies on.

`app/` is the runtime around it: locks, tasks, timers, `serde_json` and `tonic`
conversions, the per-frame batching of renderer events, and the error type
with `std::error::Error`.
