# turntf

A client SDK for the turntf messaging service, with its logic verified by Verus.

- `src/` is the verified library: the data model and validation rules, the
  mapping of protobuf and HTTP JSON records, the request builders and answer
  readers of both APIs, the WebSocket client's decisions (connect, close,
  reconnect back-off, login, ping, per-envelope dispatch and the
  store-then-acknowledge sequence), the in-memory cursor store, and the relay
  protocol: each connection's state (handshake, ordered receive window,
  sliding send window), the registry of connections and the opening sequence.
  Calls into `bcrypt`, `base64`, `url` and `serde_json` stand behind small
  trusted wrappers whose contracts name what those crates compute.
- `app/` is the unverified shell around it: the tokio WebSocket, relay and
  reqwest HTTP plumbing, prost message definitions, serde copies of the data types,
  and the async cursor-store trait. It performs the actions the library
  decides on and hands the outcomes back.
- `tests/` exercises the library on concrete values.
