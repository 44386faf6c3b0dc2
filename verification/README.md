# libp2p-streaming

Raw byte streams between libp2p peers.

- `src/` is the verified library. `behaviour.rs` is the state machine above
  all connections (connected peers, outbound stream IDs, actions for the
  swarm); `handler.rs` is the state machine of one connection (pending
  events, outbound substream requests, fatal errors); `peer.rs` holds peers
  as the bytes of their IDs; `ids.rs` the stream IDs; `queue.rs` the capacity
  housekeeping of the queues; `laws.rs` the properties that span several
  operations, such as the uniqueness of outbound IDs and the path of an
  opened stream from `open_stream` back to the user.
- `app/` plugs the state machines into a libp2p swarm: it implements
  `NetworkBehaviour`, `ProtocolsHandler` and the upgrade traits, the stream
  handle, and converts between libp2p's types and the library's.
- `tests/` exercises the library on concrete values.
