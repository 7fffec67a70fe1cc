# raft_serde

Serializable mirrors of a Raft node's state (`SerdeRawNode`, `SerdeRaft`,
`SerdeRaftCore`, `SerdeRaftLog`, `SerdeProgressTracker`, `SerdeMessage`, ...)
and the conversions between a node and its mirror, verified with Verus.

- `src/` is the verified library. Every type has a mathematical view; every
  conversion states, over those views, exactly what it produces. A progress
  tracker's configuration is rebuilt one membership change at a time
  (`src/confchange.rs`).
  `src/laws.rs` proves what a round trip through a mirror gives back: a
  well-formed node, state machine, core state, log, tracker, read-only
  bookkeeping, message or entry comes back as it was; and every rebuilt
  tracker keeps the invariants of a tracker.
- `src/pb.rs` and the end of `src/eraftpb.rs` declare the protobuf runtime
  types that the wire messages carry and the few runtime calls the
  conversions make; their contracts are trusted.
- `app/` holds copies of the mirror types that derive serde's `Serialize` and
  `Deserialize`, with conversions to and from the library's types, and a
  tracker rebuild that warns on standard error when a step of rebuilding a
  configuration fails.
- `tests/` runs the conversions on concrete values.
