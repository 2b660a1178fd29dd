# raftstore_v2

The snapshot handling and the message loop of a raft peer, written and verified in Verus.

- `src/`: the verified library. Its functions decide; what needs the disk, the network, the
  clock or raft itself they return as plain values. `src/laws.rs` holds what is proved across
  several operations.
- `app/`: the surroundings of the library in ordinary Rust: it carries out what the library
  decides and converts raft's types.
- `tests/`: tests of the library on concrete values.

Two things are trusted: the type of the receiving end of a crossbeam channel, and the wrapper
around its `try_recv`, of which nothing is claimed. Both stand in `src/inbox.rs`, the only
module that reads from a channel; it keeps a record of what was taken off.
