//! The snapshot handling and the message loop of a raft peer, verified.
//!
//! A peer serves snapshots of its data to followers that lag behind and installs the
//! snapshots that it receives. Generating one takes long, so it happens off the peer's
//! thread; the modules here hold the decisions that keep the parties in step:
//!
//! - [`signal`]: the flag and the index cell that a storage shares with the worker;
//! - [`meta`]: the plain data of regions, snapshots and raft state;
//! - [`snap_state`]: the state of snapshot generation, and the task that asks for one;
//! - [`storage`]: requesting, validating, cancelling and applying snapshots;
//! - [`apply`]: handing a generation task to the read worker;
//! - [`peer`]: what a peer does once a snapshot is generated or applied;
//! - [`tick`]: the timers of a peer and the queues they are scheduled on;
//! - [`msg`]: the messages of a peer and the steps they call for;
//! - [`inbox`]: the queue that a peer's messages come from;
//! - [`fsm`]: receiving and dispatching messages, scheduling timers;
//! - [`calls`]: what each of these operations does, in terms of what goes in and comes out;
//! - [`laws`]: what holds across them.
//!
//! Disk, network, timers and the raft state machine itself are outside: functions that
//! need them return what is to be done as plain values.
pub mod apply;
pub mod calls;
pub mod fsm;
pub mod inbox;
pub mod laws;
pub mod meta;
pub mod msg;
pub mod peer;
pub mod signal;
pub mod snap_state;
pub mod storage;
pub mod tick;

