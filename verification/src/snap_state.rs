//! The state of snapshot generation, and the task that asks for a snapshot.
use std::sync::atomic::{AtomicBool, AtomicU64};
use std::sync::Arc;
use vstd::prelude::*;

use crate::meta::Snapshot;

verus! {

/// How far the generation of a snapshot is.
#[derive(Debug)]
pub enum SnapState {
    /// No snapshot is wanted.
    Relax,
    /// A worker is generating a snapshot.
    Generating {
        /// Raised to call the generation off.
        canceled: Arc<AtomicBool>,
        /// The log index at which the snapshot is taken; zero until that is decided.
        index: Arc<AtomicU64>,
    },
    /// A snapshot is there, and raft has not fetched it yet.
    Generated(Box<Snapshot>),
}

impl SnapState {
    /// The equality of states: all generations in progress are alike, and generated
    /// snapshots are compared by content.
    pub open spec fn same_as(self, other: SnapState) -> bool {
        match (self, other) {
            (SnapState::Relax, SnapState::Relax) => true,
            (SnapState::Generating { .. }, SnapState::Generating { .. }) => true,
            (SnapState::Generated(a), SnapState::Generated(b)) => a@ == b@,
            _ => false,
        }
    }
}

impl PartialEq for SnapState {
    fn eq(&self, other: &SnapState) -> (same: bool) {
        match (self, other) {
            (SnapState::Relax, SnapState::Relax) => true,
            (SnapState::Generating { .. }, SnapState::Generating { .. }) => true,
            (SnapState::Generated(a), SnapState::Generated(b)) => **a == **b,
            _ => false,
        }
    }
}

impl vstd::std_specs::cmp::PartialEqSpecImpl for SnapState {
    open spec fn obeys_eq_spec() -> bool {
        true
    }

    open spec fn eq_spec(&self, other: &SnapState) -> bool {
        self.same_as(*other)
    }
}

/// A request to generate a snapshot, on its way to the worker.
pub struct GenSnapTask {
    pub region_id: u64,
    /// The peer that the snapshot will be sent to.
    pub to_peer: u64,
    /// Filled when the snapshot is about to be generated; tells whether a later
    /// compaction makes the snapshot useless.
    pub index: Arc<AtomicU64>,
    /// Raised to cancel the task.
    pub canceled: Arc<AtomicBool>,
    /// Whether the snapshot is wanted for load balance.
    pub for_balance: bool,
}

impl GenSnapTask {
    /// A task that is not for load balance.
    pub fn new(
        region_id: u64,
        to_peer: u64,
        index: Arc<AtomicU64>,
        canceled: Arc<AtomicBool>,
    ) -> (task: GenSnapTask)
        ensures
            task == (GenSnapTask { region_id, to_peer, index, canceled, for_balance: false }),
    {
        GenSnapTask { region_id, to_peer, index, canceled, for_balance: false }
    }

    /// Marks the snapshot as wanted for load balance.
    pub fn set_for_balance(&mut self)
        ensures
            *final(self) == (GenSnapTask { for_balance: true, ..*old(self) }),
    {
        self.for_balance = true;
    }
}

} // verus!
