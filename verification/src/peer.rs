//! What a peer does once a snapshot has been generated or applied.
use vstd::prelude::*;

use crate::meta::Snapshot;
use crate::msg::{HostCall, PeerTypes, SplitInit};
use crate::storage::{EntryStorage, Storage};
use crate::tick::PeerTick;

verus! {

/// Whether pessimistic locks may be kept in memory only.
#[derive(Clone, Copy, PartialEq, Eq, Structural, Debug)]
pub enum LocksStatus {
    Normal,
    TransferringLeader,
    MergingRegion,
    NotLeader,
}

/// A peer of a region on this store.
pub struct Peer<T: PeerTypes> {
    pub storage: Storage<T>,
    /// The index up to which the log is durable.
    pub persisted_index: u64,
    pub is_leader: bool,
    /// The peer that leadership is being transferred to.
    pub lead_transferee: Option<u64>,
    pub locks_status: LocksStatus,
    /// The timers that handling a message asked for.
    pub pending_ticks: Vec<PeerTick>,
    /// Whether raft has something to process.
    pub has_ready: bool,
}

impl EntryStorage {
    /// The index of the first entry that is left in the log.
    pub fn first_index(&self) -> (index: u64)
        requires
            self.apply_state.truncated_state.index < u64::MAX,
        ensures
            index == self.apply_state.truncated_state.index + 1,
    {
        self.apply_state.truncated_state.index + 1
    }
}

impl<T: PeerTypes> Peer<T> {
    /// The region that the peer belongs to.
    pub fn region_id(&self) -> (id: u64)
        ensures
            id == self.storage.region_state.region.id,
    {
        self.storage.region_state.region.id
    }

    /// `pre` takes the outcome of a generation and becomes `post`, where the index cell
    /// held `required_index`; `ping` tells whether followers are to be contacted.
    pub open spec fn generated_post(
        pre: Peer<T>,
        post: Peer<T>,
        snapshot: Option<Box<Snapshot>>,
        required_index: u64,
        ping: bool,
    ) -> bool {
        &&& Storage::generated_post(pre.storage, post.storage, snapshot, required_index, ping)
        &&& post == Peer { storage: post.storage, has_ready: pre.has_ready || ping, ..pre }
    }

    /// Takes the outcome of a generation. If a snapshot is there now, raft has something
    /// to process, and the result tells to contact the followers.
    pub fn on_snapshot_generated(&mut self, snapshot: Option<Box<Snapshot>>) -> (ping: bool)
        ensures
            exists|required_index: u64|
                {
                    &&& old(self).storage.index_reads(required_index)
                    &&& #[trigger] Peer::generated_post(
                        *old(self),
                        *final(self),
                        snapshot,
                        required_index,
                        ping,
                    )
                },
    {
        let ping = self.storage.on_snapshot_generated(snapshot);
        if ping {
            self.has_ready = true;
        }
        proof {
            let required_index = choose|required_index: u64|
                {
                    &&& old(self).storage.index_reads(required_index)
                    &&& #[trigger] Storage::generated_post(
                        old(self).storage,
                        self.storage,
                        snapshot,
                        required_index,
                        ping,
                    )
                };
            assert(Peer::generated_post(*old(self), *self, snapshot, required_index, ping));
        }
        ping
    }

    /// Whether the log holds nothing but what a snapshot brought: all of it is durable, and
    /// none of it is left as entries.
    pub open spec fn only_snapshot_persisted(self) -> bool {
        self.storage.entry_storage.apply_state.truncated_state.index == self.persisted_index
    }

    /// `calls` begins the switch to a snapshot: the tablet of the region as it is now, at
    /// the persisted index, is loaded with a new flush state, and applying starts.
    pub open spec fn begins_switch(self, calls: Seq<HostCall<T>>) -> bool {
        &&& calls.len() == 3
        &&& calls[0] == HostCall::<T>::ResetFlushState
        &&& calls[1] matches HostCall::LoadTablet { region, index } && region@
            == self.storage.region_state.region@ && index == self.persisted_index
        &&& calls[2] == HostCall::<T>::ScheduleApplyFsm
    }

    /// Begins to switch to a snapshot that has become durable, if there is one: the result
    /// lists what is to be done, in order. Then comes [`Peer::applied_snapshot_loaded`].
    pub fn on_applied_snapshot(&self) -> (calls: Vec<HostCall<T>>)
        requires
            self.persisted_index < u64::MAX,
            self.storage.entry_storage.apply_state.truncated_state.index < u64::MAX,
        ensures
            self.only_snapshot_persisted() ==> self.begins_switch(calls@),
            !self.only_snapshot_persisted() ==> calls@ == Seq::<HostCall<T>>::empty(),
    {
        let persisted_index = self.persisted_index;
        let first_index = self.storage.entry_storage.first_index();
        let mut calls: Vec<HostCall<T>> = Vec::new();
        if first_index == persisted_index + 1 {
            calls.push(HostCall::ResetFlushState);
            calls.push(
                HostCall::LoadTablet {
                    region: self.storage.region_state.region.duplicate(),
                    index: persisted_index,
                },
            );
            calls.push(HostCall::ScheduleApplyFsm);
        }
        calls
    }

    /// What is left to be done once the tablet of a snapshot at `index` is loaded.
    pub open spec fn calls_after_load(
        region_id: u64,
        index: u64,
        split: Option<SplitInit<T>>,
    ) -> Seq<HostCall<T>> {
        let calls = seq![
            HostCall::AdvanceApplyTo(index),
            HostCall::PublishReader { region_id },
            HostCall::UpdateAppliedCore(index),
        ];
        match split {
            Some(init) => calls.push(HostCall::PostSplitInit(init)),
            None => calls,
        }
    }

    /// Finishes the switch to a snapshot at `index` once its tablet is loaded: the storage
    /// catches up, and a split that the peer was created by is over. The result lists what
    /// is to be done, in order.
    pub fn applied_snapshot_loaded(&mut self, index: u64) -> (calls: Vec<HostCall<T>>)
        requires
            old(self).only_snapshot_persisted(),
            index == old(self).persisted_index,
        ensures
            *final(self) == (Peer {
                storage: Storage { split_init: None, ..old(self).storage.caught_up() },
                ..*old(self)
            }),
            calls@ == Peer::calls_after_load(
                old(self).storage.region_state.region.id,
                index,
                old(self).storage.split_init,
            ),
    {
        let region_id = self.region_id();
        self.storage.on_applied_snapshot();
        let mut calls: Vec<HostCall<T>> = Vec::new();
        calls.push(HostCall::AdvanceApplyTo(index));
        calls.push(HostCall::PublishReader { region_id });
        calls.push(HostCall::UpdateAppliedCore(index));
        let split = self.storage.split_init.take();
        if let Some(init) = split {
            calls.push(HostCall::PostSplitInit(init));
        }
        calls
    }
}

} // verus!
