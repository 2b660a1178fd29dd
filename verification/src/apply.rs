//! Handing a snapshot generation task to the read worker.
//!
//! Applied writes have to be flushed before the snapshot is taken, and the worker's queue
//! may refuse the task. Both happen outside, so the work comes in three parts:
//! [`Apply::schedule_gen_snapshot`] decides whether to go on, [`Apply::gen_snapshot_flushed`]
//! builds the worker's task once the writes are flushed, and [`Apply::gen_snapshot_queued`]
//! takes the answer of the queue.
use std::sync::atomic::AtomicBool;
use std::sync::Arc;
use vstd::prelude::*;

use crate::meta::RegionLocalState;
use crate::signal::{flag_reads, is_raised, SignalEvent, SignalLog};
use crate::snap_state::GenSnapTask;

verus! {

/// The part of a peer that applies committed entries.
pub struct Apply {
    /// Whether the peer has been removed.
    pub tombstone: bool,
    pub applied_index: u64,
    pub applied_term: u64,
    pub region_state: RegionLocalState,
    /// What was done to the cells that are shared with storages.
    pub signals: SignalLog,
}

/// A task for the read worker: take a snapshot of the tablet as it is.
pub struct GenTabletSnapshot {
    pub region_id: u64,
    pub to_peer: u64,
    pub region_state: RegionLocalState,
    pub last_applied_term: u64,
    pub last_applied_index: u64,
    pub for_balance: bool,
    /// Raised to call the generation off.
    pub canceled: Arc<AtomicBool>,
}

/// How a generation task goes on.
pub enum GenSnapStep {
    /// The peer is gone; the task has been canceled.
    Destroyed,
    /// The task was canceled before.
    Canceled,
    /// Applied writes are to be flushed, then the task goes on.
    Flush(GenSnapTask),
}

impl Apply {
    /// `pre` takes a generation task whose cancel flag read `canceled_now`, decides on
    /// `step` and becomes `post`.
    pub open spec fn schedule_post(
        pre: Apply,
        post: Apply,
        snap_task: GenSnapTask,
        canceled_now: bool,
        step: GenSnapStep,
    ) -> bool {
        if pre.tombstone {
            &&& step == GenSnapStep::Destroyed
            &&& post == Apply { signals: post.signals, ..pre }
            &&& post.signals@ == pre.signals@.push(SignalEvent::Raised(snap_task.canceled))
            &&& SignalEvent::Raised(snap_task.canceled).took_place()
        } else {
            &&& post == pre
            &&& step == if canceled_now {
                GenSnapStep::Canceled
            } else {
                GenSnapStep::Flush(snap_task)
            }
        }
    }

    /// Takes a generation task: it is canceled if the peer is gone, dropped if it was
    /// canceled before, and otherwise goes on after a flush.
    pub fn schedule_gen_snapshot(&mut self, snap_task: GenSnapTask) -> (step: GenSnapStep)
        ensures
            exists|canceled_now: bool|
                {
                    &&& flag_reads(snap_task.canceled, canceled_now)
                    &&& #[trigger] Apply::schedule_post(
                        *old(self),
                        *final(self),
                        snap_task,
                        canceled_now,
                        step,
                    )
                },
    {
        let canceled_now = is_raised(&snap_task.canceled);
        self.schedule_gen_snapshot_given(snap_task, canceled_now)
    }

    /// [`Apply::schedule_gen_snapshot`] once the cancel flag has been read.
    pub fn schedule_gen_snapshot_given(
        &mut self,
        snap_task: GenSnapTask,
        canceled_now: bool,
    ) -> (step: GenSnapStep)
        ensures
            Apply::schedule_post(*old(self), *final(self), snap_task, canceled_now, step),
    {
        if self.tombstone {
            self.signals.raise(&snap_task.canceled);
            return GenSnapStep::Destroyed;
        }
        if canceled_now {
            return GenSnapStep::Canceled;
        }
        GenSnapStep::Flush(snap_task)
    }

    /// `pre`, its writes flushed, turns a generation task into `task` for the worker and
    /// becomes `post`.
    pub open spec fn flushed_post(
        pre: Apply,
        post: Apply,
        snap_task: GenSnapTask,
        task: GenTabletSnapshot,
    ) -> bool {
        &&& post == Apply { signals: post.signals, ..pre }
        &&& post.signals@ == pre.signals@.push(
            SignalEvent::Published(snap_task.index, pre.applied_index),
        )
        &&& SignalEvent::Published(snap_task.index, pre.applied_index).took_place()
        &&& task == GenTabletSnapshot {
            region_id: snap_task.region_id,
            to_peer: snap_task.to_peer,
            region_state: task.region_state,
            last_applied_term: pre.applied_term,
            last_applied_index: pre.applied_index,
            for_balance: snap_task.for_balance,
            canceled: snap_task.canceled,
        }
        &&& task.region_state@ == pre.region_state@
    }

    /// Builds the worker's task after the flush, and tells the storage at which index the
    /// snapshot is taken.
    pub fn gen_snapshot_flushed(&mut self, snap_task: &GenSnapTask) -> (task: GenTabletSnapshot)
        ensures
            Apply::flushed_post(*old(self), *final(self), *snap_task, task),
    {
        self.signals.publish(&snap_task.index, self.applied_index);
        GenTabletSnapshot {
            region_id: snap_task.region_id,
            to_peer: snap_task.to_peer,
            region_state: self.region_state.duplicate(),
            last_applied_term: self.applied_term,
            last_applied_index: self.applied_index,
            for_balance: snap_task.for_balance,
            canceled: snap_task.canceled.clone(),
        }
    }

    /// `pre` takes the answer of the worker's queue and becomes `post`.
    pub open spec fn queued_post(
        pre: Apply,
        post: Apply,
        snap_task: GenSnapTask,
        accepted: bool,
    ) -> bool {
        if accepted {
            post == pre
        } else {
            &&& post == Apply { signals: post.signals, ..pre }
            &&& post.signals@ == pre.signals@.push(SignalEvent::Raised(snap_task.canceled))
            &&& SignalEvent::Raised(snap_task.canceled).took_place()
        }
    }

    /// Takes the answer of the worker's queue: a task that it refused is canceled.
    pub fn gen_snapshot_queued(&mut self, snap_task: &GenSnapTask, accepted: bool)
        ensures
            Apply::queued_post(*old(self), *final(self), *snap_task, accepted),
    {
        if !accepted {
            self.signals.raise(&snap_task.canceled);
        }
    }
}

} // verus!
