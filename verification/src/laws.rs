//! What holds across the operations of the other modules.
//!
//! The operations are described by relations between the state before and the state after
//! (`Storage::snapshot_post` and the like), and these are what the contracts of the
//! executable functions state. The laws here are proved from them.
use std::sync::atomic::AtomicBool;
use std::sync::Arc;
use vstd::prelude::*;

use crate::apply::{Apply, GenSnapStep, GenTabletSnapshot};
use crate::fsm::{awaits_transfer, PeerFsm, PeerFsmDelegate, StoreContext};
use crate::inbox::{Inbox, TryRecvError};
use crate::meta::{RaftSnapshotData, RaftTruncatedState, Snapshot};
use crate::msg::{batch_steps, PeerMsg, PeerTypes};
use crate::peer::Peer;
use crate::signal::SignalEvent;
use crate::snap_state::{GenSnapTask, SnapState};
use crate::storage::{outdated_by, ApplyError, Storage, StorageError, WriteTask};
use crate::tick::{lemma_registry_add, PeerTick, TickModel, WaitDuration, TICK_COUNT};

verus! {

/// What goes on beside snapshots: the task that waits is sent, a split ends, entries are
/// appended and applied, the region changes. None of it touches the state of generation or
/// the shared cells, and the task that waits stays or goes.
pub open spec fn unrelated_step<T: PeerTypes>(pre: Storage<T>, post: Storage<T>) -> bool {
    &&& post.snap_state == pre.snap_state
    &&& post.signals == pre.signals
    &&& post.gen_snap_task == pre.gen_snap_task || post.gen_snap_task is None
}

/// Some operation on a storage, or what goes on beside, may turn `pre` into `post`.
pub open spec fn storage_step<T: PeerTypes, E>(pre: Storage<T>, post: Storage<T>) -> bool {
    ||| exists|compact_to: Option<u64>, snap_index: u64|
        Storage::cancel_post(pre, post, compact_to, snap_index)
    ||| exists|
        request_index: u64,
        to: u64,
        canceled_now: bool,
        decoded: Option<Result<RaftSnapshotData, E>>,
        res: Result<Snapshot, StorageError>,
    |
        Storage::snapshot_post(pre, post, request_index, to, canceled_now, decoded, res)
    ||| exists|res: Option<Box<Snapshot>>, required_index: u64, switched: bool|
        Storage::generated_post(pre, post, res, required_index, switched)
    ||| exists|
        pre_task: WriteTask,
        post_task: WriteTask,
        index: u64,
        term: u64,
        decoded: Result<RaftSnapshotData, E>,
        res: Result<(), ApplyError<E>>,
    |
        Storage::apply_post(pre, post, pre_task, post_task, index, term, decoded, res)
    ||| post == pre.caught_up()
    ||| unrelated_step(pre, post)
}

/// Only a state of generating turns into one of generated: a snapshot that is there was
/// there before, or it was being generated.
pub proof fn law_only_generating_becomes_generated<T: PeerTypes, E>(
    pre: Storage<T>,
    post: Storage<T>,
)
    requires
        storage_step::<T, E>(pre, post),
        post.snap_state is Generated,
    ensures
        post.snap_state == pre.snap_state || pre.snap_state is Generating,
{
}

/// A generation that ends without a snapshot is called off: as long as its cells are not
/// given up its worker goes on, and when they are, its flag is raised.
pub proof fn law_abandoned_generation_is_canceled<T: PeerTypes, E>(
    pre: Storage<T>,
    post: Storage<T>,
)
    requires
        storage_step::<T, E>(pre, post),
        pre.snap_state is Generating,
    ensures
        ({
            ||| post.snap_state == pre.snap_state
            ||| post.snap_state is Generated
            ||| {
                &&& post.signals@.len() > pre.signals@.len()
                &&& post.signals@[pre.signals@.len() as int] == SignalEvent::Raised(
                    pre.snap_state->canceled,
                )
                &&& SignalEvent::Raised(pre.snap_state->canceled).took_place()
            }
        }),
{
}

/// The task that waits to be sent shares its cells with the generation in progress.
pub open spec fn cells_shared<T: PeerTypes>(storage: Storage<T>) -> bool {
    match (storage.snap_state, storage.gen_snap_task) {
        (SnapState::Generating { canceled, index }, Some(task)) => {
            &&& task.canceled == canceled
            &&& task.index == index
        },
        _ => true,
    }
}

/// Every operation keeps the cells of the waiting task and of the generation shared.
pub proof fn law_cells_stay_shared<T: PeerTypes, E>(pre: Storage<T>, post: Storage<T>)
    requires
        storage_step::<T, E>(pre, post),
        cells_shared(pre),
    ensures
        cells_shared(post),
{
}

/// What was done to shared cells stays on record.
pub proof fn law_signals_only_grow<T: PeerTypes, E>(pre: Storage<T>, post: Storage<T>)
    requires
        storage_step::<T, E>(pre, post),
    ensures
        pre.signals@.is_prefix_of(post.signals@),
{
}

/// Everything on record has been done to the cells.
pub open spec fn genuine(signals: Seq<SignalEvent>) -> bool {
    forall|i: int| 0 <= i < signals.len() ==> (#[trigger] signals[i]).took_place()
}

/// Nothing comes on record that has not been done to the cells.
pub proof fn law_signals_are_genuine<T: PeerTypes, E>(pre: Storage<T>, post: Storage<T>)
    requires
        storage_step::<T, E>(pre, post),
        genuine(pre.signals@),
    ensures
        genuine(post.signals@),
{
}

/// The storage goes through the states of `run`, one operation at a time.
pub open spec fn storage_run<T: PeerTypes, E>(run: Seq<Storage<T>>) -> bool {
    forall|i: int| 0 <= i < run.len() - 1 ==> storage_step::<T, E>(#[trigger] run[i], run[i + 1])
}

/// However long a storage works, a snapshot that is there was taken in while one was being
/// generated, and the cells of the waiting task and of the generation are shared.
pub proof fn law_every_snapshot_was_being_generated<T: PeerTypes, E>(
    run: Seq<Storage<T>>,
    n: nat,
)
    requires
        storage_run::<T, E>(run),
        n < run.len(),
        run[0].snap_state is Relax,
        cells_shared(run[0]),
    ensures
        cells_shared(run[n as int]),
        run[n as int].snap_state is Generated ==> exists|k: int|
            0 < k <= n && (#[trigger] run[k]).snap_state == run[n as int].snap_state && run[k
                - 1].snap_state is Generating,
    decreases n,
{
    if n > 0 {
        let m = (n - 1) as nat;
        law_every_snapshot_was_being_generated::<T, E>(run, m);
        let pre = run[m as int];
        let post = run[n as int];
        assert(storage_step::<T, E>(pre, post));
        law_cells_stay_shared::<T, E>(pre, post);
        if post.snap_state is Generated {
            law_only_generating_becomes_generated::<T, E>(pre, post);
            if !(pre.snap_state is Generating) {
                let k = choose|k: int|
                    0 < k <= m && (#[trigger] run[k]).snap_state == pre.snap_state && run[k
                        - 1].snap_state is Generating;
                assert(run[k].snap_state == post.snap_state);
            }
        }
    }
}

/// Once a storage has raised a flag, that `true` was stored in it stays on the storage's
/// record, and whatever else comes on record has been done to the cells. No event stands for
/// a store of `false`. The cells themselves are public: what is stored in them without the
/// record is not seen here.
pub proof fn law_cancellation_stays_on_record<T: PeerTypes, E>(
    run: Seq<Storage<T>>,
    flag: Arc<AtomicBool>,
    n: nat,
)
    requires
        storage_run::<T, E>(run),
        n < run.len(),
        genuine(run[0].signals@),
        run[0].signals@.contains(SignalEvent::Raised(flag)),
    ensures
        genuine(run[n as int].signals@),
        run[n as int].signals@.contains(SignalEvent::Raised(flag)),
        SignalEvent::Raised(flag).took_place(),
    decreases n,
{
    if n > 0 {
        let m = (n - 1) as nat;
        law_cancellation_stays_on_record::<T, E>(run, flag, m);
        let pre = run[m as int];
        let post = run[n as int];
        assert(storage_step::<T, E>(pre, post));
        law_signals_only_grow::<T, E>(pre, post);
        law_signals_are_genuine::<T, E>(pre, post);
        let k = pre.signals@.index_of(SignalEvent::Raised(flag));
        assert(post.signals@[k] == SignalEvent::Raised(flag));
    } else {
        let k = run[0].signals@.index_of(SignalEvent::Raised(flag));
        assert(run[0].signals@[k].took_place());
    }
}

/// A snapshot that raft is given was taken no earlier than raft asked for, and its
/// `conf_ver` is not older than that of the region.
pub proof fn law_handed_out_snapshot_is_fresh<T: PeerTypes, E>(
    pre: Storage<T>,
    post: Storage<T>,
    request_index: u64,
    to: u64,
    canceled_now: bool,
    decoded: Option<Result<RaftSnapshotData, E>>,
    snap: Snapshot,
)
    requires
        Storage::snapshot_post(
            pre,
            post,
            request_index,
            to,
            canceled_now,
            decoded,
            Ok(snap),
        ),
    ensures
        pre.snap_state == SnapState::Generated(Box::new(snap)),
        snap.metadata.index >= request_index,
        decoded matches Some(Ok(data)) && data.region.region_epoch.conf_ver
            >= pre.region_state.region.region_epoch.conf_ver,
{
}

/// A request that raft gets no snapshot for leaves one being generated. Unless that was so
/// before, its task waits to be sent, names the region and the peer that asked, and shares
/// the cells of the generation, which were created with the flag lowered and the index zero.
pub proof fn law_refused_request_is_pending<T: PeerTypes, E>(
    pre: Storage<T>,
    post: Storage<T>,
    request_index: u64,
    to: u64,
    canceled_now: bool,
    decoded: Option<Result<RaftSnapshotData, E>>,
    e: StorageError,
)
    requires
        Storage::snapshot_post(pre, post, request_index, to, canceled_now, decoded, Err(e)),
    ensures
        post.snap_state is Generating,
        post == pre || {
            &&& post.gen_snap_task == Some(
                GenSnapTask {
                    region_id: pre.region_state.region.id,
                    to_peer: to,
                    index: post.snap_state->index,
                    canceled: post.snap_state->canceled,
                    for_balance: false,
                },
            )
            &&& (SignalEvent::Opened {
                canceled: post.snap_state->canceled,
                index: post.snap_state->index,
            }).took_place()
        },
{
}

/// A snapshot is given to raft once: the next request gets none.
pub proof fn law_handed_out_once<T: PeerTypes, E>(
    s0: Storage<T>,
    s1: Storage<T>,
    s2: Storage<T>,
    request_index1: u64,
    to1: u64,
    canceled_now1: bool,
    decoded1: Option<Result<RaftSnapshotData, E>>,
    snap: Snapshot,
    request_index2: u64,
    to2: u64,
    canceled_now2: bool,
    decoded2: Option<Result<RaftSnapshotData, E>>,
    res2: Result<Snapshot, StorageError>,
)
    requires
        Storage::snapshot_post(s0, s1, request_index1, to1, canceled_now1, decoded1, Ok(snap)),
        Storage::snapshot_post(s1, s2, request_index2, to2, canceled_now2, decoded2, res2),
    ensures
        s1.snap_state is Relax,
        res2 == Err::<Snapshot, _>(StorageError::SnapshotTemporarilyUnavailable),
        s2.snap_state is Generating,
{
}

/// A snapshot that a storage has taken in is what raft gets, if it is still good by then.
pub proof fn law_generated_is_handed_out<T: PeerTypes, E>(
    s0: Storage<T>,
    s1: Storage<T>,
    s2: Storage<T>,
    snap: Box<Snapshot>,
    required_index: u64,
    request_index: u64,
    to: u64,
    canceled_now: bool,
    data: RaftSnapshotData,
    res: Result<Snapshot, StorageError>,
)
    requires
        Storage::generated_post(s0, s1, Some(snap), required_index, true),
        snap.metadata.index >= request_index,
        data.region.region_epoch.conf_ver >= s0.region_state.region.region_epoch.conf_ver,
        Storage::snapshot_post(
            s1,
            s2,
            request_index,
            to,
            canceled_now,
            Some(Ok::<_, E>(data)),
            res,
        ),
    ensures
        res == Ok::<_, StorageError>(*snap),
        s2 == (Storage { snap_state: SnapState::Relax, ..s0 }),
{
}

/// From raft's first request to the snapshot it gets. A storage that is at rest asks for a
/// snapshot; its task is sent; the applying side flushes, which may move the applied index
/// and term, and queues it; the worker's snapshot comes back, taken at the applied index or
/// later; raft asks again.
///
/// Then the worker works for the peer that asked and watches the flag that the storage
/// would raise, the storage has been told the index that was applied after the flush, and
/// raft gets the worker's snapshot, after which the storage is at rest as before.
pub proof fn law_snapshot_round_trip<T: PeerTypes, E>(
    s0: Storage<T>,
    s1: Storage<T>,
    s2: Storage<T>,
    s3: Storage<T>,
    a0: Apply,
    a1: Apply,
    flushed: Apply,
    a2: Apply,
    step: GenSnapStep,
    task: GenTabletSnapshot,
    request_index1: u64,
    request_index2: u64,
    to: u64,
    canceled_now1: bool,
    canceled_now2: bool,
    decoded1: Option<Result<RaftSnapshotData, E>>,
    data: RaftSnapshotData,
    res1: Result<Snapshot, StorageError>,
    snap: Box<Snapshot>,
    switched: bool,
    res2: Result<Snapshot, StorageError>,
)
    requires
        s0.snap_state is Relax,
        s0.gen_snap_task is None,
        Storage::snapshot_post(s0, s1, request_index1, to, canceled_now1, decoded1, res1),
        !a0.tombstone,
        s1.gen_snap_task matches Some(t) && Apply::schedule_post(a0, a1, t, false, step)
            && Apply::flushed_post(flushed, a2, t, task),
        flushed == (Apply {
            applied_index: flushed.applied_index,
            applied_term: flushed.applied_term,
            ..a1
        }),
        snap.metadata.index >= task.last_applied_index,
        Storage::generated_post(
            Storage { gen_snap_task: None, ..s1 },
            s2,
            Some(snap),
            task.last_applied_index,
            switched,
        ),
        snap.metadata.index >= request_index2,
        data.region.region_epoch.conf_ver >= s0.region_state.region.region_epoch.conf_ver,
        Storage::snapshot_post(
            s2,
            s3,
            request_index2,
            to,
            canceled_now2,
            Some(Ok::<_, E>(data)),
            res2,
        ),
    ensures
        res1 == Err::<Snapshot, _>(StorageError::SnapshotTemporarilyUnavailable),
        s1.snap_state is Generating,
        step == GenSnapStep::Flush(s1.gen_snap_task->0),
        task.region_id == s0.region_state.region.id,
        task.to_peer == to,
        task.canceled == s1.snap_state->canceled,
        a2.signals@ == a0.signals@.push(
            SignalEvent::Published(s1.snap_state->index, flushed.applied_index),
        ),
        SignalEvent::Published(s1.snap_state->index, flushed.applied_index).took_place(),
        switched,
        res2 == Ok::<_, StorageError>(*snap),
        s3 == (Storage { signals: s3.signals, ..s0 }),
{
}

/// A task that the applying side stops before the flush is a canceled one: it was canceled
/// before, or the peer is gone and it is canceled now.
pub proof fn law_dropped_task_is_canceled(
    a0: Apply,
    a1: Apply,
    snap_task: GenSnapTask,
    canceled_now: bool,
    step: GenSnapStep,
)
    requires
        Apply::schedule_post(a0, a1, snap_task, canceled_now, step),
        step !is Flush,
    ensures
        canceled_now || {
            &&& a1.signals@ == a0.signals@.push(SignalEvent::Raised(snap_task.canceled))
            &&& SignalEvent::Raised(snap_task.canceled).took_place()
        },
{
}

/// A cancellation reaches a task that has been sent: calling the generation off stores
/// `true` in the flag of that very task, and a task whose flag reads `true` is neither
/// flushed for nor does its index become known.
pub proof fn law_cancel_reaches_sent_task<T: PeerTypes>(
    s0: Storage<T>,
    s1: Storage<T>,
    s2: Storage<T>,
    to: u64,
    task: GenSnapTask,
    snap_index: u64,
    a0: Apply,
    a1: Apply,
    step: GenSnapStep,
)
    requires
        Storage::request_post(s0, s1, to),
        s1.gen_snap_task == Some(task),
        Storage::cancel_post(Storage { gen_snap_task: None, ..s1 }, s2, None, snap_index),
        Apply::schedule_post(a0, a1, task, true, step),
    ensures
        s2.snap_state is Relax,
        s2.signals@ == s1.signals@.push(SignalEvent::Raised(task.canceled)),
        SignalEvent::Raised(task.canceled).took_place(),
        step !is Flush,
        a1.signals@ == a0.signals@ || a1.signals@ == a0.signals@.push(
            SignalEvent::Raised(task.canceled),
        ),
{
}

/// A task that the worker's queue refuses has its flag raised, after its index became known.
pub proof fn law_refused_task_is_canceled(
    a0: Apply,
    a1: Apply,
    a2: Apply,
    snap_task: GenSnapTask,
    task: GenTabletSnapshot,
)
    requires
        Apply::flushed_post(a0, a1, snap_task, task),
        Apply::queued_post(a1, a2, snap_task, false),
    ensures
        task.canceled == snap_task.canceled,
        a2.signals@ == a0.signals@.push(
            SignalEvent::Published(snap_task.index, a0.applied_index),
        ).push(SignalEvent::Raised(snap_task.canceled)),
        SignalEvent::Published(snap_task.index, a0.applied_index).took_place(),
        SignalEvent::Raised(snap_task.canceled).took_place(),
{
}

/// A compaction up to `n` leaves a generation alone while its index reads zero; once it
/// reads `a`, the compaction calls the generation off exactly if `n` is beyond `a + 1`.
pub proof fn law_compaction_cancels_outdated<T: PeerTypes>(
    pre: Storage<T>,
    post: Storage<T>,
    n: u64,
    a: u64,
)
    requires
        pre.snap_state is Generating,
        Storage::cancel_post(pre, post, Some(n), a),
    ensures
        a == 0 ==> post == pre,
        a != 0 ==> (post.snap_state is Relax <==> n > a + 1),
        post.snap_state is Relax || post == pre,
{
}

/// Once a generation is called off there is nothing left to call off.
pub proof fn law_cancel_is_idempotent<T: PeerTypes>(
    s0: Storage<T>,
    s1: Storage<T>,
    s2: Storage<T>,
    snap_index1: u64,
    compact_to: Option<u64>,
    snap_index2: u64,
)
    requires
        Storage::cancel_post(s0, s1, None, snap_index1),
        Storage::cancel_post(s1, s2, compact_to, snap_index2),
    ensures
        s1.snap_state !is Generating,
        s2 == s1,
{
}

/// A compaction that outdates a snapshot is surpassed by none that spares it, and whatever
/// outdates a snapshot outdates all earlier ones that have an index.
pub proof fn law_outdating_is_monotone(idx: u64, idx2: u64, snap_index: u64, snap_index2: u64)
    requires
        outdated_by(Some(idx), snap_index),
        idx <= idx2,
        0 < snap_index2 <= snap_index,
    ensures
        outdated_by(Some(idx2), snap_index2),
{
}

/// A snapshot that could not be applied has changed nothing.
pub proof fn law_failed_apply_changes_nothing<T: PeerTypes, E>(
    pre: Storage<T>,
    post: Storage<T>,
    pre_task: WriteTask,
    post_task: WriteTask,
    index: u64,
    term: u64,
    decoded: Result<RaftSnapshotData, E>,
    e: ApplyError<E>,
)
    requires
        Storage::apply_post(pre, post, pre_task, post_task, index, term, decoded, Err(e)),
    ensures
        post == pre,
        post_task == pre_task,
{
}

/// Once an applied snapshot is durable the peer switches to it, and is then where the
/// snapshot is: the log ends and starts there, everything up to it is applied, and the
/// region is the snapshot's.
pub proof fn law_applied_snapshot_takes_effect<T: PeerTypes, E>(
    pre: Storage<T>,
    peer: Peer<T>,
    pre_task: WriteTask,
    post_task: WriteTask,
    index: u64,
    term: u64,
    data: RaftSnapshotData,
)
    requires
        Storage::apply_post(
            pre,
            peer.storage,
            pre_task,
            post_task,
            index,
            term,
            Ok::<_, E>(data),
            Ok(()),
        ),
        peer.persisted_index == index,
    ensures
        peer.only_snapshot_persisted(),
        ({
            let log = peer.storage.caught_up().entry_storage;
            let region_state = peer.storage.caught_up().region_state;
            &&& log.raft_state.last_index == index
            &&& log.last_term == term
            &&& log.apply_state.truncated_state == RaftTruncatedState { index, term }
            &&& log.apply_state.applied_index == index
            &&& log.applied_term == term
            &&& region_state.region == data.region
            &&& region_state.region.id == pre.region_state.region.id
            &&& region_state.tablet_index == index
            &&& peer.storage.caught_up().apply_trace.snapshot_index == index
            &&& peer.storage.caught_up().ever_persisted
        }),
{
}

/// The equality of states is an equivalence.
pub proof fn law_snap_state_equality(a: SnapState, b: SnapState, c: SnapState)
    ensures
        a.same_as(a),
        a.same_as(b) <==> b.same_as(a),
        a.same_as(b) && b.same_as(c) ==> a.same_as(c),
{
}

/// Different timers have different bits.
pub proof fn law_tick_keys_are_distinct(a: PeerTick, b: PeerTick)
    ensures
        a.key() == b.key() <==> a == b,
        b.is_in(a.key()) <==> a == b,
{
    lemma_registry_add(0, a, b);
    lemma_registry_add(0, b, b);
    let x = a.key();
    let y = b.key();
    assert(0u16 | x == x) by (bit_vector);
    assert(0u16 | y == y) by (bit_vector);
    assert(0u16 & y == 0) by (bit_vector);
}

/// A timer is scheduled at most once, however often it is asked for and whatever else is:
/// its queue grows by at most one entry, by none if the timer was registered, and only if
/// the timer is registered afterwards. The registry forgets no timer.
pub proof fn law_tick_is_scheduled_at_most_once<T: PeerTypes>(
    model: TickModel<T>,
    waits: Seq<WaitDuration>,
    ticks: Seq<PeerTick>,
    found: Seq<Option<T::Mailbox>>,
    tick: PeerTick,
)
    requires
        model.queues.len() >= TICK_COUNT,
    ensures
        ({
            let after = model.scheduling_all(waits, ticks, found);
            let before_len = model.queues[tick.position()].len();
            let after_len = after.queues[tick.position()].len();
            &&& after.queues.len() == model.queues.len()
            &&& tick.is_in(model.registry) ==> {
                &&& tick.is_in(after.registry)
                &&& after.queues[tick.position()] == model.queues[tick.position()]
            }
            &&& after_len == before_len || {
                &&& after_len == before_len + 1
                &&& tick.is_in(after.registry)
            }
        }),
    decreases ticks.len(),
{
    if ticks.len() > 0 {
        let last = ticks.last();
        let mid = model.scheduling_all(waits, ticks.drop_last(), found.drop_last());
        law_tick_is_scheduled_at_most_once(
            model,
            waits,
            ticks.drop_last(),
            found.drop_last(),
            tick,
        );
        lemma_registry_add(mid.registry, last, tick);
    }
}

/// Memory locks are not enabled again while leadership is being transferred.
pub proof fn law_no_reactivation_during_transfer<
    T: PeerTypes,
    R: Fn(u64) -> Option<T::Mailbox>,
>(
    pre: (PeerFsm<T>, StoreContext<T, R>),
    post: (PeerFsm<T>, StoreContext<T, R>),
)
    requires
        PeerFsmDelegate::may_reactivate(pre, post),
        pre.0.peer.lead_transferee is Some,
    ensures
        post.0.peer == pre.0.peer,
{
}

/// Memory locks that were disabled for a transfer that does not happen are enabled when the
/// timer has fired as often as configured, and not before. (A timeout of zero counts as
/// one: nothing happens before the timer fires.)
pub proof fn law_reactivation_waits_for_the_timeout<
    T: PeerTypes,
    R: Fn(u64) -> Option<T::Mailbox>,
>(run: Seq<(PeerFsm<T>, StoreContext<T, R>)>, timeout: usize, k: nat)
    requires
        k < run.len(),
        k <= timeout || k <= 1,
        run[0].1.cfg.reactive_memory_lock_timeout_tick == timeout,
        run[0].0.reactivate_memory_lock_ticks == 0,
        awaits_transfer(run[0].0.peer),
        run[0].0.peer.lead_transferee is None,
        forall|i: int|
            0 <= i < run.len() - 1 ==> PeerFsmDelegate::may_reactivate(
                #[trigger] run[i],
                run[i + 1],
            ),
    ensures
        k == 0 || k < timeout ==> awaits_transfer(run[k as int].0.peer)
            && run[k as int].0.reactivate_memory_lock_ticks == k,
        k > 0 && k >= timeout ==> run[k as int].0.peer.locks_status is Normal
            && run[k as int].0.reactivate_memory_lock_ticks == 0,
        run[k as int].1.cfg == run[0].1.cfg,
        run[k as int].0.peer.lead_transferee is None,
    decreases k,
{
    if k > 0 {
        let j = (k - 1) as nat;
        law_reactivation_waits_for_the_timeout(run, timeout, j);
        assert(PeerFsmDelegate::may_reactivate(run[j as int], run[k as int]));
    }
}

/// Messages are handled in order: handling two batches one after the other is handling
/// both together.
pub proof fn law_batches_compose<T: PeerTypes>(a: Seq<PeerMsg<T>>, b: Seq<PeerMsg<T>>)
    ensures
        batch_steps(a + b) == batch_steps(a) + batch_steps(b),
    decreases b.len(),
{
    if b.len() == 0 {
        assert(a + b =~= a);
        assert(batch_steps(a) + batch_steps(b) =~= batch_steps(a));
    } else {
        law_batches_compose(a, b.drop_last());
        assert((a + b).drop_last() =~= a + b.drop_last());
        assert(batch_steps(a + b) =~= batch_steps(a) + batch_steps(b));
    }
}

/// Receiving keeps what the buffer held, does not fill it beyond the batch size, counts
/// what it added, and does not revive a stopped peer. Every message that it takes off the
/// queue is in the buffer, in the order in which it was taken. With a buffer that holds a
/// batch or more, nothing is taken and nothing changes.
pub proof fn law_recv_respects_the_buffer<T: PeerTypes>(
    pre: PeerFsm<T>,
    post: PeerFsm<T>,
    pre_buf: Seq<PeerMsg<T>>,
    post_buf: Seq<PeerMsg<T>>,
    batch_size: usize,
    outcomes: Seq<Result<PeerMsg<T>, TryRecvError>>,
    fetched: usize,
)
    requires
        PeerFsm::recv_post(pre, post, pre_buf, post_buf, batch_size, outcomes, fetched),
    ensures
        pre_buf.is_prefix_of(post_buf),
        post_buf.len() == pre_buf.len() + fetched,
        pre_buf.len() <= batch_size ==> post_buf.len() <= batch_size,
        pre_buf.len() >= batch_size ==> post_buf == pre_buf && post == pre,
        pre.receiver.taken().is_prefix_of(post.receiver.taken()),
        post.receiver.taken().len() <= pre.receiver.taken().len() + fetched + 1,
        forall|i: int|
            pre.receiver.taken().len() <= i < post.receiver.taken().len() ==> (
            #[trigger] post.receiver.taken()[i] matches Ok(msg) ==> {
                let at = pre_buf.len() + i - pre.receiver.taken().len();
                at < post_buf.len() && post_buf[at] == msg
            }),
        pre.is_stopped ==> post.is_stopped,
        !pre.is_stopped && post.is_stopped ==> post_buf.len() < batch_size,
        post == (PeerFsm { is_stopped: post.is_stopped, receiver: post.receiver, ..pre }),
{
    if pre_buf.len() >= batch_size {
        assert(post_buf =~= pre_buf);
        assert(post.receiver.taken() =~= pre.receiver.taken());
        Inbox::lemma_determined(pre.receiver, post.receiver);
    }
    assert forall|i: int|
        pre.receiver.taken().len() <= i < post.receiver.taken().len() implies (
    #[trigger] post.receiver.taken()[i] matches Ok(msg) ==> {
        let at = pre_buf.len() + i - pre.receiver.taken().len();
        at < post_buf.len() && post_buf[at] == msg
    }) by {
        let j = i - pre.receiver.taken().len();
        assert(post.receiver.taken()[i] == outcomes[j]);
    }
}

/// `outcomes` is what readings give of a queue in which `pending` waits and to which nothing
/// is added: its messages, and `end` once they are gone.
pub open spec fn queue_gives<T: PeerTypes>(
    pending: Seq<PeerMsg<T>>,
    end: TryRecvError,
    outcomes: Seq<Result<PeerMsg<T>, TryRecvError>>,
) -> bool {
    forall|i: int|
        0 <= i < outcomes.len() ==> #[trigger] outcomes[i] == if i < pending.len() {
            Ok(pending[i])
        } else {
            Err(end)
        }
}

/// Receiving from a queue to which nothing is added meanwhile takes its first messages, as
/// many as there is room for, and no other: the rest is still pending. The peer is stopped
/// if there is room left and the queue is closed.
pub proof fn law_recv_takes_what_there_is_room_for<T: PeerTypes>(
    pre: PeerFsm<T>,
    post: PeerFsm<T>,
    pre_buf: Seq<PeerMsg<T>>,
    post_buf: Seq<PeerMsg<T>>,
    batch_size: usize,
    outcomes: Seq<Result<PeerMsg<T>, TryRecvError>>,
    fetched: usize,
    pending: Seq<PeerMsg<T>>,
    end: TryRecvError,
)
    requires
        PeerFsm::recv_post(pre, post, pre_buf, post_buf, batch_size, outcomes, fetched),
        queue_gives(pending, end, outcomes),
    ensures
        ({
            let room = if pre_buf.len() <= batch_size {
                batch_size - pre_buf.len()
            } else {
                0
            };
            let served = if pending.len() <= room {
                pending.len() as int
            } else {
                room
            };
            let taken = pending.take(served).map_values(
                |msg: PeerMsg<T>| Ok::<_, TryRecvError>(msg),
            );
            &&& fetched == served
            &&& post_buf == pre_buf + pending.take(served)
            &&& post.receiver.taken() == pre.receiver.taken() + if served < room {
                taken.push(Err(end))
            } else {
                taken
            }
            &&& post.is_stopped == (pre.is_stopped || served < room && end
                == TryRecvError::Disconnected)
        }),
{
    let room = if pre_buf.len() <= batch_size {
        batch_size - pre_buf.len()
    } else {
        0
    };
    if pending.len() < fetched {
        assert(outcomes[pending.len() as int] is Ok);
    }
    assert(post_buf =~= pre_buf + pending.take(fetched as int));
    let taken = pending.take(fetched as int).map_values(
        |msg: PeerMsg<T>| Ok::<_, TryRecvError>(msg),
    );
    assert(outcomes =~= if fetched < room {
        taken.push(Err(end))
    } else {
        taken
    });
}

} // verus!
