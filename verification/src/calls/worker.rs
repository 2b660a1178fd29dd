//! What handing a task to the read worker does.
use std::sync::atomic::{AtomicBool, AtomicU64, Ordering};
use std::sync::Arc;
use vstd::prelude::*;

use crate::apply::{Apply, GenSnapStep, GenTabletSnapshot};
use crate::signal::SignalEvent;
use crate::snap_state::GenSnapTask;

verus! {

/// Nothing about the applying side changes but what it did to shared cells.
pub open spec fn same_progress(a: Apply, b: Apply) -> bool {
    &&& a.tombstone == b.tombstone
    &&& a.applied_index == b.applied_index
    &&& a.applied_term == b.applied_term
    &&& a.region_state == b.region_state
}

/// A task of a peer that is gone is canceled: its flag is raised. One whose flag read raised
/// is dropped and one whose flag read lowered goes on, as it came, after a flush; for these
/// nothing changes.
pub proof fn law_task_goes_on_unless_canceled_or_gone(
    apply: &mut Apply,
    snap_task: GenSnapTask,
    canceled_now: bool,
    step: GenSnapStep,
)
    requires
        call_ensures(
            Apply::schedule_gen_snapshot_given,
            (apply, snap_task, canceled_now),
            step,
        ),
    ensures
        step is Destroyed <==> old(apply).tombstone,
        step is Canceled <==> !old(apply).tombstone && canceled_now,
        step is Flush <==> !old(apply).tombstone && !canceled_now,
        step matches GenSnapStep::Flush(task) ==> task == snap_task,
        step is Destroyed ==> {
            &&& final(apply).signals@ == old(apply).signals@.push(
                SignalEvent::Raised(snap_task.canceled),
            )
            &&& call_ensures(AtomicBool::store, (&*snap_task.canceled, true, Ordering::SeqCst), ())
            &&& same_progress(*final(apply), *old(apply))
        },
        step !is Destroyed ==> *final(apply) == *old(apply),
{
}

/// Whether a task of a peer that is still there goes on is what a load of its own flag says.
pub proof fn law_task_goes_by_its_own_flag(
    apply: &mut Apply,
    snap_task: GenSnapTask,
    step: GenSnapStep,
)
    requires
        call_ensures(Apply::schedule_gen_snapshot, (apply, snap_task), step),
    ensures
        step is Destroyed <==> old(apply).tombstone,
        step is Canceled ==> call_ensures(
            AtomicBool::load,
            (&*snap_task.canceled, Ordering::SeqCst),
            true,
        ),
        step matches GenSnapStep::Flush(task) ==> task == snap_task && call_ensures(
            AtomicBool::load,
            (&*snap_task.canceled, Ordering::SeqCst),
            false,
        ),
        step is Destroyed ==> {
            &&& final(apply).signals@ == old(apply).signals@.push(
                SignalEvent::Raised(snap_task.canceled),
            )
            &&& call_ensures(AtomicBool::store, (&*snap_task.canceled, true, Ordering::SeqCst), ())
            &&& same_progress(*final(apply), *old(apply))
        },
        step !is Destroyed ==> *final(apply) == *old(apply),
{
}

/// The worker's task works for whoever asked: it names the region and the peer of the
/// request, is for balance if the request is, and watches the request's flag.
pub proof fn law_worker_serves_the_request(
    apply: &mut Apply,
    snap_task: GenSnapTask,
    task: GenTabletSnapshot,
)
    requires
        call_ensures(Apply::gen_snapshot_flushed, (apply, &snap_task), task),
    ensures
        task.region_id == snap_task.region_id,
        task.to_peer == snap_task.to_peer,
        task.for_balance == snap_task.for_balance,
        task.canceled == snap_task.canceled,
{
}

/// The region state in the worker's task equals the one that the applying side holds, in
/// every field, and the applied index and term are those of the applying side, before and
/// after. That very index is stored in the request's index cell.
pub proof fn law_worker_gets_the_applied_state(
    apply: &mut Apply,
    snap_task: GenSnapTask,
    task: GenTabletSnapshot,
)
    requires
        call_ensures(Apply::gen_snapshot_flushed, (apply, &snap_task), task),
    ensures
        ({
            let held = old(apply).region_state;
            let sent = task.region_state;
            &&& sent.state == held.state
            &&& sent.tablet_index == held.tablet_index
            &&& sent.region.id == held.region.id
            &&& sent.region.start_key@ == held.region.start_key@
            &&& sent.region.end_key@ == held.region.end_key@
            &&& sent.region.region_epoch == held.region.region_epoch
            &&& sent.region.peers@ == held.region.peers@
        }),
        task.last_applied_index == old(apply).applied_index,
        task.last_applied_term == old(apply).applied_term,
        same_progress(*final(apply), *old(apply)),
        final(apply).signals@ == old(apply).signals@.push(
            SignalEvent::Published(snap_task.index, task.last_applied_index),
        ),
        call_ensures(
            AtomicU64::store,
            (&*snap_task.index, task.last_applied_index, Ordering::SeqCst),
            (),
        ),
{
    let held = old(apply).region_state;
    let sent = task.region_state;
    assert(sent@ == held@);
    assert(sent@.region == held@.region);
}

/// A task that the worker's queue takes is left alone; the flag of one that it refuses is
/// raised. Nothing else changes.
pub proof fn law_refusal_raises_the_flag(
    apply: &mut Apply,
    snap_task: GenSnapTask,
    accepted: bool,
)
    requires
        call_ensures(Apply::gen_snapshot_queued, (apply, &snap_task, accepted), ()),
    ensures
        accepted ==> *final(apply) == *old(apply),
        !accepted ==> {
            &&& final(apply).signals@ == old(apply).signals@.push(
                SignalEvent::Raised(snap_task.canceled),
            )
            &&& call_ensures(AtomicBool::store, (&*snap_task.canceled, true, Ordering::SeqCst), ())
            &&& same_progress(*final(apply), *old(apply))
        },
{
}

/// A new task is what it is made of, and not for balance.
pub proof fn law_new_task(
    region_id: u64,
    to_peer: u64,
    index: Arc<AtomicU64>,
    canceled: Arc<AtomicBool>,
    task: GenSnapTask,
)
    requires
        call_ensures(GenSnapTask::new, (region_id, to_peer, index, canceled), task),
    ensures
        task.region_id == region_id,
        task.to_peer == to_peer,
        task.index == index,
        task.canceled == canceled,
        !task.for_balance,
{
}

/// Marking a task for balance changes nothing else about it.
pub proof fn law_task_marked_for_balance(task: &mut GenSnapTask)
    requires
        call_ensures(GenSnapTask::set_for_balance, (task,), ()),
    ensures
        final(task).for_balance,
        final(task).region_id == old(task).region_id,
        final(task).to_peer == old(task).to_peer,
        final(task).index == old(task).index,
        final(task).canceled == old(task).canceled,
{
}

/// A task is taken in any state, whatever its flag reads and whatever the queue answers.
pub proof fn law_task_may_come_at_any_time(
    apply: &mut Apply,
    snap_task: GenSnapTask,
    canceled_now: bool,
    accepted: bool,
)
    ensures
        call_requires(Apply::schedule_gen_snapshot, (apply, snap_task)),
        call_requires(Apply::schedule_gen_snapshot_given, (apply, snap_task, canceled_now)),
        call_requires(Apply::gen_snapshot_flushed, (apply, &snap_task)),
        call_requires(Apply::gen_snapshot_queued, (apply, &snap_task, accepted)),
{
}

} // verus!
