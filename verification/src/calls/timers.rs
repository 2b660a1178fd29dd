//! What scheduling timers and handling them does.
use vstd::prelude::*;

use crate::fsm::{tick_model, PeerFsm, PeerFsmDelegate, StoreContext};
use crate::msg::{HostCall, LocalStep, PeerTypes};
use crate::tick::{
    lemma_registry_add, PeerTick, ScheduledTick, TickModel, WaitDuration, TICK_COUNT,
};

verus! {

/// Each timer has its own place among the timers, in the order in which they are declared.
pub proof fn law_tick_positions(tick: PeerTick, idx: usize)
    requires
        call_ensures(PeerTick::index, (tick,), idx),
    ensures
        idx < TICK_COUNT,
        idx == tick.position(),
        tick is Raft <==> idx == 0,
        tick is RaftLogGc <==> idx == 1,
        tick is SplitRegionCheck <==> idx == 2,
        tick is PdHeartbeat <==> idx == 3,
        tick is CheckMerge <==> idx == 4,
        tick is CheckPeerStaleState <==> idx == 5,
        tick is EntryCacheEvict <==> idx == 6,
        tick is CheckLeaderLease <==> idx == 7,
        tick is ReactivateMemoryLock <==> idx == 8,
        tick is ReportBuckets <==> idx == 9,
        tick is CheckLongUncommitted <==> idx == 10,
{
}

/// A timer is in a registry exactly if the bit at its position is set.
pub proof fn law_registry_holds_one_bit_per_tick(registry: u16, tick: PeerTick)
    ensures
        tick.is_in(registry) <==> (registry >> (tick.position() as u16)) & 1 == 1,
{
    let i = tick.position() as u16;
    assert((registry & (1u16 << i) != 0) <==> ((registry >> i) & 1 == 1)) by (bit_vector)
        requires
            i < 16,
    ;
}

/// A timer is disabled exactly if it would wait no time at all.
pub proof fn law_zero_wait_disables(wait: WaitDuration, zero: bool)
    requires
        call_ensures(WaitDuration::is_zero_duration, (&wait,), zero),
    ensures
        zero <==> wait.secs == 0 && wait.subsec_nanos == 0,
{
}

/// The timer waits some time before it fires, so it is not disabled.
pub open spec fn enabled<T: PeerTypes, R>(ctx: StoreContext<T, R>, tick: PeerTick) -> bool {
    let wait = ctx.tick_batch@[tick.position()].wait_duration;
    wait.secs != 0 || wait.subsec_nanos != 0
}

/// The scheduled timers of the kind.
pub open spec fn queue<T: PeerTypes, R>(ctx: StoreContext<T, R>, tick: PeerTick) -> Seq<
    ScheduledTick<T>,
> {
    ctx.tick_batch@[tick.position()].ticks@
}

/// The two stores go by the same settings, find mailboxes in the same way, and have the same
/// kinds of timers with the same waits.
pub open spec fn same_store<T: PeerTypes, R>(
    a: StoreContext<T, R>,
    b: StoreContext<T, R>,
) -> bool {
    &&& a.cfg == b.cfg
    &&& a.router == b.router
    &&& a.tick_batch@.len() == b.tick_batch@.len()
    &&& forall|i: int|
        0 <= i < a.tick_batch@.len() ==> (#[trigger] a.tick_batch@[i]).wait_duration
            == b.tick_batch@[i].wait_duration
}

/// Of the timer, neither the registration nor the queue differs.
pub open spec fn same_timer<T: PeerTypes, R>(
    a: (PeerFsm<T>, StoreContext<T, R>),
    b: (PeerFsm<T>, StoreContext<T, R>),
    tick: PeerTick,
) -> bool {
    &&& tick.is_in(a.0.tick_registry) <==> tick.is_in(b.0.tick_registry)
    &&& queue(a.1, tick) == queue(b.1, tick)
}

/// The timer, which was not registered, is registered, and its queue got one more entry: the
/// timer itself, for the mailbox.
pub open spec fn timer_added<T: PeerTypes, R>(
    pre: (PeerFsm<T>, StoreContext<T, R>),
    post: (PeerFsm<T>, StoreContext<T, R>),
    tick: PeerTick,
    mailbox: T::Mailbox,
) -> bool {
    &&& !tick.is_in(pre.0.tick_registry)
    &&& tick.is_in(post.0.tick_registry)
    &&& queue(post.1, tick) == queue(pre.1, tick).push(ScheduledTick { mailbox, tick })
}

/// Nothing about the two peers differs but perhaps which timers are registered, which are
/// pending and how many ticks were counted.
pub open spec fn same_but_timers<T: PeerTypes>(a: PeerFsm<T>, b: PeerFsm<T>) -> bool {
    &&& a.mailbox == b.mailbox
    &&& a.receiver == b.receiver
    &&& a.is_stopped == b.is_stopped
    &&& a.peer.storage == b.peer.storage
    &&& a.peer.persisted_index == b.peer.persisted_index
    &&& a.peer.is_leader == b.peer.is_leader
    &&& a.peer.lead_transferee == b.peer.lead_transferee
    &&& a.peer.has_ready == b.peer.has_ready
}

/// What the queues of a store are, one by one.
proof fn lemma_queues<T: PeerTypes, R>(ctx: StoreContext<T, R>)
    ensures
        ctx.queues().len() == ctx.tick_batch@.len(),
        ctx.waits().len() == ctx.tick_batch@.len(),
        forall|i: int|
            0 <= i < ctx.tick_batch@.len() ==> #[trigger] ctx.queues()[i]
                == ctx.tick_batch@[i].ticks@,
        forall|i: int|
            0 <= i < ctx.tick_batch@.len() ==> #[trigger] ctx.waits()[i]
                == ctx.tick_batch@[i].wait_duration,
{
}

/// Stores that differ only in their queues are the same otherwise.
proof fn lemma_same_store<T: PeerTypes, R>(a: StoreContext<T, R>, b: StoreContext<T, R>)
    requires
        a.differs_only_in_queues(b),
    ensures
        same_store(a, b),
{
    lemma_queues(a);
    lemma_queues(b);
    assert forall|i: int| 0 <= i < a.tick_batch@.len() implies (#[trigger]
    a.tick_batch@[i]).wait_duration == b.tick_batch@[i].wait_duration by {
        assert(a.waits()[i] == b.waits()[i]);
    }
}

/// What scheduling a timer comes to, once its mailbox has been looked for.
proof fn lemma_schedule<T: PeerTypes, R: Fn(u64) -> Option<T::Mailbox>>(
    pre: (PeerFsm<T>, StoreContext<T, R>),
    post: (PeerFsm<T>, StoreContext<T, R>),
    tick: PeerTick,
    found: Option<T::Mailbox>,
)
    requires
        pre.1.tick_batch@.len() >= TICK_COUNT,
        PeerFsmDelegate::schedule_post(pre, post, tick, found),
    ensures
        same_store(post.1, pre.1),
        post.0 == (PeerFsm { tick_registry: post.0.tick_registry, ..pre.0 }),
        tick_model(pre.0, pre.1).needs_mailbox(pre.1.waits(), tick) <==> enabled(pre.1, tick)
            && !tick.is_in(pre.0.tick_registry),
        found is Some && enabled(pre.1, tick) && !tick.is_in(pre.0.tick_registry)
            ==> timer_added(pre, post, tick, found->0),
        !(found is Some && enabled(pre.1, tick) && !tick.is_in(pre.0.tick_registry))
            ==> same_timer(pre, post, tick),
        forall|other: PeerTick| other != tick ==> #[trigger] same_timer(pre, post, other),
{
    lemma_queues(pre.1);
    lemma_queues(post.1);
    lemma_same_store(post.1, pre.1);
    let model = tick_model(pre.0, pre.1);
    let after = model.scheduling(pre.1.waits(), tick, found);
    lemma_registry_add(pre.0.tick_registry, tick, tick);
    assert(pre.1.waits()[tick.position()] == pre.1.tick_batch@[tick.position()].wait_duration);
    assert(post.1.queues()[tick.position()] == after.queues[tick.position()]);
    assert forall|other: PeerTick| other != tick implies #[trigger] same_timer(
        pre,
        post,
        other,
    ) by {
        lemma_registry_add(pre.0.tick_registry, tick, other);
        assert(other.position() != tick.position());
        assert(post.1.queues()[other.position()] == after.queues[other.position()]);
        assert(pre.1.queues()[other.position()] == model.queues[other.position()]);
    }
}

/// A timer is scheduled exactly if its mailbox was found, it is enabled and it was not
/// registered. It is then registered, and goes to the end of its own queue with that mailbox;
/// otherwise nothing changes. No other timer is touched, and nothing else of the peer or the
/// store.
pub proof fn law_timer_is_scheduled_when_it_can_be<
    'a,
    T: PeerTypes,
    R: Fn(u64) -> Option<T::Mailbox>,
>(delegate: &mut PeerFsmDelegate<'a, T, R>, tick: PeerTick, found: Option<T::Mailbox>)
    requires
        old(delegate).store_ctx.tick_batch@.len() >= TICK_COUNT,
        call_ensures(
            PeerFsmDelegate::<'a, T, R>::schedule_tick_given,
            (delegate, tick, found),
            (),
        ),
    ensures
        ({
            let pre = (*old(delegate).fsm, *old(delegate).store_ctx);
            let post = (*final(delegate).fsm, *final(delegate).store_ctx);
            let goes = found is Some && enabled(pre.1, tick) && !tick.is_in(pre.0.tick_registry);
            &&& goes ==> timer_added(pre, post, tick, found->0)
            &&& !goes ==> same_timer(pre, post, tick)
            &&& forall|other: PeerTick| other != tick ==> #[trigger] same_timer(pre, post, other)
            &&& same_store(post.1, pre.1)
            &&& post.0 == PeerFsm { tick_registry: post.0.tick_registry, ..pre.0 }
        }),
{
    let pre = (*old(delegate).fsm, *old(delegate).store_ctx);
    let post = (*final(delegate).fsm, *final(delegate).store_ctx);
    lemma_schedule(pre, post, tick, found);
}

/// Scheduling a timer may have added it for a mailbox that the router gave for the peer's
/// region; or it left everything alone, because the timer was registered or is disabled, or
/// because the router gave none.
pub open spec fn scheduled_or_not<T: PeerTypes, R: Fn(u64) -> Option<T::Mailbox>>(
    pre: (PeerFsm<T>, StoreContext<T, R>),
    post: (PeerFsm<T>, StoreContext<T, R>),
    tick: PeerTick,
) -> bool {
    let region_id = pre.0.peer.storage.region_state.region.id;
    ||| {
        &&& same_timer(pre, post, tick)
        &&& {
            ||| tick.is_in(pre.0.tick_registry)
            ||| !enabled(pre.1, tick)
            ||| call_ensures(pre.1.router, (region_id,), None)
        }
    }
    ||| {
        &&& enabled(pre.1, tick)
        &&& exists|mailbox: T::Mailbox|
            {
                &&& #[trigger] call_ensures(pre.1.router, (region_id,), Some(mailbox))
                &&& timer_added(pre, post, tick, mailbox)
            }
    }
}

/// What scheduling a timer comes to, if the router is asked.
proof fn lemma_may_schedule<T: PeerTypes, R: Fn(u64) -> Option<T::Mailbox>>(
    pre: (PeerFsm<T>, StoreContext<T, R>),
    post: (PeerFsm<T>, StoreContext<T, R>),
    tick: PeerTick,
)
    requires
        pre.1.tick_batch@.len() >= TICK_COUNT,
        PeerFsmDelegate::may_schedule(pre, post, tick),
    ensures
        scheduled_or_not(pre, post, tick),
        forall|other: PeerTick| other != tick ==> #[trigger] same_timer(pre, post, other),
        same_store(post.1, pre.1),
        post.0 == (PeerFsm { tick_registry: post.0.tick_registry, ..pre.0 }),
{
    let region_id = pre.0.peer.storage.region_state.region.id;
    let found = choose|found: Option<T::Mailbox>|
        {
            &&& #[trigger] PeerFsmDelegate::searched(
                tick_model(pre.0, pre.1),
                pre.1,
                region_id,
                tick,
                found,
            )
            &&& PeerFsmDelegate::schedule_post(pre, post, tick, found)
        };
    lemma_schedule(pre, post, tick, found);
    if enabled(pre.1, tick) && !tick.is_in(pre.0.tick_registry) && found is Some {
        let mailbox = found->0;
        assert(call_ensures(pre.1.router, (region_id,), Some(mailbox)));
        assert(timer_added(pre, post, tick, mailbox));
    }
}

/// A timer that is not registered and not disabled is scheduled for what the router finds for
/// the peer's region. No other timer is touched, and nothing else of the peer or the store.
pub proof fn law_timer_goes_to_the_routed_mailbox<
    'a,
    T: PeerTypes,
    R: Fn(u64) -> Option<T::Mailbox>,
>(delegate: &mut PeerFsmDelegate<'a, T, R>, tick: PeerTick)
    requires
        old(delegate).store_ctx.tick_batch@.len() >= TICK_COUNT,
        call_ensures(PeerFsmDelegate::<'a, T, R>::schedule_tick, (delegate, tick), ()),
    ensures
        ({
            let pre = (*old(delegate).fsm, *old(delegate).store_ctx);
            let post = (*final(delegate).fsm, *final(delegate).store_ctx);
            &&& scheduled_or_not(pre, post, tick)
            &&& forall|other: PeerTick| other != tick ==> #[trigger] same_timer(pre, post, other)
            &&& same_store(post.1, pre.1)
            &&& post.0 == PeerFsm { tick_registry: post.0.tick_registry, ..pre.0 }
        }),
{
    let pre = (*old(delegate).fsm, *old(delegate).store_ctx);
    let post = (*final(delegate).fsm, *final(delegate).store_ctx);
    lemma_may_schedule(pre, post, tick);
}

/// A peer that starts schedules its raft timer and no other. It starts applying exactly if it
/// knows the members of its region.
pub proof fn law_start_schedules_raft<
    'a,
    T: PeerTypes,
    R: Fn(u64) -> Option<T::Mailbox>,
>(delegate: &mut PeerFsmDelegate<'a, T, R>, call: Option<HostCall<T>>)
    requires
        old(delegate).store_ctx.tick_batch@.len() >= TICK_COUNT,
        call_ensures(PeerFsmDelegate::<'a, T, R>::on_start, (delegate,), call),
    ensures
        ({
            let pre = (*old(delegate).fsm, *old(delegate).store_ctx);
            let post = (*final(delegate).fsm, *final(delegate).store_ctx);
            &&& scheduled_or_not(pre, post, PeerTick::Raft)
            &&& forall|other: PeerTick|
                other !is Raft ==> #[trigger] same_timer(pre, post, other)
            &&& same_store(post.1, pre.1)
            &&& post.0 == PeerFsm { tick_registry: post.0.tick_registry, ..pre.0 }
            &&& call is Some <==> pre.0.peer.storage.region_state.region.peers@.len() > 0
            &&& call matches Some(c) ==> c is ScheduleApplyFsm
        }),
{
    let pre = (*old(delegate).fsm, *old(delegate).store_ctx);
    let post = (*final(delegate).fsm, *final(delegate).store_ctx);
    lemma_may_schedule(pre, post, PeerTick::Raft);
}

/// What a tick of the timer for memory locks comes to. It does nothing unless the peer leads
/// and disabled the locks for a transfer of leadership. Then it enables them, and forgets the
/// count, if no transfer is going on and this is the configured tick or a later one;
/// otherwise it counts the tick, leaves the locks disabled and schedules itself again.
pub open spec fn reactivated_in_time<T: PeerTypes, R: Fn(u64) -> Option<T::Mailbox>>(
    pre: (PeerFsm<T>, StoreContext<T, R>),
    post: (PeerFsm<T>, StoreContext<T, R>),
) -> bool {
    let waits = pre.0.peer.is_leader && pre.0.peer.locks_status is TransferringLeader;
    let ticks = pre.0.reactivate_memory_lock_ticks + 1;
    let due = pre.0.peer.lead_transferee is None && ticks
        >= pre.1.cfg.reactive_memory_lock_timeout_tick;
    &&& !waits ==> post == pre
    &&& waits && due ==> {
        &&& post.0.peer.locks_status is Normal
        &&& post.0.reactivate_memory_lock_ticks == 0
        &&& post.0.tick_registry == pre.0.tick_registry
        &&& post.1 == pre.1
    }
    &&& waits && !due ==> {
        &&& post.0.peer.locks_status is TransferringLeader
        &&& post.0.reactivate_memory_lock_ticks == ticks
        &&& scheduled_or_not(pre, post, PeerTick::ReactivateMemoryLock)
        &&& forall|other: PeerTick|
            other !is ReactivateMemoryLock ==> #[trigger] same_timer(pre, post, other)
        &&& same_store(post.1, pre.1)
    }
    &&& post.0.peer.pending_ticks == pre.0.peer.pending_ticks
    &&& same_but_timers(post.0, pre.0)
}

/// Why that is what it comes to.
proof fn lemma_reactivation<T: PeerTypes, R: Fn(u64) -> Option<T::Mailbox>>(
    pre: (PeerFsm<T>, StoreContext<T, R>),
    post: (PeerFsm<T>, StoreContext<T, R>),
)
    requires
        pre.1.tick_batch@.len() >= TICK_COUNT,
        pre.0.peer.is_leader && pre.0.peer.locks_status is TransferringLeader
            ==> pre.0.reactivate_memory_lock_ticks < usize::MAX,
        PeerFsmDelegate::may_reactivate(pre, post),
    ensures
        reactivated_in_time(pre, post),
{
    let waits = pre.0.peer.is_leader && pre.0.peer.locks_status is TransferringLeader;
    let ticks = (pre.0.reactivate_memory_lock_ticks + 1) as usize;
    if waits && !(pre.0.peer.lead_transferee is None && ticks
        >= pre.1.cfg.reactive_memory_lock_timeout_tick) {
        let counted = PeerFsm { reactivate_memory_lock_ticks: ticks, ..pre.0 };
        let tick = PeerTick::ReactivateMemoryLock;
        lemma_may_schedule((counted, pre.1), post, tick);
        let region_id = pre.0.peer.storage.region_state.region.id;
        if enabled(pre.1, tick) && !same_timer((counted, pre.1), post, tick) {
            let mailbox = choose|mailbox: T::Mailbox|
                {
                    &&& #[trigger] call_ensures(pre.1.router, (region_id,), Some(mailbox))
                    &&& timer_added((counted, pre.1), post, tick, mailbox)
                };
            assert(timer_added(pre, post, tick, mailbox));
        }
        assert forall|other: PeerTick| other !is ReactivateMemoryLock implies #[trigger] same_timer(
            pre,
            post,
            other,
        ) by {
            assert(same_timer((counted, pre.1), post, other));
        }
    }
}

/// Memory locks that were disabled for a transfer of leadership are enabled in time, not
/// before and not during a transfer, and the timer goes on until then.
pub proof fn law_locks_are_reactivated_in_time<
    'a,
    T: PeerTypes,
    R: Fn(u64) -> Option<T::Mailbox>,
>(delegate: &mut PeerFsmDelegate<'a, T, R>)
    requires
        old(delegate).store_ctx.tick_batch@.len() >= TICK_COUNT,
        old(delegate).fsm.peer.is_leader && old(delegate).fsm.peer.locks_status
            is TransferringLeader ==> old(delegate).fsm.reactivate_memory_lock_ticks < usize::MAX,
        call_ensures(
            PeerFsmDelegate::<'a, T, R>::on_reactivate_memory_lock_tick,
            (delegate,),
            (),
        ),
    ensures
        reactivated_in_time(
            (*old(delegate).fsm, *old(delegate).store_ctx),
            (*final(delegate).fsm, *final(delegate).store_ctx),
        ),
{
    lemma_reactivation(
        (*old(delegate).fsm, *old(delegate).store_ctx),
        (*final(delegate).fsm, *final(delegate).store_ctx),
    );
}

/// The timers for raft and for heartbeats call for their handlers outside and change nothing
/// here; the one for memory locks is handled here and calls for nothing.
pub proof fn law_timer_reaches_its_handler<
    'a,
    T: PeerTypes,
    R: Fn(u64) -> Option<T::Mailbox>,
>(delegate: &mut PeerFsmDelegate<'a, T, R>, tick: PeerTick, call: Option<HostCall<T>>)
    requires
        old(delegate).store_ctx.tick_batch@.len() >= TICK_COUNT,
        old(delegate).fsm.peer.is_leader && old(delegate).fsm.peer.locks_status
            is TransferringLeader ==> old(delegate).fsm.reactivate_memory_lock_ticks < usize::MAX,
        call_ensures(PeerFsmDelegate::<'a, T, R>::on_tick, (delegate, tick), call),
    ensures
        ({
            let pre = (*old(delegate).fsm, *old(delegate).store_ctx);
            let post = (*final(delegate).fsm, *final(delegate).store_ctx);
            &&& tick is Raft ==> post == pre && call is Some && call->0 is OnRaftTick
            &&& tick is PdHeartbeat ==> post == pre && call is Some && call->0 is OnPdHeartbeat
            &&& tick is ReactivateMemoryLock ==> call is None && reactivated_in_time(pre, post)
        }),
{
    if tick is ReactivateMemoryLock {
        lemma_reactivation(
            (*old(delegate).fsm, *old(delegate).store_ctx),
            (*final(delegate).fsm, *final(delegate).store_ctx),
        );
    }
}

/// What scheduling several timers in turn does to one of them.
proof fn lemma_scheduling_all<T: PeerTypes, R: Fn(u64) -> Option<T::Mailbox>>(
    model: TickModel<T>,
    ctx: StoreContext<T, R>,
    region_id: u64,
    ticks: Seq<PeerTick>,
    found: Seq<Option<T::Mailbox>>,
    tick: PeerTick,
)
    requires
        model.queues.len() >= TICK_COUNT,
        PeerFsmDelegate::searched_all(model, ctx, region_id, ticks, found),
    ensures
        ({
            let after = model.scheduling_all(ctx.waits(), ticks, found);
            let at = tick.position();
            &&& after.queues.len() == model.queues.len()
            &&& {
                ||| {
                    &&& after.queues[at] == model.queues[at]
                    &&& tick.is_in(after.registry) <==> tick.is_in(model.registry)
                    &&& {
                        ||| !ticks.contains(tick)
                        ||| tick.is_in(model.registry)
                        ||| ctx.waits()[at].is_zero()
                        ||| call_ensures(ctx.router, (region_id,), None)
                    }
                }
                ||| {
                    &&& ticks.contains(tick)
                    &&& !tick.is_in(model.registry)
                    &&& tick.is_in(after.registry)
                    &&& !ctx.waits()[at].is_zero()
                    &&& exists|mailbox: T::Mailbox|
                        {
                            &&& #[trigger] call_ensures(ctx.router, (region_id,), Some(mailbox))
                            &&& after.queues[at] == model.queues[at].push(
                                ScheduledTick { mailbox, tick },
                            )
                        }
                }
            }
        }),
    decreases ticks.len(),
{
    if ticks.len() > 0 {
        let ticks0 = ticks.drop_last();
        let found0 = found.drop_last();
        let last = ticks.last();
        let mid = model.scheduling_all(ctx.waits(), ticks0, found0);
        let after = model.scheduling_all(ctx.waits(), ticks, found);
        lemma_scheduling_all(model, ctx, region_id, ticks0, found0, tick);
        lemma_registry_add(mid.registry, last, tick);
        assert(ticks =~= ticks0.push(last));
        assert(ticks[ticks.len() - 1] == last);
        if ticks0.contains(tick) {
            let k = ticks0.index_of(tick);
            assert(ticks[k] == tick);
        }
        if ticks.contains(tick) && !ticks0.contains(tick) {
            let k = ticks.index_of(tick);
            if k < ticks0.len() {
                assert(ticks0[k] == tick);
            }
            assert(last == tick);
        }
        if last == tick && mid.needs_mailbox(ctx.waits(), tick) && found.last() is Some {
            let mailbox = found.last()->0;
            assert(call_ensures(ctx.router, (region_id,), Some(mailbox)));
        }
    }
}

/// What scheduling the pending timers comes to: none is pending any more. Each that was is
/// scheduled once, as it would be on its own, and no other is touched. If the one for memory
/// locks is among them its count starts anew. Nothing else changes.
pub open spec fn pending_scheduled<T: PeerTypes, R: Fn(u64) -> Option<T::Mailbox>>(
    pre: (PeerFsm<T>, StoreContext<T, R>),
    post: (PeerFsm<T>, StoreContext<T, R>),
) -> bool {
    let pending = pre.0.peer.pending_ticks@;
    &&& post.0.peer.pending_ticks@.len() == 0
    &&& forall|tick: PeerTick| #[trigger]
        pending.contains(tick) ==> scheduled_or_not(pre, post, tick)
    &&& forall|tick: PeerTick|
        !pending.contains(tick) ==> #[trigger] same_timer(pre, post, tick)
    &&& post.0.reactivate_memory_lock_ticks == if pending.contains(
        PeerTick::ReactivateMemoryLock,
    ) {
        0
    } else {
        pre.0.reactivate_memory_lock_ticks
    }
    &&& post.0.peer.locks_status == pre.0.peer.locks_status
    &&& same_but_timers(post.0, pre.0)
    &&& same_store(post.1, pre.1)
}

/// Why that is what it comes to.
proof fn lemma_pending<T: PeerTypes, R: Fn(u64) -> Option<T::Mailbox>>(
    pre: (PeerFsm<T>, StoreContext<T, R>),
    post: (PeerFsm<T>, StoreContext<T, R>),
)
    requires
        pre.1.tick_batch@.len() >= TICK_COUNT,
        PeerFsmDelegate::may_schedule_pending(pre, post),
    ensures
        pending_scheduled(pre, post),
{
    let region_id = pre.0.peer.storage.region_state.region.id;
    let pending = pre.0.peer.pending_ticks@;
    let model = tick_model(pre.0, pre.1);
    let found = choose|found: Seq<Option<T::Mailbox>>|
        {
            &&& PeerFsmDelegate::searched_all(model, pre.1, region_id, pending, found)
            &&& #[trigger] PeerFsmDelegate::pending_post(pre, post, found)
        };
    let after = model.scheduling_all(pre.1.waits(), pending, found);
    lemma_queues(pre.1);
    lemma_queues(post.1);
    lemma_same_store(post.1, pre.1);
    assert forall|tick: PeerTick|
        (pending.contains(tick) ==> scheduled_or_not(pre, post, tick)) && (!pending.contains(tick)
            ==> #[trigger] same_timer(pre, post, tick)) by {
        let at = tick.position();
        lemma_scheduling_all(model, pre.1, region_id, pending, found, tick);
        assert(post.1.queues()[at] == post.1.tick_batch@[at].ticks@);
        assert(pre.1.queues()[at] == pre.1.tick_batch@[at].ticks@);
        assert(pre.1.waits()[at] == pre.1.tick_batch@[at].wait_duration);
        if !same_timer(pre, post, tick) {
            let mailbox = choose|mailbox: T::Mailbox|
                {
                    &&& #[trigger] call_ensures(pre.1.router, (region_id,), Some(mailbox))
                    &&& after.queues[at] == model.queues[at].push(ScheduledTick { mailbox, tick })
                };
            assert(timer_added(pre, post, tick, mailbox));
        }
    }
    assert forall|tick: PeerTick| #[trigger] pending.contains(tick) implies scheduled_or_not(
        pre,
        post,
        tick,
    ) by {
        assert(same_timer(pre, post, tick) || !same_timer(pre, post, tick));
    }
}

/// The timers that handling a message asked for are scheduled, each once.
pub proof fn law_pending_timers_are_scheduled<
    'a,
    T: PeerTypes,
    R: Fn(u64) -> Option<T::Mailbox>,
>(delegate: &mut PeerFsmDelegate<'a, T, R>)
    requires
        old(delegate).store_ctx.tick_batch@.len() >= TICK_COUNT,
        call_ensures(PeerFsmDelegate::<'a, T, R>::schedule_pending_ticks, (delegate,), ()),
    ensures
        pending_scheduled(
            (*old(delegate).fsm, *old(delegate).store_ctx),
            (*final(delegate).fsm, *final(delegate).store_ctx),
        ),
{
    lemma_pending(
        (*old(delegate).fsm, *old(delegate).store_ctx),
        (*final(delegate).fsm, *final(delegate).store_ctx),
    );
}

/// A local step does what it is for: it schedules the pending timers, handles a timer, or
/// starts the peer. (For the outcome of a generation, see
/// [`crate::calls::dispatch::law_outcome_is_taken_in_by_the_peer`].)
pub proof fn law_local_step_does_what_it_is_for<
    'a,
    T: PeerTypes,
    R: Fn(u64) -> Option<T::Mailbox>,
>(delegate: &mut PeerFsmDelegate<'a, T, R>, step: LocalStep, call: Option<HostCall<T>>)
    requires
        old(delegate).store_ctx.tick_batch@.len() >= TICK_COUNT,
        old(delegate).fsm.peer.is_leader && old(delegate).fsm.peer.locks_status
            is TransferringLeader ==> old(delegate).fsm.reactivate_memory_lock_ticks < usize::MAX,
        call_ensures(PeerFsmDelegate::<'a, T, R>::on_local, (delegate, step), call),
    ensures
        ({
            let pre = (*old(delegate).fsm, *old(delegate).store_ctx);
            let post = (*final(delegate).fsm, *final(delegate).store_ctx);
            match step {
                LocalStep::PendingTicks => call is None && pending_scheduled(pre, post),
                LocalStep::Tick(PeerTick::Raft) => {
                    &&& post == pre
                    &&& call matches Some(c) && c is OnRaftTick
                },
                LocalStep::Tick(PeerTick::PdHeartbeat) => {
                    &&& post == pre
                    &&& call matches Some(c) && c is OnPdHeartbeat
                },
                LocalStep::Tick(PeerTick::ReactivateMemoryLock) => {
                    &&& call is None
                    &&& reactivated_in_time(pre, post)
                },
                LocalStep::Tick(_) => true,
                LocalStep::Start => {
                    &&& scheduled_or_not(pre, post, PeerTick::Raft)
                    &&& forall|other: PeerTick|
                        other !is Raft ==> #[trigger] same_timer(pre, post, other)
                    &&& same_store(post.1, pre.1)
                    &&& post.0 == (PeerFsm { tick_registry: post.0.tick_registry, ..pre.0 })
                    &&& call is Some <==> pre.0.peer.storage.region_state.region.peers@.len() > 0
                    &&& call matches Some(c) ==> c is ScheduleApplyFsm
                },
                LocalStep::SnapshotGenerated(_) => {
                    &&& post.1 == pre.1
                    &&& post.0 == (PeerFsm { peer: post.0.peer, ..pre.0 })
                },
            }
        }),
{
    let pre = (*old(delegate).fsm, *old(delegate).store_ctx);
    let post = (*final(delegate).fsm, *final(delegate).store_ctx);
    match step {
        LocalStep::PendingTicks => {
            lemma_pending(pre, post);
        },
        LocalStep::Tick(tick) => {
            if tick is ReactivateMemoryLock {
                lemma_reactivation(pre, post);
            }
        },
        LocalStep::Start => {
            lemma_may_schedule(pre, post, PeerTick::Raft);
        },
        LocalStep::SnapshotGenerated(_) => {},
    }
}

/// All that scheduling and handling timers needs is a queue for each kind of timer and a
/// router that can be asked for the peer's region; and for the timer for memory locks, that
/// the ticks that it counts can be counted.
pub proof fn law_timers_may_be_handled<
    'a,
    T: PeerTypes,
    R: Fn(u64) -> Option<T::Mailbox>,
>(
    delegate: &mut PeerFsmDelegate<'a, T, R>,
    tick: PeerTick,
    found: Option<T::Mailbox>,
    step: LocalStep,
)
    requires
        old(delegate).store_ctx.tick_batch@.len() >= TICK_COUNT,
        call_requires(
            old(delegate).store_ctx.router,
            (old(delegate).fsm.peer.storage.region_state.region.id,),
        ),
    ensures
        ({
            let peer = old(delegate).fsm.peer;
            let countable = peer.is_leader && peer.locks_status is TransferringLeader ==> old(
                delegate,
            ).fsm.reactivate_memory_lock_ticks < usize::MAX;
            &&& call_requires(PeerFsmDelegate::<'a, T, R>::schedule_tick, (delegate, tick))
            &&& call_requires(
                PeerFsmDelegate::<'a, T, R>::schedule_tick_given,
                (delegate, tick, found),
            )
            &&& call_requires(PeerFsmDelegate::<'a, T, R>::schedule_pending_ticks, (delegate,))
            &&& call_requires(PeerFsmDelegate::<'a, T, R>::on_start, (delegate,))
            &&& countable ==> call_requires(
                PeerFsmDelegate::<'a, T, R>::on_reactivate_memory_lock_tick,
                (delegate,),
            )
            &&& tick is Raft || tick is PdHeartbeat || tick is ReactivateMemoryLock && countable
                ==> call_requires(PeerFsmDelegate::<'a, T, R>::on_tick, (delegate, tick))
            &&& step !is Tick || countable && step == LocalStep::Tick(tick) && (tick is Raft
                || tick is PdHeartbeat || tick is ReactivateMemoryLock) ==> call_requires(
                PeerFsmDelegate::<'a, T, R>::on_local,
                (delegate, step),
            )
        }),
{
}

} // verus!
