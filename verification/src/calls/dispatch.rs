//! What receiving messages, and turning them into steps, does.
use crossbeam::channel::Receiver;
use std::sync::atomic::{AtomicU64, Ordering};
use vstd::prelude::*;

use crate::calls::storage::{counted, flag_was_raised, same_replica};
use crate::fsm::{PeerFsm, PeerFsmDelegate, StoreContext};
use crate::inbox::{channel_gives, Inbox, TryRecvError};
use crate::laws::law_batches_compose;
use crate::meta::Snapshot;
use crate::msg::{batch_steps, HostCall, LocalStep, PeerMsg, PeerStep, PeerTypes};
use crate::peer::Peer;
use crate::snap_state::SnapState;
use crate::storage::{FailureCounters, Storage};
use crate::tick::PeerTick;

verus! {

/// A new peer has its queue, from which nothing was taken, and has neither an address nor
/// scheduled timers; it is not stopped and has counted no ticks.
pub proof fn law_new_peer_is_idle<T: PeerTypes>(
    peer: Peer<T>,
    receiver: Receiver<PeerMsg<T>>,
    fsm: PeerFsm<T>,
    tick: PeerTick,
)
    requires
        call_ensures(PeerFsm::<T>::new, (peer, receiver), fsm),
    ensures
        fsm.peer == peer,
        fsm.receiver.receiver() == receiver,
        fsm.receiver.taken().len() == 0,
        fsm.mailbox is None,
        !fsm.is_stopped,
        !tick.is_in(fsm.tick_registry),
        fsm.reactivate_memory_lock_ticks == 0,
{
    let key = tick.key();
    assert(0u16 & key == 0) by (bit_vector);
}

/// Looking at a peer's parts shows what they are.
pub proof fn law_peer_parts_are_shown<T: PeerTypes>(
    fsm: PeerFsm<T>,
    peer: Peer<T>,
    stopped: bool,
)
    ensures
        call_ensures(PeerFsm::<T>::peer, (&fsm,), &peer) ==> peer == fsm.peer,
        call_ensures(PeerFsm::<T>::is_stopped, (&fsm,), stopped) ==> stopped == fsm.is_stopped,
{
}

/// What is done to the peer that was handed out is done to the peer of the message loop, and
/// to nothing else of it.
pub proof fn law_peer_is_changed_in_place<T: PeerTypes>(
    fsm: &mut PeerFsm<T>,
    peer: &mut Peer<T>,
)
    requires
        call_ensures(PeerFsm::<T>::peer_mut, (fsm,), peer),
    ensures
        *old(peer) == old(fsm).peer,
        final(fsm).peer == *final(peer),
        final(fsm).mailbox == old(fsm).mailbox,
        final(fsm).receiver == old(fsm).receiver,
        final(fsm).tick_registry == old(fsm).tick_registry,
        final(fsm).is_stopped == old(fsm).is_stopped,
        final(fsm).reactivate_memory_lock_ticks == old(fsm).reactivate_memory_lock_ticks,
{
}

/// The address that a peer was given is the one that it has, until it is taken; then it has
/// none. Neither changes anything else.
pub proof fn law_mailbox_is_kept_until_taken<T: PeerTypes>(
    given: &mut PeerFsm<T>,
    taken: &mut PeerFsm<T>,
    mailbox: T::Mailbox,
    back: Option<T::Mailbox>,
)
    requires
        call_ensures(PeerFsm::<T>::set_mailbox, (given, mailbox), ()),
        call_ensures(PeerFsm::<T>::take_mailbox, (taken,), back),
        *old(taken) == *final(given),
    ensures
        final(given).mailbox == Some(mailbox),
        back == Some(mailbox),
        final(taken).mailbox is None,
        *final(taken) == (PeerFsm { mailbox: None, ..*old(given) }),
{
}

/// A peer without an address has none to give; taking it changes nothing but the address.
pub proof fn law_mailbox_is_taken_as_it_is<T: PeerTypes>(
    fsm: &mut PeerFsm<T>,
    mailbox: Option<T::Mailbox>,
)
    requires
        call_ensures(PeerFsm::<T>::take_mailbox, (fsm,), mailbox),
    ensures
        mailbox == old(fsm).mailbox,
        final(fsm).mailbox is None,
        final(fsm).peer == old(fsm).peer,
        final(fsm).receiver == old(fsm).receiver,
        final(fsm).tick_registry == old(fsm).tick_registry,
        final(fsm).is_stopped == old(fsm).is_stopped,
        final(fsm).reactivate_memory_lock_ticks == old(fsm).reactivate_memory_lock_ticks,
{
}

/// A new inbox has taken nothing off its channel. Each time one takes, what the channel gave
/// is what comes back and the newest on record, and the channel stays the same.
pub proof fn law_inbox_records_what_it_takes<M>(
    receiver: Receiver<M>,
    made: Inbox<M>,
    inbox: &mut Inbox<M>,
    outcome: Result<M, TryRecvError>,
)
    requires
        call_ensures(Inbox::<M>::new, (receiver,), made),
        call_ensures(Inbox::<M>::take, (inbox,), outcome),
    ensures
        made.receiver() == receiver,
        made.taken().len() == 0,
        channel_gives(old(inbox).receiver(), outcome),
        final(inbox).receiver() == old(inbox).receiver(),
        final(inbox).taken().len() == old(inbox).taken().len() + 1,
        final(inbox).taken().last() == outcome,
        final(inbox).taken().drop_last() == old(inbox).taken(),
{
    assert(final(inbox).taken().drop_last() =~= old(inbox).taken());
}

/// A message that came off the channel goes to the end of the buffer, and receiving goes on.
/// Without a message it ends and the buffer stays; the peer stops if none will come.
pub proof fn law_received_message_is_buffered<T: PeerTypes>(
    fsm: &mut PeerFsm<T>,
    outcome: Result<PeerMsg<T>, TryRecvError>,
    buf: &mut Vec<PeerMsg<T>>,
    more: bool,
)
    requires
        call_ensures(PeerFsm::<T>::on_received, (fsm, outcome, buf), more),
    ensures
        more <==> outcome is Ok,
        outcome matches Ok(msg) ==> {
            &&& final(buf)@.len() == old(buf)@.len() + 1
            &&& final(buf)@.last() == msg
            &&& final(buf)@.drop_last() == old(buf)@
        },
        outcome is Err ==> final(buf)@ == old(buf)@,
        final(fsm).is_stopped <==> old(fsm).is_stopped || outcome == Err::<PeerMsg<T>, _>(
            TryRecvError::Disconnected,
        ),
        final(fsm).peer == old(fsm).peer,
        final(fsm).mailbox == old(fsm).mailbox,
        final(fsm).receiver == old(fsm).receiver,
        final(fsm).tick_registry == old(fsm).tick_registry,
        final(fsm).reactivate_memory_lock_ticks == old(fsm).reactivate_memory_lock_ticks,
{
    if outcome is Ok {
        assert(final(buf)@.drop_last() =~= old(buf)@);
    }
}

/// What receiving takes off the channel is what the record grows by: the messages that the
/// buffer grows by, in order, and a reading without a message if and only if there was room
/// for more. As many were fetched as the result says; the peer stops if the last reading
/// told that none will come. Nothing else changes.
pub proof fn law_recv_moves_messages_to_the_buffer<T: PeerTypes>(
    fsm: &mut PeerFsm<T>,
    buf: &mut Vec<PeerMsg<T>>,
    batch_size: usize,
    fetched: usize,
)
    requires
        call_ensures(PeerFsm::<T>::recv, (fsm, buf, batch_size), fetched),
    ensures
        ({
            let l = old(buf)@.len();
            let before = old(fsm).receiver.taken();
            let after = final(fsm).receiver.taken();
            let full = l + fetched >= batch_size;
            &&& final(buf)@.len() == l + fetched
            &&& old(buf)@.is_prefix_of(final(buf)@)
            &&& fetched > 0 ==> l + fetched <= batch_size
            &&& before.is_prefix_of(after)
            &&& after.len() == before.len() + fetched + if full {
                0int
            } else {
                1
            }
            &&& forall|i: int|
                0 <= i < fetched ==> #[trigger] after[before.len() + i] == Ok::<
                    PeerMsg<T>,
                    TryRecvError,
                >(final(buf)@[l + i])
            &&& forall|i: int|
                before.len() <= i < after.len() ==> channel_gives(
                    old(fsm).receiver.receiver(),
                    #[trigger] after[i],
                )
            &&& !full ==> after.last() is Err
            &&& final(fsm).is_stopped <==> old(fsm).is_stopped || !full && after.last() == Err::<
                PeerMsg<T>,
                _,
            >(TryRecvError::Disconnected)
        }),
        final(fsm).receiver.receiver() == old(fsm).receiver.receiver(),
        final(fsm).peer == old(fsm).peer,
        final(fsm).mailbox == old(fsm).mailbox,
        final(fsm).tick_registry == old(fsm).tick_registry,
        final(fsm).reactivate_memory_lock_ticks == old(fsm).reactivate_memory_lock_ticks,
{
    let outcomes = choose|outcomes: Seq<Result<PeerMsg<T>, TryRecvError>>|
        PeerFsm::recv_post(
            *old(fsm),
            *final(fsm),
            old(buf)@,
            final(buf)@,
            batch_size,
            outcomes,
            fetched,
        );
    let l = old(buf)@.len() as int;
    let before = old(fsm).receiver.taken();
    let after = final(fsm).receiver.taken();
    assert forall|i: int| 0 <= i < fetched implies #[trigger] after[before.len() + i] == Ok::<
        PeerMsg<T>,
        TryRecvError,
    >(final(buf)@[l + i]) by {
        assert(after[before.len() + i] == outcomes[i]);
    }
    assert forall|i: int| before.len() <= i < after.len() implies channel_gives(
        old(fsm).receiver.receiver(),
        #[trigger] after[i],
    ) by {
        assert(after[i] == outcomes[i - before.len()]);
    }
}

/// How many steps the message calls for.
pub open spec fn step_count<T: PeerTypes>(msg: PeerMsg<T>) -> nat {
    match msg {
        PeerMsg::RaftMessage(_) | PeerMsg::RaftQuery(_) | PeerMsg::RaftCommand(_) => 2,
        PeerMsg::Noop => 0,
        _ => 1,
    }
}

/// At which step the handling of the `i`-th message begins.
pub open spec fn first_step<T: PeerTypes>(msgs: Seq<PeerMsg<T>>, i: int) -> int
    decreases i,
{
    if i <= 0 {
        0
    } else {
        first_step(msgs, i - 1) + step_count(msgs[i - 1])
    }
}

/// The steps of a batch are those of its messages, one after the other.
proof fn lemma_steps_of_message<T: PeerTypes>(msgs: Seq<PeerMsg<T>>, i: int)
    requires
        0 <= i < msgs.len(),
    ensures
        batch_steps(msgs.take(i)).len() == first_step(msgs, i),
        msgs[i].steps().len() == step_count(msgs[i]),
        batch_steps(msgs).len() >= first_step(msgs, i) + step_count(msgs[i]),
        forall|j: int|
            0 <= j < step_count(msgs[i]) ==> #[trigger] msgs[i].steps()[j] == batch_steps(
                msgs,
            )[first_step(msgs, i) + j],
    decreases i,
{
    let head = msgs.take(i);
    let upto = msgs.take(i + 1);
    if i > 0 {
        lemma_steps_of_message(msgs, i - 1);
        assert(head.drop_last() =~= msgs.take(i - 1));
        assert(head.last() == msgs[i - 1]);
    }
    assert(upto.drop_last() =~= head);
    assert(upto.last() == msgs[i]);
    assert(msgs =~= upto + msgs.skip(i + 1));
    law_batches_compose(upto, msgs.skip(i + 1));
    let done = batch_steps(head);
    let own = msgs[i].steps();
    let rest = batch_steps(msgs.skip(i + 1));
    assert(batch_steps(upto) == done + own);
    assert(batch_steps(msgs) == done + own + rest);
    assert forall|j: int| 0 <= j < step_count(msgs[i]) implies #[trigger] msgs[i].steps()[j]
        == batch_steps(msgs)[first_step(msgs, i) + j] by {
        assert((done + own)[done.len() + j] == own[j]);
        assert((done + own + rest)[done.len() + j] == (done + own)[done.len() + j]);
    }
}

/// All steps of a batch belong to some message.
proof fn lemma_step_total<T: PeerTypes>(msgs: Seq<PeerMsg<T>>)
    ensures
        batch_steps(msgs).len() == first_step(msgs, msgs.len() as int),
{
    if msgs.len() > 0 {
        let n = msgs.len() as int;
        lemma_steps_of_message(msgs, n - 1);
        assert(msgs.drop_last() =~= msgs.take(n - 1));
    }
}

/// Handling a batch empties the buffer and changes nothing about the peer. There are as many
/// steps as the messages call for, and one more, the last: the writes that were batched up
/// are proposed.
pub proof fn law_batch_ends_with_proposing<
    'a,
    T: PeerTypes,
    R: Fn(u64) -> Option<T::Mailbox>,
>(
    delegate: &mut PeerFsmDelegate<'a, T, R>,
    buf: &mut Vec<PeerMsg<T>>,
    steps: Vec<PeerStep<T>>,
)
    requires
        call_ensures(PeerFsmDelegate::<'a, T, R>::on_msgs, (delegate, buf), steps),
    ensures
        final(buf)@.len() == 0,
        *final(delegate) == *old(delegate),
        steps@.len() == first_step(old(buf)@, old(buf)@.len() as int) + 1,
        steps@.last() == PeerStep::<T>::Host(HostCall::ProposePendingWrites),
{
    lemma_step_total(old(buf)@);
}

/// Every message of a batch reaches its handler, in its turn and with all that it carries.
/// A raft message is followed by the timers that it asked for; for a request, how long it
/// waited is recorded first, then it goes on with the channel for its answer.
pub proof fn law_each_message_reaches_its_handler<
    'a,
    T: PeerTypes,
    R: Fn(u64) -> Option<T::Mailbox>,
>(
    delegate: &mut PeerFsmDelegate<'a, T, R>,
    buf: &mut Vec<PeerMsg<T>>,
    steps: Vec<PeerStep<T>>,
    i: int,
)
    requires
        call_ensures(PeerFsmDelegate::<'a, T, R>::on_msgs, (delegate, buf), steps),
        0 <= i < old(buf)@.len(),
    ensures
        ({
            let at = first_step(old(buf)@, i);
            let step = steps@[at];
            let next = steps@[at + 1];
            &&& at + step_count(old(buf)@[i]) < steps@.len()
            &&& match old(buf)@[i] {
                PeerMsg::RaftMessage(msg) => {
                    &&& step matches PeerStep::Host(HostCall::OnRaftMessage(m)) && m == msg
                    &&& next matches PeerStep::Local(LocalStep::PendingTicks)
                },
                PeerMsg::RaftQuery(cmd) => {
                    &&& step matches PeerStep::Host(HostCall::ObserveProposeWait(t)) && t
                        == cmd.send_time
                    &&& next matches PeerStep::Host(HostCall::OnQuery { request, query_ch })
                        && request == cmd.request && query_ch == cmd.ch
                },
                PeerMsg::RaftCommand(cmd) => {
                    &&& step matches PeerStep::Host(HostCall::ObserveProposeWait(t)) && t
                        == cmd.send_time
                    &&& next matches PeerStep::Host(HostCall::OnCommand { request, command_ch })
                        && request == cmd.request && command_ch == cmd.ch
                },
                PeerMsg::Tick(tick) => step matches PeerStep::Local(LocalStep::Tick(t)) && t
                    == tick,
                PeerMsg::ApplyRes(res) => step matches PeerStep::Host(HostCall::OnApplyRes(r))
                    && r == res,
                PeerMsg::SplitInit(init) => step matches PeerStep::Host(HostCall::OnSplitInit(s))
                    && s == init,
                PeerMsg::SplitInitFinish(region_id) => step matches PeerStep::Host(
                    HostCall::OnSplitInitFinish(id),
                ) && id == region_id,
                PeerMsg::Start => step matches PeerStep::Local(LocalStep::Start),
                PeerMsg::Noop => true,
                PeerMsg::Persisted { peer_id, ready_number } => step matches PeerStep::Host(
                    HostCall::OnPersisted { peer_id: p, ready_number: n },
                ) && p == peer_id && n == ready_number,
                PeerMsg::LogsFetched(logs) => step matches PeerStep::Host(
                    HostCall::OnLogsFetched(l),
                ) && l == logs,
                PeerMsg::SnapshotGenerated(res) => step matches PeerStep::Local(
                    LocalStep::SnapshotGenerated(r),
                ) && r == res,
                PeerMsg::QueryDebugInfo(ch) => step matches PeerStep::Host(
                    HostCall::OnQueryDebugInfo(c),
                ) && c == ch,
                PeerMsg::DataFlushed { cf, tablet_index, flushed_index } => step matches
                    PeerStep::Host(
                    HostCall::OnDataFlushed { cf: f, tablet_index: t, flushed_index: i },
                ) && f == cf && t == tablet_index && i == flushed_index,
                PeerMsg::WaitFlush(ch) => step matches PeerStep::Host(HostCall::OnWaitFlush(c))
                    && c == ch,
            }
        }),
{
    let msgs = old(buf)@;
    let at = first_step(msgs, i);
    lemma_steps_of_message(msgs, i);
    let own = msgs[i].steps();
    if own.len() > 0 {
        assert(own[0] == batch_steps(msgs)[at + 0]);
        assert(steps@[at] == own[0]);
    }
    if own.len() > 1 {
        assert(own[1] == batch_steps(msgs)[at + 1]);
        assert(steps@[at + 1] == own[1]);
    }
}

/// From the message to the storage: if a batch tells that a generation ended with a snapshot,
/// the step for it makes a storage that is generating hold that very snapshot, and the
/// followers are contacted, unless a load of the index cell gives a later index.
pub proof fn law_generated_snapshot_arrives<
    'a,
    T: PeerTypes,
    R: Fn(u64) -> Option<T::Mailbox>,
>(
    delegate: &mut PeerFsmDelegate<'a, T, R>,
    buf: &mut Vec<PeerMsg<T>>,
    steps: Vec<PeerStep<T>>,
    i: int,
    snap: Box<Snapshot>,
    working: &mut PeerFsmDelegate<'a, T, R>,
    step: LocalStep,
    call: Option<HostCall<T>>,
)
    requires
        call_ensures(PeerFsmDelegate::<'a, T, R>::on_msgs, (delegate, buf), steps),
        0 <= i < old(buf)@.len(),
        old(buf)@[i] == PeerMsg::<T>::SnapshotGenerated(Some(snap)),
        steps@[first_step(old(buf)@, i)] == PeerStep::<T>::Local(step),
        call_ensures(PeerFsmDelegate::<'a, T, R>::on_local, (working, step), call),
        old(working).fsm.peer.storage.snap_state is Generating,
        forall|at: u64| #[trigger]
            call_ensures(
                AtomicU64::load,
                (&*old(working).fsm.peer.storage.snap_state->index, Ordering::SeqCst),
                at,
            ) ==> at <= snap.metadata.index,
    ensures
        final(working).fsm.peer.storage.snap_state == SnapState::Generated(snap),
        final(working).fsm.peer.has_ready,
        call == Some(HostCall::<T>::Ping),
{
    law_each_message_reaches_its_handler(delegate, buf, steps, i);
}

/// The step for the end of a generation hands its outcome to the peer. Followers are contacted
/// exactly if the peer's storage holds a snapshot now that it did not hold before: the one
/// that came. Without one, a generation in progress is called off. Otherwise only timers and
/// queues could differ, and do not.
pub proof fn law_outcome_is_taken_in_by_the_peer<
    'a,
    T: PeerTypes,
    R: Fn(u64) -> Option<T::Mailbox>,
>(
    delegate: &mut PeerFsmDelegate<'a, T, R>,
    res: Option<Box<Snapshot>>,
    call: Option<HostCall<T>>,
)
    requires
        call_ensures(
            PeerFsmDelegate::<'a, T, R>::on_local,
            (delegate, LocalStep::SnapshotGenerated(res)),
            call,
        ),
    ensures
        ({
            let was = old(delegate).fsm.peer;
            let now = final(delegate).fsm.peer;
            &&& call matches Some(c) ==> c is Ping
            &&& now.has_ready <==> was.has_ready || call is Some
            &&& call is Some ==> {
                &&& res is Some
                &&& was.storage.snap_state is Generating
                &&& now.storage == (Storage {
                    snap_state: SnapState::Generated(res->0),
                    ..was.storage
                })
            }
            &&& was.storage.snap_state !is Generating ==> call is None && now == was
            &&& was.storage.snap_state matches SnapState::Generating { index, .. } ==> match res {
                None => {
                    &&& call is None
                    &&& now.storage.snap_state is Relax
                    &&& now.storage.gen_snap_task is None
                    &&& flag_was_raised(was.storage, was.storage.signals@, now.storage.signals@)
                    &&& now.storage.failures == (FailureCounters {
                        cancel: counted(was.storage.failures.cancel, true),
                        ..was.storage.failures
                    })
                    &&& same_replica(now.storage, was.storage)
                },
                Some(snap) => exists|at: u64|
                    {
                        &&& #[trigger] call_ensures(
                            AtomicU64::load,
                            (&*index, Ordering::SeqCst),
                            at,
                        )
                        &&& call is Some <==> snap.metadata.index >= at
                        &&& call is None ==> now == was
                    },
            }
            &&& now == (Peer { storage: now.storage, has_ready: now.has_ready, ..was })
        }),
        *final(delegate).fsm == (PeerFsm {
            peer: final(delegate).fsm.peer,
            ..*old(delegate).fsm
        }),
        *final(delegate).store_ctx == *old(delegate).store_ctx,
{
    let was = old(delegate).fsm.peer;
    let now = final(delegate).fsm.peer;
    let (at, ping) = choose|at: u64, ping: bool|
        {
            &&& was.storage.index_reads(at)
            &&& #[trigger] Peer::generated_post(was, now, res, at, ping)
            &&& call == if ping {
                Some(HostCall::<T>::Ping)
            } else {
                None
            }
        };
    if was.storage.snap_state is Generating {
        let index = was.storage.snap_state->index;
        assert(call_ensures(AtomicU64::load, (&*index, Ordering::SeqCst), at));
    }
}

/// A message has a handler unless it is the empty one or tells that a timer without a handler
/// fired; and of the timers, those for raft, for heartbeats and for reactivating memory locks
/// have one.
pub proof fn law_handlers<T: PeerTypes>(
    msg: PeerMsg<T>,
    tick: PeerTick,
    handled: bool,
    tick_handled: bool,
)
    requires
        call_ensures(PeerMsg::<T>::has_handler, (&msg,), handled),
        call_ensures(PeerTick::has_handler, (tick,), tick_handled),
    ensures
        tick_handled <==> {
            ||| tick is Raft
            ||| tick is PdHeartbeat
            ||| tick is ReactivateMemoryLock
        },
        msg is Noop ==> !handled,
        msg == PeerMsg::<T>::Tick(tick) ==> handled == tick_handled,
        msg !is Noop && msg !is Tick ==> handled,
{
}

/// A batch may be handled if every message in it has a handler.
pub proof fn law_batch_may_be_handled<
    'a,
    T: PeerTypes,
    R: Fn(u64) -> Option<T::Mailbox>,
>(delegate: &mut PeerFsmDelegate<'a, T, R>, buf: &mut Vec<PeerMsg<T>>)
    requires
        forall|i: int|
            0 <= i < old(buf)@.len() ==> {
                let msg = #[trigger] old(buf)@[i];
                &&& msg !is Noop
                &&& msg matches PeerMsg::Tick(tick) ==> {
                    ||| tick is Raft
                    ||| tick is PdHeartbeat
                    ||| tick is ReactivateMemoryLock
                }
            },
    ensures
        call_requires(PeerFsmDelegate::<'a, T, R>::on_msgs, (delegate, buf)),
{
    assert forall|i: int| 0 <= i < old(buf)@.len() implies (#[trigger] old(
        buf,
    )@[i]).is_handled() by {
        let msg = old(buf)@[i];
    }
}

/// A delegate works on the very peer and store that it is made of.
pub proof fn law_delegate_works_on_its_peer<
    'a,
    T: PeerTypes,
    R: Fn(u64) -> Option<T::Mailbox>,
>(
    fsm: &'a mut PeerFsm<T>,
    store_ctx: &'a mut StoreContext<T, R>,
    delegate: PeerFsmDelegate<'a, T, R>,
)
    requires
        call_ensures(PeerFsmDelegate::<'a, T, R>::new, (fsm, store_ctx), delegate),
    ensures
        *old(delegate.fsm) == *old(fsm),
        *old(delegate.store_ctx) == *old(store_ctx),
        *final(delegate.fsm) == *final(fsm),
        *final(delegate.store_ctx) == *final(store_ctx),
{
}

/// Messages are received whatever the buffer holds and however large a batch is.
pub proof fn law_messages_are_received_at_any_time<T: PeerTypes>(
    fsm: &mut PeerFsm<T>,
    buf: &mut Vec<PeerMsg<T>>,
    batch_size: usize,
    outcome: Result<PeerMsg<T>, TryRecvError>,
)
    ensures
        call_requires(PeerFsm::<T>::recv, (fsm, buf, batch_size)),
        call_requires(PeerFsm::<T>::on_received, (fsm, outcome, buf)),
{
}

} // verus!
