//! The message loop of a peer: receiving messages, dispatching them, scheduling timers.
use crossbeam::channel::Receiver;
use vstd::prelude::*;

use crate::inbox::{channel_gives, Inbox, TryRecvError};
use crate::msg::{batch_steps, HostCall, LocalStep, PeerMsg, PeerStep, PeerTypes};
use crate::peer::{LocksStatus, Peer};
use crate::tick::{PeerTick, PeerTickBatch, ScheduledTick, TickModel, WaitDuration, TICK_COUNT};

verus! {

/// A peer with its message queue.
#[verifier::reject_recursive_types(T)]
pub struct PeerFsm<T: PeerTypes> {
    pub peer: Peer<T>,
    /// The address of the queue, for messages of the peer to itself.
    pub mailbox: Option<T::Mailbox>,
    pub receiver: Inbox<PeerMsg<T>>,
    /// The timers that have been scheduled, one bit each, so that none is scheduled twice.
    pub tick_registry: u16,
    pub is_stopped: bool,
    /// How often the timer for reactivating memory locks has fired since it was asked for.
    pub reactivate_memory_lock_ticks: usize,
}

impl<T: PeerTypes> PeerFsm<T> {
    /// A peer that receives from `receiver` and has not started.
    pub fn new(peer: Peer<T>, receiver: Receiver<PeerMsg<T>>) -> (fsm: PeerFsm<T>)
        ensures
            fsm.receiver.receiver() == receiver,
            fsm.receiver.taken() == Seq::<Result<PeerMsg<T>, TryRecvError>>::empty(),
            fsm == (PeerFsm {
                peer,
                mailbox: None,
                receiver: fsm.receiver,
                tick_registry: 0,
                is_stopped: false,
                reactivate_memory_lock_ticks: 0,
            }),
    {
        PeerFsm {
            peer,
            mailbox: None,
            receiver: Inbox::new(receiver),
            tick_registry: 0,
            is_stopped: false,
            reactivate_memory_lock_ticks: 0,
        }
    }

    pub fn peer(&self) -> (peer: &Peer<T>)
        ensures
            *peer == self.peer,
    {
        &self.peer
    }

    pub fn peer_mut(&mut self) -> (peer: &mut Peer<T>)
        ensures
            *peer == old(self).peer,
            *final(self) == (PeerFsm { peer: *final(peer), ..*old(self) }),
    {
        &mut self.peer
    }

    /// Whether the peer will not receive any more messages.
    pub fn is_stopped(&self) -> (stopped: bool)
        ensures
            stopped == self.is_stopped,
    {
        self.is_stopped
    }

    /// Gives the peer the address of its own queue.
    pub fn set_mailbox(&mut self, mailbox: T::Mailbox)
        ensures
            *final(self) == (PeerFsm { mailbox: Some(mailbox), ..*old(self) }),
    {
        self.mailbox = Some(mailbox);
    }

    /// Takes the address of its own queue from the peer.
    pub fn take_mailbox(&mut self) -> (mailbox: Option<T::Mailbox>)
        ensures
            mailbox == old(self).mailbox,
            *final(self) == (PeerFsm { mailbox: None, ..*old(self) }),
    {
        self.mailbox.take()
    }

    /// `outcomes` is all that was taken off the peer's queue, one after the other: a run of
    /// messages that ends when there is no more room or when there is no message. The
    /// messages are added to the buffer; that the senders are gone stops the peer.
    pub open spec fn recv_post(
        pre: PeerFsm<T>,
        post: PeerFsm<T>,
        pre_buf: Seq<PeerMsg<T>>,
        post_buf: Seq<PeerMsg<T>>,
        batch_size: usize,
        outcomes: Seq<Result<PeerMsg<T>, TryRecvError>>,
        fetched: usize,
    ) -> bool {
        let room = if pre_buf.len() <= batch_size {
            batch_size - pre_buf.len()
        } else {
            0
        };
        let ended = outcomes.len() > 0 && outcomes.last() is Err;
        &&& fetched == if ended {
            outcomes.len() - 1
        } else {
            outcomes.len() as int
        }
        &&& fetched <= room
        &&& ended || fetched == room
        &&& ended ==> fetched < room
        &&& forall|i: int|
            0 <= i < outcomes.len() ==> channel_gives(
                pre.receiver.receiver(),
                #[trigger] outcomes[i],
            )
        &&& post.receiver.receiver() == pre.receiver.receiver()
        &&& post.receiver.taken() == pre.receiver.taken() + outcomes
        &&& forall|i: int| 0 <= i < fetched ==> #[trigger] outcomes[i] is Ok
        &&& post_buf == pre_buf + Seq::new(fetched as nat, |i: int| outcomes[i]->Ok_0)
        &&& post == PeerFsm {
            is_stopped: pre.is_stopped || ended && outcomes.last()
                == Err::<PeerMsg<T>, _>(TryRecvError::Disconnected),
            receiver: post.receiver,
            ..pre
        }
    }

    /// Fetches messages to `peer_msg_buf` until it holds `batch_size` of them or no more
    /// message waits. Returns how many messages were fetched: none, if it held as many
    /// before. What is not fetched stays in the queue.
    pub fn recv(&mut self, peer_msg_buf: &mut Vec<PeerMsg<T>>, batch_size: usize) -> (fetched:
        usize)
        ensures
            exists|outcomes: Seq<Result<PeerMsg<T>, TryRecvError>>|
                PeerFsm::recv_post(
                    *old(self),
                    *final(self),
                    old(peer_msg_buf)@,
                    final(peer_msg_buf)@,
                    batch_size,
                    outcomes,
                    fetched,
                ),
    {
        let l: usize = peer_msg_buf.len();
        let ghost mut outcomes: Seq<Result<PeerMsg<T>, TryRecvError>> = seq![];
        if l >= batch_size {
            assert(peer_msg_buf@ =~= old(peer_msg_buf)@ + Seq::new(0, |j: int| outcomes[j]->Ok_0));
            assert(PeerFsm::recv_post(
                *old(self),
                *self,
                old(peer_msg_buf)@,
                peer_msg_buf@,
                batch_size,
                outcomes,
                0,
            ));
            return 0;
        }
        let mut i: usize = l;
        while i < batch_size
            invariant
                l <= i <= batch_size,
                l == old(peer_msg_buf)@.len(),
                outcomes.len() == i - l,
                forall|j: int|
                    0 <= j < outcomes.len() ==> channel_gives(
                        old(self).receiver.receiver(),
                        #[trigger] outcomes[j],
                    ),
                forall|j: int| 0 <= j < outcomes.len() ==> #[trigger] outcomes[j] is Ok,
                peer_msg_buf@ == old(peer_msg_buf)@ + Seq::new(
                    outcomes.len(),
                    |j: int| outcomes[j]->Ok_0,
                ),
                self.receiver.receiver() == old(self).receiver.receiver(),
                self.receiver.taken() == old(self).receiver.taken() + outcomes,
                *self == (PeerFsm { receiver: self.receiver, ..*old(self) }),
            decreases batch_size - i,
        {
            let outcome = self.receiver.take();
            proof {
                outcomes = outcomes.push(outcome);
            }
            if !self.on_received(outcome, peer_msg_buf) {
                assert(peer_msg_buf@ =~= old(peer_msg_buf)@ + Seq::new(
                    (i - l) as nat,
                    |j: int| outcomes[j]->Ok_0,
                ));
                assert(PeerFsm::recv_post(
                    *old(self),
                    *self,
                    old(peer_msg_buf)@,
                    peer_msg_buf@,
                    batch_size,
                    outcomes,
                    (i - l) as usize,
                ));
                return i - l;
            }
            i += 1;
            assert(peer_msg_buf@ =~= old(peer_msg_buf)@ + Seq::new(
                outcomes.len(),
                |j: int| outcomes[j]->Ok_0,
            ));
        }
        assert(PeerFsm::recv_post(
            *old(self),
            *self,
            old(peer_msg_buf)@,
            peer_msg_buf@,
            batch_size,
            outcomes,
            (batch_size - l) as usize,
        ));
        batch_size - l
    }

    /// Takes what came off the channel; returns whether to go on receiving.
    pub fn on_received(
        &mut self,
        outcome: Result<PeerMsg<T>, TryRecvError>,
        peer_msg_buf: &mut Vec<PeerMsg<T>>,
    ) -> (more: bool)
        ensures
            match outcome {
                Ok(msg) => {
                    &&& more
                    &&& final(peer_msg_buf)@ == old(peer_msg_buf)@.push(msg)
                    &&& *final(self) == *old(self)
                },
                Err(e) => {
                    &&& !more
                    &&& *final(peer_msg_buf) == *old(peer_msg_buf)
                    &&& *final(self) == PeerFsm {
                        is_stopped: old(self).is_stopped || e is Disconnected,
                        ..*old(self)
                    }
                },
            },
    {
        match outcome {
            Ok(msg) => {
                peer_msg_buf.push(msg);
                true
            },
            Err(e) => {
                if let TryRecvError::Disconnected = e {
                    self.is_stopped = true;
                }
                false
            },
        }
    }
}

/// The settings that a peer goes by.
#[derive(Clone, Copy, PartialEq, Eq, Structural, Debug)]
pub struct Config {
    /// After how many ticks in-memory locks are reactivated if a leader transfer does not
    /// happen.
    pub reactive_memory_lock_timeout_tick: usize,
}

/// What the peers of a store share. `router` finds the mailbox of a region.
pub struct StoreContext<T: PeerTypes, R> {
    pub cfg: Config,
    /// The scheduled timers, by kind.
    pub tick_batch: Vec<PeerTickBatch<T>>,
    pub router: R,
}

impl<T: PeerTypes, R> StoreContext<T, R> {
    /// There is a queue for each kind of timer.
    pub open spec fn wf(self) -> bool {
        self.tick_batch@.len() >= TICK_COUNT
    }

    /// How long the timers of each kind wait.
    pub open spec fn waits(self) -> Seq<WaitDuration> {
        self.tick_batch@.map_values(|b: PeerTickBatch<T>| b.wait_duration)
    }

    /// The scheduled timers of each kind.
    pub open spec fn queues(self) -> Seq<Seq<ScheduledTick<T>>> {
        self.tick_batch@.map_values(|b: PeerTickBatch<T>| b.ticks@)
    }

    /// Everything but the scheduled timers is as in `other`.
    pub open spec fn differs_only_in_queues(self, other: StoreContext<T, R>) -> bool {
        &&& self.cfg == other.cfg
        &&& self.router == other.router
        &&& self.waits() == other.waits()
    }
}

/// The registry of `fsm` and the queues of `ctx`.
pub open spec fn tick_model<T: PeerTypes, R>(
    fsm: PeerFsm<T>,
    ctx: StoreContext<T, R>,
) -> TickModel<T> {
    TickModel { registry: fsm.tick_registry, queues: ctx.queues() }
}

/// The router of `ctx` can be asked for the mailbox of the peer's region.
pub open spec fn may_ask_router<T: PeerTypes, R: Fn(u64) -> Option<T::Mailbox>>(
    fsm: PeerFsm<T>,
    ctx: StoreContext<T, R>,
) -> bool {
    call_requires(ctx.router, (fsm.peer.storage.region_state.region.id,))
}

/// Whether scheduling the timer comes as far as looking for the peer's mailbox.
fn wants_mailbox<T: PeerTypes, R>(
    fsm: &PeerFsm<T>,
    store_ctx: &StoreContext<T, R>,
    tick: PeerTick,
) -> (wants: bool)
    requires
        store_ctx.wf(),
    ensures
        wants == tick_model(*fsm, *store_ctx).needs_mailbox(store_ctx.waits(), tick),
{
    let idx: usize = tick.index();
    let key: u16 = 1u16 << (idx as u16);
    fsm.tick_registry & key == 0
        && !store_ctx.tick_batch[idx].wait_duration.is_zero_duration()
}

/// Whether the peer leads and has disabled in-memory locks for a transfer of leadership.
pub open spec fn awaits_transfer<T: PeerTypes>(peer: Peer<T>) -> bool {
    peer.is_leader && peer.locks_status is TransferringLeader
}

/// Adds the steps that a message calls for.
fn push_steps<T: PeerTypes>(steps: &mut Vec<PeerStep<T>>, msg: PeerMsg<T>)
    ensures
        final(steps)@ == old(steps)@ + msg.steps(),
{
    match msg {
        PeerMsg::RaftMessage(msg) => {
            steps.push(PeerStep::Host(HostCall::OnRaftMessage(msg)));
            steps.push(PeerStep::Local(LocalStep::PendingTicks));
        },
        PeerMsg::RaftQuery(cmd) => {
            steps.push(PeerStep::Host(HostCall::ObserveProposeWait(cmd.send_time)));
            steps.push(
                PeerStep::Host(HostCall::OnQuery { request: cmd.request, query_ch: cmd.ch }),
            );
        },
        PeerMsg::RaftCommand(cmd) => {
            steps.push(PeerStep::Host(HostCall::ObserveProposeWait(cmd.send_time)));
            steps.push(
                PeerStep::Host(HostCall::OnCommand { request: cmd.request, command_ch: cmd.ch }),
            );
        },
        PeerMsg::Tick(tick) => steps.push(PeerStep::Local(LocalStep::Tick(tick))),
        PeerMsg::ApplyRes(res) => steps.push(PeerStep::Host(HostCall::OnApplyRes(res))),
        PeerMsg::SplitInit(init) => steps.push(PeerStep::Host(HostCall::OnSplitInit(init))),
        PeerMsg::SplitInitFinish(region_id) => steps.push(
            PeerStep::Host(HostCall::OnSplitInitFinish(region_id)),
        ),
        PeerMsg::Start => steps.push(PeerStep::Local(LocalStep::Start)),
        PeerMsg::Noop => {},
        PeerMsg::Persisted { peer_id, ready_number } => steps.push(
            PeerStep::Host(HostCall::OnPersisted { peer_id, ready_number }),
        ),
        PeerMsg::LogsFetched(logs) => steps.push(PeerStep::Host(HostCall::OnLogsFetched(logs))),
        PeerMsg::SnapshotGenerated(res) => steps.push(
            PeerStep::Local(LocalStep::SnapshotGenerated(res)),
        ),
        PeerMsg::QueryDebugInfo(ch) => steps.push(
            PeerStep::Host(HostCall::OnQueryDebugInfo(ch)),
        ),
        PeerMsg::DataFlushed { cf, tablet_index, flushed_index } => steps.push(
            PeerStep::Host(HostCall::OnDataFlushed { cf, tablet_index, flushed_index }),
        ),
        PeerMsg::WaitFlush(ch) => steps.push(PeerStep::Host(HostCall::OnWaitFlush(ch))),
    }
    assert(steps@ =~= old(steps)@ + msg.steps());
}

/// A peer at work in its store.
#[verifier::reject_recursive_types(T)]
pub struct PeerFsmDelegate<'a, T: PeerTypes, R> {
    pub fsm: &'a mut PeerFsm<T>,
    pub store_ctx: &'a mut StoreContext<T, R>,
}

impl<'a, T: PeerTypes, R: Fn(u64) -> Option<T::Mailbox>> PeerFsmDelegate<'a, T, R> {
    pub fn new(fsm: &'a mut PeerFsm<T>, store_ctx: &'a mut StoreContext<T, R>) -> (delegate:
        PeerFsmDelegate<'a, T, R>)
        ensures
            *delegate.fsm == *old(fsm),
            *delegate.store_ctx == *old(store_ctx),
            *final(fsm) == *final(delegate.fsm),
            *final(store_ctx) == *final(delegate.store_ctx),
    {
        PeerFsmDelegate { fsm, store_ctx }
    }

    /// Scheduling `tick` turns `pre` into `post`, where the search for the peer's mailbox
    /// came back with `found`.
    pub open spec fn schedule_post(
        pre: (PeerFsm<T>, StoreContext<T, R>),
        post: (PeerFsm<T>, StoreContext<T, R>),
        tick: PeerTick,
        found: Option<T::Mailbox>,
    ) -> bool {
        let model = tick_model(pre.0, pre.1).scheduling(pre.1.waits(), tick, found);
        &&& post.0 == PeerFsm { tick_registry: model.registry, ..pre.0 }
        &&& post.1.differs_only_in_queues(pre.1)
        &&& post.1.queues() == model.queues
    }

    /// The router of `ctx` may come back with `found` when asked for the mailbox of the
    /// region, which it is only if scheduling `tick` calls for it.
    pub open spec fn searched(
        model: TickModel<T>,
        ctx: StoreContext<T, R>,
        region_id: u64,
        tick: PeerTick,
        found: Option<T::Mailbox>,
    ) -> bool {
        if model.needs_mailbox(ctx.waits(), tick) {
            call_ensures(ctx.router, (region_id,), found)
        } else {
            found is None
        }
    }

    /// Scheduling `tick` may turn `pre` into `post`: some answer of the router does.
    pub open spec fn may_schedule(
        pre: (PeerFsm<T>, StoreContext<T, R>),
        post: (PeerFsm<T>, StoreContext<T, R>),
        tick: PeerTick,
    ) -> bool {
        exists|found: Option<T::Mailbox>|
            {
                &&& #[trigger] Self::searched(
                    tick_model(pre.0, pre.1),
                    pre.1,
                    pre.0.peer.storage.region_state.region.id,
                    tick,
                    found,
                )
                &&& Self::schedule_post(pre, post, tick, found)
            }
    }

    /// Schedules a timer, unless it has been scheduled before or is disabled.
    pub fn schedule_tick(&mut self, tick: PeerTick)
        requires
            old(self).store_ctx.wf(),
            may_ask_router(*old(self).fsm, *old(self).store_ctx),
        ensures
            Self::may_schedule(
                (*old(self).fsm, *old(self).store_ctx),
                (*final(self).fsm, *final(self).store_ctx),
                tick,
            ),
            final(self).store_ctx.wf(),
            *final(final(self).fsm) == *final(old(self).fsm),
            *final(final(self).store_ctx) == *final(old(self).store_ctx),
    {
        let region_id = self.fsm.peer.region_id();
        let found = if wants_mailbox(&*self.fsm, &*self.store_ctx, tick) {
            (self.store_ctx.router)(region_id)
        } else {
            None
        };
        assert(Self::searched(
            tick_model(*old(self).fsm, *old(self).store_ctx),
            *old(self).store_ctx,
            region_id,
            tick,
            found,
        ));
        self.schedule_tick_given(tick, found);
    }

    /// [`PeerFsmDelegate::schedule_tick`] once the peer's mailbox has been looked for.
    pub fn schedule_tick_given(&mut self, tick: PeerTick, found: Option<T::Mailbox>)
        requires
            old(self).store_ctx.wf(),
        ensures
            Self::schedule_post(
                (*old(self).fsm, *old(self).store_ctx),
                (*final(self).fsm, *final(self).store_ctx),
                tick,
                found,
            ),
            final(self).store_ctx.wf(),
            *final(final(self).fsm) == *final(old(self).fsm),
            *final(final(self).store_ctx) == *final(old(self).store_ctx),
    {
        if !wants_mailbox(&*self.fsm, &*self.store_ctx, tick) {
            return ;
        }
        let Some(mailbox) = found else {
            return ;
        };
        let idx: usize = tick.index();
        let key: u16 = 1u16 << (idx as u16);
        self.fsm.tick_registry = self.fsm.tick_registry | key;
        self.store_ctx.tick_batch[idx].ticks.push(ScheduledTick { mailbox, tick });
        assert(self.store_ctx.waits() =~= old(self).store_ctx.waits());
        assert(self.store_ctx.queues() =~= tick_model(
            *old(self).fsm,
            *old(self).store_ctx,
        ).scheduling(old(self).store_ctx.waits(), tick, found).queues);
    }

    /// Scheduling the timers that the peer asked for turns `pre` into `post`, where the
    /// searches for the peer's mailbox came back with `found`.
    pub open spec fn pending_post(
        pre: (PeerFsm<T>, StoreContext<T, R>),
        post: (PeerFsm<T>, StoreContext<T, R>),
        found: Seq<Option<T::Mailbox>>,
    ) -> bool {
        let ticks = pre.0.peer.pending_ticks@;
        let model = tick_model(pre.0, pre.1).scheduling_all(pre.1.waits(), ticks, found);
        &&& post.0 == PeerFsm {
            peer: Peer { pending_ticks: post.0.peer.pending_ticks, ..pre.0.peer },
            tick_registry: model.registry,
            reactivate_memory_lock_ticks: if ticks.contains(PeerTick::ReactivateMemoryLock) {
                0
            } else {
                pre.0.reactivate_memory_lock_ticks
            },
            ..pre.0
        }
        &&& post.0.peer.pending_ticks@ == Seq::<PeerTick>::empty()
        &&& post.1.differs_only_in_queues(pre.1)
        &&& post.1.queues() == model.queues
    }

    /// The router of `ctx` may come back with `found` in turn while `ticks` are scheduled.
    pub open spec fn searched_all(
        model: TickModel<T>,
        ctx: StoreContext<T, R>,
        region_id: u64,
        ticks: Seq<PeerTick>,
        found: Seq<Option<T::Mailbox>>,
    ) -> bool
        decreases ticks.len(),
    {
        &&& found.len() == ticks.len()
        &&& ticks.len() > 0 ==> {
            let ticks0 = ticks.drop_last();
            let found0 = found.drop_last();
            &&& Self::searched_all(model, ctx, region_id, ticks0, found0)
            &&& Self::searched(
                model.scheduling_all(ctx.waits(), ticks0, found0),
                ctx,
                region_id,
                ticks.last(),
                found.last(),
            )
        }
    }

    /// Scheduling the timers that the peer asked for may turn `pre` into `post`: some
    /// answers of the router do.
    pub open spec fn may_schedule_pending(
        pre: (PeerFsm<T>, StoreContext<T, R>),
        post: (PeerFsm<T>, StoreContext<T, R>),
    ) -> bool {
        exists|found: Seq<Option<T::Mailbox>>|
            {
                &&& Self::searched_all(
                    tick_model(pre.0, pre.1),
                    pre.1,
                    pre.0.peer.storage.region_state.region.id,
                    pre.0.peer.pending_ticks@,
                    found,
                )
                &&& #[trigger] Self::pending_post(pre, post, found)
            }
    }

    /// Schedules the timers that the peer asked for. Asking for reactivation of memory
    /// locks starts its count anew.
    pub fn schedule_pending_ticks(&mut self)
        requires
            old(self).store_ctx.wf(),
            may_ask_router(*old(self).fsm, *old(self).store_ctx),
        ensures
            Self::may_schedule_pending(
                (*old(self).fsm, *old(self).store_ctx),
                (*final(self).fsm, *final(self).store_ctx),
            ),
            final(self).store_ctx.wf(),
            *final(final(self).fsm) == *final(old(self).fsm),
            *final(final(self).store_ctx) == *final(old(self).store_ctx),
    {
        let mut pending_ticks: Vec<PeerTick> = Vec::new();
        core::mem::swap(&mut pending_ticks, &mut self.fsm.peer.pending_ticks);
        let ghost fsm0 = *old(self).fsm;
        let ghost ctx0 = *old(self).store_ctx;
        let ghost region_id = fsm0.peer.storage.region_state.region.id;
        let ghost model0 = tick_model(fsm0, ctx0);
        let ghost emptied = Peer { pending_ticks: self.fsm.peer.pending_ticks, ..fsm0.peer };
        let ghost mut found: Seq<Option<T::Mailbox>> = seq![];
        let n: usize = pending_ticks.len();
        let mut i: usize = 0;
        while i < n
            invariant
                i <= n,
                n == pending_ticks@.len(),
                fsm0 == *old(self).fsm,
                ctx0 == *old(self).store_ctx,
                region_id == fsm0.peer.storage.region_state.region.id,
                model0 == tick_model(fsm0, ctx0),
                emptied == (Peer { pending_ticks: emptied.pending_ticks, ..fsm0.peer }),
                may_ask_router(fsm0, ctx0),
                self.store_ctx.wf(),
                self.store_ctx.differs_only_in_queues(ctx0),
                Self::searched_all(model0, ctx0, region_id, pending_ticks@.take(i as int), found),
                tick_model(*self.fsm, *self.store_ctx) == model0.scheduling_all(
                    ctx0.waits(),
                    pending_ticks@.take(i as int),
                    found,
                ),
                *self.fsm == (PeerFsm {
                    peer: emptied,
                    tick_registry: self.fsm.tick_registry,
                    reactivate_memory_lock_ticks: if pending_ticks@.take(i as int).contains(
                        PeerTick::ReactivateMemoryLock,
                    ) {
                        0
                    } else {
                        fsm0.reactivate_memory_lock_ticks
                    },
                    ..fsm0
                }),
                *final(self.fsm) == *final(old(self).fsm),
                *final(self.store_ctx) == *final(old(self).store_ctx),
            decreases n - i,
        {
            let tick = pending_ticks[i];
            if tick == PeerTick::ReactivateMemoryLock {
                self.fsm.reactivate_memory_lock_ticks = 0;
            }
            let ghost fsm1 = *self.fsm;
            let ghost ctx1 = *self.store_ctx;
            self.schedule_tick(tick);
            proof {
                let one = choose|one: Option<T::Mailbox>|
                    {
                        &&& #[trigger] Self::searched(
                            tick_model(fsm1, ctx1),
                            ctx1,
                            region_id,
                            tick,
                            one,
                        )
                        &&& Self::schedule_post(
                            (fsm1, ctx1),
                            (*self.fsm, *self.store_ctx),
                            tick,
                            one,
                        )
                    };
                let found0 = found;
                found = found.push(one);
                let done = pending_ticks@.take(i as int);
                let next = pending_ticks@.take(i + 1);
                assert(next.drop_last() =~= done);
                assert(found.drop_last() =~= found0);
                assert(next =~= done.push(tick));
                if done.contains(PeerTick::ReactivateMemoryLock) {
                    let k = done.index_of(PeerTick::ReactivateMemoryLock);
                    assert(next[k] == PeerTick::ReactivateMemoryLock);
                }
                if tick == PeerTick::ReactivateMemoryLock {
                    assert(next[i as int] == PeerTick::ReactivateMemoryLock);
                }
            }
            i += 1;
        }
        assert(pending_ticks@.take(n as int) =~= fsm0.peer.pending_ticks@);
        assert(Self::pending_post((fsm0, ctx0), (*self.fsm, *self.store_ctx), found));
    }

    /// The peer starts: its raft timer is scheduled, and a peer that knows its region
    /// starts applying entries.
    pub fn on_start(&mut self) -> (call: Option<HostCall<T>>)
        requires
            old(self).store_ctx.wf(),
            may_ask_router(*old(self).fsm, *old(self).store_ctx),
        ensures
            Self::may_start(
                (*old(self).fsm, *old(self).store_ctx),
                (*final(self).fsm, *final(self).store_ctx),
                call,
            ),
            final(self).store_ctx.wf(),
            *final(final(self).fsm) == *final(old(self).fsm),
            *final(final(self).store_ctx) == *final(old(self).store_ctx),
    {
        self.schedule_tick(PeerTick::Raft);
        if self.fsm.peer.storage.is_initialized() {
            Some(HostCall::ScheduleApplyFsm)
        } else {
            None
        }
    }

    /// Starting the peer may turn `pre` into `post` and call for `call`.
    pub open spec fn may_start(
        pre: (PeerFsm<T>, StoreContext<T, R>),
        post: (PeerFsm<T>, StoreContext<T, R>),
        call: Option<HostCall<T>>,
    ) -> bool {
        &&& Self::may_schedule(pre, post, PeerTick::Raft)
        &&& call == if pre.0.peer.storage.region_state.region.peers@.len() > 0 {
            Some(HostCall::<T>::ScheduleApplyFsm)
        } else {
            None
        }
    }

    /// What the timer for reactivating memory locks may turn `pre` into.
    ///
    /// Only a leader that disabled the locks for a transfer of leadership does anything. It
    /// counts the tick, enables the locks if no transfer is going on and the count has come
    /// to the timeout, and otherwise schedules the timer again.
    pub open spec fn may_reactivate(
        pre: (PeerFsm<T>, StoreContext<T, R>),
        post: (PeerFsm<T>, StoreContext<T, R>),
    ) -> bool {
        let fsm = pre.0;
        if !awaits_transfer(fsm.peer) {
            post == pre
        } else {
            let count = (fsm.reactivate_memory_lock_ticks + 1) as usize;
            if fsm.peer.lead_transferee is None && count
                >= pre.1.cfg.reactive_memory_lock_timeout_tick {
                &&& post.0 == PeerFsm {
                    peer: Peer { locks_status: LocksStatus::Normal, ..fsm.peer },
                    reactivate_memory_lock_ticks: 0,
                    ..fsm
                }
                &&& post.1 == pre.1
            } else {
                Self::may_schedule(
                    (PeerFsm { reactivate_memory_lock_ticks: count, ..fsm }, pre.1),
                    post,
                    PeerTick::ReactivateMemoryLock,
                )
            }
        }
    }

    /// The timer for reactivating memory locks fired.
    pub fn on_reactivate_memory_lock_tick(&mut self)
        requires
            old(self).store_ctx.wf(),
            may_ask_router(*old(self).fsm, *old(self).store_ctx),
            awaits_transfer(old(self).fsm.peer) ==> old(self).fsm.reactivate_memory_lock_ticks
                < usize::MAX,
        ensures
            Self::may_reactivate(
                (*old(self).fsm, *old(self).store_ctx),
                (*final(self).fsm, *final(self).store_ctx),
            ),
            final(self).store_ctx.wf(),
            *final(final(self).fsm) == *final(old(self).fsm),
            *final(final(self).store_ctx) == *final(old(self).store_ctx),
    {
        // A peer that is not the leader need not act: the locks are enabled when the region
        // has a leader here again. The timer only serves transfers that fail.
        if !self.fsm.peer.is_leader || self.fsm.peer.locks_status
            != LocksStatus::TransferringLeader {
            return ;
        }
        self.fsm.reactivate_memory_lock_ticks = self.fsm.reactivate_memory_lock_ticks + 1;
        let transferring_leader = self.fsm.peer.lead_transferee.is_some();
        // The transferee is set some time after the locks are disabled; the count keeps the
        // locks from being enabled in between.
        if !transferring_leader && self.fsm.reactivate_memory_lock_ticks
            >= self.store_ctx.cfg.reactive_memory_lock_timeout_tick {
            self.fsm.peer.locks_status = LocksStatus::Normal;
            self.fsm.reactivate_memory_lock_ticks = 0;
        } else {
            self.schedule_tick(PeerTick::ReactivateMemoryLock);
        }
    }

    /// What a timer may turn `pre` into, and what it calls for.
    pub open spec fn may_tick(
        pre: (PeerFsm<T>, StoreContext<T, R>),
        post: (PeerFsm<T>, StoreContext<T, R>),
        tick: PeerTick,
        call: Option<HostCall<T>>,
    ) -> bool {
        match tick {
            PeerTick::Raft => post == pre && call == Some(HostCall::<T>::OnRaftTick),
            PeerTick::PdHeartbeat => post == pre && call == Some(HostCall::<T>::OnPdHeartbeat),
            PeerTick::ReactivateMemoryLock => Self::may_reactivate(pre, post) && call is None,
            _ => false,
        }
    }

    /// A timer fired.
    pub fn on_tick(&mut self, tick: PeerTick) -> (call: Option<HostCall<T>>)
        requires
            tick.is_handled(),
            old(self).store_ctx.wf(),
            may_ask_router(*old(self).fsm, *old(self).store_ctx),
            tick is ReactivateMemoryLock && awaits_transfer(old(self).fsm.peer) ==> old(
                self,
            ).fsm.reactivate_memory_lock_ticks < usize::MAX,
        ensures
            Self::may_tick(
                (*old(self).fsm, *old(self).store_ctx),
                (*final(self).fsm, *final(self).store_ctx),
                tick,
                call,
            ),
            final(self).store_ctx.wf(),
            *final(final(self).fsm) == *final(old(self).fsm),
            *final(final(self).store_ctx) == *final(old(self).store_ctx),
    {
        match tick {
            PeerTick::Raft => Some(HostCall::OnRaftTick),
            PeerTick::PdHeartbeat => Some(HostCall::OnPdHeartbeat),
            _ => {
                self.on_reactivate_memory_lock_tick();
                None
            },
        }
    }

    /// Empties the buffer and returns the steps that its messages call for, in order. When
    /// all are done, the writes that were batched up meanwhile are proposed.
    pub fn on_msgs(&mut self, peer_msgs_buf: &mut Vec<PeerMsg<T>>) -> (steps: Vec<PeerStep<T>>)
        requires
            forall|i: int|
                0 <= i < old(peer_msgs_buf)@.len() ==> (#[trigger] old(
                    peer_msgs_buf,
                )@[i]).is_handled(),
        ensures
            steps@ == batch_steps(old(peer_msgs_buf)@).push(
                PeerStep::Host(HostCall::ProposePendingWrites),
            ),
            final(peer_msgs_buf)@ == Seq::<PeerMsg<T>>::empty(),
            *final(self) == *old(self),
    {
        let mut msgs: Vec<PeerMsg<T>> = Vec::new();
        core::mem::swap(&mut msgs, peer_msgs_buf);
        let ghost all = msgs@;
        let mut steps: Vec<PeerStep<T>> = Vec::new();
        for msg in iter: msgs
            invariant
                iter.seq() == all,
                steps@ == batch_steps(all.take(iter.index())),
        {
            push_steps(&mut steps, msg);
            assert(all.take(iter.index() + 1).drop_last() =~= all.take(iter.index()));
        }
        assert(all.take(all.len() as int) =~= all);
        steps.push(PeerStep::Host(HostCall::ProposePendingWrites));
        steps
    }

    /// What a local step may turn `pre` into, and what it calls for.
    pub open spec fn may_step(
        pre: (PeerFsm<T>, StoreContext<T, R>),
        post: (PeerFsm<T>, StoreContext<T, R>),
        step: LocalStep,
        call: Option<HostCall<T>>,
    ) -> bool {
        match step {
            LocalStep::PendingTicks => Self::may_schedule_pending(pre, post) && call is None,
            LocalStep::Tick(tick) => Self::may_tick(pre, post, tick, call),
            LocalStep::Start => Self::may_start(pre, post, call),
            LocalStep::SnapshotGenerated(res) => {
                &&& exists|required_index: u64, ping: bool|
                    {
                        &&& pre.0.peer.storage.index_reads(required_index)
                        &&& #[trigger] Peer::generated_post(
                            pre.0.peer,
                            post.0.peer,
                            res,
                            required_index,
                            ping,
                        )
                        &&& call == if ping {
                            Some(HostCall::<T>::Ping)
                        } else {
                            None
                        }
                    }
                &&& post.0 == PeerFsm { peer: post.0.peer, ..pre.0 }
                &&& post.1 == pre.1
            },
        }
    }

    /// Does a local step. The result is what is to be done for it outside, if anything.
    pub fn on_local(&mut self, step: LocalStep) -> (call: Option<HostCall<T>>)
        requires
            old(self).store_ctx.wf(),
            may_ask_router(*old(self).fsm, *old(self).store_ctx),
            match step {
                LocalStep::Tick(tick) => {
                    &&& tick.is_handled()
                    &&& tick is ReactivateMemoryLock && awaits_transfer(old(self).fsm.peer) ==> old(
                        self,
                    ).fsm.reactivate_memory_lock_ticks < usize::MAX
                },
                _ => true,
            },
        ensures
            Self::may_step(
                (*old(self).fsm, *old(self).store_ctx),
                (*final(self).fsm, *final(self).store_ctx),
                step,
                call,
            ),
            final(self).store_ctx.wf(),
            *final(final(self).fsm) == *final(old(self).fsm),
            *final(final(self).store_ctx) == *final(old(self).store_ctx),
    {
        match step {
            LocalStep::PendingTicks => {
                self.schedule_pending_ticks();
                None
            },
            LocalStep::Tick(tick) => self.on_tick(tick),
            LocalStep::Start => self.on_start(),
            LocalStep::SnapshotGenerated(res) => {
                if self.fsm.peer.on_snapshot_generated(res) {
                    Some(HostCall::Ping)
                } else {
                    None
                }
            },
        }
    }
}

} // verus!
