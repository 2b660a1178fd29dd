//! The messages of a peer and the steps they call for.
use vstd::prelude::*;

use crate::meta::{Region, Snapshot};
use crate::tick::PeerTick;

verus! {

/// The types of the values that a peer only passes on.
pub trait PeerTypes {
    /// A raft message from another peer.
    type RaftMessage;

    /// A client request.
    type Request;

    /// Where the answer to a query goes.
    type QueryChannel;

    /// Where the outcome of a command goes.
    type CommandChannel;

    /// The time at which a request was sent.
    type SendTime;

    /// What applying a batch of entries resulted in.
    type ApplyRes;

    /// What a region that a split creates is initialized with.
    type SplitInfo;

    /// Log entries fetched in the background.
    type FetchedLogs;

    /// Where debug information goes.
    type DebugInfoChannel;

    /// Who waits for a flush.
    type FlushChannel;

    /// The address of a peer's message queue.
    type Mailbox;
}

/// The initialization of a region that a split creates.
pub struct SplitInit<T: PeerTypes> {
    /// Whether the initialization has been scheduled.
    pub scheduled: bool,
    pub info: T::SplitInfo,
}

/// A request of a client, and where the answer goes.
pub struct RaftRequest<T: PeerTypes, C> {
    pub send_time: T::SendTime,
    pub request: T::Request,
    pub ch: C,
}

/// A message to a peer.
pub enum PeerMsg<T: PeerTypes> {
    /// A raft message from another peer.
    RaftMessage(T::RaftMessage),
    /// A request that reads.
    RaftQuery(RaftRequest<T, T::QueryChannel>),
    /// A request that changes something.
    RaftCommand(RaftRequest<T, T::CommandChannel>),
    /// A timer fired.
    Tick(PeerTick),
    /// Entries have been applied.
    ApplyRes(T::ApplyRes),
    /// A split asks the peer to initialize its region.
    SplitInit(SplitInit<T>),
    /// The region, created by a split, is initialized.
    SplitInitFinish(u64),
    /// The first message to a peer.
    Start,
    Noop,
    /// A write is durable.
    Persisted { peer_id: u64, ready_number: u64 },
    /// Log entries have been fetched.
    LogsFetched(T::FetchedLogs),
    /// The generation of a snapshot ended, with a snapshot or without.
    SnapshotGenerated(Option<Box<Snapshot>>),
    /// Someone asks for debug information.
    QueryDebugInfo(T::DebugInfoChannel),
    /// A column family of a tablet has been flushed.
    DataFlushed { cf: &'static str, tablet_index: u64, flushed_index: u64 },
    /// Someone waits for a flush.
    WaitFlush(T::FlushChannel),
}

/// Work on a peer that happens outside of this crate.
pub enum HostCall<T: PeerTypes> {
    /// Step the raft state machine.
    OnRaftMessage(T::RaftMessage),
    /// Record how long a request waited since it was sent.
    ObserveProposeWait(T::SendTime),
    OnQuery { request: T::Request, query_ch: T::QueryChannel },
    OnCommand { request: T::Request, command_ch: T::CommandChannel },
    OnRaftTick,
    OnPdHeartbeat,
    OnApplyRes(T::ApplyRes),
    OnSplitInit(SplitInit<T>),
    OnSplitInitFinish(u64),
    OnPersisted { peer_id: u64, ready_number: u64 },
    OnLogsFetched(T::FetchedLogs),
    OnQueryDebugInfo(T::DebugInfoChannel),
    OnDataFlushed { cf: &'static str, tablet_index: u64, flushed_index: u64 },
    OnWaitFlush(T::FlushChannel),
    /// Propose the writes that have been batched up.
    ProposePendingWrites,
    /// Make the raft leader contact its followers, so that the snapshot is sent.
    Ping,
    /// Start from a new flush state, so that the old one does not interfere.
    ResetFlushState,
    /// Load the tablet of the region at the index, with the new flush state.
    LoadTablet { region: Region, index: u64 },
    /// Start applying entries.
    ScheduleApplyFsm,
    /// Tell raft that everything up to the index is applied.
    AdvanceApplyTo(u64),
    /// Let readers of the region find the peer, and its read progress, both at once.
    PublishReader { region_id: u64 },
    /// Tell reads that everything up to the index is applied.
    UpdateAppliedCore(u64),
    /// Finish what the split left to do.
    PostSplitInit(SplitInit<T>),
}

/// Work on a peer that [`crate::fsm::PeerFsmDelegate::on_local`] does.
pub enum LocalStep {
    /// Schedule the timers that handling a message asked for.
    PendingTicks,
    /// A timer fired.
    Tick(PeerTick),
    /// The peer starts.
    Start,
    /// The generation of a snapshot ended.
    SnapshotGenerated(Option<Box<Snapshot>>),
}

/// One step of handling messages.
pub enum PeerStep<T: PeerTypes> {
    Local(LocalStep),
    Host(HostCall<T>),
}

impl<T: PeerTypes> PeerMsg<T> {
    /// Whether a peer does something with the message.
    pub open spec fn is_handled(self) -> bool {
        match self {
            PeerMsg::Noop => false,
            PeerMsg::Tick(tick) => tick.is_handled(),
            _ => true,
        }
    }

    /// The steps that the message calls for.
    pub open spec fn steps(self) -> Seq<PeerStep<T>> {
        match self {
            PeerMsg::RaftMessage(msg) => seq![
                PeerStep::Host(HostCall::OnRaftMessage(msg)),
                PeerStep::Local(LocalStep::PendingTicks),
            ],
            PeerMsg::RaftQuery(cmd) => seq![
                PeerStep::Host(HostCall::ObserveProposeWait(cmd.send_time)),
                PeerStep::Host(HostCall::OnQuery { request: cmd.request, query_ch: cmd.ch }),
            ],
            PeerMsg::RaftCommand(cmd) => seq![
                PeerStep::Host(HostCall::ObserveProposeWait(cmd.send_time)),
                PeerStep::Host(HostCall::OnCommand { request: cmd.request, command_ch: cmd.ch }),
            ],
            PeerMsg::Tick(tick) => seq![PeerStep::Local(LocalStep::Tick(tick))],
            PeerMsg::ApplyRes(res) => seq![PeerStep::Host(HostCall::OnApplyRes(res))],
            PeerMsg::SplitInit(init) => seq![PeerStep::Host(HostCall::OnSplitInit(init))],
            PeerMsg::SplitInitFinish(region_id) => seq![
                PeerStep::Host(HostCall::OnSplitInitFinish(region_id)),
            ],
            PeerMsg::Start => seq![PeerStep::Local(LocalStep::Start)],
            PeerMsg::Noop => seq![],
            PeerMsg::Persisted { peer_id, ready_number } => seq![
                PeerStep::Host(HostCall::OnPersisted { peer_id, ready_number }),
            ],
            PeerMsg::LogsFetched(logs) => seq![PeerStep::Host(HostCall::OnLogsFetched(logs))],
            PeerMsg::SnapshotGenerated(res) => seq![
                PeerStep::Local(LocalStep::SnapshotGenerated(res)),
            ],
            PeerMsg::QueryDebugInfo(ch) => seq![PeerStep::Host(HostCall::OnQueryDebugInfo(ch))],
            PeerMsg::DataFlushed { cf, tablet_index, flushed_index } => seq![
                PeerStep::Host(HostCall::OnDataFlushed { cf, tablet_index, flushed_index }),
            ],
            PeerMsg::WaitFlush(ch) => seq![PeerStep::Host(HostCall::OnWaitFlush(ch))],
        }
    }

    /// Whether a peer does something with the message.
    pub fn has_handler(&self) -> (handled: bool)
        ensures
            handled == self.is_handled(),
    {
        match self {
            PeerMsg::Noop => false,
            PeerMsg::Tick(tick) => tick.has_handler(),
            _ => true,
        }
    }
}

/// The steps that a batch of messages calls for, in order.
pub open spec fn batch_steps<T: PeerTypes>(msgs: Seq<PeerMsg<T>>) -> Seq<PeerStep<T>>
    decreases msgs.len(),
{
    if msgs.len() == 0 {
        seq![]
    } else {
        batch_steps(msgs.drop_last()) + msgs.last().steps()
    }
}

} // verus!
