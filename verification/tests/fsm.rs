use crossbeam::channel::{unbounded, Receiver, Sender};

use raftstore_v2::fsm::{Config, PeerFsm, PeerFsmDelegate, StoreContext};
use raftstore_v2::inbox::{Inbox, TryRecvError};
use raftstore_v2::meta::{
    ConfState, HardState, PeerMeta, PeerRole, PeerState, RaftApplyState, RaftLocalState,
    RaftSnapshotData, RaftTruncatedState, Region, RegionEpoch, RegionLocalState, Snapshot,
    SnapshotMetadata,
};
use raftstore_v2::msg::{
    HostCall, LocalStep, PeerMsg, PeerStep, PeerTypes, RaftRequest, SplitInit,
};
use raftstore_v2::peer::{LocksStatus, Peer};
use raftstore_v2::signal::SignalLog;
use raftstore_v2::snap_state::SnapState;
use raftstore_v2::storage::{ApplyTrace, EntryStorage, FailureCounters, Storage};
use raftstore_v2::tick::{PeerTick, PeerTickBatch, WaitDuration, TICK_COUNT};

struct Types;

impl PeerTypes for Types {
    type RaftMessage = &'static str;
    type Request = &'static str;
    type QueryChannel = u8;
    type CommandChannel = u16;
    type SendTime = u64;
    type ApplyRes = u64;
    type SplitInfo = &'static str;
    type FetchedLogs = u64;
    type DebugInfoChannel = u32;
    type FlushChannel = u64;
    type Mailbox = String;
}

const REGION: u64 = 7;

fn storage() -> Storage<Types> {
    let member = PeerMeta { id: 71, store_id: 1, role: PeerRole::Voter, is_witness: false };
    Storage {
        entry_storage: EntryStorage {
            raft_state: RaftLocalState {
                hard_state: HardState { term: 3, vote: 0, commit: 9 },
                last_index: 10,
            },
            apply_state: RaftApplyState {
                applied_index: 9,
                commit_index: 9,
                commit_term: 3,
                truncated_state: RaftTruncatedState { index: 5, term: 2 },
            },
            last_term: 3,
            applied_term: 3,
        },
        peer: member,
        region_state: RegionLocalState {
            state: PeerState::Normal,
            region: Region {
                id: REGION,
                start_key: vec![],
                end_key: vec![],
                region_epoch: RegionEpoch { conf_ver: 1, version: 1 },
                peers: vec![member],
            },
            tablet_index: 5,
        },
        ever_persisted: true,
        snap_state: SnapState::Relax,
        gen_snap_task: None,
        split_init: None,
        apply_trace: ApplyTrace { snapshot_index: 5, should_persist: false },
        failures: FailureCounters { stale: 0, decode: 0, epoch: 0, cancel: 0 },
        signals: SignalLog::new(),
    }
}

fn peer() -> Peer<Types> {
    Peer {
        storage: storage(),
        persisted_index: 10,
        is_leader: true,
        lead_transferee: None,
        locks_status: LocksStatus::Normal,
        pending_ticks: vec![],
        has_ready: false,
    }
}

fn fsm() -> (Sender<PeerMsg<Types>>, PeerFsm<Types>) {
    let (tx, rx): (Sender<PeerMsg<Types>>, Receiver<PeerMsg<Types>>) = unbounded();
    (tx, PeerFsm::new(peer(), rx))
}

fn route(region_id: u64) -> Option<String> {
    if region_id == REGION {
        Some(format!("mailbox of {}", region_id))
    } else {
        None
    }
}

fn ctx<R>(router: R) -> StoreContext<Types, R> {
    let mut tick_batch = vec![];
    for _ in 0..TICK_COUNT {
        tick_batch.push(PeerTickBatch {
            wait_duration: WaitDuration { secs: 0, subsec_nanos: 1 },
            ticks: vec![],
        });
    }
    StoreContext { cfg: Config { reactive_memory_lock_timeout_tick: 3 }, tick_batch, router }
}

fn queued<R>(c: &StoreContext<Types, R>) -> Vec<(usize, PeerTick, String)> {
    let mut all = vec![];
    for (i, batch) in c.tick_batch.iter().enumerate() {
        for t in &batch.ticks {
            all.push((i, t.tick, t.mailbox.clone()));
        }
    }
    all
}

const ALL_TICKS: [PeerTick; TICK_COUNT] = [
    PeerTick::Raft,
    PeerTick::RaftLogGc,
    PeerTick::SplitRegionCheck,
    PeerTick::PdHeartbeat,
    PeerTick::CheckMerge,
    PeerTick::CheckPeerStaleState,
    PeerTick::EntryCacheEvict,
    PeerTick::CheckLeaderLease,
    PeerTick::ReactivateMemoryLock,
    PeerTick::ReportBuckets,
    PeerTick::CheckLongUncommitted,
];

#[test]
fn new_fsm_is_idle() {
    let (_tx, mut f) = fsm();
    assert!(!f.is_stopped());
    assert_eq!(f.tick_registry, 0);
    assert_eq!(f.reactivate_memory_lock_ticks, 0);
    assert_eq!(f.peer().region_id(), REGION);
    f.peer_mut().has_ready = true;
    assert!(f.peer().has_ready);
    assert!(f.take_mailbox().is_none());
    f.set_mailbox("mine".to_string());
    assert_eq!(f.take_mailbox(), Some("mine".to_string()));
    assert!(f.take_mailbox().is_none());
}

#[test]
fn recv_stops_at_the_batch_size() {
    let (tx, mut f) = fsm();
    for i in 0..5 {
        tx.send(PeerMsg::SplitInitFinish(i)).unwrap();
    }
    let mut buf = vec![PeerMsg::Start];
    assert_eq!(f.recv(&mut buf, 4), 3);
    assert_eq!(buf.len(), 4);
    assert!(matches!(buf[0], PeerMsg::Start));
    assert!(matches!(buf[1], PeerMsg::SplitInitFinish(0)));
    assert!(matches!(buf[3], PeerMsg::SplitInitFinish(2)));
    assert_eq!(f.recv(&mut buf, 4), 0);
    assert!(!f.is_stopped());
}

#[test]
fn recv_leaves_an_overfull_buffer_alone() {
    let (tx, mut f) = fsm();
    tx.send(PeerMsg::Start).unwrap();
    drop(tx);
    let mut buf = vec![PeerMsg::SplitInitFinish(1), PeerMsg::SplitInitFinish(2)];
    assert_eq!(f.recv(&mut buf, 1), 0);
    assert_eq!(buf.len(), 2);
    assert!(!f.is_stopped());
    assert_eq!(f.recv(&mut buf, 4), 1);
    assert!(f.is_stopped());
}

#[test]
fn recv_leaves_the_rest_in_the_queue() {
    let (tx, rx) = unbounded();
    let mut f = PeerFsm::new(peer(), rx.clone());
    tx.send(PeerMsg::Tick(PeerTick::Raft)).unwrap();
    tx.send(PeerMsg::Noop).unwrap();
    tx.send(PeerMsg::Start).unwrap();
    let mut buf = vec![PeerMsg::Start];
    assert_eq!(f.recv(&mut buf, 3), 2);
    assert_eq!(buf.len(), 3);
    assert!(matches!(buf[0], PeerMsg::Start));
    assert!(matches!(buf[1], PeerMsg::Tick(PeerTick::Raft)));
    assert!(matches!(buf[2], PeerMsg::Noop));
    assert!(!f.is_stopped());
    assert_eq!(rx.len(), 1);
    // A full and an overfull buffer take nothing.
    assert_eq!(f.recv(&mut buf, 3), 0);
    assert_eq!(f.recv(&mut buf, 2), 0);
    assert_eq!(rx.len(), 1);
    assert!(matches!(rx.try_recv(), Ok(PeerMsg::Start)));
}

#[test]
fn inbox_takes_one_message_at_a_time() {
    let (tx, rx) = unbounded();
    let mut inbox = Inbox::new(rx.clone());
    assert_eq!(inbox.take(), Err(TryRecvError::Empty));
    tx.send(7u64).unwrap();
    tx.send(8).unwrap();
    assert_eq!(inbox.take(), Ok(7));
    assert_eq!(rx.len(), 1);
    drop(tx);
    assert_eq!(inbox.take(), Ok(8));
    assert_eq!(inbox.take(), Err(TryRecvError::Disconnected));
}

#[test]
fn recv_stops_when_nothing_waits() {
    let (tx, mut f) = fsm();
    tx.send(PeerMsg::Start).unwrap();
    let mut buf = vec![];
    assert_eq!(f.recv(&mut buf, 4), 1);
    assert_eq!(f.recv(&mut buf, 4), 0);
    assert_eq!(buf.len(), 1);
    assert!(!f.is_stopped());
}

#[test]
fn recv_without_senders_stops_the_peer() {
    let (tx, mut f) = fsm();
    tx.send(PeerMsg::Start).unwrap();
    drop(tx);
    let mut buf = vec![];
    // A full batch does not look any further.
    assert_eq!(f.recv(&mut buf, 1), 1);
    assert!(!f.is_stopped());
    assert_eq!(f.recv(&mut buf, 3), 0);
    assert!(f.is_stopped());
}

#[test]
fn on_received_takes_each_outcome() {
    let (_tx, mut f) = fsm();
    let mut buf = vec![];
    assert!(f.on_received(Ok(PeerMsg::Start), &mut buf));
    assert!(!f.on_received(Err(TryRecvError::Empty), &mut buf));
    assert!(!f.is_stopped());
    assert!(!f.on_received(Err(TryRecvError::Disconnected), &mut buf));
    assert!(f.is_stopped());
    assert_eq!(buf.len(), 1);
}

#[test]
fn ticks_have_distinct_positions() {
    for (i, tick) in ALL_TICKS.iter().enumerate() {
        assert_eq!(tick.index(), i);
    }
}

#[test]
fn tick_is_scheduled_once() {
    let (_tx, mut f) = fsm();
    let mut c = ctx(route);
    for tick in ALL_TICKS {
        let mut d = PeerFsmDelegate::new(&mut f, &mut c);
        d.schedule_tick(tick);
        d.schedule_tick(tick);
    }
    assert_eq!(f.tick_registry, 0b111_1111_1111);
    let all = queued(&c);
    assert_eq!(all.len(), TICK_COUNT);
    for (i, (at, tick, mailbox)) in all.into_iter().enumerate() {
        assert_eq!((at, tick), (i, ALL_TICKS[i]));
        assert_eq!(mailbox, "mailbox of 7");
    }
}

#[test]
fn disabled_tick_is_not_scheduled() {
    let (_tx, mut f) = fsm();
    let mut c = ctx(|_: u64| -> Option<String> { panic!("asked for a mailbox") });
    c.tick_batch[PeerTick::PdHeartbeat.index()].wait_duration =
        WaitDuration { secs: 0, subsec_nanos: 0 };
    PeerFsmDelegate::new(&mut f, &mut c).schedule_tick(PeerTick::PdHeartbeat);
    assert_eq!(f.tick_registry, 0);
    assert!(queued(&c).is_empty());
}

#[test]
fn tick_without_a_mailbox_is_not_scheduled() {
    let (_tx, mut f) = fsm();
    f.peer_mut().storage.region_state.region.id = 8;
    let mut c = ctx(route);
    PeerFsmDelegate::new(&mut f, &mut c).schedule_tick(PeerTick::Raft);
    assert_eq!(f.tick_registry, 0);
    assert!(queued(&c).is_empty());
    // It may be tried again.
    f.peer_mut().storage.region_state.region.id = REGION;
    PeerFsmDelegate::new(&mut f, &mut c).schedule_tick(PeerTick::Raft);
    assert_eq!(f.tick_registry, 1);
}

#[test]
fn zero_duration_is_zero_in_both_parts() {
    assert!(WaitDuration { secs: 0, subsec_nanos: 0 }.is_zero_duration());
    assert!(!WaitDuration { secs: 1, subsec_nanos: 0 }.is_zero_duration());
    assert!(!WaitDuration { secs: 0, subsec_nanos: 1 }.is_zero_duration());
}

#[test]
fn pending_ticks_are_scheduled_in_turn() {
    let (_tx, mut f) = fsm();
    f.reactivate_memory_lock_ticks = 2;
    f.peer_mut().pending_ticks =
        vec![PeerTick::Raft, PeerTick::ReactivateMemoryLock, PeerTick::Raft];
    let mut c = ctx(route);
    let mut d = PeerFsmDelegate::new(&mut f, &mut c);
    assert!(d.on_local(LocalStep::PendingTicks).is_none());
    assert!(f.peer().pending_ticks.is_empty());
    assert_eq!(f.reactivate_memory_lock_ticks, 0);
    let ticks: Vec<PeerTick> = queued(&c).into_iter().map(|t| t.1).collect();
    assert_eq!(ticks, vec![PeerTick::Raft, PeerTick::ReactivateMemoryLock]);
}

#[test]
fn other_pending_ticks_keep_the_count() {
    let (_tx, mut f) = fsm();
    f.reactivate_memory_lock_ticks = 2;
    f.peer_mut().pending_ticks = vec![PeerTick::Raft];
    let mut c = ctx(route);
    PeerFsmDelegate::new(&mut f, &mut c).schedule_pending_ticks();
    assert_eq!(f.reactivate_memory_lock_ticks, 2);
}

#[test]
fn start_schedules_raft_and_applies_if_initialized() {
    let (_tx, mut f) = fsm();
    let mut c = ctx(route);
    let call = PeerFsmDelegate::new(&mut f, &mut c).on_local(LocalStep::Start);
    assert!(matches!(call, Some(HostCall::ScheduleApplyFsm)));
    assert_eq!(f.tick_registry, 1);

    let (_tx, mut f) = fsm();
    f.peer_mut().storage.region_state.region.peers.clear();
    let mut c = ctx(route);
    assert!(PeerFsmDelegate::new(&mut f, &mut c).on_start().is_none());
    assert_eq!(f.tick_registry, 1);
}

#[test]
fn ticks_call_their_handlers() {
    let (_tx, mut f) = fsm();
    let mut c = ctx(route);
    let mut d = PeerFsmDelegate::new(&mut f, &mut c);
    assert!(matches!(d.on_tick(PeerTick::Raft), Some(HostCall::OnRaftTick)));
    let call = d.on_local(LocalStep::Tick(PeerTick::PdHeartbeat));
    assert!(matches!(call, Some(HostCall::OnPdHeartbeat)));
    assert!(d.on_tick(PeerTick::ReactivateMemoryLock).is_none());
    let handled: Vec<PeerTick> =
        ALL_TICKS.iter().copied().filter(|t| t.has_handler()).collect();
    assert_eq!(
        handled,
        vec![PeerTick::Raft, PeerTick::PdHeartbeat, PeerTick::ReactivateMemoryLock]
    );
}

#[test]
fn locks_are_reactivated_at_the_timeout() {
    let (_tx, mut f) = fsm();
    f.peer_mut().locks_status = LocksStatus::TransferringLeader;
    let mut c = ctx(route);
    for k in 1..3 {
        PeerFsmDelegate::new(&mut f, &mut c).on_reactivate_memory_lock_tick();
        assert_eq!(f.reactivate_memory_lock_ticks, k);
        assert_eq!(f.peer().locks_status, LocksStatus::TransferringLeader);
        assert_eq!(queued(&c).len(), 1);
    }
    PeerFsmDelegate::new(&mut f, &mut c).on_reactivate_memory_lock_tick();
    assert_eq!(f.reactivate_memory_lock_ticks, 0);
    assert_eq!(f.peer().locks_status, LocksStatus::Normal);
    PeerFsmDelegate::new(&mut f, &mut c).on_reactivate_memory_lock_tick();
    assert_eq!(f.reactivate_memory_lock_ticks, 0);
}

#[test]
fn locks_stay_disabled_during_a_transfer() {
    let (_tx, mut f) = fsm();
    f.peer_mut().locks_status = LocksStatus::TransferringLeader;
    f.peer_mut().lead_transferee = Some(72);
    let mut c = ctx(route);
    for k in 1..6 {
        PeerFsmDelegate::new(&mut f, &mut c).on_reactivate_memory_lock_tick();
        assert_eq!(f.reactivate_memory_lock_ticks, k);
        assert_eq!(f.peer().locks_status, LocksStatus::TransferringLeader);
    }
}

#[test]
fn only_a_leader_in_transfer_counts_ticks() {
    for (leader, status) in [
        (false, LocksStatus::TransferringLeader),
        (true, LocksStatus::Normal),
        (true, LocksStatus::MergingRegion),
        (true, LocksStatus::NotLeader),
    ] {
        let (_tx, mut f) = fsm();
        f.peer_mut().is_leader = leader;
        f.peer_mut().locks_status = status;
        let mut c = ctx(route);
        PeerFsmDelegate::new(&mut f, &mut c).on_reactivate_memory_lock_tick();
        assert_eq!(f.reactivate_memory_lock_ticks, 0);
        assert_eq!(f.peer().locks_status, status);
        assert!(queued(&c).is_empty());
    }
}

fn request<C>(request: &'static str, ch: C) -> RaftRequest<Types, C> {
    RaftRequest { send_time: 99, request, ch }
}

#[test]
fn messages_become_steps_in_order() {
    let (_tx, mut f) = fsm();
    let mut c = ctx(route);
    let mut buf = vec![
        PeerMsg::RaftMessage("m"),
        PeerMsg::RaftQuery(request("q", 1u8)),
        PeerMsg::RaftCommand(request("c", 2u16)),
        PeerMsg::Tick(PeerTick::Raft),
        PeerMsg::ApplyRes(3),
        PeerMsg::SplitInit(SplitInit { scheduled: true, info: "s" }),
        PeerMsg::SplitInitFinish(4),
        PeerMsg::Start,
        PeerMsg::Persisted { peer_id: 5, ready_number: 6 },
        PeerMsg::LogsFetched(7),
        PeerMsg::SnapshotGenerated(None),
        PeerMsg::QueryDebugInfo(8),
        PeerMsg::DataFlushed { cf: "lock", tablet_index: 9, flushed_index: 10 },
        PeerMsg::WaitFlush(11),
    ];
    assert!(buf.iter().all(|m| m.has_handler()));
    let steps = PeerFsmDelegate::new(&mut f, &mut c).on_msgs(&mut buf);
    assert!(buf.is_empty());
    assert_eq!(steps.len(), 18);
    assert!(matches!(steps[0], PeerStep::Host(HostCall::OnRaftMessage("m"))));
    assert!(matches!(steps[1], PeerStep::Local(LocalStep::PendingTicks)));
    assert!(matches!(steps[2], PeerStep::Host(HostCall::ObserveProposeWait(99))));
    assert!(matches!(
        steps[3],
        PeerStep::Host(HostCall::OnQuery { request: "q", query_ch: 1 })
    ));
    assert!(matches!(steps[4], PeerStep::Host(HostCall::ObserveProposeWait(99))));
    assert!(matches!(
        steps[5],
        PeerStep::Host(HostCall::OnCommand { request: "c", command_ch: 2 })
    ));
    assert!(matches!(steps[6], PeerStep::Local(LocalStep::Tick(PeerTick::Raft))));
    assert!(matches!(steps[7], PeerStep::Host(HostCall::OnApplyRes(3))));
    assert!(matches!(&steps[8], PeerStep::Host(HostCall::OnSplitInit(i)) if i.info == "s"));
    assert!(matches!(steps[9], PeerStep::Host(HostCall::OnSplitInitFinish(4))));
    assert!(matches!(steps[10], PeerStep::Local(LocalStep::Start)));
    assert!(matches!(
        steps[11],
        PeerStep::Host(HostCall::OnPersisted { peer_id: 5, ready_number: 6 })
    ));
    assert!(matches!(steps[12], PeerStep::Host(HostCall::OnLogsFetched(7))));
    assert!(matches!(steps[13], PeerStep::Local(LocalStep::SnapshotGenerated(None))));
    assert!(matches!(steps[14], PeerStep::Host(HostCall::OnQueryDebugInfo(8))));
    assert!(matches!(
        steps[15],
        PeerStep::Host(HostCall::OnDataFlushed { cf: "lock", tablet_index: 9, flushed_index: 10 })
    ));
    assert!(matches!(steps[16], PeerStep::Host(HostCall::OnWaitFlush(11))));
    assert!(matches!(steps[17], PeerStep::Host(HostCall::ProposePendingWrites)));
}

#[test]
fn no_messages_still_propose_pending_writes() {
    let (_tx, mut f) = fsm();
    let mut c = ctx(route);
    let steps = PeerFsmDelegate::new(&mut f, &mut c).on_msgs(&mut vec![]);
    assert_eq!(steps.len(), 1);
    assert!(matches!(steps[0], PeerStep::Host(HostCall::ProposePendingWrites)));
}

#[test]
fn messages_without_a_handler_are_known() {
    assert!(!PeerMsg::<Types>::Noop.has_handler());
    assert!(!PeerMsg::<Types>::Tick(PeerTick::CheckMerge).has_handler());
}

#[test]
fn generated_snapshot_pings_followers() {
    let decode = |_: &Vec<u8>| -> Result<RaftSnapshotData, u8> { Err(0) };
    let (_tx, mut f) = fsm();
    let _ = f.peer_mut().storage.snapshot(1, 72, &decode);
    let mut c = ctx(route);
    let snapshot = Snapshot {
        data: vec![],
        metadata: SnapshotMetadata {
            conf_state: ConfState {
                voters: vec![],
                learners: vec![],
                voters_outgoing: vec![],
                learners_next: vec![],
                auto_leave: false,
            },
            index: 9,
            term: 3,
        },
    };
    let mut d = PeerFsmDelegate::new(&mut f, &mut c);
    let call = d.on_local(LocalStep::SnapshotGenerated(Some(Box::new(snapshot))));
    assert!(matches!(call, Some(HostCall::Ping)));
    assert!(d.on_local(LocalStep::SnapshotGenerated(None)).is_none());
    assert!(f.peer().has_ready);
    assert!(matches!(f.peer().storage.snap_state, SnapState::Generated(_)));
}

#[test]
fn handling_two_batches_is_handling_both_together() {
    let first = || vec![PeerMsg::RaftMessage("a"), PeerMsg::Start];
    let second = || vec![PeerMsg::ApplyRes(1), PeerMsg::Tick(PeerTick::PdHeartbeat)];
    let kinds = |mut msgs: Vec<PeerMsg<Types>>| -> Vec<&'static str> {
        let (_tx, mut f) = fsm();
        let mut c = ctx(route);
        let mut steps = PeerFsmDelegate::new(&mut f, &mut c).on_msgs(&mut msgs);
        let last = steps.pop();
        assert!(matches!(last, Some(PeerStep::Host(HostCall::ProposePendingWrites))));
        let mut names = vec![];
        for step in steps {
            names.push(match step {
                PeerStep::Host(HostCall::OnRaftMessage(m)) => m,
                PeerStep::Host(HostCall::OnApplyRes(1)) => "apply",
                PeerStep::Local(LocalStep::PendingTicks) => "pending",
                PeerStep::Local(LocalStep::Start) => "start",
                PeerStep::Local(LocalStep::Tick(PeerTick::PdHeartbeat)) => "heartbeat",
                _ => panic!("unexpected step"),
            });
        }
        names
    };
    let mut both = first();
    both.extend(second());
    let mut apart = kinds(first());
    apart.extend(kinds(second()));
    assert_eq!(kinds(both), apart);
    assert_eq!(apart, vec!["a", "pending", "start", "apply", "heartbeat"]);
}
