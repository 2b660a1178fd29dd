use std::sync::atomic::{AtomicBool, AtomicU64, Ordering};
use std::sync::Arc;

use raftstore_v2::apply::{Apply, GenSnapStep};
use raftstore_v2::meta::{
    ConfState, HardState, PeerMeta, PeerRole, PeerState, RaftApplyState, RaftLocalState,
    RaftSnapshotData, RaftTruncatedState, Region, RegionEpoch, RegionLocalState, Snapshot,
    SnapshotMetadata, RAFT_INIT_LOG_INDEX,
};
use raftstore_v2::msg::{HostCall, PeerTypes, SplitInit};
use raftstore_v2::peer::{LocksStatus, Peer};
use raftstore_v2::signal::SignalLog;
use raftstore_v2::snap_state::{GenSnapTask, SnapState};
use raftstore_v2::storage::{
    ApplyError, ApplyTrace, EntryStorage, FailureCounters, InstallHook, RaftLogWrite, SnapSource,
    Storage, StorageError, TabletSnapKey, WriteTask,
};

struct Types;

impl PeerTypes for Types {
    type RaftMessage = u64;
    type Request = u64;
    type QueryChannel = u64;
    type CommandChannel = u64;
    type SendTime = u64;
    type ApplyRes = u64;
    type SplitInfo = &'static str;
    type FetchedLogs = u64;
    type DebugInfoChannel = u64;
    type FlushChannel = u64;
    type Mailbox = u64;
}

const REGION: u64 = 7;
const PEER: u64 = 71;

fn member(id: u64) -> PeerMeta {
    PeerMeta { id, store_id: id + 100, role: PeerRole::Voter, is_witness: false }
}

fn region(id: u64, conf_ver: u64) -> Region {
    Region {
        id,
        start_key: vec![1, 2],
        end_key: vec![3],
        region_epoch: RegionEpoch { conf_ver, version: 4 },
        peers: vec![member(PEER), member(72)],
    }
}

fn region_state(conf_ver: u64) -> RegionLocalState {
    RegionLocalState {
        state: PeerState::Applying,
        region: region(REGION, conf_ver),
        tablet_index: 5,
    }
}

fn storage() -> Storage<Types> {
    Storage {
        entry_storage: EntryStorage {
            raft_state: RaftLocalState {
                hard_state: HardState { term: 3, vote: PEER, commit: 9 },
                last_index: 10,
            },
            apply_state: RaftApplyState {
                applied_index: 9,
                commit_index: 9,
                commit_term: 3,
                truncated_state: RaftTruncatedState { index: 5, term: 2 },
            },
            last_term: 3,
            applied_term: 3,
        },
        peer: member(PEER),
        region_state: region_state(6),
        ever_persisted: false,
        snap_state: SnapState::Relax,
        gen_snap_task: None,
        split_init: None,
        apply_trace: ApplyTrace { snapshot_index: 1, should_persist: true },
        failures: FailureCounters { stale: 0, decode: 0, epoch: 0, cancel: 0 },
        signals: SignalLog::new(),
    }
}

/// A snapshot whose payload is the id and the `conf_ver` of its region.
fn snap(index: u64, term: u64, region_id: u8, conf_ver: u8) -> Snapshot {
    Snapshot {
        data: vec![region_id, conf_ver],
        metadata: SnapshotMetadata {
            conf_state: ConfState {
                voters: vec![PEER, 72],
                learners: vec![],
                voters_outgoing: vec![],
                learners_next: vec![],
                auto_leave: false,
            },
            index,
            term,
        },
    }
}

fn decode(bytes: &Vec<u8>) -> Result<RaftSnapshotData, String> {
    match bytes.as_slice() {
        [id, conf_ver] => {
            Ok(RaftSnapshotData { region: region(u64::from(*id), u64::from(*conf_ver)) })
        }
        _ => Err(format!("{} bytes", bytes.len())),
    }
}

fn cells(state: &SnapState) -> (Arc<AtomicBool>, Arc<AtomicU64>) {
    match state {
        SnapState::Generating { canceled, index } => (canceled.clone(), index.clone()),
        _ => panic!("not generating"),
    }
}

fn raised(flag: &Arc<AtomicBool>) -> bool {
    flag.load(Ordering::SeqCst)
}

fn apply() -> Apply {
    Apply {
        tombstone: false,
        applied_index: 12,
        applied_term: 4,
        region_state: region_state(6),
        signals: SignalLog::new(),
    }
}

const UNAVAILABLE: StorageError = StorageError::SnapshotTemporarilyUnavailable;

#[test]
fn gen_snap_task_is_not_for_balance_until_told() {
    let index = Arc::new(AtomicU64::new(0));
    let canceled = Arc::new(AtomicBool::new(false));
    let mut task = GenSnapTask::new(1, 2, index.clone(), canceled.clone());
    assert_eq!((task.region_id, task.to_peer, task.for_balance), (1, 2, false));
    assert!(Arc::ptr_eq(&task.index, &index));
    assert!(Arc::ptr_eq(&task.canceled, &canceled));
    task.set_for_balance();
    assert!(task.for_balance);
    assert_eq!((task.region_id, task.to_peer), (1, 2));
}

#[test]
fn snap_states_compare_by_kind_and_content() {
    let generating = |i: u64| SnapState::Generating {
        canceled: Arc::new(AtomicBool::new(i == 1)),
        index: Arc::new(AtomicU64::new(i)),
    };
    let generated = |s: Snapshot| SnapState::Generated(Box::new(s));
    assert!(SnapState::Relax == SnapState::Relax);
    assert!(generating(1) == generating(2));
    assert!(SnapState::Relax != generating(0));
    assert!(generated(snap(3, 1, 7, 6)) == generated(snap(3, 1, 7, 6)));
    assert!(generated(snap(3, 1, 7, 6)) != generated(snap(4, 1, 7, 6)));
    assert!(generated(snap(3, 1, 7, 6)) != generated(snap(3, 2, 7, 6)));
    assert!(generated(snap(3, 1, 7, 6)) != generated(snap(3, 1, 7, 5)));
    let mut other = snap(3, 1, 7, 6);
    other.metadata.conf_state.voters.push(73);
    assert!(generated(snap(3, 1, 7, 6)) != generated(other));
    assert!(generated(snap(3, 1, 7, 6)) != SnapState::Relax);
}

#[test]
fn first_request_starts_a_generation() {
    let mut s = storage();
    assert_eq!(s.snapshot(3, 72, &decode).unwrap_err(), UNAVAILABLE);
    let (canceled, index) = cells(&s.snap_state);
    assert!(!raised(&canceled));
    assert_eq!(index.load(Ordering::SeqCst), 0);
    let task = s.gen_snap_task.as_ref().unwrap();
    assert_eq!((task.region_id, task.to_peer, task.for_balance), (REGION, 72, false));
    assert!(Arc::ptr_eq(&task.canceled, &canceled));
    assert!(Arc::ptr_eq(&task.index, &index));
}

#[test]
fn request_while_generating_waits() {
    let mut s = storage();
    let _ = s.snapshot(3, 72, &decode);
    let before = cells(&s.snap_state);
    assert_eq!(s.snapshot(3, 73, &decode).unwrap_err(), UNAVAILABLE);
    let after = cells(&s.snap_state);
    assert!(Arc::ptr_eq(&before.0, &after.0));
    assert_eq!(s.gen_snap_task.as_ref().unwrap().to_peer, 72);
    assert!(!raised(&before.0));
}

#[test]
fn request_after_cancel_starts_anew() {
    let mut s = storage();
    let _ = s.snapshot(3, 72, &decode);
    let (canceled, _) = cells(&s.snap_state);
    canceled.store(true, Ordering::SeqCst);
    assert_eq!(s.snapshot(3, 73, &decode).unwrap_err(), UNAVAILABLE);
    let (fresh, _) = cells(&s.snap_state);
    assert!(!Arc::ptr_eq(&canceled, &fresh));
    assert!(!raised(&fresh));
    assert_eq!(s.gen_snap_task.as_ref().unwrap().to_peer, 73);
    assert_eq!(s.failures.cancel, 1);
}

#[test]
fn snapshot_round_trip() {
    let mut s = storage();
    assert!(s.snapshot(3, 72, &decode).is_err());
    let task = s.gen_snap_task.take().unwrap();
    let mut a = apply();
    let task = match a.schedule_gen_snapshot(task) {
        GenSnapStep::Flush(task) => task,
        _ => panic!("stopped"),
    };
    let read = a.gen_snapshot_flushed(&task);
    a.gen_snapshot_queued(&task, true);
    assert_eq!((read.region_id, read.to_peer), (REGION, 72));
    assert_eq!((read.last_applied_index, read.last_applied_term), (12, 4));
    assert!(!read.for_balance);
    assert_eq!(read.region_state.region.peers, vec![member(PEER), member(72)]);
    assert_eq!(read.region_state.region.start_key, vec![1, 2]);
    let (canceled, index) = cells(&s.snap_state);
    assert!(Arc::ptr_eq(&read.canceled, &canceled));
    assert!(!raised(&canceled));
    assert_eq!(index.load(Ordering::SeqCst), 12);

    assert!(s.on_snapshot_generated(Some(Box::new(snap(12, 4, 7, 6)))));
    assert!(s.snap_state == SnapState::Generated(Box::new(snap(12, 4, 7, 6))));
    let got = s.snapshot(12, 72, &decode).unwrap();
    assert!(got == snap(12, 4, 7, 6));
    assert!(s.snap_state == SnapState::Relax);
    assert_eq!(s.failures, FailureCounters { stale: 0, decode: 0, epoch: 0, cancel: 0 });
    // It is handed out once.
    assert_eq!(s.snapshot(12, 72, &decode).unwrap_err(), UNAVAILABLE);
    let _ = cells(&s.snap_state);
}

#[test]
fn stale_snapshot_is_generated_again_without_decoding() {
    let mut s = storage();
    s.snap_state = SnapState::Generated(Box::new(snap(8, 3, 7, 6)));
    let no_decode = |_: &Vec<u8>| -> Result<RaftSnapshotData, String> { panic!("decoded") };
    assert_eq!(s.snapshot(9, 72, &no_decode).unwrap_err(), UNAVAILABLE);
    assert_eq!(s.failures, FailureCounters { stale: 1, decode: 0, epoch: 0, cancel: 0 });
    let _ = cells(&s.snap_state);
    assert!(s.gen_snap_task.is_some());
}

#[test]
fn corrupted_snapshot_is_generated_again() {
    let mut s = storage();
    let mut bad = snap(9, 3, 7, 6);
    bad.data.push(0);
    s.snap_state = SnapState::Generated(Box::new(bad));
    assert_eq!(s.snapshot(9, 72, &decode).unwrap_err(), UNAVAILABLE);
    assert_eq!(s.failures, FailureCounters { stale: 0, decode: 1, epoch: 0, cancel: 0 });
    let _ = cells(&s.snap_state);
}

#[test]
fn snapshot_with_stale_epoch_is_generated_again() {
    let mut s = storage();
    s.snap_state = SnapState::Generated(Box::new(snap(9, 3, 7, 5)));
    assert_eq!(s.snapshot(9, 72, &decode).unwrap_err(), UNAVAILABLE);
    assert_eq!(s.failures, FailureCounters { stale: 0, decode: 0, epoch: 1, cancel: 0 });
    let _ = cells(&s.snap_state);
}

#[test]
fn snapshot_with_newer_epoch_is_valid() {
    let mut s = storage();
    s.snap_state = SnapState::Generated(Box::new(snap(9, 3, 7, 7)));
    assert!(s.snapshot(9, 72, &decode).unwrap() == snap(9, 3, 7, 7));
}

#[test]
fn valid_snapshot_is_handed_out_beside_a_waiting_task() {
    let mut s = storage();
    let _ = s.snapshot(3, 72, &decode);
    assert!(s.on_snapshot_generated(Some(Box::new(snap(9, 3, 7, 6)))));
    assert!(s.gen_snap_task.is_some());
    assert!(s.snapshot(9, 72, &decode).is_ok());
    assert!(s.gen_snap_task.is_some());
}

#[test]
fn request_that_collides_with_a_waiting_task_is_told() {
    let mut s = storage();
    let _ = s.snapshot(3, 72, &decode);
    assert!(s.on_snapshot_generated(Some(Box::new(snap(9, 3, 7, 6)))));
    assert!(s.try_snapshot(10, 72, &decode).is_none());
    assert!(s.snap_state == SnapState::Generated(Box::new(snap(9, 3, 7, 6))));
    assert!(s.try_snapshot(9, 72, &decode).unwrap().unwrap() == snap(9, 3, 7, 6));
    assert!(s.try_snapshot(9, 72, &decode).is_none());
    s.gen_snap_task = None;
    assert_eq!(s.try_snapshot(9, 72, &decode).unwrap().unwrap_err(), UNAVAILABLE);
    assert_eq!(s.try_snapshot(9, 72, &decode).unwrap().unwrap_err(), UNAVAILABLE);
}

#[test]
fn validate_snap_counts_each_failure() {
    let mut s = storage();
    let ok = |conf_ver: u64| -> Option<Result<RaftSnapshotData, String>> {
        Some(Ok(RaftSnapshotData { region: region(REGION, conf_ver) }))
    };
    assert!(s.validate_snap(&snap(9, 3, 7, 6), 9, &ok(6)));
    assert!(!s.validate_snap(&snap(8, 3, 7, 6), 9, &ok(6)));
    assert!(!s.validate_snap(&snap(9, 3, 7, 6), 9, &ok(5)));
    assert!(!s.validate_snap(&snap(9, 3, 7, 6), 9, &Some(Err("bad".to_string()))));
    assert_eq!(s.failures, FailureCounters { stale: 1, decode: 1, epoch: 1, cancel: 0 });
}

#[test]
fn cancel_without_compaction_always_cancels() {
    let mut s = storage();
    let _ = s.snapshot(3, 72, &decode);
    let (canceled, _) = cells(&s.snap_state);
    s.cancel_generating_snap(None);
    assert!(raised(&canceled));
    assert!(s.snap_state == SnapState::Relax);
    assert!(s.gen_snap_task.is_none());
    assert_eq!(s.failures.cancel, 1);
    // Nothing is left to cancel.
    s.cancel_generating_snap(None);
    assert_eq!(s.failures.cancel, 1);
}

#[test]
fn compaction_cancels_only_outdated_generations() {
    for (snap_index, compact_to, cancels) in [
        (0, 100, false),
        (10, 0, false),
        (10, 10, false),
        (10, 11, false),
        (10, 12, true),
        (u64::MAX, u64::MAX, false),
        (u64::MAX - 2, u64::MAX, true),
    ] {
        let mut s = storage();
        let _ = s.snapshot(3, 72, &decode);
        let (canceled, index) = cells(&s.snap_state);
        index.store(snap_index, Ordering::SeqCst);
        s.cancel_generating_snap(Some(compact_to));
        assert_eq!(raised(&canceled), cancels, "{} {}", snap_index, compact_to);
        assert_eq!(s.snap_state == SnapState::Relax, cancels);
        assert_eq!(s.gen_snap_task.is_none(), cancels);
    }
}

#[test]
fn generated_snapshot_is_not_canceled() {
    let mut s = storage();
    s.snap_state = SnapState::Generated(Box::new(snap(9, 3, 7, 6)));
    s.cancel_generating_snap(None);
    assert!(s.snap_state == SnapState::Generated(Box::new(snap(9, 3, 7, 6))));
    assert_eq!(s.failures.cancel, 0);
}

#[test]
fn failed_generation_is_called_off() {
    let mut s = storage();
    let _ = s.snapshot(3, 72, &decode);
    let (canceled, _) = cells(&s.snap_state);
    assert!(!s.on_snapshot_generated(None));
    assert!(raised(&canceled));
    assert!(s.snap_state == SnapState::Relax);
}

#[test]
fn snapshot_from_before_the_decided_index_is_skipped() {
    let mut s = storage();
    let _ = s.snapshot(3, 72, &decode);
    let (_, index) = cells(&s.snap_state);
    index.store(10, Ordering::SeqCst);
    assert!(!s.on_snapshot_generated(Some(Box::new(snap(9, 3, 7, 6)))));
    let _ = cells(&s.snap_state);
    assert!(s.on_snapshot_generated(Some(Box::new(snap(10, 3, 7, 6)))));
}

#[test]
fn only_generating_becomes_generated() {
    let mut s = storage();
    assert!(!s.on_snapshot_generated(Some(Box::new(snap(9, 3, 7, 6)))));
    assert!(s.snap_state == SnapState::Relax);
    s.snap_state = SnapState::Generated(Box::new(snap(9, 3, 7, 6)));
    assert!(!s.on_snapshot_generated(Some(Box::new(snap(10, 3, 7, 6)))));
    assert!(s.snap_state == SnapState::Generated(Box::new(snap(9, 3, 7, 6))));
}

#[test]
fn task_of_a_destroyed_peer_is_canceled() {
    let mut a = apply();
    a.tombstone = true;
    let canceled = Arc::new(AtomicBool::new(false));
    let index = Arc::new(AtomicU64::new(0));
    let step = a.schedule_gen_snapshot(GenSnapTask::new(1, 2, index, canceled.clone()));
    assert!(matches!(step, GenSnapStep::Destroyed));
    assert!(raised(&canceled));
}

#[test]
fn canceled_task_is_dropped() {
    let mut a = apply();
    let index = Arc::new(AtomicU64::new(0));
    let canceled = Arc::new(AtomicBool::new(true));
    let step = a.schedule_gen_snapshot(GenSnapTask::new(1, 2, index.clone(), canceled));
    assert!(matches!(step, GenSnapStep::Canceled));
    assert_eq!(index.load(Ordering::SeqCst), 0);
}

#[test]
fn cancellation_reaches_a_sent_task() {
    let mut s = storage();
    let _ = s.snapshot(3, 72, &decode);
    let task = s.gen_snap_task.take().unwrap();
    s.cancel_generating_snap(None);
    assert!(raised(&task.canceled));
    let index = task.index.clone();
    assert!(matches!(apply().schedule_gen_snapshot(task), GenSnapStep::Canceled));
    assert_eq!(index.load(Ordering::SeqCst), 0);
}

#[test]
fn task_for_balance_publishes_the_applied_index() {
    let index = Arc::new(AtomicU64::new(0));
    let canceled = Arc::new(AtomicBool::new(false));
    let mut task = GenSnapTask::new(4, 7, index.clone(), canceled.clone());
    task.set_for_balance();
    let mut a = apply();
    a.applied_index = 5;
    a.applied_term = 6;
    let task = match a.schedule_gen_snapshot(task) {
        GenSnapStep::Flush(task) => task,
        _ => panic!("stopped"),
    };
    let read = a.gen_snapshot_flushed(&task);
    a.gen_snapshot_queued(&task, true);
    assert_eq!((read.region_id, read.to_peer, read.for_balance), (4, 7, true));
    assert_eq!((read.last_applied_index, read.last_applied_term), (5, 6));
    assert_eq!(index.load(Ordering::SeqCst), 5);
    assert!(!raised(&canceled));
}

#[test]
fn flush_may_move_the_applied_index() {
    let mut s = storage();
    assert!(s.snapshot(3, 72, &decode).is_err());
    let task = s.gen_snap_task.take().unwrap();
    let mut a = apply();
    let task = match a.schedule_gen_snapshot(task) {
        GenSnapStep::Flush(task) => task,
        _ => panic!("stopped"),
    };
    a.applied_index = 15;
    a.applied_term = 5;
    let read = a.gen_snapshot_flushed(&task);
    a.gen_snapshot_queued(&task, true);
    assert_eq!((read.last_applied_index, read.last_applied_term), (15, 5));
    let (canceled, index) = cells(&s.snap_state);
    assert_eq!(index.load(Ordering::SeqCst), 15);
    assert!(!raised(&canceled));
}

#[test]
fn task_that_the_queue_refuses_is_canceled() {
    let mut a = apply();
    let index = Arc::new(AtomicU64::new(0));
    let canceled = Arc::new(AtomicBool::new(false));
    let mut task = GenSnapTask::new(1, 2, index.clone(), canceled.clone());
    task.set_for_balance();
    let read = a.gen_snapshot_flushed(&task);
    assert!(read.for_balance);
    assert_eq!(index.load(Ordering::SeqCst), 12);
    a.gen_snapshot_queued(&task, false);
    assert!(raised(&canceled));
    assert!(raised(&read.canceled));
}

fn write_task() -> WriteTask {
    WriteTask { extra_write: vec![], persisted_cb: None, has_snapshot: false }
}

#[test]
fn applying_a_snapshot_replaces_the_state() {
    let mut s = storage();
    let mut task = write_task();
    assert!(s.apply_snapshot(&snap(20, 8, 7, 9), &mut task, &decode).is_ok());
    assert_eq!(s.region_state.state, PeerState::Normal);
    assert_eq!(s.region_state.tablet_index, 20);
    assert_eq!(s.region_state.region.region_epoch.conf_ver, 9);
    assert_eq!(s.entry_storage.raft_state.last_index, 20);
    assert_eq!(s.entry_storage.raft_state.hard_state, HardState { term: 3, vote: PEER, commit: 9 });
    assert_eq!(s.entry_storage.last_term, 8);
    let apply_state = RaftApplyState {
        applied_index: 9,
        commit_index: 9,
        commit_term: 3,
        truncated_state: RaftTruncatedState { index: 20, term: 8 },
    };
    assert_eq!(s.entry_storage.apply_state, apply_state);
    assert_eq!(s.entry_storage.applied_term, 3);
    assert_eq!(s.apply_trace, ApplyTrace { snapshot_index: 1, should_persist: false });
    assert!(s.ever_persisted);
    assert!(task.has_snapshot);
    assert_eq!(
        task.persisted_cb,
        Some(InstallHook {
            source: SnapSource::Received(TabletSnapKey {
                region_id: REGION,
                to_peer: PEER,
                term: 8,
                idx: 20,
            }),
            region_id: REGION,
            index: 20,
            clean_split: false,
        })
    );
    assert_eq!(task.extra_write.len(), 3);
    match &task.extra_write[0] {
        RaftLogWrite::ApplyState { region_id, index, apply_state: written } => {
            assert_eq!((*region_id, *index, *written), (REGION, 20, apply_state));
        }
        other => panic!("{:?}", other),
    }
    match &task.extra_write[1] {
        RaftLogWrite::RegionState { region_id, index, region_state } => {
            assert_eq!((*region_id, *index), (REGION, 20));
            assert_eq!(region_state.state, PeerState::Normal);
            assert_eq!(region_state.tablet_index, 20);
            assert_eq!(region_state.region.region_epoch.conf_ver, 9);
        }
        other => panic!("{:?}", other),
    }
    match &task.extra_write[2] {
        RaftLogWrite::FlushedIndex { region_id, tablet_index, flushed } => {
            assert_eq!((*region_id, *tablet_index, *flushed), (REGION, 20, 20));
        }
        other => panic!("{:?}", other),
    }
}

#[test]
fn snapshot_of_another_region_is_refused() {
    let mut s = storage();
    let mut task = write_task();
    match s.apply_snapshot(&snap(20, 8, 8, 9), &mut task, &decode) {
        Err(ApplyError::RegionMismatch { expected, found }) => {
            assert_eq!((expected, found), (REGION, 8));
        }
        _ => panic!("applied"),
    }
    assert_eq!(s.entry_storage, storage().entry_storage);
    assert!(!s.ever_persisted);
    assert!(task.extra_write.is_empty() && !task.has_snapshot && task.persisted_cb.is_none());
}

#[test]
fn snapshot_that_does_not_decode_is_refused() {
    let mut s = storage();
    let mut task = write_task();
    let mut bad = snap(20, 8, 7, 9);
    bad.data.clear();
    match s.apply_snapshot(&bad, &mut task, &decode) {
        Err(ApplyError::Decode(e)) => assert_eq!(e, "0 bytes"),
        _ => panic!("applied"),
    }
    assert_eq!(s.entry_storage, storage().entry_storage);
    assert!(task.extra_write.is_empty() && !task.has_snapshot);
}

#[test]
fn source_of_a_snapshot_depends_on_the_split() {
    let received = |index: u64| {
        SnapSource::Received(TabletSnapKey {
            region_id: REGION,
            to_peer: PEER,
            term: 5,
            idx: index,
        })
    };
    for (split, index, source, clean) in [
        (None, RAFT_INIT_LOG_INDEX, received(RAFT_INIT_LOG_INDEX), false),
        (Some(true), RAFT_INIT_LOG_INDEX, SnapSource::Split, false),
        (Some(false), RAFT_INIT_LOG_INDEX, received(RAFT_INIT_LOG_INDEX), true),
        (Some(true), 6, received(6), true),
    ] {
        let mut s = storage();
        s.split_init = split.map(|scheduled| SplitInit { scheduled, info: "split" });
        let mut task = write_task();
        assert!(s.apply_snapshot(&snap(index, 5, 7, 6), &mut task, &decode).is_ok());
        let hook = task.persisted_cb.unwrap();
        assert_eq!(hook.source, source);
        assert_eq!(hook.clean_split, clean);
        assert_eq!((hook.region_id, hook.index), (REGION, index));
        assert!(s.split_init.is_some() == split.is_some());
    }
    assert_eq!(RAFT_INIT_LOG_INDEX, 5);
}

fn peer(storage: Storage<Types>, persisted_index: u64) -> Peer<Types> {
    Peer {
        storage,
        persisted_index,
        is_leader: true,
        lead_transferee: None,
        locks_status: LocksStatus::Normal,
        pending_ticks: vec![],
        has_ready: false,
    }
}

#[test]
fn peer_pings_when_a_snapshot_is_there() {
    let mut p = peer(storage(), 10);
    assert!(!p.on_snapshot_generated(Some(Box::new(snap(9, 3, 7, 6)))));
    assert!(!p.has_ready);
    let _ = p.storage.snapshot(3, 72, &decode);
    assert!(p.on_snapshot_generated(Some(Box::new(snap(9, 3, 7, 6)))));
    assert!(p.has_ready);
}

#[test]
fn peer_switches_to_an_applied_snapshot() {
    let mut s = storage();
    s.split_init = Some(SplitInit { scheduled: true, info: "split" });
    let mut task = write_task();
    assert!(s.apply_snapshot(&snap(20, 8, 7, 9), &mut task, &decode).is_ok());
    let mut p = peer(s, 20);
    let calls = p.on_applied_snapshot();
    assert_eq!(calls.len(), 3);
    assert!(matches!(calls[0], HostCall::ResetFlushState));
    match &calls[1] {
        HostCall::LoadTablet { region, index: 20 } => {
            assert_eq!((region.id, region.region_epoch.conf_ver), (REGION, 9));
            assert_eq!((&region.start_key, &region.end_key), (&vec![1, 2], &vec![3]));
        }
        _ => panic!("no tablet is loaded"),
    }
    assert!(matches!(calls[2], HostCall::ScheduleApplyFsm));
    let calls = p.applied_snapshot_loaded(20);
    assert_eq!(calls.len(), 4);
    assert!(matches!(calls[0], HostCall::AdvanceApplyTo(20)));
    assert!(matches!(calls[1], HostCall::PublishReader { region_id: REGION }));
    assert!(matches!(calls[2], HostCall::UpdateAppliedCore(20)));
    assert!(matches!(&calls[3], HostCall::PostSplitInit(init) if init.info == "split"));
    assert!(p.storage.split_init.is_none());
    assert_eq!(p.storage.entry_storage.apply_state.applied_index, 20);
    assert_eq!(p.storage.entry_storage.applied_term, 8);
    assert_eq!(p.storage.apply_trace.snapshot_index, 20);
}

#[test]
fn peer_with_entries_in_its_log_does_not_switch() {
    let p = peer(storage(), 10);
    assert!(p.on_applied_snapshot().is_empty());
}

#[test]
fn peer_without_split_has_nothing_to_finish() {
    let mut p = peer(storage(), 5);
    assert_eq!(p.on_applied_snapshot().len(), 3);
    assert_eq!(p.applied_snapshot_loaded(5).len(), 3);
}

#[test]
fn storage_catches_up_with_the_cut() {
    let mut s = storage();
    s.on_applied_snapshot();
    assert_eq!(s.entry_storage.applied_term, 2);
    assert_eq!(s.entry_storage.apply_state.applied_index, 5);
    assert_eq!(s.entry_storage.apply_state.truncated_state.index, 5);
    assert_eq!(s.apply_trace, ApplyTrace { snapshot_index: 5, should_persist: true });
    assert_eq!(s.entry_storage.first_index(), 6);
}

#[test]
fn region_without_members_is_not_initialized() {
    let mut s = storage();
    assert!(s.is_initialized());
    s.region_state.region.peers.clear();
    assert!(!s.is_initialized());
}
