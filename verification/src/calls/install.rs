//! What applying a received snapshot, and switching to it, does.
use vstd::prelude::*;

use crate::meta::{PeerState, RaftSnapshotData, Snapshot, RAFT_INIT_LOG_INDEX};
use crate::msg::{HostCall, PeerTypes};
use crate::peer::Peer;
use crate::storage::{ApplyError, RaftLogWrite, SnapSource, Storage, WriteTask};

verus! {

/// A snapshot is applied exactly if its payload decodes to a region with the id of the
/// storage's region. Otherwise the error tells which of the two failed, with what came back
/// or with both ids, and neither the storage nor the write changes.
pub proof fn law_snapshot_is_applied_to_its_own_region<T: PeerTypes, E>(
    s: &mut Storage<T>,
    index: u64,
    term: u64,
    task: &mut WriteTask,
    decoded: Result<RaftSnapshotData, E>,
    res: Result<(), ApplyError<E>>,
)
    requires
        call_ensures(Storage::<T>::apply_decoded::<E>, (s, index, term, task, decoded), res),
    ensures
        res is Ok <==> decoded is Ok && decoded->Ok_0.region.id == old(s).region_state.region.id,
        decoded matches Err(e) ==> res == Err::<(), _>(ApplyError::Decode(e)),
        decoded matches Ok(data) ==> data.region.id != old(s).region_state.region.id ==> {
            &&& res is Err
            &&& res->Err_0 is RegionMismatch
            &&& res->Err_0->expected == old(s).region_state.region.id
            &&& res->Err_0->found == data.region.id
        },
        res is Err ==> *final(s) == *old(s) && *final(task) == *old(task),
{
}

/// An applied snapshot replaces the region and the log: the region is that of the payload,
/// in the normal state, with a tablet at the snapshot's index; the log ends at the snapshot's
/// index and term, and everything up to there is cut off. What is applied and committed
/// stays as it was until the data is in place, as does everything about generating snapshots.
pub proof fn law_applied_snapshot_replaces_region_and_log<T: PeerTypes, E>(
    s: &mut Storage<T>,
    index: u64,
    term: u64,
    task: &mut WriteTask,
    data: RaftSnapshotData,
)
    requires
        call_ensures(
            Storage::<T>::apply_decoded::<E>,
            (s, index, term, task, Ok(data)),
            Ok(()),
        ),
    ensures
        final(s).region_state.region == data.region,
        final(s).region_state.state == PeerState::Normal,
        final(s).region_state.tablet_index == index,
        ({
            let was = old(s).entry_storage;
            let log = final(s).entry_storage;
            &&& log.raft_state.last_index == index
            &&& log.last_term == term
            &&& log.apply_state.truncated_state.index == index
            &&& log.apply_state.truncated_state.term == term
            &&& log.raft_state.hard_state == was.raft_state.hard_state
            &&& log.apply_state.applied_index == was.apply_state.applied_index
            &&& log.apply_state.commit_index == was.apply_state.commit_index
            &&& log.apply_state.commit_term == was.apply_state.commit_term
            &&& log.applied_term == was.applied_term
        }),
        final(s).ever_persisted,
        !final(s).apply_trace.should_persist,
        final(s).apply_trace.snapshot_index == old(s).apply_trace.snapshot_index,
        final(s).peer == old(s).peer,
        final(s).split_init == old(s).split_init,
        final(s).snap_state == old(s).snap_state,
        final(s).gen_snap_task == old(s).gen_snap_task,
        final(s).failures == old(s).failures,
        final(s).signals == old(s).signals,
{
}

/// What is to be done once an applied snapshot is durable: the data goes to the tablet of
/// this region at the snapshot's index. It comes from the tablet that a split prepared
/// exactly if such a split has been scheduled and the index is the one that regions start
/// from. Otherwise it comes from where this peer received it, under the peer's own id, the
/// region's id and the snapshot's term and index, whatever the members of the region; and
/// then the tablet of a split goes, if there was to be one.
pub proof fn law_install_hook_names_this_peer<T: PeerTypes, E>(
    s: &mut Storage<T>,
    index: u64,
    term: u64,
    task: &mut WriteTask,
    decoded: Result<RaftSnapshotData, E>,
)
    requires
        call_ensures(
            Storage::<T>::apply_decoded::<E>,
            (s, index, term, task, decoded),
            Ok(()),
        ),
    ensures
        final(task).has_snapshot,
        final(task).persisted_cb is Some,
        ({
            let hook = final(task).persisted_cb->0;
            let from_split = old(s).split_init is Some && old(s).split_init->0.scheduled && index
                == RAFT_INIT_LOG_INDEX;
            &&& hook.region_id == old(s).region_state.region.id
            &&& hook.index == index
            &&& hook.source is Split <==> from_split
            &&& hook.clean_split <==> old(s).split_init is Some && !from_split
            &&& hook.source matches SnapSource::Received(key) ==> {
                &&& key.to_peer == old(s).peer.id
                &&& key.region_id == old(s).region_state.region.id
                &&& key.term == term
                &&& key.idx == index
            }
        }),
{
}

/// Applying a snapshot adds three records to the write and keeps those that were there: the
/// apply state and the region state as they are after, and that the raft column family of
/// the new tablet is flushed up to the snapshot. All three are of the region, at the
/// snapshot's index.
pub proof fn law_apply_records_the_new_state<T: PeerTypes, E>(
    s: &mut Storage<T>,
    index: u64,
    term: u64,
    task: &mut WriteTask,
    decoded: Result<RaftSnapshotData, E>,
)
    requires
        call_ensures(
            Storage::<T>::apply_decoded::<E>,
            (s, index, term, task, decoded),
            Ok(()),
        ),
    ensures
        ({
            let n = old(task).extra_write@.len() as int;
            let records = final(task).extra_write@;
            let id = old(s).region_state.region.id;
            let state = final(s).region_state;
            &&& records.len() == n + 3
            &&& forall|i: int| 0 <= i < n ==> #[trigger] records[i] == old(task).extra_write@[i]
            &&& records[n] == RaftLogWrite::ApplyState {
                region_id: id,
                index,
                apply_state: final(s).entry_storage.apply_state,
            }
            &&& records[n + 1] matches RaftLogWrite::RegionState {
                region_id,
                index: at,
                region_state,
            } && {
                &&& region_id == id
                &&& at == index
                &&& region_state.state == state.state
                &&& region_state.tablet_index == state.tablet_index
                &&& region_state.region.id == state.region.id
                &&& region_state.region.start_key@ == state.region.start_key@
                &&& region_state.region.end_key@ == state.region.end_key@
                &&& region_state.region.region_epoch == state.region.region_epoch
                &&& region_state.region.peers@ == state.region.peers@
            }
            &&& records[n + 2] == RaftLogWrite::FlushedIndex {
                region_id: id,
                tablet_index: index,
                flushed: index,
            }
        }),
{
    let n = old(task).extra_write@.len() as int;
    let records = final(task).records();
    assert(records.len() == n + 3);
    assert(records[n] == final(task).extra_write@[n]@);
    assert(records[n + 1] == final(task).extra_write@[n + 1]@);
    assert(records[n + 2] == final(task).extra_write@[n + 2]@);
    let state = final(s).region_state;
    let written = final(task).extra_write@[n + 1]->region_state;
    assert(written@ == state@);
    assert(written@.region == state@.region);
}

/// Applying a snapshot that is still encoded goes by what `decode` gives of its payload, and
/// by the index and term that it carries: it replaces the region and the log, adds the
/// records and leaves the hook for the region that the payload holds, or fails with what
/// `decode` said or with the two region ids.
pub proof fn law_apply_decodes_the_payload<
    T: PeerTypes,
    E,
    D: Fn(&Vec<u8>) -> Result<RaftSnapshotData, E>,
>(
    s: &mut Storage<T>,
    snap: Snapshot,
    task: &mut WriteTask,
    decode: D,
    res: Result<(), ApplyError<E>>,
)
    requires
        call_ensures(Storage::<T>::apply_snapshot::<E, D>, (s, &snap, task, &decode), res),
    ensures
        res matches Err(ApplyError::Decode(e)) ==> call_ensures(decode, (&snap.data,), Err(e)),
        res matches Err(ApplyError::RegionMismatch { expected, found }) ==> {
            &&& expected == old(s).region_state.region.id
            &&& found != expected
            &&& exists|data: RaftSnapshotData|
                {
                    &&& #[trigger] call_ensures(decode, (&snap.data,), Ok::<_, E>(data))
                    &&& data.region.id == found
                }
        },
        res is Err ==> *final(s) == *old(s) && *final(task) == *old(task),
        res is Ok ==> {
            let index = snap.metadata.index;
            let term = snap.metadata.term;
            let was = old(s).entry_storage;
            let log = final(s).entry_storage;
            let from_split = old(s).split_init is Some && old(s).split_init->0.scheduled && index
                == RAFT_INIT_LOG_INDEX;
            let n = old(task).extra_write@.len() as int;
            let hook = final(task).persisted_cb->0;
            &&& call_ensures(
                decode,
                (&snap.data,),
                Ok::<_, E>(RaftSnapshotData { region: final(s).region_state.region }),
            )
            &&& final(s).region_state.region.id == old(s).region_state.region.id
            &&& final(s).region_state.state == PeerState::Normal
            &&& final(s).region_state.tablet_index == index
            &&& log.raft_state.last_index == index
            &&& log.last_term == term
            &&& log.apply_state.truncated_state.index == index
            &&& log.apply_state.truncated_state.term == term
            &&& log.raft_state.hard_state == was.raft_state.hard_state
            &&& log.apply_state.applied_index == was.apply_state.applied_index
            &&& log.apply_state.commit_index == was.apply_state.commit_index
            &&& log.apply_state.commit_term == was.apply_state.commit_term
            &&& log.applied_term == was.applied_term
            &&& final(s).ever_persisted
            &&& !final(s).apply_trace.should_persist
            &&& final(s).apply_trace.snapshot_index == old(s).apply_trace.snapshot_index
            &&& final(s).peer == old(s).peer
            &&& final(s).split_init == old(s).split_init
            &&& final(s).snap_state == old(s).snap_state
            &&& final(s).gen_snap_task == old(s).gen_snap_task
            &&& final(s).failures == old(s).failures
            &&& final(s).signals == old(s).signals
            &&& final(task).has_snapshot
            &&& final(task).persisted_cb is Some
            &&& hook.index == index
            &&& hook.region_id == old(s).region_state.region.id
            &&& hook.source is Split <==> from_split
            &&& hook.clean_split <==> old(s).split_init is Some && !from_split
            &&& hook.source matches SnapSource::Received(key) ==> {
                &&& key.to_peer == old(s).peer.id
                &&& key.region_id == old(s).region_state.region.id
                &&& key.term == term
                &&& key.idx == index
            }
            &&& final(task).extra_write@.len() == n + 3
            &&& old(task).extra_write@.is_prefix_of(final(task).extra_write@)
            &&& final(task).extra_write@[n] == RaftLogWrite::ApplyState {
                region_id: hook.region_id,
                index,
                apply_state: log.apply_state,
            }
            &&& final(task).extra_write@[n + 1] matches RaftLogWrite::RegionState {
                region_id,
                index: at,
                region_state,
            } && {
                let state = final(s).region_state;
                &&& region_id == hook.region_id
                &&& at == index
                &&& region_state.state == state.state
                &&& region_state.tablet_index == state.tablet_index
                &&& region_state.region.id == state.region.id
                &&& region_state.region.start_key@ == state.region.start_key@
                &&& region_state.region.end_key@ == state.region.end_key@
                &&& region_state.region.region_epoch == state.region.region_epoch
                &&& region_state.region.peers@ == state.region.peers@
            }
            &&& final(task).extra_write@[n + 2] == RaftLogWrite::FlushedIndex {
                region_id: hook.region_id,
                tablet_index: index,
                flushed: index,
            }
        },
{
    let decoded = choose|decoded: Result<RaftSnapshotData, E>|
        {
            &&& #[trigger] call_ensures(decode, (&snap.data,), decoded)
            &&& Storage::apply_post(
                *old(s),
                *final(s),
                *old(task),
                *final(task),
                snap.metadata.index,
                snap.metadata.term,
                decoded,
                res,
            )
        };
    if decoded is Ok {
        let data = decoded->Ok_0;
        assert(call_ensures(decode, (&snap.data,), Ok::<_, E>(data)));
        assert(data == (RaftSnapshotData { region: data.region }));
        if res is Ok {
            let n = old(task).extra_write@.len() as int;
            let records = final(task).records();
            assert(records.len() == n + 3);
            assert(records[n] == final(task).extra_write@[n]@);
            assert(records[n + 1] == final(task).extra_write@[n + 1]@);
            assert(records[n + 2] == final(task).extra_write@[n + 2]@);
            let written = final(task).extra_write@[n + 1]->region_state;
            assert(written@ == final(s).region_state@);
            assert(written@.region == final(s).region_state@.region);
        }
    }
}

/// Once the data of a snapshot is in place, what is applied is what was cut off: the applied
/// index and term, and the index that the trace starts from, are those of the cut. Nothing
/// else changes.
pub proof fn law_storage_catches_up_with_the_cut<T: PeerTypes>(s: &mut Storage<T>)
    requires
        call_ensures(Storage::<T>::on_applied_snapshot, (s,), ()),
    ensures
        ({
            let was = old(s).entry_storage;
            let log = final(s).entry_storage;
            let cut = was.apply_state.truncated_state;
            &&& log.apply_state.applied_index == cut.index
            &&& log.applied_term == cut.term
            &&& log.apply_state.truncated_state == cut
            &&& log.apply_state.commit_index == was.apply_state.commit_index
            &&& log.apply_state.commit_term == was.apply_state.commit_term
            &&& log.raft_state == was.raft_state
            &&& log.last_term == was.last_term
            &&& final(s).apply_trace.snapshot_index == cut.index
            &&& final(s).apply_trace.should_persist == old(s).apply_trace.should_persist
        }),
        final(s).peer == old(s).peer,
        final(s).region_state == old(s).region_state,
        final(s).ever_persisted == old(s).ever_persisted,
        final(s).split_init == old(s).split_init,
        final(s).snap_state == old(s).snap_state,
        final(s).gen_snap_task == old(s).gen_snap_task,
        final(s).failures == old(s).failures,
        final(s).signals == old(s).signals,
{
}

/// A peer begins to switch exactly if all that its log holds durably came with a snapshot:
/// the log is cut off at the persisted index. It then starts from a new flush state, loads
/// the tablet of its region at that index, and starts applying, in this order.
pub proof fn law_peer_loads_the_durable_snapshot<T: PeerTypes>(
    peer: Peer<T>,
    calls: Vec<HostCall<T>>,
)
    requires
        call_ensures(Peer::<T>::on_applied_snapshot, (&peer,), calls),
    ensures
        calls@.len() > 0 <==> peer.storage.entry_storage.apply_state.truncated_state.index
            == peer.persisted_index,
        calls@.len() > 0 ==> {
            let region = peer.storage.region_state.region;
            &&& calls@.len() == 3
            &&& calls@[0] is ResetFlushState
            &&& calls@[1] matches HostCall::LoadTablet { region: loaded, index } && {
                &&& index == peer.persisted_index
                &&& loaded.id == region.id
                &&& loaded.start_key@ == region.start_key@
                &&& loaded.end_key@ == region.end_key@
                &&& loaded.region_epoch == region.region_epoch
                &&& loaded.peers@ == region.peers@
            }
            &&& calls@[2] is ScheduleApplyFsm
        },
{
    if peer.only_snapshot_persisted() {
        let loaded = calls@[1]->LoadTablet_region;
        assert(loaded@ == peer.storage.region_state.region@);
    }
}

/// With or without a split, the calls that finish the switch tell raft and the reads the same
/// index: the one that the storage is applied up to after it has caught up, which is the
/// persisted index. In between readers of the peer's region find the peer. A split that the
/// peer was created by is finished last, with what it was to be initialized with, and is then
/// over.
pub proof fn law_switch_announces_the_applied_index<T: PeerTypes>(
    peer: &mut Peer<T>,
    index: u64,
    calls: Vec<HostCall<T>>,
)
    requires
        index == old(peer).persisted_index,
        old(peer).storage.entry_storage.apply_state.truncated_state.index == index,
        call_ensures(Peer::<T>::applied_snapshot_loaded, (peer, index), calls),
    ensures
        final(peer).storage.entry_storage.apply_state.applied_index == index,
        calls@.len() == if old(peer).storage.split_init is Some {
            4int
        } else {
            3
        },
        ({
            let applied = final(peer).storage.entry_storage.apply_state.applied_index;
            let region_id = old(peer).storage.region_state.region.id;
            &&& calls@[0] is AdvanceApplyTo && calls@[0]->AdvanceApplyTo_0 == applied
            &&& calls@[1] is PublishReader && calls@[1]->PublishReader_region_id == region_id
            &&& calls@[2] is UpdateAppliedCore && calls@[2]->UpdateAppliedCore_0 == applied
        }),
        old(peer).storage.split_init matches Some(init) ==> calls@[3] is PostSplitInit
            && calls@[3]->PostSplitInit_0 == init,
        final(peer).storage.split_init is None,
{
}

/// Finishing the switch brings the storage to the cut of its log, as catching up does, and
/// ends the split; nothing else about the peer changes.
pub proof fn law_switch_changes_only_what_is_applied<T: PeerTypes>(
    peer: &mut Peer<T>,
    index: u64,
    calls: Vec<HostCall<T>>,
)
    requires
        call_ensures(Peer::<T>::applied_snapshot_loaded, (peer, index), calls),
    ensures
        ({
            let was = old(peer).storage;
            let now = final(peer).storage;
            let cut = was.entry_storage.apply_state.truncated_state;
            &&& now.entry_storage.apply_state.applied_index == cut.index
            &&& now.entry_storage.applied_term == cut.term
            &&& now.apply_trace.snapshot_index == cut.index
            &&& now.apply_trace.should_persist == was.apply_trace.should_persist
            &&& now.entry_storage.apply_state.truncated_state == cut
            &&& now.entry_storage.apply_state.commit_index
                == was.entry_storage.apply_state.commit_index
            &&& now.entry_storage.apply_state.commit_term
                == was.entry_storage.apply_state.commit_term
            &&& now.entry_storage.raft_state == was.entry_storage.raft_state
            &&& now.entry_storage.last_term == was.entry_storage.last_term
            &&& now.split_init is None
            &&& now.peer == was.peer
            &&& now.region_state == was.region_state
            &&& now.ever_persisted == was.ever_persisted
            &&& now.snap_state == was.snap_state
            &&& now.gen_snap_task == was.gen_snap_task
            &&& now.failures == was.failures
            &&& now.signals == was.signals
        }),
        final(peer).persisted_index == old(peer).persisted_index,
        final(peer).is_leader == old(peer).is_leader,
        final(peer).lead_transferee == old(peer).lead_transferee,
        final(peer).locks_status == old(peer).locks_status,
        final(peer).pending_ticks == old(peer).pending_ticks,
        final(peer).has_ready == old(peer).has_ready,
{
}

/// A peer that has applied a snapshot and made it durable can switch to it.
pub proof fn law_switch_may_be_made<T: PeerTypes>(peer: &mut Peer<T>, index: u64)
    requires
        index == old(peer).persisted_index,
        old(peer).storage.entry_storage.apply_state.truncated_state.index == index,
    ensures
        index < u64::MAX ==> call_requires(Peer::<T>::on_applied_snapshot, (&*old(peer),)),
        call_requires(Peer::<T>::applied_snapshot_loaded, (peer, index)),
{
}

/// A snapshot can be applied, and caught up with, in any state; all it takes is a `decode`
/// that can be called on its payload.
pub proof fn law_snapshot_may_be_applied_in_any_state<
    T: PeerTypes,
    E,
    D: Fn(&Vec<u8>) -> Result<RaftSnapshotData, E>,
>(
    s: &mut Storage<T>,
    snap: Snapshot,
    task: &mut WriteTask,
    decode: D,
    decoded: Result<RaftSnapshotData, E>,
    index: u64,
    term: u64,
)
    ensures
        call_requires(decode, (&snap.data,)) ==> call_requires(
            Storage::<T>::apply_snapshot::<E, D>,
            (s, &snap, task, &decode),
        ),
        call_requires(Storage::<T>::apply_decoded::<E>, (s, index, term, task, decoded)),
        call_requires(Storage::<T>::on_applied_snapshot, (s,)),
{
}

} // verus!
