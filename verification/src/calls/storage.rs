//! What requesting, cancelling and taking in snapshots does.
use std::sync::atomic::{AtomicBool, AtomicU64, Ordering};
use vstd::prelude::*;

use crate::meta::{RaftSnapshotData, Snapshot};
use crate::msg::PeerTypes;
use crate::peer::Peer;
use crate::signal::SignalEvent;
use crate::snap_state::SnapState;
use crate::storage::{FailureCounters, Storage, StorageError};

verus! {

/// The counter after it has counted once more, or not. It starts over after its maximum.
pub open spec fn counted(n: u64, hit: bool) -> u64 {
    if !hit {
        n
    } else if n == u64::MAX {
        0
    } else {
        (n + 1) as u64
    }
}

/// The replica that the two storages hold is the same: the log, the region, the peer and
/// what is known of persisting them.
pub open spec fn same_replica<T: PeerTypes>(a: Storage<T>, b: Storage<T>) -> bool {
    &&& a.entry_storage == b.entry_storage
    &&& a.peer == b.peer
    &&& a.region_state == b.region_state
    &&& a.ever_persisted == b.ever_persisted
    &&& a.split_init == b.split_init
    &&& a.apply_trace == b.apply_trace
}

/// A generation is in progress, and the task that waits to be sent asks for it: it names the
/// region and the peer, shares the two cells of the generation, and is not for balance. The
/// cells were the last to be created, the flag with `false` and the index with zero.
pub open spec fn asks_for<T: PeerTypes>(s: Storage<T>, region_id: u64, to: u64) -> bool {
    &&& s.snap_state is Generating
    &&& s.gen_snap_task is Some
    &&& ({
        let canceled = s.snap_state->canceled;
        let index = s.snap_state->index;
        let task = s.gen_snap_task->0;
        &&& task.region_id == region_id
        &&& task.to_peer == to
        &&& task.canceled == canceled
        &&& task.index == index
        &&& !task.for_balance
        &&& s.signals@.len() > 0
        &&& s.signals@.last() == SignalEvent::Opened { canceled, index }
        &&& call_ensures(AtomicBool::new, (false,), *canceled)
        &&& call_ensures(AtomicU64::new, (0u64,), *index)
    })
}

/// `after` is `before` and one more event: `true` was stored in the flag of the generation
/// that `s` had in progress.
pub open spec fn flag_was_raised<T: PeerTypes>(
    s: Storage<T>,
    before: Seq<SignalEvent>,
    after: Seq<SignalEvent>,
) -> bool {
    &&& s.snap_state matches SnapState::Generating { canceled, .. }
    &&& after == before.push(SignalEvent::Raised(canceled))
    &&& call_ensures(AtomicBool::store, (&*canceled, true, Ordering::SeqCst), ())
}

/// A request is met exactly if a snapshot is there that was taken at the requested index or
/// later, whose payload decodes, and whose `conf_ver` is not older than that of the region.
/// That very snapshot is handed out, and nothing changes but that it is gone.
pub proof fn law_request_is_met_by_a_good_snapshot<T: PeerTypes, E>(
    s: &mut Storage<T>,
    request_index: u64,
    to: u64,
    canceled_now: bool,
    decoded: Option<Result<RaftSnapshotData, E>>,
    res: Result<Snapshot, StorageError>,
)
    requires
        call_ensures(
            Storage::<T>::snapshot_given::<E>,
            (s, request_index, to, canceled_now, &decoded),
            res,
        ),
    ensures
        res is Ok <==> {
            &&& old(s).snap_state is Generated
            &&& old(s).snap_state->0.metadata.index >= request_index
            &&& decoded is Some
            &&& decoded->0 is Ok
            &&& decoded->0->Ok_0.region.region_epoch.conf_ver >= old(
                s,
            ).region_state.region.region_epoch.conf_ver
        },
        res matches Ok(snap) ==> {
            &&& old(s).snap_state == SnapState::Generated(Box::new(snap))
            &&& final(s).snap_state is Relax
            &&& final(s).gen_snap_task == old(s).gen_snap_task
            &&& final(s).signals == old(s).signals
            &&& final(s).failures == old(s).failures
            &&& same_replica(*final(s), *old(s))
        },
{
}

/// After any refused request, the generation in progress is one whose flag was not read as
/// raised. If one was in progress and its flag read lowered, nothing changes. In all other
/// cases a new one is asked for, whether or not an earlier task still waits to be sent; and
/// if the flag of the one in progress read raised, it is raised on record before.
pub proof fn law_refused_request_starts_over<T: PeerTypes, E>(
    s: &mut Storage<T>,
    request_index: u64,
    to: u64,
    canceled_now: bool,
    decoded: Option<Result<RaftSnapshotData, E>>,
    e: StorageError,
)
    requires
        call_ensures(
            Storage::<T>::snapshot_given::<E>,
            (s, request_index, to, canceled_now, &decoded),
            Err(e),
        ),
    ensures
        e is SnapshotTemporarilyUnavailable,
        old(s).snap_state is Generating && !canceled_now ==> *final(s) == *old(s),
        old(s).snap_state is Generating && canceled_now ==> {
            &&& asks_for(*final(s), old(s).region_state.region.id, to)
            &&& flag_was_raised(*old(s), old(s).signals@, final(s).signals@.drop_last())
        },
        old(s).snap_state !is Generating ==> {
            &&& asks_for(*final(s), old(s).region_state.region.id, to)
            &&& final(s).signals@.drop_last() == old(s).signals@
        },
        same_replica(*final(s), *old(s)),
{
    if old(s).snap_state is Generating && canceled_now {
        let mid = choose|mid: Storage<T>|
            {
                &&& #[trigger] Storage::cancel_post(*old(s), mid, None, 0)
                &&& Storage::request_post(mid, *final(s), to)
            };
        assert(final(s).signals@.drop_last() =~= mid.signals@);
    } else if old(s).snap_state !is Generating {
        assert(final(s).signals@.drop_last() =~= old(s).signals@);
    }
}

/// A request counts why the snapshot that was there is not good, one reason at a time, and
/// that a generation was called off; it counts nothing else.
pub proof fn law_request_counts_the_failure<T: PeerTypes, E>(
    s: &mut Storage<T>,
    request_index: u64,
    to: u64,
    canceled_now: bool,
    decoded: Option<Result<RaftSnapshotData, E>>,
    res: Result<Snapshot, StorageError>,
)
    requires
        call_ensures(
            Storage::<T>::snapshot_given::<E>,
            (s, request_index, to, canceled_now, &decoded),
            res,
        ),
    ensures
        ({
            let was = old(s).failures;
            let now = final(s).failures;
            let there = old(s).snap_state is Generated;
            let late = there && old(s).snap_state->0.metadata.index >= request_index;
            let readable = decoded is Some && decoded->0 is Ok;
            let outgrown = decoded->0->Ok_0.region.region_epoch.conf_ver < old(
                s,
            ).region_state.region.region_epoch.conf_ver;
            &&& now.stale == counted(was.stale, there && !late)
            &&& now.decode == counted(was.decode, late && !readable)
            &&& now.epoch == counted(was.epoch, late && readable && outgrown)
            &&& now.cancel == counted(
                was.cancel,
                old(s).snap_state is Generating && canceled_now,
            )
        }),
{
}

/// What a request does on its own, reading the flag and the payload itself. Where none was
/// being generated and none is good, or the flag may read raised, a new one is asked for; a
/// snapshot is handed out only if its payload decodes to something recent enough.
pub proof fn law_snapshot_reads_and_answers<
    T: PeerTypes,
    E,
    D: Fn(&Vec<u8>) -> Result<RaftSnapshotData, E>,
>(
    s: &mut Storage<T>,
    request_index: u64,
    to: u64,
    decode: D,
    res: Result<Snapshot, StorageError>,
)
    requires
        call_ensures(Storage::<T>::snapshot::<E, D>, (s, request_index, to, &decode), res),
    ensures
        same_replica(*final(s), *old(s)),
        res matches Ok(snap) ==> {
            &&& old(s).snap_state == SnapState::Generated(Box::new(snap))
            &&& snap.metadata.index >= request_index
            &&& exists|data: RaftSnapshotData|
                {
                    &&& #[trigger] call_ensures(decode, (&snap.data,), Ok::<_, E>(data))
                    &&& data.region.region_epoch.conf_ver >= old(
                        s,
                    ).region_state.region.region_epoch.conf_ver
                }
            &&& final(s).snap_state is Relax
            &&& final(s).gen_snap_task == old(s).gen_snap_task
            &&& final(s).signals == old(s).signals
            &&& final(s).failures == old(s).failures
        },
        res is Err ==> match old(s).snap_state {
            SnapState::Generating { canceled, .. } => {
                ||| {
                    &&& call_ensures(AtomicBool::load, (&*canceled, Ordering::SeqCst), false)
                    &&& *final(s) == *old(s)
                }
                ||| {
                    &&& call_ensures(AtomicBool::load, (&*canceled, Ordering::SeqCst), true)
                    &&& asks_for(*final(s), old(s).region_state.region.id, to)
                    &&& flag_was_raised(*old(s), old(s).signals@, final(s).signals@.drop_last())
                    &&& final(s).failures == (FailureCounters {
                        cancel: counted(old(s).failures.cancel, true),
                        ..old(s).failures
                    })
                }
            },
            SnapState::Relax => {
                &&& asks_for(*final(s), old(s).region_state.region.id, to)
                &&& final(s).signals@.drop_last() == old(s).signals@
                &&& final(s).failures == old(s).failures
            },
            SnapState::Generated(snap) => {
                &&& asks_for(*final(s), old(s).region_state.region.id, to)
                &&& final(s).signals@.drop_last() == old(s).signals@
                &&& if snap.metadata.index < request_index {
                    final(s).failures == (FailureCounters {
                        stale: counted(old(s).failures.stale, true),
                        ..old(s).failures
                    })
                } else {
                    exists|read: Result<RaftSnapshotData, E>|
                        {
                            &&& #[trigger] call_ensures(decode, (&snap.data,), read)
                            &&& final(s).failures == match read {
                                Err(_) => FailureCounters {
                                    decode: counted(old(s).failures.decode, true),
                                    ..old(s).failures
                                },
                                Ok(_) => FailureCounters {
                                    epoch: counted(old(s).failures.epoch, true),
                                    ..old(s).failures
                                },
                            }
                            &&& read matches Ok(data) ==> data.region.region_epoch.conf_ver < old(
                                s,
                            ).region_state.region.region_epoch.conf_ver
                        }
                }
            },
        },
{
    let (canceled_now, decoded) = choose|
        canceled_now: bool,
        decoded: Option<Result<RaftSnapshotData, E>>,
    |
        {
            &&& old(s).cancel_reads(canceled_now)
            &&& old(s).payload_seen(request_index, decode, decoded)
            &&& #[trigger] Storage::snapshot_post(
                *old(s),
                *final(s),
                request_index,
                to,
                canceled_now,
                decoded,
                res,
            )
        };
    match old(s).snap_state {
        SnapState::Generating { .. } => {
            if canceled_now {
                let mid = choose|mid: Storage<T>|
                    {
                        &&& #[trigger] Storage::cancel_post(*old(s), mid, None, 0)
                        &&& Storage::request_post(mid, *final(s), to)
                    };
                assert(final(s).signals@.drop_last() =~= mid.signals@);
            }
        },
        SnapState::Relax => {
            assert(final(s).signals@.drop_last() =~= old(s).signals@);
        },
        SnapState::Generated(snap) => {
            if res is Err {
                assert(final(s).signals@.drop_last() =~= old(s).signals@);
            }
            if snap.metadata.index >= request_index {
                let read = decoded->0;
                assert(call_ensures(decode, (&snap.data,), read));
                if read is Ok {
                    let data = read->Ok_0;
                    assert(call_ensures(decode, (&snap.data,), Ok::<_, E>(data)));
                }
            }
        },
    }
}

/// A request may be made whenever no task waits to be sent, a generation is in progress, or
/// a good snapshot is there. The payload has to be decoded for it only if a snapshot is there
/// that was taken at the requested index or later.
pub proof fn law_request_may_be_made<T: PeerTypes, E>(
    s: &mut Storage<T>,
    request_index: u64,
    to: u64,
    canceled_now: bool,
    decoded: Option<Result<RaftSnapshotData, E>>,
)
    requires
        old(s).snap_state is Generated && old(s).snap_state->0.metadata.index >= request_index
            ==> decoded is Some,
        old(s).gen_snap_task is None || old(s).snap_state is Generating || {
            &&& old(s).snap_state is Generated
            &&& old(s).snap_state->0.metadata.index >= request_index
            &&& decoded->0 is Ok
            &&& decoded->0->Ok_0.region.region_epoch.conf_ver >= old(
                s,
            ).region_state.region.region_epoch.conf_ver
        },
    ensures
        call_requires(
            Storage::<T>::snapshot_given::<E>,
            (s, request_index, to, canceled_now, &decoded),
        ),
{
}

/// A request that reads the flag and the payload itself may be made whenever no task waits
/// to be sent or a generation is in progress; all it needs is a `decode` that can be called.
/// Where a task may wait, it is put off instead.
pub proof fn law_snapshot_may_be_called<
    T: PeerTypes,
    E,
    D: Fn(&Vec<u8>) -> Result<RaftSnapshotData, E>,
>(s: &mut Storage<T>, request_index: u64, to: u64, decode: D)
    requires
        old(s).snap_state matches SnapState::Generated(snap) ==> snap.metadata.index
            >= request_index ==> call_requires(decode, (&snap.data,)),
    ensures
        old(s).gen_snap_task is None || old(s).snap_state is Generating ==> call_requires(
            Storage::<T>::snapshot::<E, D>,
            (s, request_index, to, &decode),
        ),
        call_requires(Storage::<T>::try_snapshot::<E, D>, (s, request_index, to, &decode)),
{
}

/// A request is put off exactly if a task waits to be sent, none is being generated, and no
/// good snapshot is there; then nothing changes. Otherwise it is met or refused: met only by
/// a good snapshot, and refused only where no task waits or a generation is in progress,
/// after which a new one is asked for unless the flag may read lowered.
pub proof fn law_request_is_put_off_or_answered<
    T: PeerTypes,
    E,
    D: Fn(&Vec<u8>) -> Result<RaftSnapshotData, E>,
>(
    s: &mut Storage<T>,
    request_index: u64,
    to: u64,
    decode: D,
    answer: Option<Result<Snapshot, StorageError>>,
)
    requires
        call_ensures(Storage::<T>::try_snapshot::<E, D>, (s, request_index, to, &decode), answer),
    ensures
        same_replica(*final(s), *old(s)),
        answer is None ==> {
            &&& *final(s) == *old(s)
            &&& old(s).gen_snap_task is Some
            &&& old(s).snap_state !is Generating
            &&& old(s).snap_state matches SnapState::Generated(snap) ==> snap.metadata.index
                < request_index || exists|read: Result<RaftSnapshotData, E>|
                {
                    &&& #[trigger] call_ensures(decode, (&snap.data,), read)
                    &&& read matches Ok(data) ==> data.region.region_epoch.conf_ver < old(
                        s,
                    ).region_state.region.region_epoch.conf_ver
                }
        },
        answer matches Some(Ok(snap)) ==> {
            &&& old(s).snap_state == SnapState::Generated(Box::new(snap))
            &&& snap.metadata.index >= request_index
            &&& exists|data: RaftSnapshotData|
                {
                    &&& #[trigger] call_ensures(decode, (&snap.data,), Ok::<_, E>(data))
                    &&& data.region.region_epoch.conf_ver >= old(
                        s,
                    ).region_state.region.region_epoch.conf_ver
                }
            &&& final(s).snap_state is Relax
            &&& final(s).gen_snap_task == old(s).gen_snap_task
            &&& final(s).signals == old(s).signals
            &&& final(s).failures == old(s).failures
        },
        answer matches Some(Err(_)) ==> match old(s).snap_state {
            SnapState::Generating { canceled, .. } => {
                ||| {
                    &&& call_ensures(AtomicBool::load, (&*canceled, Ordering::SeqCst), false)
                    &&& *final(s) == *old(s)
                }
                ||| {
                    &&& call_ensures(AtomicBool::load, (&*canceled, Ordering::SeqCst), true)
                    &&& asks_for(*final(s), old(s).region_state.region.id, to)
                    &&& flag_was_raised(*old(s), old(s).signals@, final(s).signals@.drop_last())
                    &&& final(s).failures == (FailureCounters {
                        cancel: counted(old(s).failures.cancel, true),
                        ..old(s).failures
                    })
                }
            },
            SnapState::Relax => {
                &&& old(s).gen_snap_task is None
                &&& asks_for(*final(s), old(s).region_state.region.id, to)
                &&& final(s).signals@.drop_last() == old(s).signals@
                &&& final(s).failures == old(s).failures
            },
            SnapState::Generated(snap) => {
                &&& old(s).gen_snap_task is None
                &&& asks_for(*final(s), old(s).region_state.region.id, to)
                &&& final(s).signals@.drop_last() == old(s).signals@
                &&& if snap.metadata.index < request_index {
                    final(s).failures == (FailureCounters {
                        stale: counted(old(s).failures.stale, true),
                        ..old(s).failures
                    })
                } else {
                    exists|read: Result<RaftSnapshotData, E>|
                        {
                            &&& #[trigger] call_ensures(decode, (&snap.data,), read)
                            &&& final(s).failures == match read {
                                Err(_) => FailureCounters {
                                    decode: counted(old(s).failures.decode, true),
                                    ..old(s).failures
                                },
                                Ok(_) => FailureCounters {
                                    epoch: counted(old(s).failures.epoch, true),
                                    ..old(s).failures
                                },
                            }
                            &&& read matches Ok(data) ==> data.region.region_epoch.conf_ver < old(
                                s,
                            ).region_state.region.region_epoch.conf_ver
                        }
                }
            },
        },
{
    let (canceled_now, decoded) = choose|
        canceled_now: bool,
        decoded: Option<Result<RaftSnapshotData, E>>,
    |
        {
            &&& #[trigger] Storage::try_snapshot_post(
                *old(s),
                *final(s),
                request_index,
                to,
                canceled_now,
                decoded,
                answer,
            )
            &&& old(s).cancel_reads(canceled_now)
            &&& old(s).payload_seen(request_index, decode, decoded)
        };
    match old(s).snap_state {
        SnapState::Generating { .. } => {
            if canceled_now {
                let mid = choose|mid: Storage<T>|
                    {
                        &&& #[trigger] Storage::cancel_post(*old(s), mid, None, 0)
                        &&& Storage::request_post(mid, *final(s), to)
                    };
                assert(final(s).signals@.drop_last() =~= mid.signals@);
            }
        },
        SnapState::Relax => {
            if answer is Some {
                assert(final(s).signals@.drop_last() =~= old(s).signals@);
            }
        },
        SnapState::Generated(snap) => {
            if answer is Some && answer->0 is Err {
                assert(final(s).signals@.drop_last() =~= old(s).signals@);
            }
            if snap.metadata.index >= request_index {
                let read = decoded->0;
                assert(call_ensures(decode, (&snap.data,), read));
                if read is Ok {
                    let data = read->Ok_0;
                    assert(call_ensures(decode, (&snap.data,), Ok::<_, E>(data)));
                }
            }
        },
    }
}

/// A snapshot is good exactly if it was taken at the requested index or later, its payload
/// decodes, and its `conf_ver` is not older than that of the region. Judging one counts the
/// first reason that speaks against it and changes nothing else.
pub proof fn law_snapshot_is_judged_by_index_payload_and_epoch<T: PeerTypes, E>(
    s: &mut Storage<T>,
    snap: Snapshot,
    request_index: u64,
    decoded: Option<Result<RaftSnapshotData, E>>,
    valid: bool,
)
    requires
        call_ensures(
            Storage::<T>::validate_snap::<E>,
            (s, &snap, request_index, &decoded),
            valid,
        ),
    ensures
        ({
            let late = snap.metadata.index >= request_index;
            let readable = decoded is Some && decoded->0 is Ok;
            let outgrown = decoded->0->Ok_0.region.region_epoch.conf_ver < old(
                s,
            ).region_state.region.region_epoch.conf_ver;
            &&& valid <==> late && readable && !outgrown
            &&& final(s).failures.stale == counted(old(s).failures.stale, !late)
            &&& final(s).failures.decode == counted(old(s).failures.decode, late && !readable)
            &&& final(s).failures.epoch == counted(
                old(s).failures.epoch,
                late && readable && outgrown,
            )
            &&& final(s).failures.cancel == old(s).failures.cancel
        }),
        final(s).snap_state == old(s).snap_state,
        final(s).gen_snap_task == old(s).gen_snap_task,
        final(s).signals == old(s).signals,
        same_replica(*final(s), *old(s)),
{
}

/// A generation in progress is called off if nothing is compacted, or if its index is decided
/// and the log is compacted to beyond the entry after it. Then its flag is raised, the task
/// that waits is dropped, the state is at rest and the cancellation is counted. Otherwise,
/// and if none is in progress, nothing changes.
pub proof fn law_cancel_calls_off_what_is_outdated<T: PeerTypes>(
    s: &mut Storage<T>,
    compact_to: Option<u64>,
    snap_index: u64,
)
    requires
        call_ensures(
            Storage::<T>::cancel_generating_snap_at,
            (s, compact_to, snap_index),
            (),
        ),
    ensures
        ({
            let off = old(s).snap_state is Generating && (compact_to matches Some(n) ==> snap_index
                != 0 && n - 1 > snap_index);
            &&& !off ==> *final(s) == *old(s)
            &&& off ==> {
                &&& final(s).snap_state is Relax
                &&& final(s).gen_snap_task is None
                &&& flag_was_raised(*old(s), old(s).signals@, final(s).signals@)
                &&& final(s).failures == (FailureCounters {
                    cancel: counted(old(s).failures.cancel, true),
                    ..old(s).failures
                })
                &&& same_replica(*final(s), *old(s))
            }
        }),
{
}

/// Calling a generation off goes by what a load of its index cell gives: if nothing changes,
/// none was in progress or the load gave an index that the compaction spares; if it is called
/// off, there was no compaction or the load gave one that the compaction outdates.
pub proof fn law_cancel_reads_the_index<T: PeerTypes>(s: &mut Storage<T>, compact_to: Option<u64>)
    requires
        call_ensures(Storage::<T>::cancel_generating_snap, (s, compact_to), ()),
    ensures
        old(s).snap_state !is Generating ==> *final(s) == *old(s),
        old(s).snap_state matches SnapState::Generating { index, .. } ==> {
            ||| {
                &&& *final(s) == *old(s)
                &&& compact_to matches Some(n) && exists|at: u64|
                    {
                        &&& #[trigger] call_ensures(
                            AtomicU64::load,
                            (&*index, Ordering::SeqCst),
                            at,
                        )
                        &&& at == 0 || n - 1 <= at
                    }
            }
            ||| {
                &&& compact_to matches Some(n) ==> exists|at: u64|
                    {
                        &&& #[trigger] call_ensures(
                            AtomicU64::load,
                            (&*index, Ordering::SeqCst),
                            at,
                        )
                        &&& at != 0 && n - 1 > at
                    }
                &&& final(s).snap_state is Relax
                &&& final(s).gen_snap_task is None
                &&& flag_was_raised(*old(s), old(s).signals@, final(s).signals@)
                &&& final(s).failures == (FailureCounters {
                    cancel: counted(old(s).failures.cancel, true),
                    ..old(s).failures
                })
                &&& same_replica(*final(s), *old(s))
            }
        },
{
    let snap_index = choose|snap_index: u64|
        {
            &&& old(s).index_reads(snap_index)
            &&& #[trigger] Storage::cancel_post(*old(s), *final(s), compact_to, snap_index)
        };
    if old(s).snap_state is Generating {
        let index = old(s).snap_state->index;
        assert(call_ensures(AtomicU64::load, (&*index, Ordering::SeqCst), snap_index));
    }
}

/// A snapshot is taken in exactly if one is being generated and it was taken at the required
/// index or later; then it is there, as it came, and nothing else changes. One that is not
/// taken in changes nothing. A generation that ends without a snapshot is called off.
pub proof fn law_generated_snapshot_is_taken_in<T: PeerTypes>(
    s: &mut Storage<T>,
    res: Option<Box<Snapshot>>,
    required_index: u64,
    switched: bool,
)
    requires
        call_ensures(
            Storage::<T>::on_snapshot_generated_at,
            (s, res, required_index),
            switched,
        ),
    ensures
        switched <==> {
            &&& res is Some
            &&& res->0.metadata.index >= required_index
            &&& old(s).snap_state is Generating
        },
        switched ==> {
            &&& final(s).snap_state is Generated
            &&& final(s).snap_state->0 == res->0
            &&& final(s).gen_snap_task == old(s).gen_snap_task
            &&& final(s).signals == old(s).signals
            &&& final(s).failures == old(s).failures
        },
        res is Some && !switched ==> *final(s) == *old(s),
        res is None && old(s).snap_state !is Generating ==> *final(s) == *old(s),
        res is None && old(s).snap_state is Generating ==> {
            &&& final(s).snap_state is Relax
            &&& final(s).gen_snap_task is None
            &&& flag_was_raised(*old(s), old(s).signals@, final(s).signals@)
            &&& final(s).failures == (FailureCounters {
                cancel: counted(old(s).failures.cancel, true),
                ..old(s).failures
            })
        },
        same_replica(*final(s), *old(s)),
{
}

/// What a storage requires of a generated snapshot is an index that a load of the index cell
/// of the generation gives.
pub proof fn law_taking_in_reads_the_index<T: PeerTypes>(
    s: &mut Storage<T>,
    res: Option<Box<Snapshot>>,
    switched: bool,
)
    requires
        call_ensures(Storage::<T>::on_snapshot_generated, (s, res), switched),
    ensures
        same_replica(*final(s), *old(s)),
        old(s).snap_state !is Generating ==> !switched && *final(s) == *old(s),
        old(s).snap_state matches SnapState::Generating { index, .. } ==> match res {
            None => {
                &&& !switched
                &&& final(s).snap_state is Relax
                &&& final(s).gen_snap_task is None
                &&& flag_was_raised(*old(s), old(s).signals@, final(s).signals@)
                &&& final(s).failures == (FailureCounters {
                    cancel: counted(old(s).failures.cancel, true),
                    ..old(s).failures
                })
            },
            Some(snap) => exists|at: u64|
                {
                    &&& #[trigger] call_ensures(AtomicU64::load, (&*index, Ordering::SeqCst), at)
                    &&& switched <==> snap.metadata.index >= at
                    &&& !switched ==> *final(s) == *old(s)
                    &&& switched ==> {
                        &&& final(s).snap_state == SnapState::Generated(snap)
                        &&& final(s).gen_snap_task == old(s).gen_snap_task
                        &&& final(s).signals == old(s).signals
                        &&& final(s).failures == old(s).failures
                    }
                },
        },
{
    let at = choose|at: u64|
        {
            &&& old(s).index_reads(at)
            &&& #[trigger] Storage::generated_post(*old(s), *final(s), res, at, switched)
        };
    if old(s).snap_state is Generating {
        let index = old(s).snap_state->index;
        assert(call_ensures(AtomicU64::load, (&*index, Ordering::SeqCst), at));
    }
}

/// A peer takes in the outcome of a generation as its storage does. It contacts its
/// followers, and raft has something to process, exactly if a snapshot is there now that was
/// not there before. Nothing else about the peer changes.
pub proof fn law_peer_pings_for_a_new_snapshot<T: PeerTypes>(
    peer: &mut Peer<T>,
    res: Option<Box<Snapshot>>,
    ping: bool,
)
    requires
        call_ensures(Peer::<T>::on_snapshot_generated, (peer, res), ping),
    ensures
        final(peer).has_ready <==> old(peer).has_ready || ping,
        final(peer).persisted_index == old(peer).persisted_index,
        final(peer).is_leader == old(peer).is_leader,
        final(peer).lead_transferee == old(peer).lead_transferee,
        final(peer).locks_status == old(peer).locks_status,
        final(peer).pending_ticks == old(peer).pending_ticks,
        same_replica(final(peer).storage, old(peer).storage),
        ping ==> {
            &&& res is Some
            &&& old(peer).storage.snap_state is Generating
            &&& final(peer).storage.snap_state == SnapState::Generated(res->0)
            &&& final(peer).storage.gen_snap_task == old(peer).storage.gen_snap_task
            &&& final(peer).storage.signals == old(peer).storage.signals
            &&& final(peer).storage.failures == old(peer).storage.failures
        },
        old(peer).storage.snap_state !is Generating ==> !ping && *final(peer) == *old(peer),
        old(peer).storage.snap_state matches SnapState::Generating { index, .. } ==> match res {
            None => {
                &&& !ping
                &&& final(peer).storage.snap_state is Relax
                &&& final(peer).storage.gen_snap_task is None
                &&& flag_was_raised(
                    old(peer).storage,
                    old(peer).storage.signals@,
                    final(peer).storage.signals@,
                )
                &&& final(peer).storage.failures == (FailureCounters {
                    cancel: counted(old(peer).storage.failures.cancel, true),
                    ..old(peer).storage.failures
                })
            },
            Some(snap) => exists|at: u64|
                {
                    &&& #[trigger] call_ensures(AtomicU64::load, (&*index, Ordering::SeqCst), at)
                    &&& ping <==> snap.metadata.index >= at
                    &&& !ping ==> *final(peer) == *old(peer)
                },
        },
{
    let at = choose|at: u64|
        {
            &&& old(peer).storage.index_reads(at)
            &&& #[trigger] Peer::generated_post(*old(peer), *final(peer), res, at, ping)
        };
    if old(peer).storage.snap_state is Generating {
        let index = old(peer).storage.snap_state->index;
        assert(call_ensures(AtomicU64::load, (&*index, Ordering::SeqCst), at));
    }
}

/// A generation can be called off, and its outcome taken in, at any time and in any state.
pub proof fn law_cancel_and_outcome_come_at_any_time<T: PeerTypes>(
    s: &mut Storage<T>,
    peer: &mut Peer<T>,
    compact_to: Option<u64>,
    index: u64,
    res: Option<Box<Snapshot>>,
)
    ensures
        call_requires(Storage::<T>::cancel_generating_snap, (s, compact_to)),
        call_requires(Storage::<T>::cancel_generating_snap_at, (s, compact_to, index)),
        call_requires(Storage::<T>::on_snapshot_generated, (s, res)),
        call_requires(Storage::<T>::on_snapshot_generated_at, (s, res, index)),
        call_requires(Peer::<T>::on_snapshot_generated, (peer, res)),
{
}

} // verus!
