//! The part of a peer's storage that requests, validates, cancels and applies snapshots.
use vstd::prelude::*;

use crate::meta::{
    PeerMeta, PeerState, RaftApplyState, RaftLocalState, RaftSnapshotData, RaftTruncatedState,
    RegionEpoch, RegionLocalState, RegionLocalStateView, Snapshot, RAFT_INIT_LOG_INDEX,
};
use crate::msg::{PeerTypes, SplitInit};
use crate::signal::{
    cell_reads, flag_reads, is_raised, published_index, SignalEvent, SignalLog,
};
use crate::snap_state::{GenSnapTask, SnapState};

verus! {

/// The log's state as a storage keeps it.
#[derive(Clone, Copy, PartialEq, Eq, Structural, Debug)]
pub struct EntryStorage {
    pub raft_state: RaftLocalState,
    pub apply_state: RaftApplyState,
    /// The term of the last log entry.
    pub last_term: u64,
    /// The term of the last applied entry.
    pub applied_term: u64,
}

/// What the storage remembers of persisting applied data.
#[derive(Clone, Copy, PartialEq, Eq, Structural, Debug)]
pub struct ApplyTrace {
    /// The index of the snapshot that the trace was last reset to.
    pub snapshot_index: u64,
    /// Whether the next write should persist the trace.
    pub should_persist: bool,
}

/// How often snapshots were rejected or called off, by reason.
#[derive(Clone, Copy, PartialEq, Eq, Structural, Debug)]
pub struct FailureCounters {
    pub stale: u64,
    pub decode: u64,
    pub epoch: u64,
    pub cancel: u64,
}

impl FailureCounters {
    /// The counters once a snapshot has been judged.
    pub open spec fn judging(self, verdict: SnapVerdict) -> FailureCounters {
        match verdict {
            SnapVerdict::Valid => self,
            SnapVerdict::Stale => FailureCounters { stale: self.stale.wrapping_add(1), ..self },
            SnapVerdict::Corrupted => FailureCounters {
                decode: self.decode.wrapping_add(1),
                ..self
            },
            SnapVerdict::StaleEpoch => FailureCounters {
                epoch: self.epoch.wrapping_add(1),
                ..self
            },
        }
    }

    /// The counters once a generation has been called off.
    pub open spec fn canceling(self) -> FailureCounters {
        FailureCounters { cancel: self.cancel.wrapping_add(1), ..self }
    }
}

/// What a generated snapshot is worth to the one who asks for it.
#[derive(Clone, Copy, PartialEq, Eq, Structural, Debug)]
pub enum SnapVerdict {
    Valid,
    /// It was taken before the requested index.
    Stale,
    /// Its payload does not decode.
    Corrupted,
    /// The membership of the region has changed since it was taken.
    StaleEpoch,
}

/// What a snapshot taken at `index` is worth, given what its payload decodes to. A
/// snapshot from before the requested index is not decoded at all.
pub open spec fn snap_verdict<E>(
    index: u64,
    request_index: u64,
    decoded: Option<Result<RaftSnapshotData, E>>,
    latest_epoch: RegionEpoch,
) -> SnapVerdict {
    if index < request_index {
        SnapVerdict::Stale
    } else {
        match decoded {
            Some(Ok(data)) => if data.region.region_epoch.conf_ver < latest_epoch.conf_ver {
                SnapVerdict::StaleEpoch
            } else {
                SnapVerdict::Valid
            },
            _ => SnapVerdict::Corrupted,
        }
    }
}

/// Whether a generation whose snapshot is taken at `snap_index` should be called off when
/// the log is compacted up to `compact_to`: it should once the snapshot would no longer
/// meet the log that is left. Without a compaction it is called off in any case, and while
/// the index is not decided yet (zero) a compaction does not matter.
pub open spec fn outdated_by(compact_to: Option<u64>, snap_index: u64) -> bool {
    match compact_to {
        None => true,
        Some(idx) => snap_index != 0 && idx > snap_index + 1,
    }
}

/// Why raft gets no snapshot.
#[derive(Clone, Copy, PartialEq, Eq, Structural, Debug)]
pub enum StorageError {
    /// There is none yet; asking again later may help.
    SnapshotTemporarilyUnavailable,
}

/// Why a snapshot could not be applied.
#[derive(Debug)]
pub enum ApplyError<E> {
    /// The payload does not decode.
    Decode(E),
    /// The snapshot is of another region.
    RegionMismatch { expected: u64, found: u64 },
}

/// The name under which a received snapshot is stored.
#[derive(Clone, Copy, PartialEq, Eq, Structural, Debug)]
pub struct TabletSnapKey {
    pub region_id: u64,
    pub to_peer: u64,
    pub term: u64,
    pub idx: u64,
}

/// Where the data of a snapshot lies before it is put in place.
#[derive(Clone, Copy, PartialEq, Eq, Structural, Debug)]
pub enum SnapSource {
    /// In the tablet that a split on this store prepared.
    Split,
    /// Where the received snapshot was stored.
    Received(TabletSnapKey),
}

/// What is to be done once the state of an applied snapshot is durable: the data moves
/// from the source to the tablet of the region at the index, and the tablet that a split
/// prepared for the region at the index is removed if `clean_split` says so.
#[derive(Clone, Copy, PartialEq, Eq, Structural, Debug)]
pub struct InstallHook {
    pub source: SnapSource,
    pub region_id: u64,
    pub index: u64,
    pub clean_split: bool,
}

/// A record for the raft engine.
#[derive(Debug)]
pub enum RaftLogWrite {
    ApplyState { region_id: u64, index: u64, apply_state: RaftApplyState },
    RegionState { region_id: u64, index: u64, region_state: RegionLocalState },
    /// The raft column family of a tablet is flushed up to an index.
    FlushedIndex { region_id: u64, tablet_index: u64, flushed: u64 },
}

/// The mathematical content of a [`RaftLogWrite`].
pub enum LogRecord {
    ApplyState { region_id: u64, index: u64, apply_state: RaftApplyState },
    RegionState { region_id: u64, index: u64, region_state: RegionLocalStateView },
    FlushedIndex { region_id: u64, tablet_index: u64, flushed: u64 },
}

impl View for RaftLogWrite {
    type V = LogRecord;

    open spec fn view(&self) -> LogRecord {
        match *self {
            RaftLogWrite::ApplyState { region_id, index, apply_state } => LogRecord::ApplyState {
                region_id,
                index,
                apply_state,
            },
            RaftLogWrite::RegionState { region_id, index, region_state } =>
                LogRecord::RegionState { region_id, index, region_state: region_state@ },
            RaftLogWrite::FlushedIndex { region_id, tablet_index, flushed } =>
                LogRecord::FlushedIndex { region_id, tablet_index, flushed },
        }
    }
}

/// A write that the store is about to make durable for a peer.
#[derive(Debug)]
pub struct WriteTask {
    /// Records for the raft engine besides the log entries.
    pub extra_write: Vec<RaftLogWrite>,
    /// What is to be done once the write is durable.
    pub persisted_cb: Option<InstallHook>,
    pub has_snapshot: bool,
}

impl WriteTask {
    /// The records that the task writes.
    pub open spec fn records(self) -> Seq<LogRecord> {
        self.extra_write@.map_values(|w: RaftLogWrite| w@)
    }
}

/// A peer's storage.
pub struct Storage<T: PeerTypes> {
    pub entry_storage: EntryStorage,
    pub peer: PeerMeta,
    pub region_state: RegionLocalState,
    /// Whether any state has been persisted. A peer that a message just created has not,
    /// and must do so once even if nothing changes.
    pub ever_persisted: bool,
    pub snap_state: SnapState,
    /// The request that waits to be sent to the worker.
    pub gen_snap_task: Option<GenSnapTask>,
    pub split_init: Option<SplitInit<T>>,
    pub apply_trace: ApplyTrace,
    pub failures: FailureCounters,
    /// What this storage did to the cells that it shares with workers.
    pub signals: SignalLog,
}

impl<T: PeerTypes> Storage<T> {
    /// `post` is `pre` after an attempt to call off the generation in progress, where the
    /// index cell held `snap_index`.
    pub open spec fn cancel_post(
        pre: Storage<T>,
        post: Storage<T>,
        compact_to: Option<u64>,
        snap_index: u64,
    ) -> bool {
        match pre.snap_state {
            SnapState::Generating { canceled, .. } if outdated_by(compact_to, snap_index) => {
                &&& post == Storage {
                    snap_state: SnapState::Relax,
                    gen_snap_task: None,
                    failures: pre.failures.canceling(),
                    signals: post.signals,
                    ..pre
                }
                &&& post.signals@ == pre.signals@.push(SignalEvent::Raised(canceled))
                &&& SignalEvent::Raised(canceled).took_place()
            },
            _ => post == pre,
        }
    }

    /// `value` is what a load of the index cell of the generation in progress may return;
    /// without one nothing is read.
    pub open spec fn index_reads(self, value: u64) -> bool {
        match self.snap_state {
            SnapState::Generating { index, .. } => cell_reads(index, value),
            _ => value == 0,
        }
    }

    /// `value` is what a load of the cancel flag of the generation in progress may return;
    /// without one nothing is read.
    pub open spec fn cancel_reads(self, value: bool) -> bool {
        match self.snap_state {
            SnapState::Generating { canceled, .. } => flag_reads(canceled, value),
            _ => !value,
        }
    }

    /// `post` is `pre` with a new snapshot requested for the peer `to`: the state is
    /// generating, and the task that waits to be sent shares its two cells, which were
    /// created with the flag lowered and the index zero.
    pub open spec fn request_post(pre: Storage<T>, post: Storage<T>, to: u64) -> bool {
        match post.snap_state {
            SnapState::Generating { canceled, index } => {
                &&& post == Storage {
                    snap_state: post.snap_state,
                    gen_snap_task: Some(
                        GenSnapTask {
                            region_id: pre.region_state.region.id,
                            to_peer: to,
                            index,
                            canceled,
                            for_balance: false,
                        },
                    ),
                    signals: post.signals,
                    ..pre
                }
                &&& post.signals@ == pre.signals@.push(SignalEvent::Opened { canceled, index })
                &&& (SignalEvent::Opened { canceled, index }).took_place()
            },
            _ => false,
        }
    }

    /// Calls off the generation in progress, if there is one.
    ///
    /// With `compact_to`, only a generation that the compaction outdates is called off.
    pub fn cancel_generating_snap(&mut self, compact_to: Option<u64>)
        ensures
            exists|snap_index: u64|
                {
                    &&& old(self).index_reads(snap_index)
                    &&& #[trigger] Storage::cancel_post(
                        *old(self),
                        *final(self),
                        compact_to,
                        snap_index,
                    )
                },
    {
        let snap_index: u64 = match &self.snap_state {
            SnapState::Generating { index, .. } => published_index(index),
            _ => 0,
        };
        self.cancel_generating_snap_at(compact_to, snap_index);
    }

    /// [`Storage::cancel_generating_snap`] once the index cell has been read.
    pub fn cancel_generating_snap_at(&mut self, compact_to: Option<u64>, snap_index: u64)
        ensures
            Storage::cancel_post(*old(self), *final(self), compact_to, snap_index),
    {
        let SnapState::Generating { canceled, .. } = &self.snap_state else {
            return ;
        };
        if let Some(idx) = compact_to {
            if snap_index == 0 || idx == 0 || idx - 1 <= snap_index {
                return ;
            }
        }
        self.signals.raise(canceled);
        self.snap_state = SnapState::Relax;
        self.gen_snap_task = None;
        self.failures.cancel = self.failures.cancel.wrapping_add(1);
    }

    /// Whether the generated snapshot that waits, if any, is good for a request.
    pub open spec fn has_snapshot_for<E>(
        self,
        request_index: u64,
        decoded: Option<Result<RaftSnapshotData, E>>,
    ) -> bool {
        match self.snap_state {
            SnapState::Generated(snap) => snap_verdict(
                snap.metadata.index,
                request_index,
                decoded,
                self.region_state.region.region_epoch,
            ) is Valid,
            _ => false,
        }
    }

    /// Whether a request has to decode the payload of the snapshot that waits.
    pub open spec fn must_decode(self, request_index: u64) -> bool {
        match self.snap_state {
            SnapState::Generated(snap) => snap.metadata.index >= request_index,
            _ => false,
        }
    }

    /// `pre` answers a request of the peer `to` with `res` and becomes `post`, where the
    /// cancel flag of a generation in progress read `canceled_now` and the payload of a
    /// snapshot that waits decoded to `decoded`.
    pub open spec fn snapshot_post<E>(
        pre: Storage<T>,
        post: Storage<T>,
        request_index: u64,
        to: u64,
        canceled_now: bool,
        decoded: Option<Result<RaftSnapshotData, E>>,
        res: Result<Snapshot, StorageError>,
    ) -> bool {
        match pre.snap_state {
            SnapState::Relax => {
                &&& res == Err::<Snapshot, _>(StorageError::SnapshotTemporarilyUnavailable)
                &&& Storage::request_post(pre, post, to)
            },
            SnapState::Generating { .. } => {
                &&& res == Err::<Snapshot, _>(StorageError::SnapshotTemporarilyUnavailable)
                &&& if canceled_now {
                    exists|mid: Storage<T>|
                        {
                            &&& #[trigger] Storage::cancel_post(pre, mid, None, 0)
                            &&& Storage::request_post(mid, post, to)
                        }
                } else {
                    post == pre
                }
            },
            SnapState::Generated(snap) => {
                let verdict = snap_verdict(
                    snap.metadata.index,
                    request_index,
                    decoded,
                    pre.region_state.region.region_epoch,
                );
                let consumed = Storage {
                    snap_state: SnapState::Relax,
                    failures: pre.failures.judging(verdict),
                    ..pre
                };
                if verdict is Valid {
                    &&& res == Ok::<_, StorageError>(*snap)
                    &&& post == consumed
                } else {
                    &&& res == Err::<Snapshot, _>(StorageError::SnapshotTemporarilyUnavailable)
                    &&& Storage::request_post(consumed, post, to)
                }
            },
        }
    }

    /// Judges a generated snapshot, given what its payload decodes to; returns whether it
    /// is valid.
    pub fn validate_snap<E>(
        &mut self,
        snap: &Snapshot,
        request_index: u64,
        decoded: &Option<Result<RaftSnapshotData, E>>,
    ) -> (valid: bool)
        requires
            snap.metadata.index >= request_index ==> decoded is Some,
        ensures
            ({
                let verdict = snap_verdict(
                    snap.metadata.index,
                    request_index,
                    *decoded,
                    old(self).region_state.region.region_epoch,
                );
                &&& valid == (verdict is Valid)
                &&& *final(self) == Storage {
                    failures: old(self).failures.judging(verdict),
                    ..*old(self)
                }
            }),
    {
        if snap.metadata.index < request_index {
            self.failures.stale = self.failures.stale.wrapping_add(1);
            return false;
        }
        match decoded {
            Some(Ok(data)) => {
                let latest_epoch = self.region_state.region.region_epoch;
                if data.region.region_epoch.conf_ver < latest_epoch.conf_ver {
                    self.failures.epoch = self.failures.epoch.wrapping_add(1);
                    return false;
                }
                true
            },
            _ => {
                self.failures.decode = self.failures.decode.wrapping_add(1);
                false
            },
        }
    }

    /// `decode` may turn `bytes` into `decoded`.
    pub open spec fn decoded_by<E, D: Fn(&Vec<u8>) -> Result<RaftSnapshotData, E>>(
        decode: D,
        bytes: Vec<u8>,
        decoded: Option<Result<RaftSnapshotData, E>>,
    ) -> bool {
        decoded matches Some(d) && call_ensures(decode, (&bytes,), d)
    }

    /// A request may find that the payload of the snapshot that waits decodes to `decoded`,
    /// which it looks at only if the snapshot is not from before the requested index.
    pub open spec fn payload_seen<E, D: Fn(&Vec<u8>) -> Result<RaftSnapshotData, E>>(
        self,
        request_index: u64,
        decode: D,
        decoded: Option<Result<RaftSnapshotData, E>>,
    ) -> bool {
        match self.snap_state {
            SnapState::Generated(snap) if self.must_decode(request_index) => {
                Storage::<T>::decoded_by(decode, snap.data, decoded)
            },
            _ => decoded is None,
        }
    }

    /// `decode` can be called on the payload of the snapshot that waits, if a request looks
    /// at it.
    pub open spec fn may_decode<E, D: Fn(&Vec<u8>) -> Result<RaftSnapshotData, E>>(
        self,
        request_index: u64,
        decode: D,
    ) -> bool {
        match self.snap_state {
            SnapState::Generated(snap) => self.must_decode(request_index) ==> call_requires(
                decode,
                (&snap.data,),
            ),
            _ => true,
        }
    }

    /// Whether a request can be answered: if it has to ask for a new snapshot, no task that
    /// asks for one must be waiting to be sent.
    pub open spec fn accepts<E>(
        self,
        request_index: u64,
        decoded: Option<Result<RaftSnapshotData, E>>,
    ) -> bool {
        ||| self.gen_snap_task is None
        ||| self.snap_state is Generating
        ||| self.has_snapshot_for(request_index, decoded)
    }

    /// What a request has to know: the cancel flag of a generation in progress, and what
    /// the payload of a snapshot that waits decodes to.
    fn observe<E, D: Fn(&Vec<u8>) -> Result<RaftSnapshotData, E>>(
        &self,
        request_index: u64,
        decode: &D,
    ) -> (seen: (bool, Option<Result<RaftSnapshotData, E>>))
        requires
            self.may_decode(request_index, *decode),
        ensures
            self.cancel_reads(seen.0),
            self.payload_seen(request_index, *decode, seen.1),
    {
        match &self.snap_state {
            SnapState::Relax => (false, None),
            SnapState::Generating { canceled, .. } => (is_raised(canceled), None),
            SnapState::Generated(snap) => if snap.metadata.index >= request_index {
                (false, Some(decode(&snap.data)))
            } else {
                (false, None)
            },
        }
    }

    /// Answers raft's request for a snapshot for the peer `to`.
    ///
    /// A snapshot that waits and is still good is handed out. Otherwise the answer is that
    /// none is available for now, and unless one is being generated a new one is requested.
    /// `decode` reads the payload of a snapshot.
    pub fn snapshot<E, D: Fn(&Vec<u8>) -> Result<RaftSnapshotData, E>>(
        &mut self,
        request_index: u64,
        to: u64,
        decode: &D,
    ) -> (res: Result<Snapshot, StorageError>)
        requires
            old(self).may_decode(request_index, *decode),
            forall|decoded: Option<Result<RaftSnapshotData, E>>| #[trigger]
                old(self).payload_seen(request_index, *decode, decoded) ==> old(self).accepts(
                    request_index,
                    decoded,
                ),
        ensures
            exists|canceled_now: bool, decoded: Option<Result<RaftSnapshotData, E>>|
                {
                    &&& old(self).cancel_reads(canceled_now)
                    &&& old(self).payload_seen(request_index, *decode, decoded)
                    &&& #[trigger] Storage::snapshot_post(
                        *old(self),
                        *final(self),
                        request_index,
                        to,
                        canceled_now,
                        decoded,
                        res,
                    )
                },
    {
        let (canceled_now, decoded) = self.observe(request_index, decode);
        self.snapshot_given(request_index, to, canceled_now, &decoded)
    }

    /// [`Storage::snapshot`] for callers that do not know whether the last task has been
    /// sent: where a new request would collide with it, nothing is changed or returned.
    pub fn try_snapshot<E, D: Fn(&Vec<u8>) -> Result<RaftSnapshotData, E>>(
        &mut self,
        request_index: u64,
        to: u64,
        decode: &D,
    ) -> (answer: Option<Result<Snapshot, StorageError>>)
        requires
            old(self).may_decode(request_index, *decode),
        ensures
            exists|canceled_now: bool, decoded: Option<Result<RaftSnapshotData, E>>|
                {
                    &&& #[trigger] Storage::try_snapshot_post(
                        *old(self),
                        *final(self),
                        request_index,
                        to,
                        canceled_now,
                        decoded,
                        answer,
                    )
                    &&& old(self).cancel_reads(canceled_now)
                    &&& old(self).payload_seen(request_index, *decode, decoded)
                },
    {
        let (canceled_now, decoded) = self.observe(request_index, decode);
        let accepts = match &self.snap_state {
            SnapState::Relax => self.gen_snap_task.is_none(),
            SnapState::Generating { .. } => true,
            SnapState::Generated(_) => self.gen_snap_task.is_none() || match &decoded {
                Some(Ok(data)) => data.region.region_epoch.conf_ver
                    >= self.region_state.region.region_epoch.conf_ver,
                _ => false,
            },
        };
        assert(accepts == self.accepts(request_index, decoded));
        let answer = if accepts {
            Some(self.snapshot_given(request_index, to, canceled_now, &decoded))
        } else {
            None
        };
        assert(Storage::try_snapshot_post(
            *old(self),
            *self,
            request_index,
            to,
            canceled_now,
            decoded,
            answer,
        ));
        answer
    }

    /// `pre` answers a request if it can, and is left as it is if not.
    pub open spec fn try_snapshot_post<E>(
        pre: Storage<T>,
        post: Storage<T>,
        request_index: u64,
        to: u64,
        canceled_now: bool,
        decoded: Option<Result<RaftSnapshotData, E>>,
        answer: Option<Result<Snapshot, StorageError>>,
    ) -> bool {
        match answer {
            Some(res) => {
                &&& pre.accepts(request_index, decoded)
                &&& Storage::snapshot_post(
                    pre,
                    post,
                    request_index,
                    to,
                    canceled_now,
                    decoded,
                    res,
                )
            },
            None => {
                &&& !pre.accepts(request_index, decoded)
                &&& post == pre
            },
        }
    }

    /// [`Storage::snapshot`] once the cancel flag has been read and the payload of a
    /// snapshot that waits has been decoded.
    pub fn snapshot_given<E>(
        &mut self,
        request_index: u64,
        to: u64,
        canceled_now: bool,
        decoded: &Option<Result<RaftSnapshotData, E>>,
    ) -> (res: Result<Snapshot, StorageError>)
        requires
            old(self).must_decode(request_index) ==> decoded is Some,
            old(self).accepts(request_index, *decoded),
        ensures
            Storage::snapshot_post(
                *old(self),
                *final(self),
                request_index,
                to,
                canceled_now,
                *decoded,
                res,
            ),
    {
        match &self.snap_state {
            SnapState::Generating { .. } => {
                if !canceled_now {
                    return Err(StorageError::SnapshotTemporarilyUnavailable);
                }
                self.cancel_generating_snap_at(None, 0);
            },
            SnapState::Generated(_) => {
                let mut state = SnapState::Relax;
                core::mem::swap(&mut state, &mut self.snap_state);
                if let SnapState::Generated(snap) = state {
                    if self.validate_snap(&snap, request_index, decoded) {
                        return Ok(*snap);
                    }
                }
            },
            SnapState::Relax => {},
        }
        let ghost mid = *self;
        let (canceled, index) = self.signals.open();
        self.snap_state = SnapState::Generating {
            canceled: canceled.clone(),
            index: index.clone(),
        };
        self.gen_snap_task = Some(
            GenSnapTask::new(self.region_state.region.id, to, index, canceled),
        );
        assert(Storage::request_post(mid, *self, to));
        Err(StorageError::SnapshotTemporarilyUnavailable)
    }

    /// `pre` takes the outcome of a generation and becomes `post`, where the index cell
    /// held `required_index`; `switched` tells whether a snapshot is there now.
    pub open spec fn generated_post(
        pre: Storage<T>,
        post: Storage<T>,
        res: Option<Box<Snapshot>>,
        required_index: u64,
        switched: bool,
    ) -> bool {
        match res {
            None => {
                &&& Storage::cancel_post(pre, post, None, required_index)
                &&& !switched
            },
            Some(snap) => if pre.snap_state is Generating && snap.metadata.index
                >= required_index {
                &&& post == Storage { snap_state: SnapState::Generated(snap), ..pre }
                &&& switched
            } else {
                &&& post == pre
                &&& !switched
            },
        }
    }

    /// Takes the outcome of a generation; returns whether a snapshot is there now.
    ///
    /// A failed generation is called off. A snapshot is kept only while one is being
    /// generated, and only if it is not from before the index that was decided.
    pub fn on_snapshot_generated(&mut self, res: Option<Box<Snapshot>>) -> (switched: bool)
        ensures
            exists|required_index: u64|
                {
                    &&& old(self).index_reads(required_index)
                    &&& #[trigger] Storage::generated_post(
                        *old(self),
                        *final(self),
                        res,
                        required_index,
                        switched,
                    )
                },
    {
        let required_index: u64 = match &self.snap_state {
            SnapState::Generating { index, .. } => published_index(index),
            _ => 0,
        };
        self.on_snapshot_generated_at(res, required_index)
    }

    /// [`Storage::on_snapshot_generated`] once the index cell has been read.
    pub fn on_snapshot_generated_at(
        &mut self,
        res: Option<Box<Snapshot>>,
        required_index: u64,
    ) -> (switched: bool)
        ensures
            Storage::generated_post(*old(self), *final(self), res, required_index, switched),
    {
        match res {
            None => {
                self.cancel_generating_snap_at(None, required_index);
                false
            },
            Some(snap) => {
                let SnapState::Generating { .. } = &self.snap_state else {
                    return false;
                };
                if snap.metadata.index < required_index {
                    return false;
                }
                self.snap_state = SnapState::Generated(snap);
                true
            },
        }
    }

    /// The storage once the snapshot that the log was cut off for is in place: applied
    /// means applied up to the cut.
    pub open spec fn caught_up(self) -> Storage<T> {
        let cut = self.entry_storage.apply_state.truncated_state;
        Storage {
            entry_storage: EntryStorage {
                applied_term: cut.term,
                apply_state: RaftApplyState {
                    applied_index: cut.index,
                    ..self.entry_storage.apply_state
                },
                ..self.entry_storage
            },
            apply_trace: ApplyTrace { snapshot_index: cut.index, ..self.apply_trace },
            ..self
        }
    }

    /// Catches up with a snapshot that has been put in place.
    pub fn on_applied_snapshot(&mut self)
        ensures
            *final(self) == old(self).caught_up(),
    {
        let cut = self.entry_storage.apply_state.truncated_state;
        self.entry_storage.applied_term = cut.term;
        self.entry_storage.apply_state.applied_index = cut.index;
        self.apply_trace.snapshot_index = cut.index;
    }

    /// Where the data of a snapshot at `index` and `term` is found, and whether a tablet
    /// that a split left behind has to go.
    pub open spec fn snapshot_source(self, index: u64, term: u64) -> (SnapSource, bool) {
        match self.split_init {
            Some(init) if init.scheduled && index == RAFT_INIT_LOG_INDEX => (
                SnapSource::Split,
                false,
            ),
            _ => (
                SnapSource::Received(
                    TabletSnapKey {
                        region_id: self.region_state.region.id,
                        to_peer: self.peer.id,
                        term,
                        idx: index,
                    },
                ),
                self.split_init is Some,
            ),
        }
    }

    /// The storage once `data`, the payload of a snapshot at `index` and `term`, has
    /// replaced the region, the log and the apply state.
    pub open spec fn replaced_by(self, data: RaftSnapshotData, index: u64, term: u64) -> Storage<
        T,
    > {
        Storage {
            region_state: RegionLocalState {
                state: PeerState::Normal,
                region: data.region,
                tablet_index: index,
            },
            entry_storage: EntryStorage {
                raft_state: RaftLocalState {
                    last_index: index,
                    ..self.entry_storage.raft_state
                },
                apply_state: RaftApplyState {
                    truncated_state: RaftTruncatedState { index, term },
                    ..self.entry_storage.apply_state
                },
                last_term: term,
                ..self.entry_storage
            },
            apply_trace: ApplyTrace { should_persist: false, ..self.apply_trace },
            ever_persisted: true,
            ..self
        }
    }

    /// The outcome of applying a snapshot at `index` and `term` whose payload decodes to
    /// `decoded`: either everything changes, or an error comes and nothing does.
    pub open spec fn apply_post<E>(
        pre: Storage<T>,
        post: Storage<T>,
        pre_task: WriteTask,
        post_task: WriteTask,
        index: u64,
        term: u64,
        decoded: Result<RaftSnapshotData, E>,
        res: Result<(), ApplyError<E>>,
    ) -> bool {
        let region_id = pre.region_state.region.id;
        match decoded {
            Err(e) => {
                &&& res == Err::<(), _>(ApplyError::Decode(e))
                &&& post == pre
                &&& post_task == pre_task
            },
            Ok(data) => if data.region.id != region_id {
                &&& res == Err::<(), _>(
                    ApplyError::<E>::RegionMismatch { expected: region_id, found: data.region.id },
                )
                &&& post == pre
                &&& post_task == pre_task
            } else {
                let (source, clean_split) = pre.snapshot_source(index, term);
                &&& res == Ok::<_, ApplyError<E>>(())
                &&& post == pre.replaced_by(data, index, term)
                &&& post_task.has_snapshot
                &&& post_task.persisted_cb == Some(
                    InstallHook { source, region_id, index, clean_split },
                )
                &&& pre_task.extra_write@.is_prefix_of(post_task.extra_write@)
                &&& post_task.records() == pre_task.records() + seq![
                    LogRecord::ApplyState {
                        region_id,
                        index,
                        apply_state: post.entry_storage.apply_state,
                    },
                    LogRecord::RegionState { region_id, index, region_state: post.region_state@ },
                    LogRecord::FlushedIndex { region_id, tablet_index: index, flushed: index },
                ]
            },
        }
    }

    /// Replaces the region's state by that of a received snapshot, and adds to the write
    /// task what makes this durable and what is to be done then.
    ///
    /// `decode` reads the payload of a snapshot.
    pub fn apply_snapshot<E, D: Fn(&Vec<u8>) -> Result<RaftSnapshotData, E>>(
        &mut self,
        snap: &Snapshot,
        task: &mut WriteTask,
        decode: &D,
    ) -> (res: Result<(), ApplyError<E>>)
        requires
            call_requires(*decode, (&snap.data,)),
        ensures
            exists|decoded: Result<RaftSnapshotData, E>|
                {
                    &&& #[trigger] call_ensures(*decode, (&snap.data,), decoded)
                    &&& Storage::apply_post(
                        *old(self),
                        *final(self),
                        *old(task),
                        *final(task),
                        snap.metadata.index,
                        snap.metadata.term,
                        decoded,
                        res,
                    )
                },
    {
        let decoded = decode(&snap.data);
        self.apply_decoded(snap.metadata.index, snap.metadata.term, task, decoded)
    }

    /// [`Storage::apply_snapshot`] once the payload has been decoded.
    pub fn apply_decoded<E>(
        &mut self,
        last_index: u64,
        last_term: u64,
        task: &mut WriteTask,
        decoded: Result<RaftSnapshotData, E>,
    ) -> (res: Result<(), ApplyError<E>>)
        ensures
            Storage::apply_post(
                *old(self),
                *final(self),
                *old(task),
                *final(task),
                last_index,
                last_term,
                decoded,
                res,
            ),
    {
        let region_id = self.region_state.region.id;
        let peer_id = self.peer.id;
        let data = match decoded {
            Ok(data) => data,
            Err(e) => return Err(ApplyError::Decode(e)),
        };
        if data.region.id != region_id {
            return Err(
                ApplyError::RegionMismatch { expected: region_id, found: data.region.id },
            );
        }
        self.region_state = RegionLocalState {
            state: PeerState::Normal,
            region: data.region,
            tablet_index: last_index,
        };
        self.entry_storage.raft_state.last_index = last_index;
        self.entry_storage.apply_state.truncated_state = RaftTruncatedState {
            index: last_index,
            term: last_term,
        };
        self.entry_storage.last_term = last_term;
        self.apply_trace.should_persist = false;
        self.ever_persisted = true;
        task.extra_write.push(
            RaftLogWrite::ApplyState {
                region_id,
                index: last_index,
                apply_state: self.entry_storage.apply_state,
            },
        );
        task.extra_write.push(
            RaftLogWrite::RegionState {
                region_id,
                index: last_index,
                region_state: self.region_state.duplicate(),
            },
        );
        task.extra_write.push(
            RaftLogWrite::FlushedIndex {
                region_id,
                tablet_index: last_index,
                flushed: last_index,
            },
        );
        let (source, clean_split) = match &self.split_init {
            // With another index the peer may have accepted a newer snapshot after the split.
            Some(init) if init.scheduled && last_index == RAFT_INIT_LOG_INDEX => (
                SnapSource::Split,
                false,
            ),
            init => (
                SnapSource::Received(
                    TabletSnapKey {
                        region_id,
                        to_peer: peer_id,
                        term: last_term,
                        idx: last_index,
                    },
                ),
                init.is_some(),
            ),
        };
        task.persisted_cb = Some(
            InstallHook { source, region_id, index: last_index, clean_split },
        );
        task.has_snapshot = true;
        assert(task.records() =~= old(task).records() + seq![
            LogRecord::ApplyState {
                region_id,
                index: last_index,
                apply_state: self.entry_storage.apply_state,
            },
            LogRecord::RegionState {
                region_id,
                index: last_index,
                region_state: self.region_state@,
            },
            LogRecord::FlushedIndex { region_id, tablet_index: last_index, flushed: last_index },
        ]);
        Ok(())
    }

    /// Whether the region has been told its members: one that a message just created has
    /// not.
    pub fn is_initialized(&self) -> (initialized: bool)
        ensures
            initialized == (self.region_state.region.peers@.len() > 0),
    {
        self.region_state.region.peers.len() > 0
    }
}

} // verus!
