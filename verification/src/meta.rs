//! Regions, snapshots and raft state as plain data.
use vstd::prelude::*;

verus! {

/// The index that the log of a region starts from when the region is created by
/// bootstrap or split.
pub const RAFT_INIT_LOG_INDEX: u64 = 5;

/// The role of a peer in its raft group.
#[derive(Clone, Copy, PartialEq, Eq, Structural, Debug)]
pub enum PeerRole {
    Voter,
    Learner,
    IncomingVoter,
    DemotingVoter,
}

/// A member of a raft group.
#[derive(Clone, Copy, PartialEq, Eq, Structural, Debug)]
pub struct PeerMeta {
    pub id: u64,
    pub store_id: u64,
    pub role: PeerRole,
    pub is_witness: bool,
}

/// The version of a region: `conf_ver` grows with membership changes, `version` with
/// splits and merges.
#[derive(Clone, Copy, PartialEq, Eq, Structural, Debug)]
pub struct RegionEpoch {
    pub conf_ver: u64,
    pub version: u64,
}

/// A range of keys and the peers that replicate it.
#[derive(Debug)]
pub struct Region {
    pub id: u64,
    pub start_key: Vec<u8>,
    pub end_key: Vec<u8>,
    pub region_epoch: RegionEpoch,
    pub peers: Vec<PeerMeta>,
}

/// The mathematical content of a [`Region`].
#[verifier::ext_equal]
pub struct RegionView {
    pub id: u64,
    pub start_key: Seq<u8>,
    pub end_key: Seq<u8>,
    pub region_epoch: RegionEpoch,
    pub peers: Seq<PeerMeta>,
}

impl View for Region {
    type V = RegionView;

    open spec fn view(&self) -> RegionView {
        RegionView {
            id: self.id,
            start_key: self.start_key@,
            end_key: self.end_key@,
            region_epoch: self.region_epoch,
            peers: self.peers@,
        }
    }
}

impl Region {
    /// A copy with the same content.
    pub fn duplicate(&self) -> (copy: Region)
        ensures
            copy@ == self@,
    {
        let copy = Region {
            id: self.id,
            start_key: self.start_key.clone(),
            end_key: self.end_key.clone(),
            region_epoch: self.region_epoch,
            peers: self.peers.clone(),
        };
        assert(copy@ =~= self@);
        copy
    }
}

/// What state a peer's replica is in.
#[derive(Clone, Copy, PartialEq, Eq, Structural, Debug)]
pub enum PeerState {
    Normal,
    Applying,
    Tombstone,
    Merging,
    Unavailable,
}

/// The persistent state of a region on this store.
#[derive(Debug)]
pub struct RegionLocalState {
    pub state: PeerState,
    pub region: Region,
    /// The log index that the current tablet starts from.
    pub tablet_index: u64,
}

/// The mathematical content of a [`RegionLocalState`].
#[verifier::ext_equal]
pub struct RegionLocalStateView {
    pub state: PeerState,
    pub region: RegionView,
    pub tablet_index: u64,
}

impl View for RegionLocalState {
    type V = RegionLocalStateView;

    open spec fn view(&self) -> RegionLocalStateView {
        RegionLocalStateView {
            state: self.state,
            region: self.region@,
            tablet_index: self.tablet_index,
        }
    }
}

impl RegionLocalState {
    /// A copy with the same content.
    pub fn duplicate(&self) -> (copy: RegionLocalState)
        ensures
            copy@ == self@,
    {
        RegionLocalState {
            state: self.state,
            region: self.region.duplicate(),
            tablet_index: self.tablet_index,
        }
    }
}

/// Where the log was cut off: everything up to `index` is gone.
#[derive(Clone, Copy, PartialEq, Eq, Structural, Debug)]
pub struct RaftTruncatedState {
    pub index: u64,
    pub term: u64,
}

/// How far the log has been applied.
#[derive(Clone, Copy, PartialEq, Eq, Structural, Debug)]
pub struct RaftApplyState {
    pub applied_index: u64,
    pub commit_index: u64,
    pub commit_term: u64,
    pub truncated_state: RaftTruncatedState,
}

/// The term, vote and commit index that raft persists.
#[derive(Clone, Copy, PartialEq, Eq, Structural, Debug)]
pub struct HardState {
    pub term: u64,
    pub vote: u64,
    pub commit: u64,
}

/// The persistent state of the log.
#[derive(Clone, Copy, PartialEq, Eq, Structural, Debug)]
pub struct RaftLocalState {
    pub hard_state: HardState,
    pub last_index: u64,
}

/// The membership of a raft group at some index.
#[derive(Debug)]
pub struct ConfState {
    pub voters: Vec<u64>,
    pub learners: Vec<u64>,
    pub voters_outgoing: Vec<u64>,
    pub learners_next: Vec<u64>,
    pub auto_leave: bool,
}

/// The position of a snapshot in the log, and the membership there.
#[derive(Debug)]
pub struct SnapshotMetadata {
    pub conf_state: ConfState,
    pub index: u64,
    pub term: u64,
}

/// A snapshot as raft passes it between peers. `data` encodes a [`RaftSnapshotData`].
#[derive(Debug)]
pub struct Snapshot {
    pub data: Vec<u8>,
    pub metadata: SnapshotMetadata,
}

/// The mathematical content of a [`Snapshot`].
#[verifier::ext_equal]
pub struct SnapshotView {
    pub data: Seq<u8>,
    pub voters: Seq<u64>,
    pub learners: Seq<u64>,
    pub voters_outgoing: Seq<u64>,
    pub learners_next: Seq<u64>,
    pub auto_leave: bool,
    pub index: u64,
    pub term: u64,
}

impl View for Snapshot {
    type V = SnapshotView;

    open spec fn view(&self) -> SnapshotView {
        SnapshotView {
            data: self.data@,
            voters: self.metadata.conf_state.voters@,
            learners: self.metadata.conf_state.learners@,
            voters_outgoing: self.metadata.conf_state.voters_outgoing@,
            learners_next: self.metadata.conf_state.learners_next@,
            auto_leave: self.metadata.conf_state.auto_leave,
            index: self.metadata.index,
            term: self.metadata.term,
        }
    }
}

fn same_bytes(a: &Vec<u8>, b: &Vec<u8>) -> (same: bool)
    ensures
        same == (a@ == b@),
{
    if a.len() != b.len() {
        return false;
    }
    let n: usize = a.len();
    for i in 0..n
        invariant
            n == a@.len(),
            n == b@.len(),
            forall|j: int| 0 <= j < i ==> a@[j] == b@[j],
    {
        if a[i] != b[i] {
            return false;
        }
    }
    assert(a@ =~= b@);
    true
}

fn same_ids(a: &Vec<u64>, b: &Vec<u64>) -> (same: bool)
    ensures
        same == (a@ == b@),
{
    if a.len() != b.len() {
        return false;
    }
    let n: usize = a.len();
    for i in 0..n
        invariant
            n == a@.len(),
            n == b@.len(),
            forall|j: int| 0 <= j < i ==> a@[j] == b@[j],
    {
        if a[i] != b[i] {
            return false;
        }
    }
    assert(a@ =~= b@);
    true
}

/// Two snapshots are equal if their contents are.
impl PartialEq for Snapshot {
    fn eq(&self, other: &Snapshot) -> (same: bool) {
        let a = &self.metadata;
        let b = &other.metadata;
        let same = same_bytes(&self.data, &other.data)
            && same_ids(&a.conf_state.voters, &b.conf_state.voters)
            && same_ids(&a.conf_state.learners, &b.conf_state.learners)
            && same_ids(&a.conf_state.voters_outgoing, &b.conf_state.voters_outgoing)
            && same_ids(&a.conf_state.learners_next, &b.conf_state.learners_next)
            && a.conf_state.auto_leave == b.conf_state.auto_leave
            && a.index == b.index
            && a.term == b.term;
        assert(same ==> self@ =~= other@);
        same
    }
}

impl vstd::std_specs::cmp::PartialEqSpecImpl for Snapshot {
    open spec fn obeys_eq_spec() -> bool {
        true
    }

    open spec fn eq_spec(&self, other: &Snapshot) -> bool {
        self@ == other@
    }
}

/// What the payload of a snapshot decodes to, as far as a storage looks at it: the region
/// as of the snapshot.
#[derive(Debug)]
pub struct RaftSnapshotData {
    pub region: Region,
}

} // verus!
