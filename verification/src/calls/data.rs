//! What copying and comparing plain data, and writing to the shared cells, does.
use std::sync::atomic::{AtomicBool, AtomicU64, Ordering};
use std::sync::Arc;
use vstd::prelude::*;

use crate::meta::{Region, RegionLocalState, Snapshot};
use crate::msg::PeerTypes;
use crate::peer::Peer;
use crate::signal::{cell_reads, flag_reads, SignalEvent, SignalLog};
use crate::snap_state::SnapState;
use crate::storage::{EntryStorage, Storage};

verus! {

/// A copy of a region has the same content, field by field.
pub proof fn law_region_copy_is_faithful(region: Region, copy: Region)
    requires
        call_ensures(Region::duplicate, (&region,), copy),
    ensures
        copy.id == region.id,
        copy.start_key@ == region.start_key@,
        copy.end_key@ == region.end_key@,
        copy.region_epoch == region.region_epoch,
        copy.peers@ == region.peers@,
{
    assert(copy@ == region@);
}

/// A copy of a region's state has the same content, field by field.
pub proof fn law_region_state_copy_is_faithful(state: RegionLocalState, copy: RegionLocalState)
    requires
        call_ensures(RegionLocalState::duplicate, (&state,), copy),
    ensures
        copy.state == state.state,
        copy.tablet_index == state.tablet_index,
        copy.region.id == state.region.id,
        copy.region.start_key@ == state.region.start_key@,
        copy.region.end_key@ == state.region.end_key@,
        copy.region.region_epoch == state.region.region_epoch,
        copy.region.peers@ == state.region.peers@,
{
    assert(copy@ == state@);
    assert(copy@.region == state@.region);
}

/// Snapshots have the same content exactly if they carry the same payload, are from the same
/// position in the log, and hold the same membership.
pub proof fn law_snapshot_content(a: Snapshot, b: Snapshot)
    ensures
        a@ == b@ <==> {
            let x = a.metadata.conf_state;
            let y = b.metadata.conf_state;
            &&& a.data@ == b.data@
            &&& a.metadata.index == b.metadata.index
            &&& a.metadata.term == b.metadata.term
            &&& x.voters@ == y.voters@
            &&& x.learners@ == y.learners@
            &&& x.voters_outgoing@ == y.voters_outgoing@
            &&& x.learners_next@ == y.learners_next@
            &&& x.auto_leave == y.auto_leave
        },
{
}

/// Comparing snapshots compares their content.
pub proof fn law_equal_snapshots_have_equal_content(a: Snapshot, b: Snapshot, same: bool)
    requires
        call_ensures(Snapshot::eq, (&a, &b), same),
    ensures
        same <==> {
            let x = a.metadata.conf_state;
            let y = b.metadata.conf_state;
            &&& a.data@ == b.data@
            &&& a.metadata.index == b.metadata.index
            &&& a.metadata.term == b.metadata.term
            &&& x.voters@ == y.voters@
            &&& x.learners@ == y.learners@
            &&& x.voters_outgoing@ == y.voters_outgoing@
            &&& x.learners_next@ == y.learners_next@
            &&& x.auto_leave == y.auto_leave
        },
{
    law_snapshot_content(a, b);
}

/// States are equal if both are at rest, if both are generating, or if both hold snapshots
/// with the same content; and in no other case.
pub proof fn law_equal_states(a: SnapState, b: SnapState, same: bool)
    requires
        call_ensures(SnapState::eq, (&a, &b), same),
    ensures
        a is Relax ==> (same <==> b is Relax),
        a is Generating ==> (same <==> b is Generating),
        a matches SnapState::Generated(x) ==> match b {
            SnapState::Generated(y) => same <==> x@ == y@,
            _ => !same,
        },
{
}

/// New cells are on record with the values that they were created with: the flag lowered, the
/// index zero. What was on record before stays.
pub proof fn law_opened_cells_are_lowered_and_zero(
    log: &mut SignalLog,
    cells: (Arc<AtomicBool>, Arc<AtomicU64>),
)
    requires
        call_ensures(SignalLog::open, (log,), cells),
    ensures
        final(log)@.len() == old(log)@.len() + 1,
        final(log)@.drop_last() == old(log)@,
        final(log)@.last() == (SignalEvent::Opened { canceled: cells.0, index: cells.1 }),
        call_ensures(AtomicBool::new, (false,), *cells.0),
        call_ensures(AtomicU64::new, (0u64,), *cells.1),
{
    assert(final(log)@.drop_last() =~= old(log)@);
}

/// Raising a flag stores `true` in that flag, and that comes on record.
pub proof fn law_raising_stores_true(log: &mut SignalLog, flag: Arc<AtomicBool>)
    requires
        call_ensures(SignalLog::raise, (log, &flag), ()),
    ensures
        final(log)@.len() == old(log)@.len() + 1,
        final(log)@.drop_last() == old(log)@,
        final(log)@.last() == SignalEvent::Raised(flag),
        call_ensures(AtomicBool::store, (&*flag, true, Ordering::SeqCst), ()),
{
    assert(final(log)@.drop_last() =~= old(log)@);
}

/// Publishing an index stores it in that cell, and that comes on record.
pub proof fn law_publishing_stores_the_index(
    log: &mut SignalLog,
    cell: Arc<AtomicU64>,
    value: u64,
)
    requires
        call_ensures(SignalLog::publish, (log, &cell, value), ()),
    ensures
        final(log)@.len() == old(log)@.len() + 1,
        final(log)@.drop_last() == old(log)@,
        final(log)@.last() == SignalEvent::Published(cell, value),
        call_ensures(AtomicU64::store, (&*cell, value, Ordering::SeqCst), ()),
{
    assert(final(log)@.drop_last() =~= old(log)@);
}

/// A record starts empty.
pub proof fn law_new_record_is_empty(log: SignalLog)
    requires
        call_ensures(SignalLog::new, (), log),
    ensures
        log@.len() == 0,
{
}

/// What is read of a flag or an index cell is what an atomic load of that very cell gives.
pub proof fn law_readings_are_loads(
    flag: Arc<AtomicBool>,
    cell: Arc<AtomicU64>,
    raised: bool,
    index: u64,
)
    ensures
        flag_reads(flag, raised) <==> call_ensures(
            AtomicBool::load,
            (&*flag, Ordering::SeqCst),
            raised,
        ),
        cell_reads(cell, index) <==> call_ensures(
            AtomicU64::load,
            (&*cell, Ordering::SeqCst),
            index,
        ),
{
}

/// The first entry that is left in the log is the one after the cut.
pub proof fn law_log_starts_after_the_cut(log: EntryStorage, index: u64)
    requires
        call_ensures(EntryStorage::first_index, (&log,), index),
    ensures
        index == log.apply_state.truncated_state.index + 1,
{
}

/// A peer belongs to the region of its storage; the region is initialized exactly if its
/// members are known.
pub proof fn law_peer_knows_its_region<T: PeerTypes>(peer: Peer<T>, id: u64, initialized: bool)
    requires
        call_ensures(Peer::<T>::region_id, (&peer,), id),
        call_ensures(Storage::<T>::is_initialized, (&peer.storage,), initialized),
    ensures
        id == peer.storage.region_state.region.id,
        initialized <==> peer.storage.region_state.region.peers@.len() > 0,
{
}

} // verus!
