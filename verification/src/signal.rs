//! The two cells through which a storage and the snapshot worker talk: a flag that calls
//! a generation off, and the index at which the snapshot is being taken.
//!
//! Both are shared between threads, so what they hold at some moment is up to the other
//! side too. Contracts speak of the atomic operations instead: of which cell a value was
//! loaded ([`flag_reads`], [`cell_reads`]), and which values were stored
//! ([`SignalEvent::took_place`]). What a party writes is also kept, in order, in a
//! [`SignalLog`], a history that exists only in proofs.
use std::sync::atomic::{AtomicBool, AtomicU64, Ordering};
use std::sync::Arc;
use vstd::prelude::*;

verus! {

/// Something that was done to a shared cell.
pub enum SignalEvent {
    /// A flag was created lowered, and an index cell was created holding zero.
    Opened { canceled: Arc<AtomicBool>, index: Arc<AtomicU64> },
    /// The flag was set to `true`.
    Raised(Arc<AtomicBool>),
    /// The value was stored in the cell.
    Published(Arc<AtomicU64>, u64),
}

impl SignalEvent {
    /// The atomic operations that make up the event ran: this is what they may return, and
    /// only running them shows it.
    pub open spec fn took_place(self) -> bool {
        match self {
            SignalEvent::Opened { canceled, index } => {
                &&& call_ensures(AtomicBool::new, (false,), *canceled)
                &&& call_ensures(AtomicU64::new, (0u64,), *index)
            },
            SignalEvent::Raised(flag) => call_ensures(
                AtomicBool::store,
                (&*flag, true, Ordering::SeqCst),
                (),
            ),
            SignalEvent::Published(cell, value) => call_ensures(
                AtomicU64::store,
                (&*cell, value, Ordering::SeqCst),
                (),
            ),
        }
    }
}

/// The writes that one party made to shared cells, oldest first.
///
/// Only the methods below extend the history, each together with the write it records.
pub struct SignalLog {
    events: Ghost<Seq<SignalEvent>>,
}

impl View for SignalLog {
    type V = Seq<SignalEvent>;

    closed spec fn view(&self) -> Seq<SignalEvent> {
        self.events@
    }
}

impl SignalLog {
    /// A party that has not written anything yet.
    pub fn new() -> (log: SignalLog)
        ensures
            log@ == Seq::<SignalEvent>::empty(),
    {
        SignalLog { events: Ghost(Seq::empty()) }
    }

    /// Creates the cells of a new generation: the flag lowered, the index zero.
    pub fn open(&mut self) -> (cells: (Arc<AtomicBool>, Arc<AtomicU64>))
        ensures
            final(self)@ == old(self)@.push(
                SignalEvent::Opened { canceled: cells.0, index: cells.1 },
            ),
            (SignalEvent::Opened { canceled: cells.0, index: cells.1 }).took_place(),
    {
        let canceled = Arc::new(AtomicBool::new(false));
        let index = Arc::new(AtomicU64::new(0));
        self.events = Ghost(self.events@.push(SignalEvent::Opened { canceled, index }));
        (canceled, index)
    }

    /// Raises the flag: whoever works for its owner stops.
    pub fn raise(&mut self, flag: &Arc<AtomicBool>)
        ensures
            final(self)@ == old(self)@.push(SignalEvent::Raised(*flag)),
            SignalEvent::Raised(*flag).took_place(),
    {
        flag.store(true, Ordering::SeqCst);
        self.events = Ghost(self.events@.push(SignalEvent::Raised(*flag)));
    }

    /// Makes the index known to the other side.
    pub fn publish(&mut self, cell: &Arc<AtomicU64>, value: u64)
        ensures
            final(self)@ == old(self)@.push(SignalEvent::Published(*cell, value)),
            SignalEvent::Published(*cell, value).took_place(),
    {
        cell.store(value, Ordering::SeqCst);
        self.events = Ghost(self.events@.push(SignalEvent::Published(*cell, value)));
    }
}

/// `value` is what an atomic load of the flag may return.
pub open spec fn flag_reads(flag: Arc<AtomicBool>, value: bool) -> bool {
    call_ensures(AtomicBool::load, (&*flag, Ordering::SeqCst), value)
}

/// `value` is what an atomic load of the cell may return.
pub open spec fn cell_reads(cell: Arc<AtomicU64>, value: u64) -> bool {
    call_ensures(AtomicU64::load, (&*cell, Ordering::SeqCst), value)
}

/// Whether the flag is raised right now. Another thread may raise it at any time, so the
/// answer is not determined by anything on this side; it is what a load of the flag returns.
pub(crate) fn is_raised(flag: &Arc<AtomicBool>) -> (raised: bool)
    ensures
        flag_reads(*flag, raised),
{
    flag.load(Ordering::SeqCst)
}

/// The index that the cell holds right now. Another thread may change it at any time, so
/// the answer is not determined by anything on this side; it is what a load of the cell
/// returns.
pub(crate) fn published_index(cell: &Arc<AtomicU64>) -> (index: u64)
    ensures
        cell_reads(*cell, index),
{
    cell.load(Ordering::SeqCst)
}

} // verus!
