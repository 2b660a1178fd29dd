//! The timers of a peer and the queues they are scheduled on.
use vstd::prelude::*;

use crate::msg::PeerTypes;

verus! {

/// A timer of a peer.
#[derive(Clone, Copy, PartialEq, Eq, Structural, Debug)]
pub enum PeerTick {
    Raft,
    RaftLogGc,
    SplitRegionCheck,
    PdHeartbeat,
    CheckMerge,
    CheckPeerStaleState,
    EntryCacheEvict,
    CheckLeaderLease,
    ReactivateMemoryLock,
    ReportBuckets,
    CheckLongUncommitted,
}

/// The number of timers.
pub const TICK_COUNT: usize = 11;

impl PeerTick {
    /// The timer's position among all timers.
    pub open spec fn position(self) -> int {
        match self {
            PeerTick::Raft => 0,
            PeerTick::RaftLogGc => 1,
            PeerTick::SplitRegionCheck => 2,
            PeerTick::PdHeartbeat => 3,
            PeerTick::CheckMerge => 4,
            PeerTick::CheckPeerStaleState => 5,
            PeerTick::EntryCacheEvict => 6,
            PeerTick::CheckLeaderLease => 7,
            PeerTick::ReactivateMemoryLock => 8,
            PeerTick::ReportBuckets => 9,
            PeerTick::CheckLongUncommitted => 10,
        }
    }

    /// The timer's bit in a registry.
    pub open spec fn key(self) -> u16 {
        1u16 << (self.position() as u16)
    }

    /// Whether the timer is in a registry.
    pub open spec fn is_in(self, registry: u16) -> bool {
        registry & self.key() != 0
    }

    /// Whether a peer does something when the timer fires.
    pub open spec fn is_handled(self) -> bool {
        self is Raft || self is PdHeartbeat || self is ReactivateMemoryLock
    }

    /// The timer's position among all timers.
    pub fn index(self) -> (idx: usize)
        ensures
            idx == self.position(),
            idx < TICK_COUNT,
    {
        match self {
            PeerTick::Raft => 0,
            PeerTick::RaftLogGc => 1,
            PeerTick::SplitRegionCheck => 2,
            PeerTick::PdHeartbeat => 3,
            PeerTick::CheckMerge => 4,
            PeerTick::CheckPeerStaleState => 5,
            PeerTick::EntryCacheEvict => 6,
            PeerTick::CheckLeaderLease => 7,
            PeerTick::ReactivateMemoryLock => 8,
            PeerTick::ReportBuckets => 9,
            PeerTick::CheckLongUncommitted => 10,
        }
    }

    /// Whether a peer does something when the timer fires.
    pub fn has_handler(self) -> (handled: bool)
        ensures
            handled == self.is_handled(),
    {
        match self {
            PeerTick::Raft | PeerTick::PdHeartbeat | PeerTick::ReactivateMemoryLock => true,
            _ => false,
        }
    }
}

/// A registry to which a timer is added holds that timer and what it held before.
pub proof fn lemma_registry_add(registry: u16, added: PeerTick, tick: PeerTick)
    ensures
        tick.is_in(registry | added.key()) <==> tick == added || tick.is_in(registry),
{
    let i = added.position() as u16;
    let j = tick.position() as u16;
    assert(((registry | (1u16 << i)) & (1u16 << j) != 0) <==> (i == j || registry & (1u16 << j)
        != 0)) by (bit_vector)
        requires
            i < 16,
            j < 16,
    ;
}

/// How long after being scheduled the timers of one kind fire.
#[derive(Clone, Copy, PartialEq, Eq, Structural, Debug)]
pub struct WaitDuration {
    pub secs: u64,
    pub subsec_nanos: u32,
}

impl WaitDuration {
    /// A zero duration disables the timer.
    pub open spec fn is_zero(self) -> bool {
        self.secs == 0 && self.subsec_nanos == 0
    }

    /// Whether the duration is zero.
    pub fn is_zero_duration(&self) -> (zero: bool)
        ensures
            zero == self.is_zero(),
    {
        self.secs == 0 && self.subsec_nanos == 0
    }
}

/// A timer that waits to fire: the tick is then sent to the mailbox.
pub struct ScheduledTick<T: PeerTypes> {
    pub mailbox: T::Mailbox,
    pub tick: PeerTick,
}

/// The scheduled timers of one kind.
pub struct PeerTickBatch<T: PeerTypes> {
    pub wait_duration: WaitDuration,
    pub ticks: Vec<ScheduledTick<T>>,
}

/// What scheduling timers changes: the registry of a peer and the queues of its store.
#[verifier::ext_equal]
pub struct TickModel<T: PeerTypes> {
    pub registry: u16,
    pub queues: Seq<Seq<ScheduledTick<T>>>,
}

impl<T: PeerTypes> TickModel<T> {
    /// Whether scheduling the timer comes as far as looking for the peer's mailbox.
    pub open spec fn needs_mailbox(self, waits: Seq<WaitDuration>, tick: PeerTick) -> bool {
        !tick.is_in(self.registry) && !waits[tick.position()].is_zero()
    }

    /// The model after the timer is scheduled, where the search for the peer's mailbox
    /// came back with `found`: a timer that is registered, disabled or without a mailbox
    /// is left alone.
    pub open spec fn scheduling(
        self,
        waits: Seq<WaitDuration>,
        tick: PeerTick,
        found: Option<T::Mailbox>,
    ) -> TickModel<T> {
        match found {
            Some(mailbox) if self.needs_mailbox(waits, tick) => TickModel {
                registry: self.registry | tick.key(),
                queues: self.queues.update(
                    tick.position(),
                    self.queues[tick.position()].push(ScheduledTick { mailbox, tick }),
                ),
            },
            _ => self,
        }
    }

    /// The model after the timers are scheduled in turn, where the searches for the
    /// peer's mailbox came back with `found`.
    pub open spec fn scheduling_all(
        self,
        waits: Seq<WaitDuration>,
        ticks: Seq<PeerTick>,
        found: Seq<Option<T::Mailbox>>,
    ) -> TickModel<T>
        decreases ticks.len(),
    {
        if ticks.len() == 0 {
            self
        } else {
            self.scheduling_all(waits, ticks.drop_last(), found.drop_last()).scheduling(
                waits,
                ticks.last(),
                found.last(),
            )
        }
    }
}

} // verus!
