//! The receiving end of a message queue, with a record of all that was taken off it.
use crossbeam::channel::Receiver;
use vstd::prelude::*;

verus! {

/// The receiving end of a channel of crossbeam. What waits in it is up to its senders.
#[verifier::external_type_specification]
#[verifier::external_body]
#[verifier::reject_recursive_types(M)]
pub struct ExReceiver<M>(crossbeam::channel::Receiver<M>);

/// Why no message was received.
#[derive(Clone, Copy, PartialEq, Eq, Structural, Debug)]
pub enum TryRecvError {
    /// No message waits.
    Empty,
    /// No message waits, and none will come.
    Disconnected,
}

/// Calls `crossbeam::channel::Receiver::try_recv`, which takes the next message off the
/// channel or says why there is none, without blocking. Other threads send at any time, so
/// nothing is claimed of the result.
#[verifier::external_body]
fn try_recv<M>(receiver: &Receiver<M>) -> (res: Result<M, TryRecvError>)
{
    match receiver.try_recv() {
        Ok(msg) => Ok(msg),
        Err(crossbeam::channel::TryRecvError::Empty) => Err(TryRecvError::Empty),
        Err(crossbeam::channel::TryRecvError::Disconnected) => Err(TryRecvError::Disconnected),
    }
}

/// `outcome` is what [`try_recv`] on the receiver may return.
pub closed spec fn channel_gives<M>(
    receiver: Receiver<M>,
    outcome: Result<M, TryRecvError>,
) -> bool {
    call_ensures(try_recv::<M>, (&receiver,), outcome)
}

/// A receiver that only [`Inbox::take`] reads. Each reading is on record, so whoever holds
/// an inbox before and after a call knows what the call took off the channel.
#[verifier::reject_recursive_types(M)]
pub struct Inbox<M> {
    receiver: Receiver<M>,
    taken: Ghost<Seq<Result<M, TryRecvError>>>,
}

impl<M> Inbox<M> {
    /// The channel's end.
    pub closed spec fn receiver(self) -> Receiver<M> {
        self.receiver
    }

    /// What the channel gave so far, oldest first.
    pub closed spec fn taken(self) -> Seq<Result<M, TryRecvError>> {
        self.taken@
    }

    /// An inbox is its receiver and its record.
    pub proof fn lemma_determined(a: Inbox<M>, b: Inbox<M>)
        requires
            a.receiver() == b.receiver(),
            a.taken() == b.taken(),
        ensures
            a == b,
    {
    }

    pub fn new(receiver: Receiver<M>) -> (inbox: Inbox<M>)
        ensures
            inbox.receiver() == receiver,
            inbox.taken() == Seq::<Result<M, TryRecvError>>::empty(),
    {
        Inbox { receiver, taken: Ghost(Seq::empty()) }
    }

    /// Takes the next message off the channel, if there is one.
    pub fn take(&mut self) -> (outcome: Result<M, TryRecvError>)
        ensures
            channel_gives(old(self).receiver(), outcome),
            final(self).receiver() == old(self).receiver(),
            final(self).taken() == old(self).taken().push(outcome),
    {
        let outcome = try_recv(&self.receiver);
        self.taken = Ghost(self.taken@.push(outcome));
        outcome
    }
}

} // verus!
