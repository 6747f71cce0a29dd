//! Broadcast channel for tick events and subscriber management.
//!
//! The manager is generic over the event type it broadcasts; events are
//! copied to every subscriber.

use crate::PulseError;
use std::sync::mpsc::{Receiver, RecvError, RecvTimeoutError, Sender, TryRecvError};
use std::time::Duration;
use vstd::prelude::*;

verus! {

/// `std::sync::mpsc::Sender`: the sending half of a channel.
#[verifier::external_type_specification]
#[verifier::external_body]
#[verifier::reject_recursive_types(T)]
pub struct ExSender<T>(Sender<T>);

/// `std::sync::mpsc::Receiver`: the receiving half of a channel.
#[verifier::external_type_specification]
#[verifier::external_body]
#[verifier::reject_recursive_types(T)]
pub struct ExReceiver<T>(Receiver<T>);

/// `std::sync::mpsc::RecvError`: the channel is empty and disconnected.
#[verifier::external_type_specification]
#[verifier::external_body]
pub struct ExRecvError(RecvError);

/// `std::sync::mpsc::TryRecvError`: nothing to receive right now.
#[verifier::external_type_specification]
#[verifier::external_body]
pub struct ExTryRecvError(TryRecvError);

/// `std::sync::mpsc::RecvTimeoutError`: nothing received in time.
#[verifier::external_type_specification]
#[verifier::external_body]
pub struct ExRecvTimeoutError(RecvTimeoutError);

/// Calls `std::sync::mpsc::channel`: a new channel, as its two halves.
#[verifier::external_body]
fn new_channel<T>() -> (Sender<T>, Receiver<T>) {
    std::sync::mpsc::channel()
}

/// Calls `Sender::send`; true where the event was handed to the channel.
/// Whether the receiving half is still alive is not known here, so the
/// outcome is left unstated.
#[verifier::external_body]
fn channel_send<T>(tx: &Sender<T>, event: T) -> bool {
    tx.send(event).is_ok()
}

/// Calls `Receiver::recv`, which blocks for the next event; what arrives
/// depends on the other threads and is left unstated.
#[verifier::external_body]
fn channel_recv<T>(rx: &Receiver<T>) -> Result<T, RecvError> {
    rx.recv()
}

/// The elements of `s` whose flag in `mask` is set, in order.
pub open spec fn kept<T>(s: Seq<T>, mask: Seq<bool>) -> Seq<T>
    decreases s.len(),
{
    if s.len() == 0 || mask.len() == 0 {
        Seq::empty()
    } else {
        let rest = kept(s.drop_last(), mask.drop_last());
        if mask.last() {
            rest.push(s.last())
        } else {
            rest
        }
    }
}

/// `next` is what remains of the subscribers `prev` after a broadcast:
/// those to which the event was delivered, in their order.
pub open spec fn delivered_to<T>(prev: Seq<T>, next: Seq<T>) -> bool {
    exists|mask: Seq<bool>| mask.len() == prev.len() && next == #[trigger] kept(prev, mask)
}

/// A subscriber receives tick events from the pulse.
#[derive(Debug)]
#[verifier::reject_recursive_types(E)]
pub struct PulseReceiver<E> {
    rx: Receiver<E>,
}

impl<E> PulseReceiver<E> {
    /// Receive the next tick event, blocking. Fails with `ChannelClosed`
    /// once every sender is gone.
    pub fn recv(&self) -> (r: Result<E, PulseError>)
        ensures
            r matches Err(e) ==> e is ChannelClosed,
    {
        match channel_recv(&self.rx) {
            Ok(event) => Ok(event),
            Err(_) => Err(PulseError::ChannelClosed),
        }
    }

    /// Try to receive with a timeout. Calls `Receiver::recv_timeout`,
    /// whose outcome depends on the other threads and the time.
    #[verifier::external_body]
    pub fn recv_timeout(&self, timeout: Duration) -> Result<E, RecvTimeoutError> {
        self.rx.recv_timeout(timeout)
    }

    /// Try to receive without blocking. Calls `Receiver::try_recv`, whose
    /// outcome depends on the other threads.
    #[verifier::external_body]
    pub fn try_recv(&self) -> Result<E, TryRecvError> {
        self.rx.try_recv()
    }
}

/// Manages subscribers and broadcasts tick events.
#[verifier::reject_recursive_types(E)]
pub struct SubscriberManager<E> {
    senders: Vec<Sender<E>>,
    /// The events broadcast so far, in order.
    sent: Ghost<Seq<E>>,
}

impl<E> View for SubscriberManager<E> {
    type V = Seq<Sender<E>>;

    closed spec fn view(&self) -> Seq<Sender<E>> {
        self.senders@
    }
}

impl<E> SubscriberManager<E> {
    /// The events broadcast so far, in order; each was handed to every
    /// subscriber there was at its broadcast.
    pub closed spec fn broadcasts(&self) -> Seq<E> {
        self.sent@
    }
}

impl<E> Default for SubscriberManager<E> {
    fn default() -> (m: Self)
        ensures
            m@ == Seq::<Sender<E>>::empty(),
            m.broadcasts() == Seq::<E>::empty(),
    {
        Self::new()
    }
}

impl<E> SubscriberManager<E> {
    /// Create a new subscriber manager.
    pub fn new() -> (m: Self)
        ensures
            m@ == Seq::<Sender<E>>::empty(),
            m.broadcasts() == Seq::<E>::empty(),
    {
        Self { senders: Vec::new(), sent: Ghost(Seq::empty()) }
    }

    /// Subscribe to tick events. Returns a PulseReceiver.
    pub fn subscribe(&mut self) -> (r: PulseReceiver<E>)
        ensures
            final(self)@.len() == old(self)@.len() + 1,
            final(self).broadcasts() == old(self).broadcasts(),
            final(self)@.drop_last() == old(self)@,
    {
        let (tx, rx) = new_channel();
        self.senders.push(tx);
        proof {
            assert(self.senders@.drop_last() =~= old(self)@);
        }
        PulseReceiver { rx }
    }

    /// Number of active subscribers.
    pub fn subscriber_count(&self) -> (n: usize)
        ensures
            n == self@.len(),
    {
        self.senders.len()
    }

    /// Remove all subscribers.
    pub fn clear(&mut self)
        ensures
            final(self)@ == Seq::<Sender<E>>::empty(),
            final(self).broadcasts() == old(self).broadcasts(),
    {
        self.senders.clear();
    }
}

impl<E> SubscriberManager<E> {
    /// Keep the subscribers whose flag in `delivered` is set, in their
    /// order, and drop the others. Returns how many remain.
    pub fn keep_delivered(&mut self, delivered: &Vec<bool>) -> (kept_count: usize)
        requires
            delivered@.len() == old(self)@.len(),
        ensures
            final(self)@ == kept(old(self)@, delivered@),
            final(self).broadcasts() == old(self).broadcasts(),
            kept_count == final(self)@.len(),
            kept_count <= old(self)@.len(),
    {
        let ghost all = self.senders@;
        let mut pending: Vec<Sender<E>> = Vec::new();
        std::mem::swap(&mut pending, &mut self.senders);
        let mut count: usize = 0;
        let mut i: usize = 0;
        let n: usize = pending.len();
        while i < n
            invariant
                n == all.len(),
                delivered@.len() == n,
                i <= n,
                pending@ == all.skip(i as int),
                self.senders@ == kept(all.take(i as int), delivered@.take(i as int)),
                self.sent@ == old(self).sent@,
                count == self.senders@.len(),
                count <= i,
            decreases n - i,
        {
            let tx = pending.remove(0);
            let ok: bool = delivered[i];
            proof {
                assert(all.take(i + 1).drop_last() =~= all.take(i as int));
                assert(delivered@.take(i + 1).drop_last() =~= delivered@.take(i as int));
                assert(delivered@.take(i + 1).last() == ok);
                assert(all.take(i + 1).last() == tx);
                assert(pending@ =~= all.skip(i + 1));
            }
            if ok {
                self.senders.push(tx);
                count = count + 1;
            }
            i = i + 1;
        }
        proof {
            assert(all.take(n as int) =~= all);
            assert(delivered@.take(n as int) =~= delivered@);
        }
        count
    }
}

impl<E: Copy> SubscriberManager<E> {
    /// Broadcast a tick event to all subscribers.
    /// Removes disconnected subscribers, and returns how many remain (each
    /// of which was sent the event).
    pub fn broadcast(&mut self, event: E) -> (sent: usize)
        ensures
            final(self).broadcasts() == old(self).broadcasts().push(event),
            sent == final(self)@.len(),
            sent <= old(self)@.len(),
            delivered_to(old(self)@, final(self)@),
    {
        let mut delivered: Vec<bool> = Vec::new();
        let n: usize = self.senders.len();
        let mut i: usize = 0;
        while i < n
            invariant
                n == self.senders@.len(),
                self.senders@ == old(self)@,
                self.sent@ == old(self).sent@,
                i <= n,
                delivered@.len() == i,
            decreases n - i,
        {
            delivered.push(channel_send(&self.senders[i], event));
            i = i + 1;
        }
        proof {
            self.sent@ = self.sent@.push(event);
        }
        self.keep_delivered(&delivered)
    }
}

} // verus!
