use vstd::prelude::*;

use async_channel::{Receiver, Sender};

verus! {

/// The capacity of each event channel.
pub const CHANNEL_CAPACITY: usize = 10;

/// A bounded FIFO queue of unit event tokens, backed by an async-channel
/// channel. It holds both ends of that channel, so the channel is never
/// closed while it lives.
#[verifier::external_body]
pub struct EventChannel {
    tx: Sender<()>,
    rx: Receiver<()>,
}

/// The tokens waiting in the channel, oldest first.
pub uninterp spec fn pending(c: EventChannel) -> Seq<()>;

/// The capacity the channel was made with.
pub uninterp spec fn capacity_of(c: EventChannel) -> nat;

/// Relies on async_channel::bounded: a new, empty channel with room for
/// `cap` messages (it panics on a capacity of zero).
#[verifier::external_body]
fn open_bounded(cap: usize) -> (c: EventChannel)
    requires
        cap > 0,
    ensures
        pending(c) == Seq::<()>::empty(),
        capacity_of(c) == cap,
{
    let (tx, rx) = async_channel::bounded(cap);
    EventChannel { tx, rx }
}

/// Relies on async_channel::Sender::try_send: on an open channel it appends
/// the message when fewer than `capacity` messages wait, and otherwise fails
/// with `Full` at once, leaving the queue as it was.
#[verifier::external_body]
fn push_token(c: &mut EventChannel) -> (r: bool)
    ensures
        capacity_of(*final(c)) == capacity_of(*old(c)),
        pending(*old(c)).len() < capacity_of(*old(c)) ==> r && pending(*final(c)) == pending(
            *old(c),
        ).push(()),
        pending(*old(c)).len() >= capacity_of(*old(c)) ==> !r && pending(*final(c)) == pending(
            *old(c),
        ),
{
    c.tx.try_send(()).is_ok()
}

/// Relies on async_channel::Receiver::try_recv: on an open channel it takes
/// the oldest message, or fails with `Empty` at once when none waits.
#[verifier::external_body]
fn pop_token(c: &mut EventChannel) -> (r: bool)
    ensures
        capacity_of(*final(c)) == capacity_of(*old(c)),
        r == (pending(*old(c)).len() > 0),
        r ==> pending(*final(c)) == pending(*old(c)).drop_first(),
        !r ==> pending(*final(c)) == pending(*old(c)),
{
    c.rx.try_recv().is_ok()
}

/// Relies on async_channel::Receiver::len: the number of waiting messages.
#[verifier::external_body]
fn count_tokens(c: &EventChannel) -> (r: usize)
    ensures
        r == pending(*c).len(),
{
    c.rx.len()
}

impl EventChannel {
    /// The channel's invariant: it never holds more tokens than its capacity.
    pub open spec fn wf(self) -> bool {
        pending(self).len() <= capacity_of(self)
    }

    /// A new, empty channel with room for `cap` tokens.
    pub fn new(cap: usize) -> (c: EventChannel)
        requires
            cap > 0,
        ensures
            c.wf(),
            pending(c).len() == 0,
            capacity_of(c) == cap,
    {
        open_bounded(cap)
    }

    /// Offers one token without ever blocking. It is queued exactly when
    /// there is room; on a full channel it is dropped and nothing changes.
    pub fn try_send(&mut self) -> (r: bool)
        requires
            old(self).wf(),
        ensures
            final(self).wf(),
            capacity_of(*final(self)) == capacity_of(*old(self)),
            r == (pending(*old(self)).len() < capacity_of(*old(self))),
            r ==> pending(*final(self)).len() == pending(*old(self)).len() + 1,
            !r ==> pending(*final(self)) == pending(*old(self)),
    {
        push_token(self)
    }

    /// Takes the oldest token, if one waits.
    pub fn try_recv(&mut self) -> (r: bool)
        requires
            old(self).wf(),
        ensures
            final(self).wf(),
            capacity_of(*final(self)) == capacity_of(*old(self)),
            r == (pending(*old(self)).len() > 0),
            r ==> pending(*final(self)).len() == pending(*old(self)).len() - 1,
            !r ==> pending(*final(self)) == pending(*old(self)),
    {
        pop_token(self)
    }

    /// The number of tokens waiting.
    pub fn len(&self) -> (r: usize)
        ensures
            r == pending(*self).len(),
    {
        count_tokens(self)
    }

    /// Offers `n` tokens in a row, as a producer that must not block does.
    /// Exactly as many are queued as there was room for; the rest are
    /// dropped, the producer never waits, and the capacity is never passed.
    pub fn send_burst(&mut self, n: usize) -> (accepted: usize)
        requires
            old(self).wf(),
        ensures
            final(self).wf(),
            capacity_of(*final(self)) == capacity_of(*old(self)),
            accepted as int == vstd::math::min(
                n as int,
                capacity_of(*old(self)) - pending(*old(self)).len(),
            ),
            pending(*final(self)).len() == pending(*old(self)).len() + accepted,
    {
        let mut accepted: usize = 0;
        let mut i: usize = 0;
        while i < n
            invariant
                self.wf(),
                i <= n,
                accepted <= i,
                capacity_of(*self) == capacity_of(*old(self)),
                pending(*self).len() == pending(*old(self)).len() + accepted,
                accepted < i ==> pending(*self).len() == capacity_of(*self),
            decreases n - i,
        {
            if self.try_send() {
                accepted = accepted + 1;
            }
            i = i + 1;
        }
        accepted
    }
}

} // verus!
