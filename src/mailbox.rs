//! A single-slot mailbox: a send overwrites whatever was not yet taken, and
//! a receive takes the newest value. Producers hand frames and ticks to the
//! coordination loop through it, so nothing piles up between them.

use vstd::prelude::*;

verus! {

/// What a slot holds after `v` was sent to it.
pub open spec fn after_send<T>(slot: Option<T>, v: T) -> Option<T> {
    Some(v)
}

/// What a slot holds after each value of `sends` was sent to it, in order.
pub open spec fn after_sends<T>(slot: Option<T>, sends: Seq<T>) -> Option<T>
    decreases sends.len(),
{
    if sends.len() == 0 {
        slot
    } else {
        after_send(after_sends(slot, sends.drop_last()), sends.last())
    }
}

/// Holds at most one value that was sent and not yet received.
pub struct Mailbox<T> {
    slot: Option<T>,
}

impl<T> View for Mailbox<T> {
    type V = Option<T>;

    closed spec fn view(&self) -> Option<T> {
        self.slot
    }
}

impl<T> Mailbox<T> {
    /// An empty mailbox.
    pub fn new() -> (r: Self)
        ensures
            r@ == None::<T>,
    {
        Mailbox { slot: None }
    }

    /// Puts `v` in the slot, dropping any value that was not received.
    pub fn send(&mut self, v: T)
        ensures
            final(self)@ == after_send(old(self)@, v),
    {
        self.slot = Some(v);
    }

    /// Whether a value waits in the slot.
    pub fn is_empty(&self) -> (r: bool)
        ensures
            r == (self@ is None),
    {
        self.slot.is_none()
    }
}

/// Takes the newest value sent to `rx` and not yet received, leaving the
/// mailbox empty; `None` when there is none.
pub fn get_last_message<T>(rx: &mut Mailbox<T>) -> (r: Option<T>)
    ensures
        r == old(rx)@,
        final(rx)@ == None::<T>,
{
    rx.slot.take()
}

/// After any non-empty sequence of sends, one receive returns exactly the
/// last value sent, whatever the mailbox held before; earlier values are
/// gone, and the mailbox is then empty.
pub proof fn receive_gets_last_sent<T>(slot: Option<T>, sends: Seq<T>)
    requires
        sends.len() > 0,
    ensures
        after_sends(slot, sends) == Some(sends.last()),
        forall|i: int|
            0 <= i < sends.len() - 1 && sends[i] != sends.last() ==> after_sends(slot, sends)
                != Some(#[trigger] sends[i]),
{
}

} // verus!
