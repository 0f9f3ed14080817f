use vstd::prelude::*;

use crate::events::ControlEvent;

verus! {

/// The mailbox holds at most this many pending events; a producer that finds
/// it full suspends (backpressure) instead of dropping the event.
pub const MAILBOX_CAPACITY: usize = 8;

/// The bounded multi-producer single-consumer event queue between the
/// producers and the main loop.  It wraps embassy_sync's channel (a FIFO
/// ring of fixed capacity behind a critical-section mutex), which is safe
/// for concurrent producers; the suspending send is driven by the caller
/// retrying around `try_send`.
#[verifier::external_body]
pub struct Mailbox {
    channel: embassy_sync::channel::Channel<
        embassy_sync::blocking_mutex::raw::CriticalSectionRawMutex,
        ControlEvent,
        8,
    >,
}

/// The pending events of the mailbox, oldest first.
pub uninterp spec fn mailbox_queue(m: Mailbox) -> Seq<ControlEvent>;

impl Mailbox {
    /// Relies on embassy_sync::channel::Channel::new: a fresh channel holds
    /// no messages.
    #[verifier::external_body]
    pub fn new() -> (m: Mailbox)
        ensures
            mailbox_queue(m) == Seq::<ControlEvent>::empty(),
    {
        Mailbox { channel: embassy_sync::channel::Channel::new() }
    }

    /// Relies on embassy_sync::channel::Channel::try_send: the message joins
    /// the back of the queue, unless the channel already holds its full
    /// capacity, in which case nothing changes and the send reports failure.
    #[verifier::external_body]
    pub fn try_send(&mut self, ev: ControlEvent) -> (ok: bool)
        ensures
            mailbox_queue(*old(self)).len() < MAILBOX_CAPACITY ==> ok && mailbox_queue(
                *final(self),
            ) == mailbox_queue(*old(self)).push(ev),
            mailbox_queue(*old(self)).len() >= MAILBOX_CAPACITY ==> !ok && mailbox_queue(
                *final(self),
            ) == mailbox_queue(*old(self)),
    {
        self.channel.try_send(ev).is_ok()
    }

    /// Relies on embassy_sync::channel::Channel::try_receive: the oldest
    /// queued message is removed and returned, or nothing when the queue is
    /// empty; it never suspends.
    #[verifier::external_body]
    pub fn try_receive(&mut self) -> (ev: Option<ControlEvent>)
        ensures
            mailbox_queue(*old(self)).len() == 0 ==> ev is None && mailbox_queue(*final(self))
                == mailbox_queue(*old(self)),
            mailbox_queue(*old(self)).len() > 0 ==> ev == Some(mailbox_queue(*old(self))[0])
                && mailbox_queue(*final(self)) == mailbox_queue(*old(self)).drop_first(),
    {
        match self.channel.try_receive() {
            Ok(ev) => Some(ev),
            Err(_) => None,
        }
    }
}

} // verus!
