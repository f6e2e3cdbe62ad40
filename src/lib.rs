use vstd::prelude::*;

pub mod cell;
mod sync;

use crate::cell::StorageCell;
use crate::sync::locked;
use crate::sync::locked_when_ready;
use std::marker::PhantomData;
use std::rc::Rc;
use std::sync::atomic::AtomicBool;
use std::sync::atomic::Ordering;
use std::sync::Condvar;
use std::sync::Mutex;

verus! {

/// A single-use channel: one value of `T` goes from one sending handle to one
/// receiving handle, both derived from this channel by `split`.
///
/// The storage cell sits behind a lock, so every step of the protocol sees it
/// whole; the atomic flag mirrors its readiness for cheap polling, and the
/// condition variable wakes a blocked receiver.
#[verifier::reject_recursive_types(T)]
pub struct Channel<T> {
    message: Mutex<StorageCell<T>>,
    ready: AtomicBool,
    wake: Condvar,
}

/// The capability to send once on a channel; `send` consumes it.
#[verifier::reject_recursive_types(T)]
pub struct Sender<'a, T> {
    channel: &'a Channel<T>,
}

/// The capability to receive once from a channel; `receive` consumes it.
///
/// It cannot be moved to another thread.
#[verifier::reject_recursive_types(T)]
pub struct Receiver<'a, T> {
    channel: &'a Channel<T>,
    no_send: PhantomData<Rc<()>>,
}

impl<T> Channel<T> {
    /// An empty channel.
    pub fn new() -> (r: Self) {
        Channel {
            message: Mutex::new(StorageCell::new()),
            ready: AtomicBool::new(false),
            wake: Condvar::new(),
        }
    }

    /// Resets the channel to empty and hands out its only sender and receiver.
    pub fn split(&mut self) -> (r: (Sender<'_, T>, Receiver<'_, T>))
        ensures
            r.0.target() == *final(self),
            r.1.source() == *final(self),
    {
        *self = Channel::new();
        let this: &Channel<T> = self;
        (Sender { channel: this }, Receiver { channel: this, no_send: PhantomData })
    }
}

impl<'a, T> Sender<'a, T> {
    /// The channel this handle sends on.
    pub closed spec fn target(&self) -> Channel<T> {
        *self.channel
    }

    /// Writes `message` into the channel, publishes it, and wakes the receiver.
    pub fn send(self, message: T) {
        let c = self.channel;
        let step = move |cell: StorageCell<T>| -> (r: (StorageCell<T>, ()))
            ensures
                r.0@ == cell::delivered(cell@, message),
            { cell.deliver(message) };
        locked(&c.message, step);
        c.ready.store(true, Ordering::Release);
        c.wake.notify_all();
    }
}

impl<'a, T> Receiver<'a, T> {
    /// The channel this handle receives from.
    pub closed spec fn source(&self) -> Channel<T> {
        *self.channel
    }

    /// Whether a value has been sent and not yet received. A cheap, relaxed
    /// probe that changes nothing.
    pub fn is_ready(&self) -> bool {
        self.channel.ready.load(Ordering::Relaxed)
    }

    /// Blocks until a value has been sent, then takes it.
    pub fn receive(self) -> T {
        let c = self.channel;
        let step = |cell: StorageCell<T>| -> (r: (StorageCell<T>, T))
            requires
                cell@.ready,
            ensures
                Some(r.1) == cell::collected_value(cell@),
                r.0@ == cell::collected_state(cell@),
            { cell.take_published() };
        let v = locked_when_ready(&c.message, &c.wake, step);
        c.ready.swap(false, Ordering::Acquire);
        v
    }
}

} // verus!
