//! The per-instance command queue: an unbounded multi-producer,
//! single-consumer ordered channel.  Enqueueing never blocks and never
//! fails observably; draining is non-blocking.  The channel itself is the
//! standard library's; its shared state is outside what contracts can
//! speak of, so the session logic is verified over the sequence of
//! commands that a drain hands it, whatever that sequence is.

use vstd::prelude::*;

use crate::event::AppEvent;

verus! {

#[verifier::external_type_specification]
#[verifier::external_body]
#[verifier::reject_recursive_types(T)]
pub struct ExSender<T>(std::sync::mpsc::Sender<T>);

#[verifier::external_type_specification]
#[verifier::external_body]
#[verifier::reject_recursive_types(T)]
pub struct ExReceiver<T>(std::sync::mpsc::Receiver<T>);

#[verifier::external_type_specification]
#[verifier::external_body]
pub struct ExRecvError(std::sync::mpsc::RecvError);

/// Relies on std::sync::mpsc::channel: a connected producer/consumer pair
/// over a new, empty, unbounded FIFO queue.
#[verifier::external_body]
fn channel_pair() -> (r: (std::sync::mpsc::Sender<AppEvent>, std::sync::mpsc::Receiver<AppEvent>)) {
    std::sync::mpsc::channel()
}

/// Relies on Clone for mpsc::Sender: another producer handle onto the same
/// queue.
#[verifier::external_body]
pub(crate) fn clone_sender(s: &std::sync::mpsc::Sender<AppEvent>) -> (r: std::sync::mpsc::Sender<AppEvent>) {
    s.clone()
}

/// Relies on mpsc::Sender::send: enqueues without blocking; sending onto a
/// queue whose consumer is gone returns an error, dropped here so that
/// enqueueing never fails observably.
#[verifier::external_body]
pub fn send_event(s: &std::sync::mpsc::Sender<AppEvent>, event: AppEvent) {
    let _ = s.send(event);
}

/// Relies on mpsc::Receiver::recv: blocks until a command is pending or
/// every producer is gone.
#[verifier::external_body]
fn recv_event(r: &std::sync::mpsc::Receiver<AppEvent>) -> (e: Result<
    AppEvent,
    std::sync::mpsc::RecvError,
>) {
    r.recv()
}

/// Relies on mpsc::Receiver::try_recv: returns the oldest pending command
/// without blocking, or nothing when none is pending.
#[verifier::external_body]
fn try_recv_event(r: &std::sync::mpsc::Receiver<AppEvent>) -> (e: Option<AppEvent>) {
    r.try_recv().ok()
}

/// Relies on mpsc::Receiver::try_iter: yields, in enqueue order, every
/// command already pending, and stops without blocking once none is
/// pending.
#[verifier::external_body]
fn drain_pending(r: &std::sync::mpsc::Receiver<AppEvent>) -> (evs: Vec<AppEvent>) {
    r.try_iter().collect()
}

/// One instance's command queue: the consumer end owned by the render loop
/// driver, plus a producer end from which further producer handles are
/// cloned.
pub struct EventHandler {
    sender: std::sync::mpsc::Sender<AppEvent>,
    receiver: std::sync::mpsc::Receiver<AppEvent>,
}

impl EventHandler {
    /// A new, empty command queue.
    pub fn new(_tick_rate: core::time::Duration) -> Self {
        let (sender, receiver) = channel_pair();
        EventHandler { sender, receiver }
    }

    /// A producer handle onto this queue, for external callers.
    pub fn sender(&self) -> (s: std::sync::mpsc::Sender<AppEvent>) {
        clone_sender(&self.sender)
    }

    /// Blocks until a command arrives; fails only when every producer
    /// handle is gone.
    pub fn next(&self) -> (e: Result<AppEvent, std::sync::mpsc::RecvError>) {
        recv_event(&self.receiver)
    }

    /// The oldest pending command, without blocking; `None` when the queue
    /// is empty.
    pub fn try_next(&self) -> (e: Option<AppEvent>) {
        try_recv_event(&self.receiver)
    }

    /// Enqueues a command on this queue.
    pub fn dispatch(&self, event: AppEvent) {
        send_event(&self.sender, event);
    }

    /// A draining cursor over the pending commands.
    pub fn iter(&self) -> (it: EventIter<'_>) {
        EventIter { handler: self }
    }

    /// All pending commands, in enqueue order, without blocking; the queue
    /// no longer holds them afterwards.
    pub fn drain(&self) -> (evs: Vec<AppEvent>) {
        drain_pending(&self.receiver)
    }
}

/// A draining cursor over an event handler's pending commands; each step
/// takes the oldest pending command, without blocking.
pub struct EventIter<'a> {
    handler: &'a EventHandler,
}

impl<'a> EventIter<'a> {
    /// The oldest pending command, or `None` when the queue is empty.
    pub fn next(&mut self) -> (e: Option<AppEvent>) {
        self.handler.try_next()
    }
}

} // verus!
