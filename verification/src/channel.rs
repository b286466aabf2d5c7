//! Trusted boundary around `std::sync::mpsc`.
//!
//! The ingress queue and the one-shot completions are both plain std
//! channels. What a channel delivers depends on every thread that holds a
//! sender, so nothing relates a received value to a particular send; the
//! engine is verified for every value that comes out. Every function here
//! is believed, not proved: each body only makes the named call and
//! converts its result.

use vstd::prelude::*;

verus! {

#[verifier::external_type_specification]
#[verifier::external_body]
#[verifier::reject_recursive_types(T)]
pub struct ExSender<T>(std::sync::mpsc::Sender<T>);

#[verifier::external_type_specification]
#[verifier::external_body]
#[verifier::reject_recursive_types(T)]
pub struct ExReceiver<T>(std::sync::mpsc::Receiver<T>);

/// Relies on std::sync::mpsc::channel: an unbounded queue; values sent on
/// the sender arrive at the receiver in send order per sender.
#[verifier::external_body]
pub(crate) fn channel_new<T>() -> (std::sync::mpsc::Sender<T>, std::sync::mpsc::Receiver<T>) {
    std::sync::mpsc::channel()
}

/// Relies on std::sync::mpsc::Sender::clone: another sender feeding the
/// same queue.
#[verifier::external_body]
pub(crate) fn channel_sender_clone<T>(
    s: &std::sync::mpsc::Sender<T>,
) -> std::sync::mpsc::Sender<T> {
    s.clone()
}

/// Relies on std::sync::mpsc::Sender::send: enqueues the value unless the
/// receiver is gone, in which case the value comes back unchanged.
#[verifier::external_body]
pub(crate) fn channel_send<T>(s: &std::sync::mpsc::Sender<T>, t: T) -> (r: Result<(), T>)
    ensures
        r matches Err(v) ==> v == t,
{
    s.send(t).map_err(|e| e.0)
}

/// Relies on std::sync::mpsc::Receiver::try_recv: a queued value if one
/// is ready, `Ok(None)` when the queue is momentarily empty, and `Err`
/// once every sender is gone and the queue is drained.
#[verifier::external_body]
pub(crate) fn channel_try_recv<T>(r: &std::sync::mpsc::Receiver<T>) -> Result<Option<T>, ()> {
    match r.try_recv() {
        Ok(t) => Ok(Some(t)),
        Err(std::sync::mpsc::TryRecvError::Empty) => Ok(None),
        Err(std::sync::mpsc::TryRecvError::Disconnected) => Err(()),
    }
}

/// Relies on std::sync::mpsc::Receiver::recv: blocks for the next value,
/// and errs once every sender is gone and the queue is drained.
#[verifier::external_body]
pub(crate) fn channel_recv<T>(r: &std::sync::mpsc::Receiver<T>) -> Result<T, ()> {
    r.recv().map_err(|_| ())
}

} // verus!
