//! The one-shot completion signal, carried by std's mpsc channel.
//!
//! A producer that wants to know when the queue has moved past its sound gets
//! the receiving end of a fresh channel; the sending end travels with the
//! queued entry and is consumed — so it can fire at most once — when the
//! entry is retired.

use std::sync::mpsc::Receiver;
use std::sync::mpsc::Sender;
use vstd::prelude::*;

verus! {

#[verifier::external_type_specification]
#[verifier::external_body]
#[verifier::reject_recursive_types(T)]
pub struct ExSender<T>(Sender<T>);

#[verifier::external_type_specification]
#[verifier::external_body]
#[verifier::reject_recursive_types(T)]
pub struct ExReceiver<T>(Receiver<T>);

/// Relies on std::sync::mpsc::channel: returns the sending and the receiving
/// end of a fresh asynchronous channel.
#[verifier::external_body]
pub(crate) fn new_signal_channel() -> (r: (Sender<()>, Receiver<()>)) {
    std::sync::mpsc::channel()
}

/// Relies on std::sync::mpsc::Sender::send: delivers one unit message to the
/// receiving end; a dropped receiver only makes the send return an error,
/// which is discarded here, as the signal is best-effort. The sender is
/// consumed, so the same signal cannot be sent twice.
#[verifier::external_body]
pub(crate) fn send_signal(signal: Sender<()>) {
    let _ = signal.send(());
}

} // verus!
