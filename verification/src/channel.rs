//! The message channel between proxy and worker: std's multi-producer,
//! single-consumer channel, declared for the verifier and wrapped so that the
//! rest of the crate sees plain sends and receives.

use std::sync::mpsc::Receiver;
use std::sync::mpsc::Sender;

use crate::messages::ToScrollingTimerMsg;
use vstd::prelude::*;

verus! {

/// Declares std's channel sender so that the proxy can hold one; the type is
/// opaque to the verifier.
#[verifier::external_type_specification]
#[verifier::external_body]
#[verifier::reject_recursive_types(T)]
pub struct ExSender<T>(Sender<T>);

/// Declares std's channel receiver so that the worker can hold one; the type
/// is opaque to the verifier.
#[verifier::external_type_specification]
#[verifier::external_body]
#[verifier::reject_recursive_types(T)]
pub struct ExReceiver<T>(Receiver<T>);

/// Relies on std::sync::mpsc::Sender::send: enqueues the message for the
/// receiver, preserving arrival order, without blocking. Once the receiver is
/// gone it returns an error instead of panicking; that error is discarded
/// here, so a send after worker termination is a silent no-op.
#[verifier::external_body]
pub(crate) fn send_msg(sender: &Sender<ToScrollingTimerMsg>, msg: ToScrollingTimerMsg) {
    let _ = sender.send(msg);
}

/// Relies on std::sync::mpsc::Receiver::recv: blocks until a message is
/// available and hands messages out in the order they were sent; once every
/// sender is gone and the channel is drained it returns an error, mapped here
/// to `None` so that channel closure reads like an exit request. Which value
/// comes back depends on what other threads sent, so nothing more is promised.
#[verifier::external_body]
pub(crate) fn recv_msg(receiver: &Receiver<ToScrollingTimerMsg>) -> Option<ToScrollingTimerMsg> {
    receiver.recv().ok()
}

} // verus!
