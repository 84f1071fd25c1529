//! The delivery endpoint: one subscriber's private, unbounded,
//! first-in-first-out inbound queue.
//!
//! The queue is a standard mpsc channel.  The registry owns the write side
//! (`Sender`), the subscriber owns the read side (`Receiver`).  The channel
//! operations themselves are taken on trust; everything the core decides
//! about their outcomes is verified around them.

use vstd::prelude::*;
use crate::message::AuraMessage;
use std::sync::mpsc::Receiver;
use std::sync::mpsc::RecvTimeoutError;
use std::sync::mpsc::Sender;
use core::time::Duration;

verus! {

#[verifier::external_type_specification]
#[verifier::external_body]
#[verifier::reject_recursive_types(T)]
pub struct ExSender<T>(Sender<T>);

#[verifier::external_type_specification]
#[verifier::external_body]
#[verifier::reject_recursive_types(T)]
pub struct ExReceiver<T>(Receiver<T>);

/// What one bounded-wait read attempt on an endpoint produced.
#[derive(Debug)]
pub enum RecvOutcome {
    /// The oldest queued message.
    Received(AuraMessage),
    /// Nothing arrived within the requested bound; recoverable.
    TimedOut,
    /// Every matching write side is gone; the endpoint is permanently
    /// unusable.
    Closed,
}

/// Relies on `std::sync::mpsc::channel`: creates a connected write-side /
/// read-side pair whose queue starts empty and preserves send order.
#[verifier::external_body]
pub(crate) fn make_endpoint_pair() -> (pair: (Sender<AuraMessage>, Receiver<AuraMessage>)) {
    std::sync::mpsc::channel()
}

/// Relies on `std::sync::mpsc::Sender::send`: enqueues the envelope and
/// returns `Ok` while the paired read side is alive; once the read side is
/// dropped it returns the envelope back as an error.  The result reports
/// whether this one delivery attempt succeeded.
#[verifier::external_body]
pub(crate) fn send_envelope(tx: &Sender<AuraMessage>, m: AuraMessage) -> (delivered: bool) {
    tx.send(m).is_ok()
}

/// Relies on `std::sync::mpsc::Receiver::recv_timeout`: returns the oldest
/// queued message if one arrives within `timeout`, reports a timeout once
/// the bound elapses, and reports disconnection when every write side is
/// gone and the queue is empty.
#[verifier::external_body]
pub(crate) fn recv_envelope(rx: &Receiver<AuraMessage>, timeout: Duration) -> (r: RecvOutcome) {
    match rx.recv_timeout(timeout) {
        Ok(m) => RecvOutcome::Received(m),
        Err(RecvTimeoutError::Timeout) => RecvOutcome::TimedOut,
        Err(RecvTimeoutError::Disconnected) => RecvOutcome::Closed,
    }
}

} // verus!
