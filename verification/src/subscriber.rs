//! The subscriber: owns the read side of one delivery endpoint and offers
//! a bounded-wait receive.

use vstd::prelude::*;
use crate::channel::RecvOutcome;
use crate::channel::make_endpoint_pair;
use crate::channel::recv_envelope;
use crate::context::Context;
use crate::error::AuraError;
use crate::message::AuraMessage;
use std::sync::mpsc::Receiver;
use core::time::Duration;

verus! {

/// A consumer bound to one topic.  Construction registers the write side
/// of a fresh endpoint with the registry; the registry's copy survives
/// this subscriber's destruction until the next failed send reveals the
/// disconnection.
pub struct Subscriber {
    topic_name: String,
    receiver: Receiver<AuraMessage>,
}

/// What a bounded-wait receive reports for each outcome of the underlying
/// read attempt: a message is handed through unchanged, an elapsed bound
/// is the recoverable [`AuraError::Timeout`], a permanently unusable
/// endpoint the terminal [`AuraError::Disconnected`].
pub open spec fn receive_report(o: RecvOutcome) -> Result<AuraMessage, AuraError> {
    match o {
        RecvOutcome::Received(m) => Ok(m),
        RecvOutcome::TimedOut => Err(AuraError::Timeout),
        RecvOutcome::Closed => Err(AuraError::Disconnected),
    }
}

/// Turns the outcome of one read attempt into what the receive call
/// reports, exactly as [`receive_report`] states.
pub fn classify_receive(o: RecvOutcome) -> (r: Result<AuraMessage, AuraError>)
    ensures
        r == receive_report(o),
{
    match o {
        RecvOutcome::Received(m) => Ok(m),
        RecvOutcome::TimedOut => Err(AuraError::Timeout),
        RecvOutcome::Closed => Err(AuraError::Disconnected),
    }
}

impl Subscriber {
    /// The topic this subscriber listens to.
    pub closed spec fn topic(self) -> Seq<char> {
        self.topic_name@
    }

    /// Creates a fresh read/write endpoint pair and registers the write
    /// side with the registry under `topic_name`.
    ///
    /// No topic-name-format validation happens here (deliberately
    /// asymmetric with publisher construction), and registration cannot
    /// fail: the call always reports success.
    pub fn new(context: &Context, topic_name: &str) -> (r: Result<Subscriber, AuraError>)
        ensures
            r is Ok,
            r matches Ok(s) ==> s.topic() == topic_name@,
    {
        let (tx, rx) = make_endpoint_pair();
        let owned = topic_name.to_owned();
        context.register_endpoint(&owned, tx);
        Ok(Subscriber { topic_name: owned, receiver: rx })
    }

    /// Blocks until a message arrives (returning it), `timeout` elapses
    /// (the recoverable [`AuraError::Timeout`]), or the endpoint becomes
    /// permanently unusable (the terminal [`AuraError::Disconnected`]).
    /// Messages arrive in the order they were enqueued for this endpoint.
    pub fn recv_timeout(&self, timeout: Duration) -> (r: Result<AuraMessage, AuraError>)
        ensures
            r matches Err(e) ==> e == AuraError::Timeout || e == AuraError::Disconnected,
    {
        let outcome = recv_envelope(&self.receiver, timeout);
        classify_receive(outcome)
    }

    /// The topic name this subscriber is associated with.
    pub fn topic_name(&self) -> (s: &str)
        ensures
            s@ == self.topic(),
    {
        self.topic_name.as_str()
    }
}

} // verus!
