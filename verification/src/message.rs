//! The message envelope: the immutable value that publishers hand to
//! subscribers.

use vstd::prelude::*;
use crate::topic::valid_topic;

verus! {

/// Marker trait for payload types the core could carry.
///
/// The envelope below fixes the payload to `String`; a generalized core
/// would be generic over an implementor of this trait.
pub trait AuraMessageTrait: Clone + Send + Sync + 'static {

}

impl AuraMessageTrait for String {

}

/// A message envelope: the topic it was published on plus the payload.
/// Immutable once constructed; one logical copy is delivered per subscriber.
#[derive(Debug, Clone)]
pub struct AuraMessage {
    pub topic: String,
    pub data: String,
}

impl AuraMessage {
    /// Well-formedness: the topic recorded in the envelope is an absolute
    /// topic name.
    pub open spec fn wf(self) -> bool {
        valid_topic(self.topic@)
    }

    /// One logical copy of the envelope, equal to it in topic and payload.
    pub fn duplicate(&self) -> (m: AuraMessage)
        ensures
            m == *self,
    {
        AuraMessage { topic: self.topic.clone(), data: self.data.clone() }
    }
}

} // verus!
