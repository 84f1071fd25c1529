//! The publisher: validates a topic name once, then fans message envelopes
//! out to every endpoint registered for that topic.

use vstd::prelude::*;
use crate::context::Context;
use crate::error::AuraError;
use crate::message::AuraMessage;
use crate::topic::topic_is_valid;
use crate::topic::valid_topic;

verus! {

/// A producer bound to one topic.  Stateless with respect to the registry
/// beyond referencing it: a publisher may exist for a topic with zero or
/// many subscribers, and subscribers may come and go after construction.
pub struct Publisher {
    topic_name: String,
    context: Context,
}

impl Publisher {
    /// The topic this publisher is bound to.
    pub closed spec fn topic(self) -> Seq<char> {
        self.topic_name@
    }

    /// Creates a publisher for `topic_name` on the bus that `context`
    /// owns.  Succeeds iff the name is absolute (non-empty and beginning
    /// with `'/'`); no registry interaction happens at construction time.
    pub fn new(context: &Context, topic_name: &str) -> (r: Result<Publisher, AuraError>)
        ensures
            r is Ok <==> valid_topic(topic_name@),
            r matches Ok(p) ==> p.topic() == topic_name@,
            r matches Err(e) ==> e == AuraError::InvalidTopicName,
    {
        if !topic_is_valid(topic_name) {
            return Err(AuraError::InvalidTopicName);
        }
        Ok(Publisher { topic_name: topic_name.to_owned(), context: context.clone() })
    }

    /// Wraps `data` into an envelope carrying this publisher's topic and
    /// attempts delivery to every endpoint currently registered for it.
    ///
    /// Best-effort, at-most-once-per-live-subscriber delivery: absence of
    /// subscribers is not an error, and a disconnected endpoint is skipped
    /// without aborting the remaining deliveries — the call always reports
    /// success.
    pub fn publish(&self, data: String) -> (r: Result<(), AuraError>)
        ensures
            r is Ok,
    {
        let envelope = AuraMessage { topic: self.topic_name.clone(), data };
        let _counts = self.context.deliver(&self.topic_name, &envelope);
        Ok(())
    }

    /// The topic name this publisher is associated with.
    pub fn topic_name(&self) -> (s: &str)
        ensures
            s@ == self.topic(),
    {
        self.topic_name.as_str()
    }
}

} // verus!
