//! Laws of the messaging core: properties that relate several operations,
//! stated and proved over the registry model that the operations' own
//! contracts speak of.

use vstd::prelude::*;
use crate::message::AuraMessage;
use crate::registry::Registry;
use std::sync::mpsc::Sender;

verus! {

/// No retroactive delivery.  One fan-out call attempts delivery to exactly
/// the endpoints registered for the topic at the moment of the call (the
/// contract of [`Registry::fan_out`]); an endpoint not yet among them — in
/// particular the fresh write side that a subscriber created after the
/// call registers — is the target of none of those attempts.
pub proof fn lemma_no_retroactive_delivery(r: Registry, t: Seq<char>, tx: Sender<AuraMessage>)
    requires
        r.wf(),
        !r.endpoints_of(t).contains(tx),
    ensures
        forall|k: int| 0 <= k < r.endpoints_of(t).len() ==> r.endpoints_of(t)[k] != tx,
{
}

/// What a topic's endpoint sequence becomes after the write sides `txs`
/// register one by one, in order, starting from `eps`.  Each registration
/// is one `push` step — exactly what the contract of
/// [`Registry::register`] gives for the registered topic.
pub open spec fn after_registrations(
    eps: Seq<Sender<AuraMessage>>,
    txs: Seq<Sender<AuraMessage>>,
) -> Seq<Sender<AuraMessage>>
    decreases txs.len(),
{
    if txs.len() == 0 {
        eps
    } else {
        after_registrations(eps.push(txs[0]), txs.drop_first())
    }
}

/// Fan-out coverage, for any number of subscribers.  Registrations never
/// displace earlier endpoints: after the write sides `txs` register in
/// turn on one topic, the topic's sequence holds every earlier endpoint at
/// its old position followed by `txs` in registration order.  A fan-out at
/// that state, which attempts delivery once per held endpoint (the
/// contract of [`Registry::fan_out`]), therefore reaches the earlier
/// subscribers and every one of the new ones.
pub proof fn lemma_fan_out_reaches_new_subscribers(
    eps0: Seq<Sender<AuraMessage>>,
    txs: Seq<Sender<AuraMessage>>,
)
    ensures
        after_registrations(eps0, txs) == eps0 + txs,
        after_registrations(eps0, txs).len() == eps0.len() + txs.len(),
        forall|k: int| 0 <= k < eps0.len() ==> after_registrations(eps0, txs)[k] == eps0[k],
        forall|i: int|
            0 <= i < txs.len() ==> after_registrations(eps0, txs)[eps0.len() + i] == txs[i],
        forall|i: int| 0 <= i < txs.len() ==> after_registrations(eps0, txs).contains(txs[i]),
    decreases txs.len(),
{
    if txs.len() == 0 {
        assert(eps0 + txs =~= eps0);
    } else {
        lemma_fan_out_reaches_new_subscribers(eps0.push(txs[0]), txs.drop_first());
        assert(eps0.push(txs[0]) + txs.drop_first() =~= eps0 + txs);
    }
    assert forall|i: int| 0 <= i < txs.len() implies after_registrations(eps0, txs).contains(
        txs[i],
    ) by {
        assert(after_registrations(eps0, txs)[eps0.len() + i] == txs[i]);
    }
}

/// Silent topic.  A topic that no subscriber has ever registered for holds
/// no endpoints, so a fan-out for it makes no delivery attempt at all —
/// publishing there has no observable effect, and still reports success
/// (the contract of [`crate::publisher::Publisher::publish`]).
pub proof fn lemma_silent_topic(r: Registry, t: Seq<char>)
    requires
        r.wf(),
        !r.has_topic(t),
    ensures
        r.endpoints_of(t).len() == 0,
{
}

} // verus!
