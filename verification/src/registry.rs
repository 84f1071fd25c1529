//! The topic registry: the single source of truth for "who is listening to
//! topic T right now".
//!
//! The registry maps each topic name to the growable sequence of delivery
//! endpoints registered for it.  Topic names are unique keys; the order of
//! the entries themselves carries no meaning.  An entry exists for a topic
//! iff at least one subscriber has ever been registered for it — entries are
//! never removed, and a sequence may contain stale (disconnected) endpoints
//! between delivery attempts.

use vstd::prelude::*;
use crate::channel::send_envelope;
use crate::message::AuraMessage;
use std::sync::mpsc::Sender;

verus! {

/// One registry entry: a topic name and the write side of every endpoint
/// ever registered for that topic, oldest first.
pub struct TopicEntry {
    pub name: String,
    pub endpoints: Vec<Sender<AuraMessage>>,
}

/// The topic-to-endpoints mapping.
pub struct Registry {
    pub entries: Vec<TopicEntry>,
}

impl Registry {
    /// Well-formedness: no topic name occurs in two entries.
    pub open spec fn wf(self) -> bool {
        forall|i: int, j: int|
            0 <= i < j < self.entries.len() ==> self.entries[i].name@ != self.entries[j].name@
    }

    /// Whether an entry exists for topic `t`; it does iff an endpoint has
    /// ever been registered for `t`.
    pub open spec fn has_topic(self, t: Seq<char>) -> bool {
        exists|i: int| 0 <= i < self.entries.len() && self.entries[i].name@ == t
    }

    /// The index of the entry for `t` (meaningful when `has_topic(t)`).
    pub open spec fn index_of(self, t: Seq<char>) -> int {
        choose|i: int| 0 <= i < self.entries.len() && self.entries[i].name@ == t
    }

    /// The endpoints currently registered for `t`, in registration order;
    /// empty when `t` was never registered.
    pub open spec fn endpoints_of(self, t: Seq<char>) -> Seq<Sender<AuraMessage>> {
        if self.has_topic(t) {
            self.entries[self.index_of(t)].endpoints@
        } else {
            Seq::empty()
        }
    }

    /// A registry with no entries.
    pub fn new() -> (r: Registry)
        ensures
            r.wf(),
            r.entries@.len() == 0,
            forall|t: Seq<char>| !r.has_topic(t),
    {
        Registry { entries: Vec::new() }
    }

    /// The position of the entry named `topic`, if one exists.
    fn find_entry(&self, topic: &String) -> (r: Option<usize>)
        ensures
            match r {
                Some(i) => i < self.entries.len() && self.entries[i as int].name@ == topic@,
                None => !self.has_topic(topic@),
            },
    {
        let n = self.entries.len();
        let mut i: usize = 0;
        while i < n
            invariant
                i <= n,
                n == self.entries.len(),
                forall|k: int| 0 <= k < i ==> self.entries[k].name@ != topic@,
            decreases n - i,
        {
            if self.entries[i].name == *topic {
                return Some(i);
            }
            i += 1;
        }
        None
    }

    /// Inserts `tx` into the sequence for `topic`, creating the entry if
    /// absent.  Never deduplicates: each registration adds one endpoint.
    /// Every endpoint already registered — for this topic and for every
    /// other one — is kept, and the new endpoint comes last in its topic's
    /// sequence.
    pub fn register(&mut self, topic: &String, tx: Sender<AuraMessage>)
        requires
            old(self).wf(),
        ensures
            final(self).wf(),
            final(self).has_topic(topic@),
            final(self).endpoints_of(topic@) == old(self).endpoints_of(topic@).push(tx),
            forall|t: Seq<char>|
                t != topic@ ==> final(self).endpoints_of(t) == old(self).endpoints_of(t),
            forall|t: Seq<char>|
                final(self).has_topic(t) == (old(self).has_topic(t) || t == topic@),
    {
        let found = self.find_entry(topic);
        match found {
            Some(i) => {
                let mut e = self.entries.remove(i);
                e.endpoints.push(tx);
                let ghost e_snap = e;
                self.entries.push(e);
                proof {
                    lemma_register_existing(*old(self), *self, i as int, topic@, tx, e_snap);
                }
            }
            None => {
                let mut eps: Vec<Sender<AuraMessage>> = Vec::new();
                eps.push(tx);
                let entry = TopicEntry { name: topic.clone(), endpoints: eps };
                let ghost e_snap = entry;
                self.entries.push(entry);
                proof {
                    lemma_register_fresh(*old(self), *self, topic@, tx, e_snap);
                }
            }
        }
    }

    /// Attempts delivery of `m` to every endpoint currently registered for
    /// `topic`: exactly one attempt per endpoint, in registration order.  A
    /// failed attempt (a disconnected endpoint) never aborts the remaining
    /// deliveries.  Returns how many attempts succeeded and how many found
    /// the endpoint disconnected; absence of subscribers is not an error.
    pub fn fan_out(&self, topic: &String, m: &AuraMessage) -> (r: (usize, usize))
        requires
            self.wf(),
        ensures
            r.0 + r.1 == self.endpoints_of(topic@).len(),
    {
        let found = self.find_entry(topic);
        match found {
            Some(i) => {
                proof {
                    lemma_index_of_unique(*self, i as int, topic@);
                }
                let entry = &self.entries[i];
                let n = entry.endpoints.len();
                let mut delivered: usize = 0;
                let mut failed: usize = 0;
                let mut k: usize = 0;
                while k < n
                    invariant
                        k <= n,
                        n == entry.endpoints.len(),
                        delivered + failed == k,
                    decreases n - k,
                {
                    if send_envelope(&entry.endpoints[k], m.duplicate()) {
                        delivered += 1;
                    } else {
                        failed += 1;
                    }
                    k += 1;
                }
                (delivered, failed)
            }
            None => (0, 0),
        }
    }

    /// How many topics have ever been registered.
    pub fn topic_count(&self) -> (n: usize)
        ensures
            n == self.entries@.len(),
    {
        self.entries.len()
    }

    /// How many endpoints are registered for `topic`.
    pub fn endpoint_count(&self, topic: &String) -> (n: usize)
        requires
            self.wf(),
        ensures
            n == self.endpoints_of(topic@).len(),
    {
        let found = self.find_entry(topic);
        match found {
            Some(i) => {
                proof {
                    lemma_index_of_unique(*self, i as int, topic@);
                }
                let entry = &self.entries[i];
                entry.endpoints.len()
            }
            None => 0,
        }
    }
}

/// In a well-formed registry, any index whose entry is named `t` is the one
/// `index_of(t)` picks.
proof fn lemma_index_of_unique(r: Registry, i: int, t: Seq<char>)
    requires
        r.wf(),
        0 <= i < r.entries.len(),
        r.entries[i].name@ == t,
    ensures
        r.has_topic(t),
        r.index_of(t) == i,
        r.endpoints_of(t) == r.entries[i].endpoints@,
{
    assert(r.has_topic(t));
    let j = r.index_of(t);
    assert(0 <= j < r.entries.len() && r.entries[j].name@ == t);
    if i != j {
        if i < j {
            assert(r.entries[i].name@ != r.entries[j].name@);
        } else {
            assert(r.entries[j].name@ != r.entries[i].name@);
        }
    }
}

/// Effect of registering one more endpoint under a topic that already has an
/// entry at index `i`: the entry moves to the back with the endpoint
/// appended, and every other topic's view of the registry is unchanged.
proof fn lemma_register_existing(
    pre: Registry,
    post: Registry,
    i: int,
    t: Seq<char>,
    tx: Sender<AuraMessage>,
    e: TopicEntry,
)
    requires
        pre.wf(),
        0 <= i < pre.entries.len(),
        pre.entries[i].name@ == t,
        e.name@ == t,
        e.endpoints@ == pre.entries[i].endpoints@.push(tx),
        post.entries@ == pre.entries@.remove(i).push(e),
    ensures
        post.wf(),
        post.has_topic(t),
        post.endpoints_of(t) == pre.endpoints_of(t).push(tx),
        forall|u: Seq<char>| u != t ==> post.endpoints_of(u) == pre.endpoints_of(u),
        forall|u: Seq<char>| post.has_topic(u) == (pre.has_topic(u) || u == t),
{
    let n = pre.entries@.len() as int;
    pre.entries@.remove_ensures(i);
    assert(pre.entries@.remove(i).len() == n - 1);
    assert(post.entries@.len() == n);
    // Index correspondence between post and pre.
    assert forall|k: int| 0 <= k < n - 1 implies #[trigger] post.entries@[k] == pre.entries@.remove(
        i,
    )[k] by {
    }
    assert(post.entries@[n - 1] == e);
    assert(post.entries@[n - 1].name@ == t);
    assert(post.entries@[n - 1].endpoints@ == pre.entries@[i].endpoints@.push(tx));

    lemma_index_of_unique(pre, i, t);

    assert(post.wf()) by {
        assert forall|p: int, q: int|
            0 <= p < q < n implies post.entries@[p].name@ != post.entries@[q].name@ by {
            if q < n - 1 {
                let fp: int = if p < i { p } else { p + 1 };
                let fq: int = if q < i { q } else { q + 1 };
                assert(post.entries@[p] == pre.entries@[fp]);
                assert(post.entries@[q] == pre.entries@[fq]);
                assert(fp < fq);
            } else {
                let fp: int = if p < i { p } else { p + 1 };
                assert(post.entries@[p] == pre.entries@[fp]);
                assert(fp != i);
            }
        }
    }

    assert(post.has_topic(t)) by {
        assert(post.entries@[n - 1].name@ == t);
    }
    assert(post.index_of(t) == n - 1) by {
        lemma_index_of_unique(post, n - 1, t);
    }
    assert(post.endpoints_of(t) == pre.endpoints_of(t).push(tx));

    assert forall|u: Seq<char>| u != t implies post.endpoints_of(u) == pre.endpoints_of(u) by {
        if post.has_topic(u) {
            let k = post.index_of(u);
            assert(0 <= k < n && post.entries@[k].name@ == u);
            assert(k != n - 1);
            let fk: int = if k < i { k } else { k + 1 };
            assert(post.entries@[k] == pre.entries@[fk]);
            lemma_index_of_unique(pre, fk, u);
            assert(post.endpoints_of(u) == post.entries@[k].endpoints@);
            assert(pre.endpoints_of(u) == pre.entries@[fk].endpoints@);
        } else {
            if pre.has_topic(u) {
                let j = pre.index_of(u);
                assert(0 <= j < n && pre.entries@[j].name@ == u);
                assert(j != i);
                let bk: int = if j < i { j } else { j - 1 };
                assert(post.entries@[bk] == pre.entries@[j]);
                assert(post.has_topic(u));
            }
            assert(!pre.has_topic(u));
        }
    }

    assert forall|u: Seq<char>| post.has_topic(u) == (pre.has_topic(u) || u == t) by {
        if u == t {
            assert(post.has_topic(u));
        } else {
            if post.has_topic(u) {
                let k = post.index_of(u);
                assert(0 <= k < n && post.entries@[k].name@ == u);
                assert(k != n - 1);
                let fk: int = if k < i { k } else { k + 1 };
                assert(post.entries@[k] == pre.entries@[fk]);
                assert(pre.has_topic(u));
            }
            if pre.has_topic(u) {
                let j = pre.index_of(u);
                assert(0 <= j < n && pre.entries@[j].name@ == u);
                assert(j != i);
                let bk: int = if j < i { j } else { j - 1 };
                assert(post.entries@[bk] == pre.entries@[j]);
                assert(post.has_topic(u));
            }
        }
    }
}

/// Effect of registering the first endpoint for a topic that has no entry
/// yet: a fresh one-endpoint entry comes last, and every other topic's view
/// of the registry is unchanged.
proof fn lemma_register_fresh(
    pre: Registry,
    post: Registry,
    t: Seq<char>,
    tx: Sender<AuraMessage>,
    e: TopicEntry,
)
    requires
        pre.wf(),
        !pre.has_topic(t),
        e.name@ == t,
        e.endpoints@ == Seq::<Sender<AuraMessage>>::empty().push(tx),
        post.entries@ == pre.entries@.push(e),
    ensures
        post.wf(),
        post.has_topic(t),
        post.endpoints_of(t) == pre.endpoints_of(t).push(tx),
        forall|u: Seq<char>| u != t ==> post.endpoints_of(u) == pre.endpoints_of(u),
        forall|u: Seq<char>| post.has_topic(u) == (pre.has_topic(u) || u == t),
{
    let n = pre.entries@.len() as int;

    assert(post.wf()) by {
        assert forall|p: int, q: int|
            0 <= p < q < n + 1 implies post.entries@[p].name@ != post.entries@[q].name@ by {
            if q < n {
                assert(post.entries@[p] == pre.entries@[p]);
                assert(post.entries@[q] == pre.entries@[q]);
            } else {
                assert(post.entries@[p] == pre.entries@[p]);
                assert(post.entries@[q] == e);
                assert(pre.entries@[p].name@ != t);
            }
        }
    }

    assert(post.has_topic(t)) by {
        assert(post.entries@[n] == e);
        assert(post.entries@[n].name@ == t);
    }
    assert(post.index_of(t) == n) by {
        lemma_index_of_unique(post, n, t);
    }
    assert(pre.endpoints_of(t) == Seq::<Sender<AuraMessage>>::empty());
    assert(post.endpoints_of(t) == pre.endpoints_of(t).push(tx));

    assert forall|u: Seq<char>| u != t implies post.endpoints_of(u) == pre.endpoints_of(u) by {
        if post.has_topic(u) {
            let k = post.index_of(u);
            assert(0 <= k < n + 1 && post.entries@[k].name@ == u);
            assert(k != n);
            assert(post.entries@[k] == pre.entries@[k]);
            lemma_index_of_unique(pre, k, u);
            assert(post.endpoints_of(u) == post.entries@[k].endpoints@);
            assert(pre.endpoints_of(u) == pre.entries@[k].endpoints@);
        } else {
            if pre.has_topic(u) {
                let j = pre.index_of(u);
                assert(post.entries@[j] == pre.entries@[j]);
                assert(post.has_topic(u));
            }
            assert(!pre.has_topic(u));
        }
    }

    assert forall|u: Seq<char>| post.has_topic(u) == (pre.has_topic(u) || u == t) by {
        if u == t {
            assert(post.has_topic(u));
        } else {
            if post.has_topic(u) {
                let k = post.index_of(u);
                assert(0 <= k < n + 1 && post.entries@[k].name@ == u);
                assert(k != n);
                assert(post.entries@[k] == pre.entries@[k]);
                assert(pre.has_topic(u));
            }
            if pre.has_topic(u) {
                let j = pre.index_of(u);
                assert(post.entries@[j] == pre.entries@[j]);
                assert(post.has_topic(u));
            }
        }
    }
}

} // verus!
