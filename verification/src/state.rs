//! The bot's own mutable state: the subscriber list and the time of the
//! last save.

use vstd::prelude::*;

verus! {

/// A contact on the messaging network.  The handle is assigned and owned
/// by the external messaging layer; the bot only receives and stores it.
pub type PeerId = u32;

/// The bot's state.  `subscribers` is kept free of duplicates, in
/// insertion order, so every broadcast pass treats the peers fairly;
/// `last_save` is the timestamp (seconds) of the most recent persistence
/// cycle and never decreases.
pub struct BotState {
    pub subscribers: Vec<PeerId>,
    pub last_save: i64,
}

/// The subscriber list after a `"start"` command from `peer`: appended if
/// absent, unchanged otherwise.
pub open spec fn spec_subscribe(subs: Seq<PeerId>, peer: PeerId) -> Seq<PeerId> {
    if subs.contains(peer) {
        subs
    } else {
        subs.push(peer)
    }
}

/// The predicate that keeps a list entry through a `"stop"` command from
/// `peer`: everything but `peer` itself.
pub open spec fn keeps(peer: PeerId) -> spec_fn(PeerId) -> bool {
    |q: PeerId| q != peer
}

/// The predicate that an entry is `peer` itself.
pub open spec fn is_peer(peer: PeerId) -> spec_fn(PeerId) -> bool {
    |q: PeerId| q == peer
}

/// The subscriber list after a `"stop"` command from `peer`: every
/// occurrence of `peer` removed, the rest kept in order.
pub open spec fn spec_unsubscribe(subs: Seq<PeerId>, peer: PeerId) -> Seq<PeerId> {
    subs.filter(keeps(peer))
}

/// How many entries of the subscriber list are `peer`.
pub open spec fn count_of(subs: Seq<PeerId>, peer: PeerId) -> nat {
    subs.filter(is_peer(peer)).len()
}

impl BotState {
    /// Well-formedness: no peer appears in the subscriber list twice.
    pub open spec fn wf(self) -> bool {
        self.subscribers@.no_duplicates()
    }

    /// A fresh state: no subscribers, the save clock starting at `now`.
    pub fn new(now: i64) -> (s: Self)
        ensures
            s.wf(),
            s.subscribers@ == Seq::<PeerId>::empty(),
            s.last_save == now,
    {
        BotState { subscribers: Vec::new(), last_save: now }
    }

    /// Whether `peer` is currently on the subscriber list.
    pub fn is_subscribed(&self, peer: PeerId) -> (r: bool)
        ensures
            r == self.subscribers@.contains(peer),
    {
        let mut i: usize = 0;
        while i < self.subscribers.len()
            invariant
                i <= self.subscribers@.len(),
                forall|j: int| 0 <= j < i ==> self.subscribers@[j] != peer,
            decreases self.subscribers@.len() - i,
        {
            if self.subscribers[i] == peer {
                assert(self.subscribers@.contains(peer)) by {
                    assert(self.subscribers@[i as int] == peer);
                }
                return true;
            }
            i = i + 1;
        }
        false
    }

    /// Handle `"stop"`: remove every occurrence of `peer`, keeping the
    /// other subscribers in order.  Removal is defensive against
    /// duplicates even though the invariant rules them out.
    pub fn unsubscribe(&mut self, peer: PeerId)
        ensures
            old(self).wf() ==> final(self).wf(),
            final(self).last_save == old(self).last_save,
            final(self).subscribers@ == spec_unsubscribe(old(self).subscribers@, peer),
    {
        let mut kept: Vec<PeerId> = Vec::new();
        let mut i: usize = 0;
        while i < self.subscribers.len()
            invariant
                *self == *old(self),
                i <= self.subscribers@.len(),
                kept@ == self.subscribers@.take(i as int).filter(keeps(peer)),
            decreases self.subscribers@.len() - i,
        {
            let q = self.subscribers[i];
            proof {
                let s = self.subscribers@;
                assert(s.take(i + 1) =~= s.take(i as int).push(s[i as int]));
                s.take(i as int).lemma_filter_push(s[i as int], keeps(peer));
            }
            if q != peer {
                kept.push(q);
            }
            i = i + 1;
        }
        proof {
            assert(self.subscribers@.take(self.subscribers@.len() as int)
                =~= self.subscribers@);
            if old(self).wf() {
                lemma_filter_keeps_no_duplicates(self.subscribers@, keeps(peer));
            }
        }
        self.subscribers = kept;
    }

    /// Handle `"start"`: append `peer` unless it is already subscribed.
    pub fn subscribe(&mut self, peer: PeerId)
        ensures
            old(self).wf() ==> final(self).wf(),
            final(self).last_save == old(self).last_save,
            final(self).subscribers@ == spec_subscribe(old(self).subscribers@, peer),
    {
        if !self.is_subscribed(peer) {
            self.subscribers.push(peer);
        }
    }
}

/// Every element of a filtered sequence is an element of the source.
proof fn lemma_filter_elem(subs: Seq<PeerId>, p: spec_fn(PeerId) -> bool, x: PeerId)
    requires
        subs.filter(p).contains(x),
    ensures
        subs.contains(x),
    decreases subs.len(),
{
    reveal(Seq::filter);
    let out = subs.filter(p);
    if subs.len() == 0 {
        assert(false);
    } else {
        let d = subs.drop_last();
        let last = subs.last();
        if p(last) {
            if x == last {
                assert(subs[subs.len() - 1] == x);
            } else {
                let i = choose|i: int| 0 <= i < out.len() && out[i] == x;
                assert(d.filter(p)[i] == x);
                assert(d.filter(p).contains(x));
                lemma_filter_elem(d, p, x);
                let j = choose|j: int| 0 <= j < d.len() && d[j] == x;
                assert(subs[j] == x);
            }
        } else {
            lemma_filter_elem(d, p, x);
            let j = choose|j: int| 0 <= j < d.len() && d[j] == x;
            assert(subs[j] == x);
        }
    }
}

/// Filtering keeps the subscriber list free of duplicates.
proof fn lemma_filter_keeps_no_duplicates(subs: Seq<PeerId>, p: spec_fn(PeerId) -> bool)
    requires
        subs.no_duplicates(),
    ensures
        subs.filter(p).no_duplicates(),
    decreases subs.len(),
{
    reveal(Seq::filter);
    if subs.len() > 0 {
        let d = subs.drop_last();
        let last = subs.last();
        lemma_filter_keeps_no_duplicates(d, p);
        if p(last) {
            if d.filter(p).contains(last) {
                lemma_filter_elem(d, p, last);
                let i = choose|i: int| 0 <= i < d.len() && d[i] == last;
                assert(subs[i] == subs[subs.len() - 1]);
                assert(false);
            }
        }
    }
}

/// A peer that is nowhere on the list is counted zero times.
proof fn lemma_count_absent(subs: Seq<PeerId>, peer: PeerId)
    requires
        !subs.contains(peer),
    ensures
        count_of(subs, peer) == 0,
    decreases subs.len(),
{
    reveal(Seq::filter);
    if subs.len() > 0 {
        let d = subs.drop_last();
        assert(!d.contains(peer)) by {
            if d.contains(peer) {
                let i = choose|i: int| 0 <= i < d.len() && d[i] == peer;
                assert(subs[i] == peer);
            }
        }
        lemma_count_absent(d, peer);
        assert(subs[subs.len() - 1] != peer);
    }
}

/// On a duplicate-free list that holds a peer, that peer is counted
/// exactly once.
proof fn lemma_count_present(subs: Seq<PeerId>, peer: PeerId)
    requires
        subs.no_duplicates(),
        subs.contains(peer),
    ensures
        count_of(subs, peer) == 1,
    decreases subs.len(),
{
    reveal(Seq::filter);
    let d = subs.drop_last();
    let last = subs.last();
    if last == peer {
        assert(!d.contains(peer)) by {
            if d.contains(peer) {
                let i = choose|i: int| 0 <= i < d.len() && d[i] == peer;
                assert(subs[i] == subs[subs.len() - 1]);
            }
        }
        lemma_count_absent(d, peer);
    } else {
        assert(d.contains(peer)) by {
            let i = choose|i: int| 0 <= i < subs.len() && subs[i] == peer;
            assert(i != subs.len() - 1);
            assert(d[i] == peer);
        }
        lemma_count_present(d, peer);
    }
}

/// However many `"start"` commands a peer sends, the subscriber list
/// holds that peer exactly once afterwards: one `"start"` puts it there
/// once, and every further `"start"` leaves the list unchanged.
pub proof fn lemma_start_exactly_once(subs: Seq<PeerId>, peer: PeerId)
    requires
        subs.no_duplicates(),
    ensures
        spec_subscribe(subs, peer).no_duplicates(),
        count_of(spec_subscribe(subs, peer), peer) == 1,
        spec_subscribe(spec_subscribe(subs, peer), peer) == spec_subscribe(subs, peer),
{
    let out = spec_subscribe(subs, peer);
    if subs.contains(peer) {
        lemma_count_present(subs, peer);
    } else {
        lemma_count_absent(subs, peer);
        subs.lemma_filter_push(peer, is_peer(peer));
        assert(out[out.len() - 1] == peer);
        assert(out.contains(peer));
        lemma_count_present(out, peer);
    }
}

/// A `"stop"` command removes every occurrence of the peer: afterwards
/// the list is free of it, whatever it held before.
pub proof fn lemma_stop_removes_all(subs: Seq<PeerId>, peer: PeerId)
    ensures
        !spec_unsubscribe(subs, peer).contains(peer),
        count_of(spec_unsubscribe(subs, peer), peer) == 0,
{
    let out = spec_unsubscribe(subs, peer);
    if out.contains(peer) {
        let i = choose|i: int| 0 <= i < out.len() && out[i] == peer;
        subs.lemma_filter_pred(keeps(peer), i);
        assert(false);
    }
    lemma_count_absent(out, peer);
}

} // verus!
