//! The broadcast hub: multicast channels that deliver each published
//! snapshot to every live subscriber without blocking the publisher.
//!
//! Each subscription owns a bounded queue. Publishing appends the new value
//! to every queue, dropping the oldest queued value from a queue that is
//! full, so a slow subscriber loses old samples rather than stalling anyone.
//! Publishing to a channel with no subscribers is a successful no-op.
//!
//! The ghost history of a channel records every value ever published. Each
//! subscription carries ghost bookkeeping — the values already handed out,
//! and the positions in the history of everything it has seen or has queued
//! — which ties down the delivery contract: what a subscriber observes is a
//! subsequence of the values published since it subscribed, in publish
//! order, without duplication or reordering.

use vstd::prelude::*;

use crate::snapshot::{Snapshot, SnapshotView};

verus! {

/// `pos` exhibits `a` as a selection of `b`'s elements: strictly increasing
/// positions into `b`, one per element of `a`, matching values.
pub open spec fn is_increasing_map(pos: Seq<int>, a: Seq<SnapshotView>, b: Seq<SnapshotView>) -> bool {
    &&& pos.len() == a.len()
    &&& forall|k: int|
        0 <= k < pos.len() ==> 0 <= #[trigger] pos[k] < b.len() && b[pos[k]] == a[k]
    &&& forall|k: int| 0 <= k < pos.len() - 1 ==> #[trigger] pos[k] < pos[k + 1]
}

/// `a` picks out some of `b`'s elements: in order, each publish event used
/// at most once — no reordering, no duplication.
pub open spec fn is_subsequence_of(a: Seq<SnapshotView>, b: Seq<SnapshotView>) -> bool {
    exists|pos: Seq<int>| is_increasing_map(pos, a, b)
}

/// One live subscription on a channel.
pub struct Subscription {
    /// Identifier handed out by `subscribe`.
    pub id: u64,
    /// Published values this subscriber has not taken yet, oldest first.
    pub pending: Vec<Snapshot>,
    /// Every value already handed to this subscriber, in order.
    pub delivered: Ghost<Seq<SnapshotView>>,
    /// Length of the channel history when this subscription was created.
    pub joined: Ghost<int>,
    /// Positions in the channel history of `delivered + pending`.
    pub positions: Ghost<Seq<int>>,
}

impl Subscription {
    /// The queued values, as mathematical values.
    pub open spec fn pending_views(self) -> Seq<SnapshotView> {
        self.pending@.map_values(|s: Snapshot| s@)
    }

    /// Everything this subscriber will have seen once its queue drains:
    /// delivered values followed by queued ones, oldest first.
    pub open spec fn observed(self) -> Seq<SnapshotView> {
        self.delivered@ + self.pending_views()
    }

    /// Invariant, relative to the owning channel's history and queue bound:
    /// the queue respects the bound, and the ghost positions exhibit
    /// everything observed as an in-order selection of the values published
    /// since this subscription was created.
    pub open spec fn wf(self, history: Seq<SnapshotView>, capacity: int) -> bool {
        &&& self.pending@.len() <= capacity
        &&& 0 <= self.joined@ <= history.len()
        &&& is_increasing_map(self.positions@, self.observed(), history)
        &&& forall|k: int|
            0 <= k < self.positions@.len() ==> #[trigger] self.positions@[k] >= self.joined@
    }
}

/// How one subscriber's queue changes when `v` is published: `v` is
/// appended, and if the queue is already at the bound the oldest queued
/// value is dropped to make room.
pub open spec fn pushed_pending(pending: Seq<SnapshotView>, v: SnapshotView, capacity: int) -> Seq<
    SnapshotView,
> {
    if pending.len() >= capacity {
        pending.subrange(1, pending.len() as int).push(v)
    } else {
        pending.push(v)
    }
}

/// The published value went into this subscriber's queue (dropping the
/// oldest queued value where full); identity, subscription point and
/// already-delivered values are untouched.
pub open spec fn sub_after_publish(
    pre: Subscription,
    post: Subscription,
    v: SnapshotView,
    capacity: int,
) -> bool {
    &&& post.id == pre.id
    &&& post.joined == pre.joined
    &&& post.delivered == pre.delivered
    &&& post.pending_views() == pushed_pending(pre.pending_views(), v, capacity)
}

/// One multicast channel: a registry of live subscriptions and the ghost
/// record of everything published on it.
pub struct Channel {
    /// The live subscriptions.
    pub subs: Vec<Subscription>,
    /// Next fresh subscription id.
    pub next_id: u64,
    /// Bound on every subscription's queue; at least one.
    pub capacity: usize,
    /// Every value ever published on this channel, in order.
    pub history: Ghost<Seq<SnapshotView>>,
}

impl Channel {
    /// Invariant: the queue bound is positive, every subscription is
    /// well-formed against the history, and ids are unique and below the
    /// next fresh one.
    pub open spec fn wf(self) -> bool {
        &&& self.capacity >= 1
        &&& forall|i: int|
            0 <= i < self.subs@.len() ==> (#[trigger] self.subs@[i]).wf(
                self.history@,
                self.capacity as int,
            )
        &&& forall|i: int| 0 <= i < self.subs@.len() ==> (#[trigger] self.subs@[i]).id < self.next_id
        &&& forall|i: int, j: int|
            0 <= i < j < self.subs@.len() ==> self.subs@[i].id != self.subs@[j].id
    }

    /// Whether some live subscription carries `id`.
    pub open spec fn has_sub(self, id: u64) -> bool {
        exists|i: int| 0 <= i < self.subs@.len() && self.subs@[i].id == id
    }

    /// The index of the live subscription carrying `id`.
    pub open spec fn idx_of(self, id: u64) -> int {
        choose|i: int| 0 <= i < self.subs@.len() && self.subs@[i].id == id
    }

    /// The live subscription carrying `id`.
    pub open spec fn sub_of(self, id: u64) -> Subscription {
        self.subs@[self.idx_of(id)]
    }

    /// The values published since the subscription carrying `id` was
    /// created.
    pub open spec fn history_since_joined(self, id: u64) -> Seq<SnapshotView> {
        self.history@.subrange(self.sub_of(id).joined@, self.history@.len() as int)
    }

    /// A fresh channel with no subscribers and an empty history.
    pub fn new(capacity: usize) -> (c: Channel)
        requires
            capacity >= 1,
        ensures
            c.wf(),
            c.history@ == Seq::<SnapshotView>::empty(),
            c.subs@.len() == 0,
            c.capacity == capacity,
            c.next_id == 0,
    {
        Channel { subs: Vec::new(), next_id: 0, capacity, history: Ghost(Seq::empty()) }
    }
}

/// What `publish` does to a channel: the value is appended to the history
/// and to every subscriber's queue; the registry itself — ids, subscription
/// points, delivered values, bound — is untouched.
pub open spec fn publish_effect(pre: Channel, post: Channel, v: SnapshotView) -> bool {
    &&& post.history@ == pre.history@.push(v)
    &&& post.capacity == pre.capacity
    &&& post.next_id == pre.next_id
    &&& post.subs@.len() == pre.subs@.len()
    &&& forall|i: int|
        0 <= i < pre.subs@.len() ==> sub_after_publish(
            pre.subs@[i],
            #[trigger] post.subs@[i],
            v,
            pre.capacity as int,
        )
}

/// What a successful `receive` does: the oldest queued value of the
/// subscription carrying `id` moves to its delivered record; nothing else —
/// not the history, not any other subscription — changes.
pub open spec fn receive_effect(pre: Channel, post: Channel, id: u64, s: Snapshot) -> bool {
    &&& pre.has_sub(id)
    &&& post.history == pre.history
    &&& post.capacity == pre.capacity
    &&& post.next_id == pre.next_id
    &&& post.subs@.len() == pre.subs@.len()
    &&& {
        let i = pre.idx_of(id);
        &&& pre.subs@[i].pending@.len() > 0
        &&& s == pre.subs@[i].pending@[0]
        &&& post.subs@[i].id == id
        &&& post.subs@[i].joined == pre.subs@[i].joined
        &&& post.subs@[i].delivered@ == pre.subs@[i].delivered@.push(s@)
        &&& post.subs@[i].pending@ == pre.subs@[i].pending@.subrange(
            1,
            pre.subs@[i].pending@.len() as int,
        )
        &&& forall|j: int|
            0 <= j < pre.subs@.len() && j != i ==> #[trigger] post.subs@[j] == pre.subs@[j]
    }
}

impl Subscription {
    /// Appends the published value to this subscription's queue, dropping
    /// the oldest queued value if the queue is at the bound.
    fn push_snapshot(&mut self, s: &Snapshot, capacity: usize, Ghost(history): Ghost<
        Seq<SnapshotView>,
    >)
        requires
            old(self).wf(history, capacity as int),
            capacity >= 1,
        ensures
            final(self).wf(history.push(s@), capacity as int),
            sub_after_publish(*old(self), *final(self), s@, capacity as int),
    {
        let ghost pre = *old(self);
        if self.pending.len() >= capacity {
            let ghost d = self.delivered@.len() as int;
            let _dropped = self.pending.remove(0);
            proof {
                self.positions@ = pre.positions@.remove(d);
                assert(self.pending_views() =~= pre.pending_views().remove(0));
                assert(self.observed() =~= pre.observed().remove(d));
                assert forall|k: int| 0 <= k < self.positions@.len() implies {
                    &&& 0 <= #[trigger] self.positions@[k] < history.len()
                    &&& history[self.positions@[k]] == self.observed()[k]
                    &&& self.positions@[k] >= self.joined@
                } by {
                    if k < d {
                        assert(self.positions@[k] == pre.positions@[k]);
                        assert(self.observed()[k] == pre.observed()[k]);
                    } else {
                        assert(self.positions@[k] == pre.positions@[k + 1]);
                        assert(self.observed()[k] == pre.observed()[k + 1]);
                    }
                }
                assert forall|k: int|
                    0 <= k < self.positions@.len() - 1 implies #[trigger] self.positions@[k]
                    < self.positions@[k + 1] by {
                    if k < d - 1 {
                        assert(pre.positions@[k] < pre.positions@[k + 1]);
                    } else if k == d - 1 {
                        assert(pre.positions@[d - 1] < pre.positions@[d]);
                        assert(pre.positions@[d] < pre.positions@[d + 1]);
                    } else {
                        assert(pre.positions@[k + 1] < pre.positions@[k + 2]);
                    }
                }
            }
        }
        let ghost mid = *self;
        self.pending.push(s.clone());
        proof {
            self.positions@ = mid.positions@.push(history.len() as int);
            assert(self.pending_views() =~= mid.pending_views().push(s@));
            assert(self.observed() =~= mid.observed().push(s@));
            let post_history = history.push(s@);
            assert forall|k: int| 0 <= k < self.positions@.len() implies {
                &&& 0 <= #[trigger] self.positions@[k] < post_history.len()
                &&& post_history[self.positions@[k]] == self.observed()[k]
                &&& self.positions@[k] >= self.joined@
            } by {
                if k < mid.positions@.len() {
                    assert(self.positions@[k] == mid.positions@[k]);
                    assert(mid.positions@[k] < history.len());
                    assert(post_history[mid.positions@[k]] == history[mid.positions@[k]]);
                } else {
                    assert(self.positions@[k] == history.len());
                }
            }
            assert(self.pending_views() =~= pushed_pending(
                pre.pending_views(),
                s@,
                capacity as int,
            ));
        }
    }
}

impl Channel {
    /// Registers a new subscriber and returns its id. The new subscription
    /// starts with an empty queue and observes only values published from
    /// now on.
    ///
    /// Ids are handed out in order and never reused; the id space is 64-bit,
    /// so the caller only has to ensure it is not exhausted.
    pub fn subscribe(&mut self) -> (id: u64)
        requires
            old(self).wf(),
            old(self).next_id < u64::MAX,
        ensures
            final(self).wf(),
            id == old(self).next_id,
            final(self).history == old(self).history,
            final(self).capacity == old(self).capacity,
            final(self).next_id == old(self).next_id + 1,
            final(self).subs@.len() == old(self).subs@.len() + 1,
            forall|j: int|
                0 <= j < old(self).subs@.len() ==> #[trigger] final(self).subs@[j] == old(
                    self,
                ).subs@[j],
            final(self).subs@.last().id == id,
            final(self).subs@.last().pending@.len() == 0,
            final(self).subs@.last().delivered@ == Seq::<SnapshotView>::empty(),
            final(self).subs@.last().joined@ == old(self).history@.len() as int,
            final(self).has_sub(id),
    {
        let id = self.next_id;
        self.next_id = self.next_id + 1;
        let entry = Subscription {
            id,
            pending: Vec::new(),
            delivered: Ghost(Seq::empty()),
            joined: Ghost(self.history@.len() as int),
            positions: Ghost(Seq::empty()),
        };
        self.subs.push(entry);
        proof {
            let last = self.subs@.len() - 1;
            assert(self.subs@[last].observed() =~= Seq::<SnapshotView>::empty());
            assert(self.subs@[last] == self.subs@.last());
        }
        id
    }

    /// Removes the subscription carrying `id`, if it is live; no further
    /// published value will be queued for it.
    pub fn unsubscribe(&mut self, id: u64)
        requires
            old(self).wf(),
        ensures
            final(self).wf(),
            final(self).history == old(self).history,
            final(self).capacity == old(self).capacity,
            final(self).next_id == old(self).next_id,
            !final(self).has_sub(id),
            final(self).subs@ == if old(self).has_sub(id) {
                old(self).subs@.remove(old(self).idx_of(id))
            } else {
                old(self).subs@
            },
    {
        let n = self.subs.len();
        let mut i: usize = 0;
        while i < n
            invariant
                *self == *old(self),
                old(self).wf(),
                n == self.subs@.len(),
                0 <= i <= n,
                forall|j: int| 0 <= j < i ==> (#[trigger] self.subs@[j]).id != id,
            decreases n - i,
        {
            if self.subs[i].id == id {
                proof {
                    assert(old(self).has_sub(id));
                    let c = old(self).idx_of(id);
                    assert(0 <= c < old(self).subs@.len() && old(self).subs@[c].id == id);
                    assert(c == i);
                }
                let _removed = self.subs.remove(i);
                proof {
                    assert forall|j: int| 0 <= j < self.subs@.len() implies !((
                    #[trigger] self.subs@[j]).id == id) by {
                        if j < i {
                            assert(self.subs@[j] == old(self).subs@[j]);
                        } else {
                            assert(self.subs@[j] == old(self).subs@[j + 1]);
                        }
                    }
                }
                return ;
            }
            i = i + 1;
        }
        proof {
            assert(!old(self).has_sub(id));
        }
    }

    /// Publishes one snapshot: it is appended to the history and queued for
    /// every live subscriber, dropping a full queue's oldest value. With no
    /// subscribers this is a successful no-op on the registry.
    pub fn publish(&mut self, s: &Snapshot)
        requires
            old(self).wf(),
        ensures
            final(self).wf(),
            publish_effect(*old(self), *final(self), s@),
    {
        let ghost hist0 = self.history@;
        proof {
            self.history@ = hist0.push(s@);
        }
        let capacity = self.capacity;
        let n = self.subs.len();
        let mut i: usize = 0;
        while i < n
            invariant
                n == self.subs@.len(),
                n == old(self).subs@.len(),
                0 <= i <= n,
                capacity == self.capacity,
                self.capacity == old(self).capacity,
                self.next_id == old(self).next_id,
                self.history@ == hist0.push(s@),
                hist0 == old(self).history@,
                old(self).wf(),
                forall|j: int| i <= j < n ==> #[trigger] self.subs@[j] == old(self).subs@[j],
                forall|j: int|
                    0 <= j < i ==> sub_after_publish(
                        old(self).subs@[j],
                        #[trigger] self.subs@[j],
                        s@,
                        capacity as int,
                    ),
                forall|j: int|
                    0 <= j < i ==> (#[trigger] self.subs@[j]).wf(
                        hist0.push(s@),
                        capacity as int,
                    ),
            decreases n - i,
        {
            let entry = &mut self.subs[i];
            proof {
                assert(*entry == old(self).subs@[i as int]);
            }
            entry.push_snapshot(s, capacity, Ghost(hist0));
            i = i + 1;
        }
        proof {
            assert forall|j: int| 0 <= j < self.subs@.len() implies (
            #[trigger] self.subs@[j]).wf(self.history@, self.capacity as int) by {}
        }
    }

    /// Hands the subscription carrying `id` its oldest queued snapshot, or
    /// `None` when nothing is queued or no such subscription is live.
    #[verifier::rlimit(50)]
    pub fn receive(&mut self, id: u64) -> (r: Option<Snapshot>)
        requires
            old(self).wf(),
        ensures
            final(self).wf(),
            match r {
                Some(s) => receive_effect(*old(self), *final(self), id, s),
                None => *final(self) == *old(self) && (!old(self).has_sub(id) || old(self).sub_of(
                    id,
                ).pending@.len() == 0),
            },
    {
        let n = self.subs.len();
        let mut i: usize = 0;
        while i < n
            invariant
                *self == *old(self),
                old(self).wf(),
                n == self.subs@.len(),
                0 <= i <= n,
                forall|j: int| 0 <= j < i ==> (#[trigger] self.subs@[j]).id != id,
            decreases n - i,
        {
            if self.subs[i].id == id {
                proof {
                    assert(old(self).has_sub(id));
                    let c = old(self).idx_of(id);
                    assert(0 <= c < old(self).subs@.len() && old(self).subs@[c].id == id);
                    assert(c == i);
                }
                if self.subs[i].pending.len() == 0 {
                    return None;
                }
                let ghost pre_sub = self.subs@[i as int];
                let entry = &mut self.subs[i];
                let s = entry.pending.remove(0);
                proof {
                    entry.delivered@ = pre_sub.delivered@.push(s@);
                    assert(entry.observed() =~= pre_sub.observed());
                }
                proof {
                    let post_sub = self.subs@[i as int];
                    assert(post_sub.pending@ =~= pre_sub.pending@.subrange(
                        1,
                        pre_sub.pending@.len() as int,
                    ));
                    assert(post_sub.wf(self.history@, self.capacity as int)) by {
                        assert(post_sub.observed() == pre_sub.observed());
                        assert(post_sub.positions == pre_sub.positions);
                    }
                    assert forall|j: int| 0 <= j < self.subs@.len() && j != i implies (
                    #[trigger] self.subs@[j]) == old(self).subs@[j] by {}
                }
                return Some(s);
            }
            i = i + 1;
        }
        None
    }
}

/// The two independent multicast channels the sampler publishes on: host
/// load on one, thermal and fan state on the other.
pub struct Hub {
    pub ressource: Channel,
    pub temperature: Channel,
}

impl Hub {
    /// Invariant: both channels are well-formed.
    pub open spec fn wf(self) -> bool {
        self.ressource.wf() && self.temperature.wf()
    }

    /// A fresh hub: two empty channels with the same queue bound.
    pub fn new(capacity: usize) -> (h: Hub)
        requires
            capacity >= 1,
        ensures
            h.wf(),
            h.ressource.history@ == Seq::<SnapshotView>::empty(),
            h.temperature.history@ == Seq::<SnapshotView>::empty(),
            h.ressource.subs@.len() == 0,
            h.temperature.subs@.len() == 0,
            h.ressource.capacity == capacity,
            h.temperature.capacity == capacity,
    {
        Hub { ressource: Channel::new(capacity), temperature: Channel::new(capacity) }
    }
}

/// Law: what a subscriber has received, followed by what is queued for it,
/// is a subsequence of the values published since it subscribed — same
/// relative order, no duplication; a subscriber never observes anything
/// published before it subscribed.
#[verifier::rlimit(50)]
pub proof fn lemma_observed_is_subsequence(ch: Channel, id: u64)
    requires
        ch.wf(),
        ch.has_sub(id),
    ensures
        is_subsequence_of(ch.sub_of(id).observed(), ch.history_since_joined(id)),
{
    let i = ch.idx_of(id);
    assert(0 <= i < ch.subs@.len() && ch.subs@[i].id == id);
    let sub = ch.sub_of(id);
    let since = ch.history_since_joined(id);
    let rel = sub.positions@.map_values(|p: int| p - sub.joined@);
    assert forall|k: int| 0 <= k < rel.len() implies {
        &&& 0 <= #[trigger] rel[k] < since.len()
        &&& since[rel[k]] == sub.observed()[k]
    } by {
        assert(rel[k] == sub.positions@[k] - sub.joined@);
        assert(since[rel[k]] == ch.history@[sub.positions@[k]]);
    }
    assert forall|k: int| 0 <= k < rel.len() - 1 implies #[trigger] rel[k] < rel[k + 1] by {
        assert(sub.positions@[k] < sub.positions@[k + 1]);
    }
    assert(is_increasing_map(rel, sub.observed(), since));
}

} // verus!
