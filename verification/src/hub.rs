//! Broadcast hub model: publish/subscribe fan-out with no backlog replay.
//!
//! Every active subscriber holds its own pending queue. A publish appends the
//! message to every queue; a fresh subscription starts from the current
//! publish point with nothing pending; a departed subscriber is simply
//! removed and later publishes go on undisturbed.

use vstd::prelude::*;

verus! {

/// What a publish does: every subscriber's pending queue grows by the
/// message, and nobody else appears or disappears.
pub open spec fn hub_publish(
    subs: Seq<(u64, Seq<Seq<char>>)>,
    msg: Seq<char>,
) -> Seq<(u64, Seq<Seq<char>>)> {
    Seq::new(subs.len(), |i: int| (subs[i].0, subs[i].1.push(msg)))
}

/// What a subscription does: one more subscriber, with nothing pending.
pub open spec fn hub_subscribe(
    subs: Seq<(u64, Seq<Seq<char>>)>,
    id: u64,
) -> Seq<(u64, Seq<Seq<char>>)> {
    subs.push((id, Seq::empty()))
}

/// Some subscriber carries this id.
pub open spec fn has_sub(subs: Seq<(u64, Seq<Seq<char>>)>, id: u64) -> bool {
    exists|i: int| 0 <= i < subs.len() && subs[i].0 == id
}

/// The position of the subscriber with this id.
pub open spec fn idx_of(subs: Seq<(u64, Seq<Seq<char>>)>, id: u64) -> int {
    choose|i: int| 0 <= i < subs.len() && subs[i].0 == id
}

/// A subscriber that subscribes before a publish has that publish pending;
/// one that subscribes after it does not: there is no backlog replay.
pub proof fn lemma_publish_delivery(subs: Seq<(u64, Seq<Seq<char>>)>, id: u64, msg: Seq<char>)
    ensures
        hub_publish(hub_subscribe(subs, id), msg).last() == (id, seq![msg]),
        hub_subscribe(hub_publish(subs, msg), id).last() == (id, Seq::<Seq<char>>::empty()),
{
    assert(hub_subscribe(subs, id).last() == (id, Seq::<Seq<char>>::empty()));
    assert(hub_publish(hub_subscribe(subs, id), msg).last() == (
        id,
        Seq::<Seq<char>>::empty().push(msg),
    ));
    assert(Seq::<Seq<char>>::empty().push(msg) =~= seq![msg]);
}

/// Removing one subscriber leaves every other subscriber still receiving
/// later publishes, in full.
pub proof fn lemma_publish_after_departure(
    subs: Seq<(u64, Seq<Seq<char>>)>,
    at: int,
    msg: Seq<char>,
)
    requires
        0 <= at < subs.len(),
    ensures
        forall|i: int|
            0 <= i < subs.remove(at).len() ==> #[trigger] hub_publish(subs.remove(at), msg)[i]
                == (subs.remove(at)[i].0, subs.remove(at)[i].1.push(msg)),
{
}

/// The broadcast hub: the set of active subscribers and what each still has
/// pending.
pub struct Hub {
    next_id: u64,
    subs: Vec<(u64, Vec<String>)>,
}

impl View for Hub {
    type V = Seq<(u64, Seq<Seq<char>>)>;

    closed spec fn view(&self) -> Seq<(u64, Seq<Seq<char>>)> {
        Seq::new(
            self.subs@.len(),
            |i: int|
                (self.subs@[i].0, Seq::new(self.subs@[i].1@.len(), |m: int| self.subs@[i].1@[m]@)),
        )
    }
}

impl Hub {
    /// Ids are minted below the counter and never shared.
    pub closed spec fn wf(&self) -> bool {
        &&& (forall|i: int| 0 <= i < self.subs@.len() ==> #[trigger] self.subs@[i].0 < self.next_id)
        &&& (forall|i: int, j: int|
            0 <= i < self.subs@.len() && 0 <= j < self.subs@.len() && i != j
                ==> self.subs@[i].0 != self.subs@[j].0)
    }

    /// The id counter has room for another subscriber.
    pub closed spec fn can_subscribe(&self) -> bool {
        self.next_id < u64::MAX
    }

    /// A fresh hub with no subscribers.
    pub fn new() -> (h: Hub)
        ensures
            h@ =~= Seq::<(u64, Seq<Seq<char>>)>::empty(),
            h.wf(),
            h.can_subscribe(),
    {
        Hub { next_id: 0, subs: Vec::new() }
    }

    /// How many subscribers are active.
    pub fn sub_count(&self) -> (n: usize)
        ensures
            n == self@.len(),
    {
        self.subs.len()
    }

    /// Deliver one message to every active subscriber; with none, a no-op,
    /// never an error.
    pub fn publish(&mut self, msg: &String)
        requires
            old(self).wf(),
        ensures
            final(self)@ == hub_publish(old(self)@, msg@),
            final(self).wf(),
            final(self).can_subscribe() == old(self).can_subscribe(),
    {
        let n = self.subs.len();
        let mut i: usize = 0;
        while i < n
            invariant
                i <= n,
                n == self.subs@.len(),
                self.next_id == old(self).next_id,
                forall|p: int|
                    0 <= p < self.subs@.len() ==> #[trigger] self.subs@[p].0 == old(
                        self,
                    ).subs@[p].0,
                forall|p: int| i <= p < n ==> #[trigger] self.subs@[p].1 == old(self).subs@[p].1,
                forall|p: int|
                    0 <= p < i ==> #[trigger] self.subs@[p].1@ == old(self).subs@[p].1@.push(*msg),
            decreases n - i,
        {
            self.subs[i].1.push(msg.clone());
            i = i + 1;
        }
        proof {
            assert(self@ =~~= hub_publish(old(self)@, msg@));
        }
    }

    /// Add a fresh subscriber, seeded from the current publish point: no
    /// backlog is replayed. Fails only once the id space is spent.
    pub fn subscribe(&mut self) -> (r: Option<u64>)
        requires
            old(self).wf(),
        ensures
            final(self).wf(),
            (r is Some) <==> old(self).can_subscribe(),
            match r {
                Some(id) => final(self)@ == hub_subscribe(old(self)@, id) && !has_sub(
                    old(self)@,
                    id,
                ),
                None => final(self)@ == old(self)@,
            },
    {
        if self.next_id == u64::MAX {
            return None;
        }
        let id = self.next_id;
        self.next_id = self.next_id + 1;
        self.subs.push((id, Vec::new()));
        proof {
            assert(self@ =~~= hub_subscribe(old(self)@, id));
            assert forall|p: int| 0 <= p < old(self)@.len() implies old(self)@[p].0 != id by {
                assert(old(self).subs@[p].0 < id);
            }
            assert(!has_sub(old(self)@, id));
        }
        Some(id)
    }

    /// Take the oldest message still pending for this subscriber, if the
    /// subscriber exists and anything is pending.
    pub fn receive(&mut self, id: u64) -> (r: Option<String>)
        requires
            old(self).wf(),
        ensures
            final(self).wf(),
            final(self).can_subscribe() == old(self).can_subscribe(),
            !has_sub(old(self)@, id) ==> r is None && final(self)@ == old(self)@,
            has_sub(old(self)@, id) ==> {
                let at = idx_of(old(self)@, id);
                if old(self)@[at].1.len() == 0 {
                    r is None && final(self)@ == old(self)@
                } else {
                    match r {
                        Some(m) => {
                            &&& m@ == old(self)@[at].1.first()
                            &&& final(self)@ == old(self)@.update(
                                at,
                                (id, old(self)@[at].1.drop_first()),
                            )
                        },
                        None => false,
                    }
                }
            },
    {
        let n = self.subs.len();
        let mut i: usize = 0;
        while i < n
            invariant
                i <= n,
                n == self.subs@.len(),
                self == old(self),
                self.wf(),
                forall|p: int| 0 <= p < i ==> #[trigger] self.subs@[p].0 != id,
            decreases n - i,
        {
            if self.subs[i].0 == id {
                proof {
                    assert(self@[i as int].0 == id);
                    assert(has_sub(self@, id));
                    let at = idx_of(self@, id);
                    assert(0 <= at < self@.len() && self@[at].0 == id);
                    if at != i {
                        assert(self.subs@[at].0 == self.subs@[i as int].0);
                        assert(false);
                    }
                }
                if self.subs[i].1.len() == 0 {
                    return None;
                }
                let m = self.subs[i].1.remove(0);
                proof {
                    assert(self@ =~~= old(self)@.update(
                        i as int,
                        (id, old(self)@[i as int].1.drop_first()),
                    ));
                }
                return Some(m);
            }
            i = i + 1;
        }
        proof {
            assert forall|p: int| 0 <= p < self@.len() implies self@[p].0 != id by {
                assert(self.subs@[p].0 != id);
            }
            assert(!has_sub(self@, id));
        }
        None
    }

    /// Drop a departed subscriber; unknown ids are ignored.
    pub fn unsubscribe(&mut self, id: u64)
        requires
            old(self).wf(),
        ensures
            final(self).wf(),
            final(self).can_subscribe() == old(self).can_subscribe(),
            !has_sub(old(self)@, id) ==> final(self)@ == old(self)@,
            has_sub(old(self)@, id) ==> final(self)@ == old(self)@.remove(idx_of(old(self)@, id)),
    {
        let n = self.subs.len();
        let mut i: usize = 0;
        while i < n
            invariant
                i <= n,
                n == self.subs@.len(),
                self == old(self),
                self.wf(),
                forall|p: int| 0 <= p < i ==> #[trigger] self.subs@[p].0 != id,
            decreases n - i,
        {
            if self.subs[i].0 == id {
                proof {
                    assert(self@[i as int].0 == id);
                    assert(has_sub(self@, id));
                    let at = idx_of(self@, id);
                    assert(0 <= at < self@.len() && self@[at].0 == id);
                    if at != i {
                        assert(self.subs@[at].0 == self.subs@[i as int].0);
                        assert(false);
                    }
                }
                self.subs.remove(i);
                proof {
                    assert(self@ =~~= old(self)@.remove(i as int));
                }
                return ;
            }
            i = i + 1;
        }
        proof {
            assert forall|p: int| 0 <= p < self@.len() implies self@[p].0 != id by {
                assert(self.subs@[p].0 != id);
            }
            assert(!has_sub(self@, id));
        }
    }
}

} // verus!
