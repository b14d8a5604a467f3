//! Bounded ring of the most recently submitted command lines.
//!
//! Insertion order is submission order; once the fixed capacity is reached
//! the oldest entry is evicted to make room for the newest.

use vstd::prelude::*;

verus! {

/// How many command lines the ring retains.
pub const HISTORY_CAPACITY: usize = 5;

/// What one submission does to the ring's contents: append at the end,
/// evicting the oldest entry once the ring is full.
pub open spec fn ring_push(s: Seq<Seq<char>>, x: Seq<char>) -> Seq<Seq<char>> {
    if s.len() < HISTORY_CAPACITY {
        s.push(x)
    } else {
        s.push(x).drop_first()
    }
}

/// A push never leaves more than the capacity behind.
pub proof fn lemma_ring_push_bounded(s: Seq<Seq<char>>, x: Seq<char>)
    requires
        s.len() <= HISTORY_CAPACITY,
    ensures
        ring_push(s, x).len() <= HISTORY_CAPACITY,
{
}

/// Submitting seven lines in order leaves exactly the last five, in order:
/// the two oldest are the ones evicted.
pub proof fn lemma_ring_keeps_last_five(
    c1: Seq<char>,
    c2: Seq<char>,
    c3: Seq<char>,
    c4: Seq<char>,
    c5: Seq<char>,
    c6: Seq<char>,
    c7: Seq<char>,
)
    ensures
        ring_push(
            ring_push(
                ring_push(
                    ring_push(
                        ring_push(
                            ring_push(ring_push(Seq::<Seq<char>>::empty(), c1), c2),
                            c3,
                        ),
                        c4,
                    ),
                    c5,
                ),
                c6,
            ),
            c7,
        ) =~= seq![c3, c4, c5, c6, c7],
{
}

/// The bounded command history.
pub struct HistoryRing {
    items: Vec<String>,
}

impl View for HistoryRing {
    type V = Seq<Seq<char>>;

    closed spec fn view(&self) -> Seq<Seq<char>> {
        Seq::new(self.items@.len(), |i: int| self.items@[i]@)
    }
}

impl HistoryRing {
    /// The ring never holds more than its capacity.
    pub open spec fn wf(&self) -> bool {
        self@.len() <= HISTORY_CAPACITY
    }

    /// A fresh, empty ring.
    pub fn new() -> (h: HistoryRing)
        ensures
            h@ =~= Seq::<Seq<char>>::empty(),
            h.wf(),
    {
        HistoryRing { items: Vec::new() }
    }

    /// How many lines are retained.
    pub fn len(&self) -> (n: usize)
        ensures
            n == self@.len(),
    {
        self.items.len()
    }

    /// The line at a position, oldest first.
    pub fn get(&self, i: usize) -> (line: &String)
        requires
            i < self@.len(),
        ensures
            line@ == self@[i as int],
    {
        &self.items[i]
    }

    /// Record one submitted line, evicting the oldest once full.
    pub fn push(&mut self, line: String)
        requires
            old(self).wf(),
        ensures
            final(self)@ =~= ring_push(old(self)@, line@),
            final(self).wf(),
    {
        self.items.push(line);
        if self.items.len() > HISTORY_CAPACITY {
            self.items.remove(0);
            proof {
                assert(self@ =~= old(self)@.push(line@).drop_first());
            }
        } else {
            proof {
                assert(self@ =~= old(self)@.push(line@));
            }
        }
    }

    /// The most recent lines, newest first, at most three of them: the slice
    /// of history shown to the assistant.
    pub fn recent3(&self) -> (r: Vec<String>)
        ensures
            r@.len() == if self@.len() < 3 {
                self@.len()
            } else {
                3
            },
            forall|i: int|
                0 <= i < r@.len() ==> r@[i]@ == self@[self@.len() - 1 - i],
    {
        let mut r: Vec<String> = Vec::new();
        let mut i: usize = self.items.len();
        while i > 0 && r.len() < 3
            invariant
                i <= self.items@.len(),
                r@.len() == self.items@.len() - i,
                r@.len() <= 3,
                forall|j: int|
                    0 <= j < r@.len() ==> r@[j]@ == self@[self@.len() - 1 - j],
            decreases i,
        {
            i = i - 1;
            r.push(self.items[i].clone());
        }
        r
    }
}

} // verus!
