//! Pieces of jigsaw structure assembly that do not depend on templates: the
//! configuration of a surface jigsaw structure and the queue that decides which
//! placed piece expands next.

use vstd::prelude::*;

verus! {

/// How a surface jigsaw structure is assembled.
#[derive(Clone, Copy, Debug)]
pub struct SurfaceJigsawConfig<'a> {
    pub start_pool: &'a str,
    pub size: i32,
    pub start_y: i32,
    pub project_start_to_heightmap: bool,
    pub max_distance_from_center: i32,
    pub use_expansion_hack: bool,
}

/// Pieces waiting to expand, with their priorities. The piece of highest
/// priority comes out first; among equal priorities, the one added first.
///
/// The pieces are held in one vector in the order they were added, and `pop`
/// takes the earliest entry of highest priority (`first_out`). A sorted map
/// of per-priority queues would give the same order, but its entry API
/// (`last_entry`, `entry`) has no specification to prove `pop` against, so
/// the order is stated and proved over the vector instead.
pub struct PriorityQueue {
    items: Vec<(i32, usize)>,
}

/// The position of the element that comes out first: the earliest one of
/// highest priority.
pub open spec fn first_out(items: Seq<(i32, usize)>) -> int
    decreases items.len(),
{
    if items.len() <= 1 {
        0
    } else {
        let best = first_out(items.drop_last());
        if items.last().0 > items[best].0 {
            items.len() - 1
        } else {
            best
        }
    }
}

/// The element that comes out first has the highest priority, and every
/// element before it has a lower one.
pub proof fn lemma_first_out(items: Seq<(i32, usize)>)
    requires
        items.len() > 0,
    ensures
        0 <= first_out(items) < items.len(),
        forall|j: int| 0 <= j < items.len() ==> (#[trigger] items[j]).0 <= items[first_out(items)].0,
        forall|j: int| 0 <= j < first_out(items) ==> (#[trigger] items[j]).0 < items[first_out(items)].0,
    decreases items.len(),
{
    if items.len() > 1 {
        let rest = items.drop_last();
        lemma_first_out(rest);
        assert forall|j: int| 0 <= j < rest.len() implies rest[j] == items[j] by {}
    }
}

impl PriorityQueue {
    /// The waiting pieces, as `(priority, piece)` in the order they were added.
    pub closed spec fn view(&self) -> Seq<(i32, usize)> {
        self.items@
    }

    /// An empty queue.
    pub fn new() -> (queue: Self)
        ensures
            queue@ == Seq::<(i32, usize)>::empty(),
    {
        PriorityQueue { items: Vec::new() }
    }

    /// Adds a piece with its priority.
    pub fn add(&mut self, priority: i32, piece_idx: usize)
        ensures
            final(self)@ == old(self)@.push((priority, piece_idx)),
    {
        self.items.push((priority, piece_idx));
    }

    /// Takes out the earliest piece of highest priority, if any.
    pub fn pop(&mut self) -> (piece: Option<usize>)
        ensures
            old(self)@.len() == 0 ==> piece is None && final(self)@ == old(self)@,
            old(self)@.len() > 0 ==> {
                let i = first_out(old(self)@);
                &&& piece == Some(old(self)@[i].1)
                &&& final(self)@ == old(self)@.remove(i)
                &&& forall|j: int|
                    0 <= j < old(self)@.len() ==> (#[trigger] old(self)@[j]).0 <= old(self)@[i].0
                &&& forall|j: int| 0 <= j < i ==> (#[trigger] old(self)@[j]).0 < old(self)@[i].0
            },
    {
        if self.items.len() == 0 {
            return None;
        }
        proof {
            lemma_first_out(self.items@);
        }
        let mut best: usize = 0;
        let mut k: usize = 1;
        while k < self.items.len()
            invariant
                1 <= k <= self.items@.len(),
                best < k,
                best == first_out(self.items@.take(k as int)),
            decreases self.items.len() - k,
        {
            proof {
                let s = self.items@.take(k + 1);
                assert(s.drop_last() =~= self.items@.take(k as int));
                assert(s.last() == self.items@[k as int]);
                assert(s[best as int] == self.items@[best as int]);
            }
            if self.items[k].0 > self.items[best].0 {
                best = k;
            }
            k = k + 1;
        }
        proof {
            assert(self.items@.take(k as int) =~= self.items@);
        }
        let (_, piece) = self.items.remove(best);
        Some(piece)
    }

    /// Whether no piece is waiting.
    pub fn is_empty(&self) -> (empty: bool)
        ensures
            empty == (self@.len() == 0),
    {
        self.items.len() == 0
    }
}

} // verus!
