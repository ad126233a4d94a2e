//! The set of free cells of the board, kept as a dense array with an index
//! per cell, so that membership, insertion and removal take constant time and
//! a cell can be picked by its position in the array.

use vstd::prelude::*;
use crate::cell::{Cell, CELL_COUNT, grid, in_grid, on_board, same_cell, slot_of};

verus! {

/// A set of on-board cells.
#[derive(Debug)]
pub struct FreeCells {
    /// The members, each once, in no particular order.
    cells: Vec<Cell>,
    /// For each slot of the board, the position of that cell in `cells`
    /// when the cell is a member; any value otherwise.
    slots: Vec<usize>,
}

/// The array index of an on-board cell.
fn slot(c: Cell) -> (r: usize)
    requires
        in_grid(c),
    ensures
        r as int == slot_of(c),
        r < CELL_COUNT,
{
    (c.0 as usize) * 50 + (c.1 as usize)
}

impl FreeCells {
    pub closed spec fn wf(&self) -> bool {
        &&& self.slots@.len() == CELL_COUNT
        &&& forall|i: int|
            0 <= i < self.cells@.len() ==> {
                &&& in_grid(#[trigger] self.cells@[i])
                &&& self.slots@[slot_of(self.cells@[i])] == i
            }
    }

    pub closed spec fn view(&self) -> Set<Cell> {
        self.cells@.to_set()
    }

    /// The cell at position `k` modulo the number of members, in the
    /// array's current order; `None` when the set is empty.
    pub closed spec fn choice(&self, k: int) -> Option<Cell> {
        if self.cells@.len() == 0 {
            None
        } else {
            Some(self.cells@[k % (self.cells@.len() as int)])
        }
    }

    /// A choice is a member, and there is one unless the set is empty.
    pub proof fn lemma_choice(&self, k: int)
        requires
            self.wf(),
        ensures
            self.choice(k) is None <==> self@ == Set::<Cell>::empty(),
            self.choice(k) matches Some(c) ==> self@.contains(c),
    {
        if self.cells@.len() == 0 {
            assert(self@ =~= Set::<Cell>::empty());
        } else {
            let n = self.cells@.len() as int;
            assert(self@.contains(self.cells@[k % n]));
        }
    }

    proof fn lemma_no_duplicates(&self)
        requires
            self.wf(),
        ensures
            self.cells@.no_duplicates(),
    {
        assert forall|p: int, q: int|
            0 <= p < self.cells@.len() && 0 <= q < self.cells@.len() && p != q implies
            self.cells@[p] != self.cells@[q] by {
            if self.cells@[p] == self.cells@[q] {
                assert(self.slots@[slot_of(self.cells@[p])] == p);
                assert(self.slots@[slot_of(self.cells@[q])] == q);
            }
        }
    }

    /// The number of members.
    pub fn len(&self) -> (r: usize)
        requires
            self.wf(),
        ensures
            r == self@.len(),
            self@.finite(),
    {
        proof {
            self.lemma_no_duplicates();
            self.cells@.unique_seq_to_set();
        }
        self.cells.len()
    }

    proof fn lemma_slot_injective(a: Cell, b: Cell)
        requires
            in_grid(a),
            in_grid(b),
            slot_of(a) == slot_of(b),
        ensures
            a == b,
    {
    }

    /// The set of every on-board cell except `a` and `b`.
    pub fn all_except(a: Cell, b: Cell) -> (r: Self)
        ensures
            r.wf(),
            r@ == grid().remove(a).remove(b),
    {
        let mut slots: Vec<usize> = Vec::new();
        while slots.len() < CELL_COUNT
            invariant
                slots@.len() <= CELL_COUNT,
            decreases CELL_COUNT - slots.len(),
        {
            slots.push(0);
        }
        let mut r = FreeCells { cells: Vec::new(), slots };
        assert(r@ =~= Set::empty());
        let mut x: i16 = 0;
        while x < 50
            invariant
                0 <= x <= 50,
                r.wf(),
                forall|c: Cell| #[trigger]
                    r@.contains(c) <==> (in_grid(c) && c.0 < x && c != a && c != b),
            decreases 50 - x,
        {
            let mut y: i16 = 0;
            while y < 50
                invariant
                    0 <= x < 50,
                    0 <= y <= 50,
                    r.wf(),
                    forall|c: Cell| #[trigger]
                        r@.contains(c) <==> (in_grid(c) && (c.0 < x || (c.0 == x && c.1 < y))
                            && c != a && c != b),
                decreases 50 - y,
            {
                let c: Cell = (x, y);
                if !same_cell(c, a) && !same_cell(c, b) {
                    r.insert(c);
                }
                y = y + 1;
            }
            x = x + 1;
        }
        assert(r@ =~= grid().remove(a).remove(b));
        r
    }

    pub fn contains(&self, c: Cell) -> (r: bool)
        requires
            self.wf(),
        ensures
            r == self@.contains(c),
    {
        if !on_board(c) {
            proof {
                if self@.contains(c) {
                    let j = choose|j: int| 0 <= j < self.cells@.len() && self.cells@[j] == c;
                    assert(in_grid(self.cells@[j]));
                }
            }
            return false;
        }
        let i = self.slots[slot(c)];
        proof {
            if self@.contains(c) {
                let j = choose|j: int| 0 <= j < self.cells@.len() && self.cells@[j] == c;
                assert(self.slots@[slot_of(self.cells@[j])] == j);
            }
        }
        i < self.cells.len() && same_cell(self.cells[i], c)
    }

    pub fn is_empty(&self) -> (r: bool)
        ensures
            r == (self@ == Set::<Cell>::empty()),
    {
        proof {
            if self.cells@.len() > 0 {
                assert(self@.contains(self.cells@[0]));
            } else {
                assert(self@ =~= Set::<Cell>::empty());
            }
        }
        self.cells.len() == 0
    }

    /// Adds an on-board cell.
    pub fn insert(&mut self, c: Cell)
        requires
            old(self).wf(),
            in_grid(c),
        ensures
            final(self).wf(),
            final(self)@ == old(self)@.insert(c),
    {
        if self.contains(c) {
            assert(self@ =~= self@.insert(c));
            return;
        }
        let k = slot(c);
        let n = self.cells.len();
        self.slots.set(k, n);
        self.cells.push(c);
        proof {
            assert forall|i: int| 0 <= i < self.cells@.len() implies {
                &&& in_grid(#[trigger] self.cells@[i])
                &&& self.slots@[slot_of(self.cells@[i])] == i
            } by {
                if i < n {
                    let d = self.cells@[i];
                    assert(d == old(self).cells@[i]);
                    if slot_of(d) == k {
                        Self::lemma_slot_injective(d, c);
                        assert(old(self)@.contains(d));
                    }
                }
            }
            assert forall|d: Cell| #[trigger] self@.contains(d) <==> old(self)@.insert(c).contains(d) by {
                if self@.contains(d) {
                    let j = choose|j: int| 0 <= j < self.cells@.len() && self.cells@[j] == d;
                    if j < n {
                        assert(old(self).cells@[j] == d);
                    }
                }
                if old(self)@.contains(d) {
                    let j = choose|j: int| 0 <= j < old(self).cells@.len() && old(self).cells@[j] == d;
                    assert(self.cells@[j] == d);
                }
                if d == c {
                    assert(self.cells@[n as int] == c);
                }
            }
            assert(self@ =~= old(self)@.insert(c));
        }
    }

    /// Takes out a cell, if it is a member.
    pub fn remove(&mut self, c: Cell)
        requires
            old(self).wf(),
        ensures
            final(self).wf(),
            final(self)@ == old(self)@.remove(c),
            !old(self)@.contains(c) ==> *final(self) == *old(self),
    {
        if !self.contains(c) {
            assert(self@ =~= self@.remove(c));
            return;
        }
        let ghost old_cells = self.cells@;
        let i = self.slots[slot(c)];
        let last = self.cells.len() - 1;
        let moved = self.cells[last];
        self.cells.swap_remove(i);
        if i < last {
            self.slots.set(slot(moved), i);
        }
        proof {
            assert(old_cells[i as int] == c);
            old(self).lemma_no_duplicates();
            assert forall|j: int| 0 <= j < self.cells@.len() implies {
                &&& in_grid(#[trigger] self.cells@[j])
                &&& self.slots@[slot_of(self.cells@[j])] == j
            } by {
                if j == i {
                    assert(self.cells@[j] == old_cells[last as int]);
                } else {
                    assert(self.cells@[j] == old_cells[j]);
                    assert(old(self).slots@[slot_of(old_cells[j])] == j);
                    if i < last && slot_of(old_cells[j]) == slot_of(moved) {
                        Self::lemma_slot_injective(old_cells[j], moved);
                    }
                }
            }
            assert forall|d: Cell| #[trigger] self@.contains(d) <==> old(self)@.remove(c).contains(d) by {
                if self@.contains(d) {
                    let j = choose|j: int| 0 <= j < self.cells@.len() && self.cells@[j] == d;
                    if j == i {
                        assert(d == old_cells[last as int]);
                    } else {
                        assert(d == old_cells[j]);
                    }
                }
                if old(self)@.remove(c).contains(d) {
                    let j = choose|j: int| 0 <= j < old_cells.len() && old_cells[j] == d;
                    if j == last {
                        assert(self.cells@[i as int] == d);
                    } else {
                        assert(self.cells@[j] == d);
                    }
                }
            }
            assert(self@ =~= old(self)@.remove(c));
        }
    }

    /// The member at position `k` modulo the number of members.
    pub fn pick(&self, k: usize) -> (r: Option<Cell>)
        requires
            self.wf(),
        ensures
            r == self.choice(k as int),
            r is None <==> self@ == Set::<Cell>::empty(),
            r matches Some(c) ==> self@.contains(c),
    {
        proof {
            self.lemma_choice(k as int);
        }
        let n = self.cells.len();
        if n == 0 {
            None
        } else {
            Some(self.cells[k % n])
        }
    }
}

} // verus!
