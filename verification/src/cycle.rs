//! A read-only ring over a fixed, non-empty list of items.

use crate::cyclic_index::{add_mod, sub_mod};
use vstd::arithmetic::div_mod::{lemma_mod_add_multiples_vanish, lemma_mod_self_0, lemma_small_mod};
use vstd::prelude::*;

verus! {

/// A cursor walking a fixed, non-empty list of items forever, wrapping
/// at both ends. The list never changes after construction.
pub struct Cycle<T> {
    items: Vec<T>,
    index: usize,
}

impl<T> View for Cycle<T> {
    type V = Seq<T>;

    /// The fixed list of items.
    closed spec fn view(&self) -> Seq<T> {
        self.items@
    }
}

impl<T: Copy> Cycle<T> {
    /// Well-formed: the cursor is a valid position in a non-empty list.
    pub closed spec fn wf(&self) -> bool {
        self.items@.len() > 0 && (self.index as int) < self.items@.len()
    }

    /// The current cursor position.
    pub closed spec fn at(&self) -> nat {
        self.index as nat
    }

    /// Copies the items into a new cycle with the cursor on the first item.
    pub fn new(items: &[T]) -> (c: Cycle<T>)
        requires
            items@.len() > 0,
        ensures
            c.wf(),
            c@ == items@,
            c.at() == 0,
    {
        let mut v: Vec<T> = Vec::new();
        let mut i: usize = 0;
        while i < items.len()
            invariant
                i <= items@.len(),
                v@ == items@.subrange(0, i as int),
            decreases items@.len() - i,
        {
            v.push(items[i]);
            proof {
                assert(v@ =~= items@.subrange(0, i + 1));
            }
            i = i + 1;
        }
        proof {
            assert(v@ =~= items@);
        }
        Cycle { items: v, index: 0 }
    }

    /// The item under the cursor; the cursor does not move.
    pub fn get(&self) -> (r: T)
        requires
            self.wf(),
        ensures
            r == self@[self.at() as int],
    {
        self.items[self.index]
    }

    /// Moves the cursor one step forward, wrapping to the first item after
    /// the last, and returns the item now under it.
    pub fn next(&mut self) -> (r: T)
        requires
            old(self).wf(),
        ensures
            final(self).wf(),
            final(self)@ == old(self)@,
            final(self).at() == add_mod(old(self).at(), 1, old(self)@.len()),
            r == final(self)@[final(self).at() as int],
    {
        let m = self.items.len();
        self.index = (self.index + 1) % m;
        proof {
            let p = old(self).index as int;
            let m = old(self).items@.len() as int;
            if p + 1 < m {
                lemma_small_mod((p + 1) as nat, m as nat);
            } else {
                lemma_mod_self_0(m);
            }
        }
        self.items[self.index]
    }

    /// Moves the cursor one step backward, wrapping to the last item before
    /// the first, and returns the item now under it.
    pub fn prev(&mut self) -> (r: T)
        requires
            old(self).wf(),
        ensures
            final(self).wf(),
            final(self)@ == old(self)@,
            final(self).at() == sub_mod(old(self).at(), 1, old(self)@.len()),
            r == final(self)@[final(self).at() as int],
    {
        if self.index == 0 {
            self.index = self.items.len() - 1;
        } else {
            self.index = self.index - 1;
        }
        proof {
            let p = old(self).index as int;
            let m = old(self).items@.len() as int;
            if p == 0 {
                lemma_mod_add_multiples_vanish(p - 1, m);
                lemma_small_mod((p - 1 + m) as nat, m as nat);
            } else {
                lemma_small_mod((p - 1) as nat, m as nat);
            }
        }
        self.items[self.index]
    }
}

} // verus!
