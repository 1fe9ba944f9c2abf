//! A fixed-capacity sequence that retains only the most recently pushed
//! elements, overwriting the oldest once full.

use crate::cyclic_index::{CycleError, Cyclic, CyclicIndex};
use vstd::arithmetic::div_mod::{lemma_mod_self_0, lemma_small_mod};
use vstd::prelude::*;

verus! {

/// A source of placeholder values, used only to pre-fill the unwritten
/// slots of a history; those placeholders are never exposed through the
/// public contract.
pub trait HistoryDefault: Sized {
    fn history_default() -> Self;
}

impl HistoryDefault for usize {
    fn history_default() -> usize {
        0
    }
}

impl HistoryDefault for i32 {
    fn history_default() -> i32 {
        0
    }
}

/// A bounded history: a fixed-capacity store keyed by a cyclic write
/// cursor. A push overwrites the oldest logical element once the store is
/// full; iteration walks only the logical elements, in either order.
pub struct History<T> {
    values: Vec<T>,
    ptr: CyclicIndex,
    count: usize,
}

/// The abstract effect of one push on the logical contents `e` of a
/// history with capacity `c`: append, retiring the oldest element first
/// when the history is full.
pub open spec fn spec_push<T>(e: Seq<T>, c: nat, v: T) -> Seq<T>
    recommends
        c > 0,
        e.len() <= c,
{
    if e.len() < c {
        e.push(v)
    } else {
        e.skip(1).push(v)
    }
}

impl<T> History<T> {
    /// The fixed capacity chosen at construction.
    pub closed spec fn cap(&self) -> nat {
        self.values@.len()
    }

    /// Internal invariant: the cursor ranges over the backing storage, and
    /// the logical count never exceeds the capacity.
    pub closed spec fn wf(&self) -> bool {
        &&& self.values@.len() > 0
        &&& self.ptr.size == self.values@.len()
        &&& (self.ptr.index as int) < self.values@.len()
        &&& self.count <= self.values@.len()
    }

    /// The physical slot `d` positions behind the write cursor, for
    /// `1 <= d <= cap`.
    spec fn slot_back(&self, d: int) -> int {
        if self.ptr.index - d >= 0 {
            self.ptr.index - d
        } else {
            self.ptr.index - d + self.values@.len()
        }
    }

    /// The logical contents, newest first.
    pub closed spec fn rev_view(&self) -> Seq<T> {
        Seq::new(self.count as nat, |i: int| self.values@[self.slot_back(i + 1)])
    }

    /// Builds an empty history of the given capacity; every slot is
    /// pre-filled from the placeholder factory, and those placeholders are
    /// never exposed. A zero capacity is rejected.
    pub fn new<F: Fn() -> T>(capacity: usize, placeholder: F) -> (r: Result<History<T>, CycleError>)
        requires
            call_requires(placeholder, ()),
        ensures
            capacity == 0 ==> r == Err::<History<T>, CycleError>(CycleError::InvalidCapacity),
            capacity > 0 ==> (r matches Ok(h) && h.wf() && h.cap() == capacity && h@
                == Seq::<T>::empty()),
    {
        if capacity == 0 {
            return Err(CycleError::InvalidCapacity);
        }
        let mut values: Vec<T> = Vec::new();
        while values.len() < capacity
            invariant
                call_requires(placeholder, ()),
                values@.len() <= capacity,
            decreases capacity - values@.len(),
        {
            values.push(placeholder());
        }
        let h = History { values, ptr: CyclicIndex { index: 0, size: capacity }, count: 0 };
        proof {
            assert(h@ =~= Seq::<T>::empty());
        }
        Ok(h)
    }

    /// Forgets all logical elements and rewinds the cursor. The backing
    /// storage is reused, not erased: stale values remain in memory but are
    /// unreachable through the public contract.
    pub fn clear(&mut self)
        requires
            old(self).wf(),
        ensures
            final(self).wf(),
            final(self).cap() == old(self).cap(),
            final(self)@ == Seq::<T>::empty(),
    {
        self.count = 0;
        self.ptr.index = 0;
        proof {
            assert(self@ =~= Seq::<T>::empty());
        }
    }

    /// The number of valid entries.
    pub fn len(&self) -> (r: usize)
        ensures
            r == self@.len(),
    {
        self.count
    }

    /// Writes `value` into the slot under the write cursor, advances the
    /// cursor one step, and grows the logical count unless the history is
    /// already full — then the oldest element is retired instead.
    pub fn push(&mut self, value: T)
        requires
            old(self).wf(),
        ensures
            final(self).wf(),
            final(self).cap() == old(self).cap(),
            final(self)@ == spec_push(old(self)@, old(self).cap(), value),
            final(self)@.len() == if old(self)@.len() < old(self).cap() {
                old(self)@.len() + 1
            } else {
                old(self).cap()
            },
    {
        if self.count < self.values.len() {
            self.count = self.count + 1;
        }
        let i = self.ptr.value();
        self.values.set(i, value);
        self.ptr.increment();
        proof {
            let m = old(self).values@.len() as int;
            let p = old(self).ptr.index as int;
            if p + 1 < m {
                lemma_small_mod((p + 1) as nat, m as nat);
            } else {
                lemma_mod_self_0(m);
            }
            assert(self@ =~= spec_push(old(self)@, old(self).cap(), value));
        }
    }
}

impl<T> View for History<T> {
    type V = Seq<T>;

    /// The logical contents, oldest first.
    closed spec fn view(&self) -> Seq<T> {
        Seq::new(self.count as nat, |i: int| self.values@[self.slot_back(self.count - i)])
    }
}

impl<T: HistoryDefault> History<T> {
    /// Builds an empty history whose placeholder slots come from the
    /// element type's `HistoryDefault` value.
    pub fn new_default(capacity: usize) -> (r: Result<History<T>, CycleError>)
        ensures
            capacity == 0 ==> r == Err::<History<T>, CycleError>(CycleError::InvalidCapacity),
            capacity > 0 ==> (r matches Ok(h) && h.wf() && h.cap() == capacity && h@
                == Seq::<T>::empty()),
    {
        Self::new(capacity, || T::history_default())
    }
}

/// A lazy, restartable walk over the logical elements of a borrowed
/// history, oldest first or newest first; it never reads an unwritten
/// placeholder slot.
pub struct HistoryIntoIterator<'a, T> {
    history: &'a History<T>,
    index: usize,
    newest_first: bool,
}

impl<'a, T> HistoryIntoIterator<'a, T> {
    /// Well-formed: the borrowed history is, and the walk has not left its
    /// logical range.
    pub closed spec fn inv(&self) -> bool {
        self.history.wf() && self.index <= self.history.count
    }

    /// The full sequence this walk yields, in yield order.
    pub closed spec fn src(&self) -> Seq<T> {
        if self.newest_first {
            self.history.rev_view()
        } else {
            self.history@
        }
    }

    /// How many elements were already yielded.
    pub closed spec fn pos(&self) -> nat {
        self.index as nat
    }
}

impl<'a, T: Copy> HistoryIntoIterator<'a, T> {
    /// Yields the next logical element, or `None` once all were yielded.
    pub fn next(&mut self) -> (r: Option<T>)
        requires
            old(self).inv(),
        ensures
            final(self).inv(),
            final(self).src() == old(self).src(),
            old(self).pos() < old(self).src().len() ==> (r == Some(
                old(self).src()[old(self).pos() as int],
            ) && final(self).pos() == old(self).pos() + 1),
            old(self).pos() >= old(self).src().len() ==> (r == None::<T> && final(self).pos()
                == old(self).pos()),
    {
        if self.index >= self.history.count {
            None
        } else {
            let h = self.history;
            let c = h.values.len();
            let d = if self.newest_first {
                self.index + 1
            } else {
                h.count - self.index
            };
            let s = if h.ptr.index >= d {
                h.ptr.index - d
            } else {
                h.ptr.index + (c - d)
            };
            let item = h.values[s];
            self.index = self.index + 1;
            Some(item)
        }
    }
}

impl<T: Copy> History<T> {
    /// Starts a chronological walk, oldest to newest, over exactly the
    /// logical elements.
    pub fn iter<'a>(&'a self) -> (it: HistoryIntoIterator<'a, T>)
        requires
            self.wf(),
        ensures
            it.inv(),
            it.pos() == 0,
            it.src() == self@,
    {
        HistoryIntoIterator { history: self, index: 0, newest_first: false }
    }

    /// Starts a reverse-chronological walk, newest to oldest: it yields
    /// exactly the reverse of the chronological walk.
    pub fn iter_rev<'a>(&'a self) -> (it: HistoryIntoIterator<'a, T>)
        requires
            self.wf(),
        ensures
            it.inv(),
            it.pos() == 0,
            it.src() == self@.reverse(),
    {
        proof {
            lemma_reverse_view(self);
        }
        HistoryIntoIterator { history: self, index: 0, newest_first: true }
    }
}

/// Law: the newest-first view of a history is exactly the reverse of its
/// oldest-first view, at every fill level from empty to full.
pub proof fn lemma_reverse_view<T>(h: &History<T>)
    requires
        h.wf(),
    ensures
        h.rev_view() == h@.reverse(),
{
    assert(h.rev_view() =~= h@.reverse());
}

/// The abstract effect of pushing every value of `s`, in order, onto the
/// logical contents `e`.
pub open spec fn spec_push_all<T>(e: Seq<T>, c: nat, s: Seq<T>) -> Seq<T>
    recommends
        c > 0,
        e.len() <= c,
    decreases s.len(),
{
    if s.len() == 0 {
        e
    } else {
        spec_push_all(spec_push(e, c, s[0]), c, s.skip(1))
    }
}

/// The last `c` elements of `t`, or all of `t` when it is shorter.
pub open spec fn last_up_to<T>(t: Seq<T>, c: nat) -> Seq<T> {
    if t.len() <= c {
        t
    } else {
        t.subrange(t.len() - c, t.len() as int)
    }
}

/// Law: pushing the values of `s`, in order, onto well-formed contents `e`
/// leaves exactly the last `c` values of `e + s`, oldest first.
pub proof fn lemma_push_all_keeps_latest<T>(e: Seq<T>, c: nat, s: Seq<T>)
    requires
        c > 0,
        e.len() <= c,
    ensures
        spec_push_all(e, c, s) == last_up_to(e + s, c),
    decreases s.len(),
{
    if s.len() == 0 {
        assert(e + s =~= e);
    } else {
        let e2 = spec_push(e, c, s[0]);
        lemma_push_all_keeps_latest(e2, c, s.skip(1));
        if e.len() < c {
            assert(e2 + s.skip(1) =~= e + s);
        } else {
            assert(e2 + s.skip(1) =~= (e + s).skip(1));
            assert(last_up_to((e + s).skip(1), c) =~= last_up_to(e + s, c));
        }
    }
}

/// Law: pushing exactly the values of `s` into an empty history of
/// capacity `c` yields them all, in push order, when `s` is no longer than
/// `c`; when `s` is longer, only the last `c` pushed remain, oldest first.
pub proof fn lemma_push_order<T>(c: nat, s: Seq<T>)
    requires
        c > 0,
    ensures
        s.len() <= c ==> spec_push_all(Seq::empty(), c, s) == s,
        s.len() > c ==> spec_push_all(Seq::empty(), c, s) == s.subrange(
            s.len() - c,
            s.len() as int,
        ),
{
    lemma_push_all_keeps_latest(Seq::empty(), c, s);
    assert(Seq::<T>::empty() + s =~= s);
}

} // verus!
