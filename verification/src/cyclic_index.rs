//! A counter whose value is always reduced modulo a fixed, positive bound.

use vstd::arithmetic::div_mod::{
    lemma_add_mod_noop, lemma_mod_add_multiples_vanish, lemma_mod_division_less_than_divisor,
    lemma_mod_sub_multiples_vanish, lemma_small_mod, lemma_sub_mod_noop,
};
use vstd::prelude::*;

verus! {

/// Errors reported when a cyclic structure is constructed over an empty range.
#[derive(Clone, Copy, Debug, PartialEq, Eq, Structural)]
pub enum CycleError {
    /// a cyclic index cannot be built with modulus zero
    InvalidModulus,
    /// a history cannot be built with capacity zero
    InvalidCapacity,
}

/// The position reached by moving `delta` steps forward from `p` on a cycle
/// of modulus `m`.
pub open spec fn add_mod(p: nat, delta: nat, m: nat) -> nat
    recommends
        m > 0,
{
    (((p + delta) as int) % (m as int)) as nat
}

/// The position reached by moving `delta` steps backward from `p` on a cycle
/// of modulus `m`.
pub open spec fn sub_mod(p: nat, delta: nat, m: nat) -> nat
    recommends
        m > 0,
{
    ((p - delta) % (m as int)) as nat
}

/// An interface for values that behave like an element of a cyclic group:
/// a position that moves over a fixed, positive modulus and wraps at both
/// ends.
pub trait Cyclic: Sized {
    /// The fixed modulus of the cycle.
    spec fn modulus_of(&self) -> nat;

    /// The current position on the cycle.
    spec fn position_of(&self) -> nat;

    /// Well-formed: the position lies strictly below a positive modulus.
    spec fn inv(&self) -> bool;

    /// Every well-formed cyclic value keeps its position inside
    /// `[0, modulus)`.
    proof fn position_in_range(&self)
        requires
            self.inv(),
        ensures
            self.position_of() < self.modulus_of(),
    ;

    /// Returns the current position without moving it.
    fn value(&self) -> (r: usize)
        requires
            self.inv(),
        ensures
            r == self.position_of(),
    ;

    /// Moves the position `delta` steps forward, wrapping modulo the modulus,
    /// and returns the new position.
    fn increment_by(&mut self, delta: usize) -> (r: usize)
        requires
            old(self).inv(),
        ensures
            final(self).inv(),
            final(self).modulus_of() == old(self).modulus_of(),
            final(self).position_of() == add_mod(
                old(self).position_of(),
                delta as nat,
                old(self).modulus_of(),
            ),
            r == final(self).position_of(),
    ;

    /// Moves the position `delta` steps backward, wrapping modulo the
    /// modulus, and returns the new position.
    fn decrement_by(&mut self, delta: usize) -> (r: usize)
        requires
            old(self).inv(),
        ensures
            final(self).inv(),
            final(self).modulus_of() == old(self).modulus_of(),
            final(self).position_of() == sub_mod(
                old(self).position_of(),
                delta as nat,
                old(self).modulus_of(),
            ),
            r == final(self).position_of(),
    ;

    /// Moves the position one step forward and returns the new position.
    fn increment(&mut self) -> (r: usize)
        requires
            old(self).inv(),
        ensures
            final(self).inv(),
            final(self).modulus_of() == old(self).modulus_of(),
            final(self).position_of() == add_mod(
                old(self).position_of(),
                1,
                old(self).modulus_of(),
            ),
            r == final(self).position_of(),
    ;

    /// Moves the position one step backward and returns the new position.
    fn decrement(&mut self) -> (r: usize)
        requires
            old(self).inv(),
        ensures
            final(self).inv(),
            final(self).modulus_of() == old(self).modulus_of(),
            final(self).position_of() == sub_mod(
                old(self).position_of(),
                1,
                old(self).modulus_of(),
            ),
            r == final(self).position_of(),
    ;
}

/// A modular counter over `[0, size)`: the write cursor of a bounded
/// history, and a building block for any cyclic walk.
#[derive(Clone, Copy, Debug)]
pub struct CyclicIndex {
    /// current position, always kept strictly below `size`
    pub index: usize,
    /// the fixed modulus of the cycle
    pub size: usize,
}

impl CyclicIndex {
    /// Builds an index over `[0, size)` starting at `index`, reduced modulo
    /// `size` when out of range; a zero modulus is rejected.
    pub fn new(index: usize, size: usize) -> (r: Result<CyclicIndex, CycleError>)
        ensures
            size == 0 ==> r == Err::<CyclicIndex, CycleError>(CycleError::InvalidModulus),
            size > 0 ==> (r matches Ok(c) && c.inv() && c.size == size && c.index == index % size),
    {
        if size == 0 {
            Err(CycleError::InvalidModulus)
        } else {
            Ok(CyclicIndex { index: index % size, size })
        }
    }

    /// Pure addition: returns a new index moved `delta` steps forward,
    /// leaving `self` untouched.
    pub fn plus(&self, delta: usize) -> (r: CyclicIndex)
        requires
            self.inv(),
        ensures
            r.inv(),
            r.size == self.size,
            r.index as nat == add_mod(self.index as nat, delta as nat, self.size as nat),
    {
        let mut c = *self;
        c.increment_by(delta);
        c
    }

    /// Pure subtraction: returns a new index moved `delta` steps backward,
    /// leaving `self` untouched.
    pub fn minus(&self, delta: usize) -> (r: CyclicIndex)
        requires
            self.inv(),
        ensures
            r.inv(),
            r.size == self.size,
            r.index as nat == sub_mod(self.index as nat, delta as nat, self.size as nat),
    {
        let mut c = *self;
        c.decrement_by(delta);
        c
    }
}

impl Cyclic for CyclicIndex {
    open spec fn modulus_of(&self) -> nat {
        self.size as nat
    }

    open spec fn position_of(&self) -> nat {
        self.index as nat
    }

    open spec fn inv(&self) -> bool {
        self.index < self.size
    }

    proof fn position_in_range(&self) {
    }

    fn value(&self) -> (r: usize) {
        self.index
    }

    fn increment_by(&mut self, delta: usize) -> (r: usize) {
        let m = self.size;
        let d = delta % m;
        let gap = m - self.index;
        if d < gap {
            self.index = self.index + d;
        } else {
            self.index = d - gap;
        }
        proof {
            let p = old(self).index as int;
            lemma_small_mod(old(self).index as nat, m as nat);
            lemma_add_mod_noop(p, delta as int, m as int);
            if p + d < m {
                lemma_small_mod((p + d) as nat, m as nat);
            } else {
                lemma_mod_sub_multiples_vanish(p + d, m as int);
                lemma_small_mod((p + d - m) as nat, m as nat);
            }
        }
        self.index
    }

    fn decrement_by(&mut self, delta: usize) -> (r: usize) {
        let m = self.size;
        let d = delta % m;
        if d <= self.index {
            self.index = self.index - d;
        } else {
            self.index = self.index + (m - d);
        }
        proof {
            let p = old(self).index as int;
            lemma_small_mod(old(self).index as nat, m as nat);
            lemma_sub_mod_noop(p, delta as int, m as int);
            if d <= p {
                lemma_small_mod((p - d) as nat, m as nat);
            } else {
                lemma_mod_add_multiples_vanish(p - d, m as int);
                lemma_small_mod((p - d + m) as nat, m as nat);
            }
        }
        self.index
    }

    fn increment(&mut self) -> (r: usize) {
        self.increment_by(1)
    }

    fn decrement(&mut self) -> (r: usize) {
        self.decrement_by(1)
    }
}

impl PartialEq for CyclicIndex {
    /// Two cyclic indexes compare equal exactly when their positions match,
    /// irrespective of their moduli; comparing indexes of different moduli
    /// is a caller error, well-defined but meaningless.
    fn eq(&self, other: &CyclicIndex) -> (r: bool) {
        self.index == other.index
    }
}

impl vstd::std_specs::cmp::PartialEqSpecImpl for CyclicIndex {
    open spec fn obeys_eq_spec() -> bool {
        true
    }

    open spec fn eq_spec(&self, other: &CyclicIndex) -> bool {
        self.index == other.index
    }
}

/// Law: incrementing by any delta and then decrementing by the same delta
/// returns a position inside the cycle to its original value.
pub proof fn lemma_increment_then_decrement_restores(p: nat, delta: nat, m: nat)
    requires
        m > 0,
        p < m,
    ensures
        sub_mod(add_mod(p, delta, m), delta, m) == p,
{
    let a = add_mod(p, delta, m);
    lemma_mod_division_less_than_divisor((p + delta) as int, m as int);
    lemma_small_mod(a, m);
    lemma_small_mod(p, m);
    lemma_sub_mod_noop(a as int, delta as int, m as int);
    lemma_sub_mod_noop((p + delta) as int, delta as int, m as int);
}

/// Law: a modular step of any length, in either direction, always lands
/// inside `[0, modulus)`.
pub proof fn lemma_step_stays_in_range(p: nat, delta: nat, m: nat)
    requires
        m > 0,
    ensures
        add_mod(p, delta, m) < m,
        sub_mod(p, delta, m) < m,
{
    lemma_mod_division_less_than_divisor((p + delta) as int, m as int);
    lemma_mod_division_less_than_divisor((p - delta) as int, m as int);
}

} // verus!
