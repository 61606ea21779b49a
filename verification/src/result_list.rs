//! A list of results shown to the user, and a bounded index into it.

use vstd::prelude::*;
use vstd::arithmetic::div_mod::*;

verus! {

/// A list of results to show.
pub struct ResultList<T> {
    pub items: Vec<T>,
    pub style: Option<ListStyle>,
}

impl<T> ResultList<T> {
    /// Number of results.
    pub fn len(&self) -> (n: usize)
        ensures
            n == self.items@.len(),
    {
        self.items.len()
    }

    /// Whether there are no results.
    pub fn is_empty(&self) -> (b: bool)
        ensures
            b == (self.items@.len() == 0),
    {
        self.items.len() == 0
    }
}

/// How the results are laid out.
#[derive(Debug, Clone, Copy, PartialEq, Eq)]
pub enum ListStyle {
    Rows,
    Grid,
    GridWithColumns(u32),
}

/// `v + delta`, clamped to `[0, hi]`.
pub open spec fn clamp_add(v: int, delta: int, hi: int) -> int {
    if v + delta < 0 {
        0
    } else if v + delta > hi {
        hi
    } else {
        v + delta
    }
}

/// A [`usize`] with a bounded upper limit.
///
/// The `bound` is always inclusive, and the value never exceeds it.
#[derive(Debug, Clone, Copy, PartialEq, Eq, Hash)]
pub struct BoundedUsize {
    /// The current actual value. Always `<= bound`.
    value: usize,
    /// The maximum possible value for `value`. This is **inclusive**.
    bound: usize,
}

impl View for BoundedUsize {
    /// `(value, bound)`.
    type V = (nat, nat);

    closed spec fn view(&self) -> (nat, nat) {
        (self.value as nat, self.bound as nat)
    }
}

impl BoundedUsize {
    #[verifier::type_invariant]
    spec fn value_within_bound(self) -> bool {
        self.value <= self.bound
    }

    /// Makes a new [`BoundedUsize`] with `bound` as the maximum value.
    ///
    /// The actual value initialises to zero.
    pub fn new_with_bound(bound: usize) -> (b: Self)
        ensures
            b@ == (0nat, bound as nat),
    {
        Self { value: 0, bound }
    }

    /// Sets the value, saturating if the value is greater than the bound.
    pub fn saturating_set(&mut self, value: usize)
        ensures
            final(self)@.1 == old(self)@.1,
            final(self)@.0 == if value <= old(self)@.1 { value as nat } else { old(self)@.1 },
    {
        let v = if value <= self.bound { value } else { self.bound };
        self.value = v;
    }

    /// Adds `delta`, saturating at zero and at the bound.
    pub fn saturating_add_signed(&mut self, delta: isize)
        ensures
            final(self)@.1 == old(self)@.1,
            final(self)@.0 == clamp_add(old(self)@.0 as int, delta as int, old(self)@.1 as int),
    {
        proof {
            use_type_invariant(&*self);
        }
        let v = self.value;
        let next: usize = if delta >= 0 {
            let d = delta as usize;
            if v <= usize::MAX - d {
                v + d
            } else {
                usize::MAX
            }
        } else {
            let d = (-(delta as i128)) as usize;
            if v >= d {
                v - d
            } else {
                0
            }
        };
        self.saturating_set(next);
    }

    /// Adds `delta`, wrapping around within `[0, bound]`.
    pub fn wrapping_add_signed(&mut self, delta: isize)
        ensures
            final(self)@.1 == old(self)@.1,
            final(self)@.0 == (old(self)@.0 + delta) % ((old(self)@.1 + 1) as int),
    {
        proof {
            use_type_invariant(&*self);
        }
        let v = self.value as u128;
        let m: u128 = self.bound as u128 + 1;
        let r: u128 = if delta >= 0 {
            let d = delta as u128;
            (v + d) % m
        } else {
            let d = (-(delta as i128)) as u128;
            let dm = d % m;
            proof {
                lemma_mod_bound(d as int, m as int);
                lemma_sub_mod_noop_right(v as int, d as int, m as int);
                lemma_mod_add_multiples_vanish(v - dm, m as int);
            }
            (v + m - dm) % m
        };
        proof {
            lemma_mod_bound(v + delta, m as int);
        }
        self.value = r as usize;
    }

    /// The current value.
    pub fn value(&self) -> (v: usize)
        ensures
            v == self@.0,
            v <= self@.1,
    {
        proof {
            use_type_invariant(self);
        }
        self.value
    }

    /// Whether the value is 0.
    pub fn is_min(&self) -> (b: bool)
        ensures
            b == (self@.0 == 0),
    {
        self.value == 0
    }

    /// Whether the value equals the upper bound.
    pub fn is_max(&self) -> (b: bool)
        ensures
            b == (self@.0 == self@.1),
    {
        self.value == self.bound
    }

    /// Whether the value is at the ends of the bounds (0 or equal to upper bound).
    pub fn is_at_bounds(&self) -> (b: bool)
        ensures
            b == (self@.0 == 0 || self@.0 == self@.1),
    {
        self.is_min() || self.is_max()
    }
}

impl Default for BoundedUsize {
    fn default() -> (b: Self)
        ensures
            b@ == (0nat, 0nat),
    {
        Self { value: 0, bound: 0 }
    }
}

/// Moves `x` forward by `amount` within `0..max_excl`, wrapping around.
///
/// Returns 0 when the range is empty.
pub fn bounded_wrapping_add(x: usize, amount: usize, max_excl: usize) -> (r: usize)
    requires
        max_excl > 0 ==> x + amount <= usize::MAX,
    ensures
        max_excl == 0 ==> r == 0,
        max_excl > 0 ==> r == (x + amount) % (max_excl as int),
{
    if max_excl == 0 {
        return 0;
    }
    (x + amount) % max_excl
}

/// Moves `x` backward by `amount` within `0..max_excl`, wrapping around.
///
/// Returns 0 when the range is empty.
pub fn bounded_wrapping_sub(x: usize, amount: usize, max_excl: usize) -> (r: usize)
    requires
        max_excl > 0 ==> x + max_excl <= usize::MAX,
    ensures
        max_excl == 0 ==> r == 0,
        max_excl > 0 ==> r == (x - amount) % (max_excl as int),
{
    if max_excl == 0 {
        return 0;
    }
    let am = amount % max_excl;
    proof {
        lemma_mod_bound(amount as int, max_excl as int);
        lemma_sub_mod_noop_right(x as int, amount as int, max_excl as int);
        lemma_mod_add_multiples_vanish(x - am, max_excl as int);
    }
    (x + max_excl - am) % max_excl
}

/// Moving a selection forward and then back by the same amount returns to
/// where it started, and so does moving back and then forward.
pub proof fn lemma_wrapping_add_sub_inverse(x: int, amount: int, m: int)
    requires
        0 < m,
        0 <= x < m,
    ensures
        ((x + amount) % m - amount) % m == x,
        ((x - amount) % m + amount) % m == x,
{
    let y = (x + amount) % m;
    lemma_sub_mod_noop(x + amount, amount, m);
    lemma_mod_twice(x + amount, m);
    lemma_sub_mod_noop(y, amount, m);
    assert(((y % m) - (amount % m)) % m == (y - amount) % m);
    assert((x + amount - amount) % m == x % m);
    lemma_small_mod(x as nat, m as nat);
    assert((y - amount) % m == x);
    lemma_add_mod_noop(x - amount, amount, m);
    lemma_mod_twice(x - amount, m);
    lemma_add_mod_noop((x - amount) % m, amount, m);
}

} // verus!
