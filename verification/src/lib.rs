//! Bitmask-based flag storage.
//!
//! A [`FlagSet`] is any type that owns a single `u64` bitmask and can report
//! it ([`FlagSet::value`]) and replace it wholesale ([`FlagSet::set`]). From
//! those two primitives, plus a zero-valued constructor, the trait derives
//! enable, disable, toggle and query operations on masks. A mask may be a
//! single bit or a union of bits; which bit position means what is entirely
//! the caller's business.
//!
//! Two deliberate semantic choices, preserved exactly:
//! - [`FlagSet::toggle`] flips a multi-bit mask as one group: if *any* bit of
//!   the mask is currently set, the whole mask is cleared; otherwise the
//!   whole mask is set. It is not a per-bit XOR.
//! - [`FlagSet::is_enabled`] answers whether *any* bit of the mask is set,
//!   not whether all of them are.

use vstd::prelude::*;

verus! {

/// The mask after enabling `f` in `v`: every bit of `f` becomes set,
/// the other bits keep their state.
pub open spec fn spec_enable(v: u64, f: u64) -> u64 {
    v | f
}

/// The mask after disabling `f` in `v`: every bit of `f` becomes clear,
/// the other bits keep their state.
pub open spec fn spec_disable(v: u64, f: u64) -> u64 {
    v & !f
}

/// Whether any bit of `f` is set in `v`.
pub open spec fn spec_is_enabled(v: u64, f: u64) -> bool {
    v & f != 0
}

/// The mask after toggling the group `f` in `v`: if any bit of `f` is set,
/// the whole group is cleared, otherwise the whole group is set.
pub open spec fn spec_toggle(v: u64, f: u64) -> u64 {
    if spec_is_enabled(v, f) {
        spec_disable(v, f)
    } else {
        spec_enable(v, f)
    }
}

/// A container for one `u64` bitmask. Implementers supply only the three
/// primitives `value`, `set` and `new`, together with the ghost view
/// `spec_value` that ties them together; the flag operations come for free.
pub trait FlagSet: Sized {
    /// The bitmask the instance currently stores.
    spec fn spec_value(&self) -> u64;

    /// Read the stored bitmask.
    fn value(&self) -> (r: u64)
        ensures
            r == self.spec_value(),
    ;

    /// Replace the stored bitmask wholesale with `v`.
    fn set(&mut self, v: u64)
        ensures
            final(self).spec_value() == v,
    ;

    /// An instance with every bit clear.
    fn new() -> (r: Self)
        ensures
            r.spec_value() == 0,
    ;

    /// An instance seeded with the bitmask `v`.
    fn from(v: u64) -> (r: Self)
        ensures
            r.spec_value() == v,
    {
        let mut f = Self::new();
        f.set(v);
        f
    }

    /// Set every bit of `f`; bits outside `f` are unaffected.
    fn enable(&mut self, f: u64)
        ensures
            final(self).spec_value() == spec_enable(old(self).spec_value(), f),
    {
        let v = self.value();
        self.set(v | f);
    }

    /// Clear every bit of `f`; bits outside `f` are unaffected.
    fn disable(&mut self, f: u64)
        ensures
            final(self).spec_value() == spec_disable(old(self).spec_value(), f),
    {
        let v = self.value();
        self.set(v & !f);
    }

    /// Flip the group `f` as a whole: if any bit of `f` is currently set,
    /// clear all of `f`; otherwise set all of `f`. This is a group-level
    /// decision, not a per-bit XOR.
    fn toggle(&mut self, f: u64)
        ensures
            final(self).spec_value() == spec_toggle(old(self).spec_value(), f),
    {
        let cur = self.value();
        let v = if cur & f != 0 {
            cur & !f
        } else {
            cur | f
        };
        self.set(v);
    }

    /// Whether at least one bit of `f` is currently set.
    fn is_enabled(&self, f: u64) -> (r: bool)
        ensures
            r == spec_is_enabled(self.spec_value(), f),
    {
        self.value() & f != 0
    }
}

/// A plain flag holder: the minimal conforming implementation of
/// [`FlagSet`], owning one `u64` bitmask.
#[derive(Clone, Copy, Debug)]
pub struct Flags {
    value: u64,
}

impl FlagSet for Flags {
    closed spec fn spec_value(&self) -> u64 {
        self.value
    }

    fn value(&self) -> u64 {
        self.value
    }

    fn set(&mut self, v: u64) {
        self.value = v;
    }

    fn new() -> Flags {
        Flags { value: 0 }
    }
}

/// A fresh instance is clear: no mask reports as enabled while the stored
/// value is zero.
pub proof fn lemma_new_is_clear(m: u64)
    by (bit_vector)
    ensures
        !spec_is_enabled(0, m),
{
}

/// Enabling sets exactly the requested bits: after enabling a nonzero mask
/// `x`, `x` reports as enabled, and any mask `y` disjoint from `x` reports
/// exactly as it did before.
pub proof fn lemma_enable_sets_requested(v: u64, x: u64, y: u64)
    by (bit_vector)
    requires
        x != 0,
        x & y == 0,
    ensures
        spec_is_enabled(spec_enable(v, x), x),
        spec_is_enabled(spec_enable(v, x), y) == spec_is_enabled(v, y),
{
}

/// Disabling clears exactly the requested bits: starting from the union of
/// two disjoint masks `x` and `y`, disabling `x` leaves `x` disabled and a
/// nonzero `y` still enabled.
pub proof fn lemma_disable_clears_requested(x: u64, y: u64)
    by (bit_vector)
    requires
        y != 0,
        x & y == 0,
    ensures
        !spec_is_enabled(spec_disable(x | y, x), x),
        spec_is_enabled(spec_disable(x | y, x), y),
{
}

/// Toggling is group-level, not per-bit XOR: with only a nonzero `x` stored,
/// toggling the union of `x` and a disjoint `y` clears the entire group,
/// because some bit of the group was already on.
pub proof fn lemma_toggle_is_group_level(x: u64, y: u64)
    by (bit_vector)
    requires
        x != 0,
        x & y == 0,
    ensures
        !spec_is_enabled(spec_toggle(x, x | y), x),
        !spec_is_enabled(spec_toggle(x, x | y), y),
{
}

/// Toggling an all-clear group turns the whole group on: from a zero value,
/// toggling the union of two nonzero disjoint masks enables both.
pub proof fn lemma_toggle_sets_clear_group(x: u64, y: u64)
    by (bit_vector)
    requires
        x != 0,
        y != 0,
        x & y == 0,
    ensures
        spec_is_enabled(spec_toggle(0, x | y), x),
        spec_is_enabled(spec_toggle(0, x | y), y),
{
}

/// Toggling a mask twice from a clear value returns to the clear value.
pub proof fn lemma_double_toggle_round_trips(x: u64)
    by (bit_vector)
    ensures
        spec_toggle(spec_toggle(0, x), x) == 0,
{
}

/// `is_enabled` has any-bit semantics: a value holding only a nonzero `x`
/// reports the union of `x` and a disjoint `y` as enabled, even though the
/// bits of `y` are clear.
pub proof fn lemma_is_enabled_any_bit(x: u64, y: u64)
    by (bit_vector)
    requires
        x != 0,
        x & y == 0,
    ensures
        spec_is_enabled(x, x | y),
{
}

} // verus!
