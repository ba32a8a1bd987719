use vstd::prelude::*;

use crate::snapshot::Same;

verus! {

/// A change of some value: either by a relative amount, or to an absolute target.
#[derive(Debug, Clone, Copy)]
pub enum Change<T> {
    Add(T),
    SetTo(T),
}

impl Change<i64> {
    /// The value that `apply` produces from `value`.
    pub open spec fn applied(self, value: int) -> int {
        match self {
            Change::Add(delta) => value + delta,
            Change::SetTo(target) => target as int,
        }
    }

    /// The delta that `into_delta` produces relative to `reference`.
    pub open spec fn delta_from(self, reference: int) -> int {
        match self {
            Change::Add(delta) => delta as int,
            Change::SetTo(target) => target - reference,
        }
    }

    /// Convert the change into a relative delta from the reference value.
    pub fn into_delta(self, reference_value: i64) -> (delta: i64)
        requires
            i64::MIN <= self.delta_from(reference_value as int) <= i64::MAX,
        ensures
            delta == self.delta_from(reference_value as int),
    {
        match self {
            Change::Add(delta) => delta,
            Change::SetTo(target_value) => target_value - reference_value,
        }
    }

    /// Apply the change to the value.
    pub fn apply(&self, value: &mut i64)
        requires
            i64::MIN <= self.applied(*old(value) as int) <= i64::MAX,
        ensures
            *final(value) == self.applied(*old(value) as int),
    {
        *value = match *self {
            Change::Add(delta) => *value + delta,
            Change::SetTo(target) => target,
        };
    }
}

impl<T: Same> Change<T> {
    /// Whether `is_noop` holds with the given zero delta.
    pub open spec fn noop_with(self, zero_delta: T) -> bool {
        match self {
            Change::Add(delta) => delta == zero_delta,
            Change::SetTo(_) => false,
        }
    }

    /// Whether the change does nothing: an addition of the zero delta.
    pub fn is_noop(&self, zero_delta: &T) -> (noop: bool)
        ensures
            noop == self.noop_with(*zero_delta),
    {
        match self {
            Change::Add(delta) => delta.same(zero_delta),
            Change::SetTo(_) => false,
        }
    }
}

/// Applying a change is the same as adding its delta relative to the current value.
pub proof fn law_apply_adds_delta(change: Change<i64>, value: int)
    ensures
        change.applied(value) == value + change.delta_from(value),
{
}

/// A change that is a no-op (relative to a zero delta of 0) leaves the value unchanged.
pub proof fn law_noop_keeps_value(change: Change<i64>, value: int)
    requires
        change.noop_with(0i64),
    ensures
        change.applied(value) == value,
{
}

/// Setting a value twice is the same as setting it to the second target.
pub proof fn law_set_overrides(first: i64, second: i64, value: int)
    ensures
        Change::SetTo(second).applied(Change::SetTo(first).applied(value)) == Change::SetTo(
            second,
        ).applied(value),
{
}

} // verus!
