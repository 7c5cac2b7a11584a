//! Snapshot pairs: the change-detection primitive every rule is built from.

use vstd::prelude::*;

verus! {

/// A telemetry value that executable code can compare, with the comparison
/// agreeing with mathematical equality on the values.
pub trait SnapshotValue: Copy {
    fn equals(&self, other: &Self) -> (r: bool)
        ensures
            r == (self == other),
    ;
}

impl SnapshotValue for u16 {
    fn equals(&self, other: &Self) -> (r: bool) {
        *self == *other
    }
}

impl SnapshotValue for u32 {
    fn equals(&self, other: &Self) -> (r: bool) {
        *self == *other
    }
}

impl SnapshotValue for u64 {
    fn equals(&self, other: &Self) -> (r: bool) {
        *self == *other
    }
}

/// A change-tracking cell holding the value a telemetry field had when it was
/// last refreshed (`old`) next to the value it holds now (`current`).
#[derive(Clone, Copy, Debug, PartialEq, Eq)]
pub struct Pair<T> {
    pub old: T,
    pub current: T,
}

impl<T> Pair<T> {
    /// The pair after one successful read of `value`: the previous `current`
    /// moves into `old`, and `value` becomes `current`.
    pub open spec fn updated(self, value: T) -> Pair<T> {
        Pair { old: self.current, current: value }
    }

    /// The pair after a read attempt: a successful read shifts the pair, a
    /// failed read (`None`) leaves it unchanged, so stale data reads as
    /// "no change this tick".
    pub open spec fn refreshed(self, reading: Option<T>) -> Pair<T> {
        match reading {
            Option::Some(value) => self.updated(value),
            Option::None => self,
        }
    }

    pub open spec fn spec_changed(self) -> bool {
        self.old != self.current
    }

    pub open spec fn spec_changed_to(self, value: T) -> bool {
        self.old != value && self.current == value
    }

    pub open spec fn spec_changed_from_to(self, from: T, to: T) -> bool {
        self.old == from && self.current == to && self.old != self.current
    }

    pub open spec fn spec_either(self, value: T) -> bool {
        self.current == value || self.old == value
    }
}

impl<T: SnapshotValue> Pair<T> {
    /// Builds a pair that reads as unchanged, holding `value` on both sides.
    pub fn steady(value: T) -> (r: Self)
        ensures
            r == (Pair { old: value, current: value }),
    {
        Pair { old: value, current: value }
    }

    /// Stores the previous `current` into `old` and `value` into `current`.
    pub fn update(&mut self, value: T)
        ensures
            *final(self) == old(self).updated(value),
    {
        self.old = self.current;
        self.current = value;
    }

    /// Feeds one read attempt into the pair: fail-soft, a failed read leaves
    /// the pair exactly as it was.
    pub fn refresh(&mut self, reading: Option<T>)
        ensures
            *final(self) == old(self).refreshed(reading),
    {
        if let Some(value) = reading {
            self.update(value);
        }
    }

    /// True when the last refresh changed the value.
    pub fn changed(&self) -> (r: bool)
        ensures
            r == self.spec_changed(),
    {
        !self.old.equals(&self.current)
    }

    /// True when the value just became `value`: it holds now and did not
    /// hold before.
    pub fn changed_to(&self, value: &T) -> (r: bool)
        ensures
            r == self.spec_changed_to(*value),
    {
        !self.old.equals(value) && self.current.equals(value)
    }

    /// True when the value just moved from `from` to `to`.
    pub fn changed_from_to(&self, from: &T, to: &T) -> (r: bool)
        ensures
            r == self.spec_changed_from_to(*from, *to),
    {
        self.old.equals(from) && self.current.equals(to) && !self.old.equals(&self.current)
    }

    /// True when either side of the pair equals `value`.
    pub fn either(&self, value: T) -> (r: bool)
        ensures
            r == self.spec_either(value),
    {
        self.current.equals(&value) || self.old.equals(&value)
    }
}

/// Law: after `update(a)` then `update(b)` the pair holds `old == a` and
/// `current == b`, and it reports a change exactly when `a != b`.
pub proof fn lemma_update_tracks_change<T>(p: Pair<T>, a: T, b: T)
    ensures
        p.updated(a).updated(b).old == a,
        p.updated(a).updated(b).current == b,
        p.updated(a).updated(b).spec_changed() <==> a != b,
{
}

} // verus!
