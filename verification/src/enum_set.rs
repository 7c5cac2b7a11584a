//! A fixed small membership set over a closed enumeration, one bit per member.

use core::marker::PhantomData;
use vstd::prelude::*;

verus! {

/// A type whose values can be stored in an [`EnumSet`]: each value names the
/// bit that stands for it, or `None` for values the set does not track.
pub trait EnumSetMember {
    spec fn spec_ordinal(&self) -> Option<u8>;

    fn ordinal(&self) -> (r: Option<u8>)
        ensures
            r == self.spec_ordinal(),
    ;
}

/// A set of enumeration members, stored as one bit per member in a 128-bit
/// word.  Created empty at run start, append-only for the run's lifetime.
#[derive(Debug)]
pub struct EnumSet<T>(pub u128, pub PhantomData<T>);

impl<T> EnumSet<T> {
    /// The raw bit image of the set.
    pub open spec fn bits(self) -> u128 {
        self.0
    }

    /// Whether the bit named `ordinal` is set.
    pub open spec fn spec_has(self, ordinal: u8) -> bool {
        self.0 & (1u128 << ordinal) != 0
    }

    /// The set of ordinals recorded so far.
    pub open spec fn members(self) -> Set<u8> {
        Set::new(|ordinal: u8| ordinal < 128 && self.spec_has(ordinal))
    }
}

impl<T: EnumSetMember> EnumSet<T> {
    pub fn empty() -> (r: Self)
        ensures
            r.bits() == 0,
    {
        EnumSet(0, PhantomData)
    }

    /// Records `item` in the set.  Returns true exactly when the item has an
    /// ordinal in range and was not yet present; inserting the same item
    /// again returns false and leaves the set unchanged.
    pub fn insert(&mut self, item: &T) -> (r: bool)
        ensures
            (match item.spec_ordinal() {
                Option::Some(ord) => if ord < 128 {
                    &&& final(self).bits() == old(self).bits() | (1u128 << ord)
                    &&& r == !old(self).spec_has(ord)
                    &&& final(self).members() == old(self).members().insert(ord)
                } else {
                    &&& final(self).bits() == old(self).bits()
                    &&& r == false
                },
                Option::None => final(self).bits() == old(self).bits() && r == false,
            }),
    {
        let ord = match item.ordinal() {
            Some(ord) => ord,
            None => {
                return false;
            },
        };
        if ord >= 128 {
            return false;
        }

        let mask: u128 = 1u128 << ord;
        let previous: u128 = self.0 & mask;
        self.0 = self.0 | mask;
        proof {
            let pre = *old(self);
            assert forall|b: u8|
                self.members().contains(b) == pre.members().insert(ord).contains(b) by {
                if b < 128 {
                    lemma_or_mask_bit(pre.bits(), ord, b);
                }
            }
            assert(self.members() =~= pre.members().insert(ord));
        }
        previous == 0
    }

    /// The raw bit image, for display and diagnostics.
    pub fn inner(&self) -> (r: u128)
        ensures
            r == self.bits(),
    {
        self.0
    }
}

/// Setting the bit named `ord` affects exactly that bit.
proof fn lemma_or_mask_bit(bits: u128, ord: u8, b: u8)
    by (bit_vector)
    requires
        ord < 128,
        b < 128,
    ensures
        ((bits | (1u128 << ord)) & (1u128 << b) != 0) == ((bits & (1u128 << b) != 0) || b == ord),
{
}

/// Law: one insertion adds exactly the inserted member.  A second insertion
/// of the same member finds its bit already set, so it reports the member as
/// already present and leaves the set unchanged: each member is recorded at
/// most once, and the set grows by at most one member per distinct ordinal.
pub proof fn lemma_insert_at_most_once<T>(s: EnumSet<T>, ord: u8)
    requires
        ord < 128,
    ensures
        (s.bits() | (1u128 << ord)) & (1u128 << ord) != 0,
        (s.bits() | (1u128 << ord)) | (1u128 << ord) == s.bits() | (1u128 << ord),
        forall|b: u8|
            b < 128 ==> (((s.bits() | (1u128 << ord)) & (1u128 << b) != 0) == (s.spec_has(b) || b
                == ord)),
{
    let bits = s.bits();
    assert((bits | (1u128 << ord)) & (1u128 << ord) != 0) by (bit_vector)
        requires
            ord < 128,
    ;
    assert((bits | (1u128 << ord)) | (1u128 << ord) == bits | (1u128 << ord)) by (bit_vector);
    assert forall|b: u8|
        b < 128 implies (((bits | (1u128 << ord)) & (1u128 << b) != 0) == (s.spec_has(b) || b
        == ord)) by {
        lemma_or_mask_bit(bits, ord, b);
    }
}

} // verus!
