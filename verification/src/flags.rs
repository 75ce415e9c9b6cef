use crate::bits::{
    lemma_members_and, lemma_members_and_not, lemma_members_disjoint, lemma_members_or,
    lemma_members_subset, lemma_members_xor, lemma_members_zero, members,
};
use std::marker::PhantomData;
use std::ops::{BitAnd, BitOr, BitXor, Not, Sub};
use vstd::prelude::*;
use vstd::std_specs::ops::{BitAndSpecImpl, BitOrSpecImpl, BitXorSpecImpl, NotSpecImpl, SubSpecImpl};

verus! {

/// A family of flags: which bits of the word have a name.
pub trait FlagKind {
    /// The word with every named bit set.
    spec fn known() -> u64;

    fn known_bits() -> (bits: u64)
        ensures
            bits == Self::known(),
    ;
}

/// A set of flags of the family `K`, carried as one word.
///
/// The framework may hand out bits that have no name here, so every word is
/// a value of this type.
#[derive(PartialEq, Eq, Debug)]
pub struct Flags<K> {
    pub bits: u64,
    pub kind: PhantomData<K>,
}

impl<K> Clone for Flags<K> {
    fn clone(&self) -> (copy: Self)
        ensures
            copy == *self,
    {
        Flags { bits: self.bits, kind: PhantomData }
    }
}

impl<K> Copy for Flags<K> {

}

impl<K> View for Flags<K> {
    type V = Set<nat>;

    /// The positions of the bits that are set.
    open spec fn view(&self) -> Set<nat> {
        members(self.bits)
    }
}

impl<K: FlagKind> Flags<K> {
    /// The positions of the named bits.
    pub open spec fn named() -> Set<nat> {
        members(K::known())
    }

    /// The set with no flag.
    pub fn empty() -> (s: Self)
        ensures
            s.bits == 0,
            s@ == Set::<nat>::empty(),
    {
        proof {
            lemma_members_zero(0);
        }
        Flags { bits: 0, kind: PhantomData }
    }

    /// The set of every named flag.
    pub fn all() -> (s: Self)
        ensures
            s.bits == K::known(),
            s@ == Self::named(),
    {
        Flags { bits: K::known_bits(), kind: PhantomData }
    }

    /// The word that carries this set.
    pub fn bits(&self) -> (bits: u64)
        ensures
            bits == self.bits,
    {
        self.bits
    }

    /// The set carried by `bits`, unless `bits` holds a bit without a name.
    pub fn from_bits(bits: u64) -> (r: Option<Self>)
        ensures
            r is Some <==> members(bits).subset_of(Self::named()),
            r matches Some(s) ==> s.bits == bits,
    {
        let known = K::known_bits();
        proof {
            lemma_members_subset(known, bits);
            assert(known & bits == bits & known) by (bit_vector);
        }
        if bits & known == bits {
            Some(Flags { bits, kind: PhantomData })
        } else {
            None
        }
    }

    /// The set carried by `bits`, with every bit of it, named or not.
    pub fn from_bits_retain(bits: u64) -> (s: Self)
        ensures
            s.bits == bits,
    {
        Flags { bits, kind: PhantomData }
    }

    /// The set carried by `bits` without the bits that have no name.
    pub fn from_bits_truncate(bits: u64) -> (s: Self)
        ensures
            s.bits == bits & K::known(),
            s@ == members(bits).intersect(Self::named()),
    {
        proof {
            lemma_members_and(bits, K::known());
        }
        Flags { bits: bits & K::known_bits(), kind: PhantomData }
    }

    /// Whether no flag is set.
    pub fn is_empty(&self) -> (r: bool)
        ensures
            r <==> self@ == Set::<nat>::empty(),
            r <==> self.bits == 0,
    {
        proof {
            lemma_members_zero(self.bits);
        }
        self.bits == 0
    }

    /// Whether the set is exactly the set of the named flags.
    pub fn is_all(&self) -> (r: bool)
        ensures
            r <==> self@ == Self::named(),
            r <==> self.bits == K::known(),
    {
        proof {
            if self@ == Self::named() {
                crate::bits::lemma_members_injective(self.bits, K::known());
            }
        }
        self.bits == K::known_bits()
    }

    /// Whether the two sets share a flag.
    pub fn intersects(&self, other: &Self) -> (r: bool)
        ensures
            r <==> !self@.disjoint(other@),
            r <==> self.bits & other.bits != 0,
    {
        proof {
            lemma_members_disjoint(self.bits, other.bits);
        }
        self.bits & other.bits != 0
    }

    /// Whether every flag of `other` is set in `self`.
    pub fn contains(&self, other: &Self) -> (r: bool)
        ensures
            r <==> other@.subset_of(self@),
            r <==> self.bits & other.bits == other.bits,
    {
        proof {
            lemma_members_subset(self.bits, other.bits);
        }
        self.bits & other.bits == other.bits
    }

    /// Sets the flags of `other`.
    pub fn insert(&mut self, other: &Self)
        ensures
            final(self).bits == old(self).bits | other.bits,
            final(self)@ == old(self)@.union(other@),
    {
        proof {
            lemma_members_or(self.bits, other.bits);
        }
        self.bits = self.bits | other.bits;
    }

    /// Clears the flags of `other`.
    pub fn remove(&mut self, other: &Self)
        ensures
            final(self).bits == old(self).bits & !other.bits,
            final(self)@ == old(self)@.difference(other@),
    {
        proof {
            lemma_members_and_not(self.bits, other.bits);
        }
        self.bits = self.bits & !other.bits;
    }

    /// Flips the flags of `other`.
    pub fn toggle(&mut self, other: &Self)
        ensures
            final(self).bits == old(self).bits ^ other.bits,
            final(self)@ == old(self)@.difference(other@).union(other@.difference(old(self)@)),
    {
        proof {
            lemma_members_xor(self.bits, other.bits);
        }
        self.bits = self.bits ^ other.bits;
    }
}

impl<K> BitOr for Flags<K> {
    type Output = Flags<K>;

    /// The flags of either set.
    fn bitor(self, rhs: Flags<K>) -> (r: Flags<K>)
        ensures
            r@ == self@.union(rhs@),
    {
        proof {
            lemma_members_or(self.bits, rhs.bits);
        }
        Flags { bits: self.bits | rhs.bits, kind: PhantomData }
    }
}

impl<K> BitOrSpecImpl for Flags<K> {
    open spec fn obeys_bitor_spec() -> bool {
        true
    }

    open spec fn bitor_req(self, rhs: Flags<K>) -> bool {
        true
    }

    open spec fn bitor_spec(self, rhs: Flags<K>) -> Flags<K> {
        Flags { bits: self.bits | rhs.bits, kind: PhantomData }
    }
}

impl<K> BitAnd for Flags<K> {
    type Output = Flags<K>;

    /// The flags that the two sets share.
    fn bitand(self, rhs: Flags<K>) -> (r: Flags<K>)
        ensures
            r@ == self@.intersect(rhs@),
    {
        proof {
            lemma_members_and(self.bits, rhs.bits);
        }
        Flags { bits: self.bits & rhs.bits, kind: PhantomData }
    }
}

impl<K> BitAndSpecImpl for Flags<K> {
    open spec fn obeys_bitand_spec() -> bool {
        true
    }

    open spec fn bitand_req(self, rhs: Flags<K>) -> bool {
        true
    }

    open spec fn bitand_spec(self, rhs: Flags<K>) -> Flags<K> {
        Flags { bits: self.bits & rhs.bits, kind: PhantomData }
    }
}

impl<K> BitXor for Flags<K> {
    type Output = Flags<K>;

    /// The flags that exactly one of the two sets has.
    fn bitxor(self, rhs: Flags<K>) -> (r: Flags<K>)
        ensures
            r@ == self@.difference(rhs@).union(rhs@.difference(self@)),
    {
        proof {
            lemma_members_xor(self.bits, rhs.bits);
        }
        Flags { bits: self.bits ^ rhs.bits, kind: PhantomData }
    }
}

impl<K> BitXorSpecImpl for Flags<K> {
    open spec fn obeys_bitxor_spec() -> bool {
        true
    }

    open spec fn bitxor_req(self, rhs: Flags<K>) -> bool {
        true
    }

    open spec fn bitxor_spec(self, rhs: Flags<K>) -> Flags<K> {
        Flags { bits: self.bits ^ rhs.bits, kind: PhantomData }
    }
}

impl<K> Sub for Flags<K> {
    type Output = Flags<K>;

    /// The flags of `self` that `rhs` lacks.
    fn sub(self, rhs: Flags<K>) -> (r: Flags<K>)
        ensures
            r@ == self@.difference(rhs@),
    {
        proof {
            lemma_members_and_not(self.bits, rhs.bits);
        }
        Flags { bits: self.bits & !rhs.bits, kind: PhantomData }
    }
}

impl<K> SubSpecImpl for Flags<K> {
    open spec fn obeys_sub_spec() -> bool {
        true
    }

    open spec fn sub_req(self, rhs: Flags<K>) -> bool {
        true
    }

    open spec fn sub_spec(self, rhs: Flags<K>) -> Flags<K> {
        Flags { bits: self.bits & !rhs.bits, kind: PhantomData }
    }
}

impl<K: FlagKind> Not for Flags<K> {
    type Output = Flags<K>;

    /// The named flags that `self` lacks.
    fn not(self) -> (r: Flags<K>)
        ensures
            r@ == Self::named().difference(self@),
    {
        proof {
            lemma_members_and_not(K::known(), self.bits);
        }
        Flags { bits: K::known_bits() & !self.bits, kind: PhantomData }
    }
}

impl<K: FlagKind> NotSpecImpl for Flags<K> {
    open spec fn obeys_not_spec() -> bool {
        true
    }

    open spec fn not_req(self) -> bool {
        true
    }

    open spec fn not_spec(self) -> Flags<K> {
        Flags { bits: K::known() & !self.bits, kind: PhantomData }
    }
}

} // verus!
