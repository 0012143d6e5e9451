//! Flags that describe how the fields of a font identity were obtained.

use vstd::prelude::*;

verus! {

/// One provenance fact about a font identity.
#[derive(Clone, Copy, PartialEq, Eq, Structural, Debug)]
pub enum FontIdFlag {
    /// The name is a true PostScript name, not a fallback.
    HasPostscriptName,
    /// The identity was derived from an OpenType `head` table.
    IsOpentype,
}

impl FontIdFlag {
    /// The bit that stands for this flag.
    pub open spec fn mask_spec(self) -> u8 {
        match self {
            FontIdFlag::HasPostscriptName => 0x01,
            FontIdFlag::IsOpentype => 0x02,
        }
    }

    /// The bit that stands for this flag.
    #[verifier::when_used_as_spec(mask_spec)]
    pub fn mask(self) -> (r: u8)
        ensures
            r == self.mask_spec(),
    {
        match self {
            FontIdFlag::HasPostscriptName => 0x01,
            FontIdFlag::IsOpentype => 0x02,
        }
    }
}

/// The bits of a set of flags.
pub open spec fn bits_of(s: Set<FontIdFlag>) -> u8 {
    ((if s.contains(FontIdFlag::HasPostscriptName) { 1u8 } else { 0u8 }) | (if s.contains(
        FontIdFlag::IsOpentype,
    ) {
        2u8
    } else {
        0u8
    }))
}

/// A set of flags, held as bits; no bit outside the defined flags is ever set.
#[derive(Clone, Copy, PartialEq, Eq, Structural, Debug)]
pub struct FontIdFlags {
    bits: u8,
}

impl View for FontIdFlags {
    type V = Set<FontIdFlag>;

    closed spec fn view(&self) -> Set<FontIdFlag> {
        Set::new(|f: FontIdFlag| self.bits & f.mask() != 0)
    }
}

impl FontIdFlags {
    #[verifier::type_invariant]
    spec fn defined_bits_only(self) -> bool {
        self.bits < 4
    }

    /// The set without any flag.
    pub fn empty() -> (r: FontIdFlags)
        ensures
            r@ == Set::<FontIdFlag>::empty(),
    {
        let r = FontIdFlags { bits: 0 };
        assert(r@ =~= Set::<FontIdFlag>::empty()) by {
            assert(0u8 & 1u8 == 0 && 0u8 & 2u8 == 0) by (bit_vector);
        }
        r
    }

    /// The set of the one flag `f`.
    pub fn from_flag(f: FontIdFlag) -> (r: FontIdFlags)
        ensures
            r@ == set![f],
    {
        let r = FontIdFlags { bits: f.mask() };
        assert(r@ =~= set![f]) by {
            assert(1u8 & 1u8 != 0 && 1u8 & 2u8 == 0 && 2u8 & 1u8 == 0 && 2u8 & 2u8 != 0)
                by (bit_vector);
        }
        r
    }

    /// Whether flag `f` is in the set.
    pub fn contains(&self, f: FontIdFlag) -> (r: bool)
        ensures
            r == self@.contains(f),
    {
        self.bits & f.mask() != 0
    }

    /// The flags that are in either set.
    pub fn union(self, other: FontIdFlags) -> (r: FontIdFlags)
        ensures
            r@ == self@.union(other@),
    {
        proof {
            use_type_invariant(&self);
            use_type_invariant(&other);
        }
        let a = self.bits;
        let b = other.bits;
        assert((a | b) < 4 && ((a | b) & 1 != 0 <==> (a & 1 != 0 || b & 1 != 0)) && ((a | b) & 2
            != 0 <==> (a & 2 != 0 || b & 2 != 0))) by (bit_vector)
            requires
                a < 4,
                b < 4,
        ;
        let r = FontIdFlags { bits: a | b };
        assert(r@ =~= self@.union(other@));
        r
    }

    /// Adds flag `f` to the set.
    pub fn insert(&mut self, f: FontIdFlag)
        ensures
            final(self)@ == old(self)@.insert(f),
    {
        let r = self.union(FontIdFlags::from_flag(f));
        assert(r@ =~= old(self)@.insert(f));
        *self = r;
    }

    /// The bits of the set: 0x01 for the PostScript-name flag, 0x02 for the OpenType flag.
    pub fn bits(&self) -> (r: u8)
        ensures
            r == bits_of(self@),
    {
        proof {
            use_type_invariant(self);
        }
        let b = self.bits;
        assert(b < 4 ==> b == ((if b & 1 != 0 { 1u8 } else { 0u8 }) | (if b & 2 != 0 { 2u8 } else {
            0u8
        }))) by (bit_vector);
        assert(self@.contains(FontIdFlag::HasPostscriptName) == (b & 1 != 0));
        assert(self@.contains(FontIdFlag::IsOpentype) == (b & 2 != 0));
        b
    }
}

} // verus!
