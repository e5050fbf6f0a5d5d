//! The flag word that the framework hands to every hook.

use vstd::prelude::*;

verus! {

/// One named bit of the flag word.
#[allow(non_camel_case_types)]
#[derive(Clone, Copy, Debug, PartialEq, Eq, Structural)]
pub enum PamFlag {
    /// Module data is being replaced, not destroyed at the end of the transaction
    DATA_REPLACE,
    /// The module should not generate any messages
    SILENT,
    /// Fail if the user has no authentication token
    DISALLOW_NULL_AUTHTOK,
    /// Set user credentials for an authentication service
    ESTABLISH_CRED,
    /// Delete user credentials associated with an authentication service
    DELETE_CRED,
    /// Reinitialize user credentials
    REINITIALIZE_CRED,
    /// Extend lifetime of user credentials
    REFRESH_CRED,
    /// Change the authentication token only if it has expired
    CHANGE_EXPIRED_AUTHTOK,
}

/// Every named bit, or-ed together.
pub const ALL_BITS: i32 = 0x2000_803f;

impl PamFlag {
    /// The bit of the flag word that this name stands for.
    pub open spec fn spec_bits(self) -> i32 {
        match self {
            PamFlag::DATA_REPLACE => 0x2000_0000i32,
            PamFlag::SILENT => 0x8000i32,
            PamFlag::DISALLOW_NULL_AUTHTOK => 0x0001i32,
            PamFlag::ESTABLISH_CRED => 0x0002i32,
            PamFlag::DELETE_CRED => 0x0004i32,
            PamFlag::REINITIALIZE_CRED => 0x0008i32,
            PamFlag::REFRESH_CRED => 0x0010i32,
            PamFlag::CHANGE_EXPIRED_AUTHTOK => 0x0020i32,
        }
    }

    /// The bit of the flag word that this name stands for.
    pub fn bits(self) -> (b: i32)
        ensures
            b == self.spec_bits(),
    {
        match self {
            PamFlag::DATA_REPLACE => 0x2000_0000,
            PamFlag::SILENT => 0x8000,
            PamFlag::DISALLOW_NULL_AUTHTOK => 0x0001,
            PamFlag::ESTABLISH_CRED => 0x0002,
            PamFlag::DELETE_CRED => 0x0004,
            PamFlag::REINITIALIZE_CRED => 0x0008,
            PamFlag::REFRESH_CRED => 0x0010,
            PamFlag::CHANGE_EXPIRED_AUTHTOK => 0x0020,
        }
    }
}

/// A set of flags, packed into one word as the framework passes it.
///
/// Bits that have no name are carried along untouched, so that a word from a
/// newer framework survives the trip through a module; they never show up as
/// a named flag.
#[derive(Clone, Copy, Debug, PartialEq, Eq, Structural)]
pub struct PamFlags {
    bits: i32,
}

impl View for PamFlags {
    type V = Set<PamFlag>;

    /// The named flags that are set.
    open spec fn view(&self) -> Set<PamFlag> {
        Set::new(|f: PamFlag| self.spec_bits() & f.spec_bits() != 0)
    }
}

/// A bit of an or of two words is a bit of one of them.
proof fn lemma_or_bit(a: i32, b: i32, c: i32)
    ensures
        ((a | b) & c != 0) == ((a & c != 0) || (b & c != 0)),
{
    assert(((a | b) & c != 0) == ((a & c != 0) || (b & c != 0))) by (bit_vector);
}

/// Whether `c` has exactly one bit set, within the range of the named flags.
spec fn single_bit(c: i32) -> bool {
    c == 0x2000_0000i32 || c == 0x8000i32 || c == 0x0001i32 || c == 0x0002i32 || c == 0x0004i32
        || c == 0x0008i32 || c == 0x0010i32 || c == 0x0020i32
}

/// A single bit is in the and of two words when it is in both.
proof fn lemma_and_bit(a: i32, b: i32, c: i32)
    requires
        single_bit(c),
    ensures
        ((a & b) & c != 0) == ((a & c != 0) && (b & c != 0)),
{
    assert(single_bit(c) ==> ((a & b) & c != 0) == ((a & c != 0) && (b & c != 0)))
        by (bit_vector);
}

/// A single bit is left after clearing the bits of `b` when it is in `a` and not in `b`.
proof fn lemma_clear_bit(a: i32, b: i32, c: i32)
    requires
        single_bit(c),
    ensures
        ((a & !b) & c != 0) == ((a & c != 0) && (b & c == 0)),
{
    assert(single_bit(c) ==> ((a & !b) & c != 0) == ((a & c != 0) && (b & c == 0)))
        by (bit_vector);
}

/// A single bit that is in `a` is in every word that holds all bits of `a`.
proof fn lemma_contained_bit(a: i32, b: i32, c: i32)
    requires
        a & b == b,
        b & c != 0,
    ensures
        a & c != 0,
{
    assert(a & b == b && b & c != 0 ==> a & c != 0) by (bit_vector);
}

/// A named bit meets another named bit only where the two are the same.
proof fn lemma_distinct_bits(c: i32, d: i32)
    requires
        single_bit(c),
        single_bit(d),
    ensures
        (c & d != 0) == (c == d),
        ALL_BITS & c != 0,
        0i32 & c == 0,
{
    assert(single_bit(c) && single_bit(d) ==> (c & d != 0) == (c == d)) by (bit_vector);
    assert(single_bit(c) ==> 0x2000_803fi32 & c != 0) by (bit_vector);
    assert(0i32 & c == 0) by (bit_vector);
}

/// Two words of named bits only that agree on every named bit are the same word.
proof fn lemma_named_bits_determine(x: i32, y: i32)
    requires
        x & !ALL_BITS == 0,
        y & !ALL_BITS == 0,
        forall|g: PamFlag| (x & #[trigger] g.spec_bits() != 0) == (y & g.spec_bits() != 0),
    ensures
        x == y,
{
    assert((x & 0x2000_0000i32 != 0) == (y & 0x2000_0000i32 != 0)) by {
        assert(PamFlag::DATA_REPLACE.spec_bits() == 0x2000_0000i32);
    }
    assert((x & 0x8000i32 != 0) == (y & 0x8000i32 != 0)) by {
        assert(PamFlag::SILENT.spec_bits() == 0x8000i32);
    }
    assert((x & 0x0001i32 != 0) == (y & 0x0001i32 != 0)) by {
        assert(PamFlag::DISALLOW_NULL_AUTHTOK.spec_bits() == 0x0001i32);
    }
    assert((x & 0x0002i32 != 0) == (y & 0x0002i32 != 0)) by {
        assert(PamFlag::ESTABLISH_CRED.spec_bits() == 0x0002i32);
    }
    assert((x & 0x0004i32 != 0) == (y & 0x0004i32 != 0)) by {
        assert(PamFlag::DELETE_CRED.spec_bits() == 0x0004i32);
    }
    assert((x & 0x0008i32 != 0) == (y & 0x0008i32 != 0)) by {
        assert(PamFlag::REINITIALIZE_CRED.spec_bits() == 0x0008i32);
    }
    assert((x & 0x0010i32 != 0) == (y & 0x0010i32 != 0)) by {
        assert(PamFlag::REFRESH_CRED.spec_bits() == 0x0010i32);
    }
    assert((x & 0x0020i32 != 0) == (y & 0x0020i32 != 0)) by {
        assert(PamFlag::CHANGE_EXPIRED_AUTHTOK.spec_bits() == 0x0020i32);
    }
    assert(x == y) by (bit_vector)
        requires
            x & !0x2000_803fi32 == 0,
            y & !0x2000_803fi32 == 0,
            (x & 0x2000_0000i32 != 0) == (y & 0x2000_0000i32 != 0),
            (x & 0x8000i32 != 0) == (y & 0x8000i32 != 0),
            (x & 0x0001i32 != 0) == (y & 0x0001i32 != 0),
            (x & 0x0002i32 != 0) == (y & 0x0002i32 != 0),
            (x & 0x0004i32 != 0) == (y & 0x0004i32 != 0),
            (x & 0x0008i32 != 0) == (y & 0x0008i32 != 0),
            (x & 0x0010i32 != 0) == (y & 0x0010i32 != 0),
            (x & 0x0020i32 != 0) == (y & 0x0020i32 != 0),
    ;
}

impl PamFlags {
    /// The word as the framework sees it, unnamed bits included.
    pub closed spec fn spec_bits(self) -> i32 {
        self.bits
    }

    /// The word as the framework sees it, unnamed bits included.
    pub fn bits(&self) -> (b: i32)
        ensures
            b == self.spec_bits(),
    {
        self.bits
    }

    /// The set without any flag.
    pub fn empty() -> (f: PamFlags)
        ensures
            f.spec_bits() == 0,
            f@ == Set::<PamFlag>::empty(),
    {
        let f = PamFlags { bits: 0 };
        proof {
            assert forall|g: PamFlag| !f@.contains(g) by {
                lemma_distinct_bits(g.spec_bits(), g.spec_bits());
            }
            assert(f@ =~= Set::<PamFlag>::empty());
        }
        f
    }

    /// The set of every named flag.
    pub fn all() -> (f: PamFlags)
        ensures
            f.spec_bits() == ALL_BITS,
            forall|g: PamFlag| f@.contains(g),
    {
        let f = PamFlags { bits: ALL_BITS };
        proof {
            assert forall|g: PamFlag| f@.contains(g) by {
                lemma_distinct_bits(g.spec_bits(), g.spec_bits());
            }
        }
        f
    }

    /// The set that holds one named flag and nothing else.
    pub fn of(flag: PamFlag) -> (f: PamFlags)
        ensures
            f.spec_bits() == flag.spec_bits(),
            f@ == set![flag],
    {
        let f = PamFlags { bits: flag.bits() };
        proof {
            assert forall|g: PamFlag| f@.contains(g) == (g == flag) by {
                lemma_distinct_bits(flag.spec_bits(), g.spec_bits());
            }
            assert(f@ =~= set![flag]);
        }
        f
    }

    /// Takes a word from the framework as it is, keeping bits without a name.
    pub fn from_bits_unchecked(bits: i32) -> (f: PamFlags)
        ensures
            f == Self::spec_from_bits_unchecked(bits),
            f.spec_bits() == bits,
    {
        PamFlags { bits }
    }

    /// Takes a word from the framework, dropping bits without a name.
    pub fn from_bits_truncate(bits: i32) -> (f: PamFlags)
        ensures
            f.spec_bits() == bits & ALL_BITS,
            f@ == Self::spec_from_bits_unchecked(bits)@,
    {
        let f = PamFlags { bits: bits & ALL_BITS };
        proof {
            assert forall|g: PamFlag|
                f@.contains(g) == Self::spec_from_bits_unchecked(bits)@.contains(g) by {
                lemma_and_bit(bits, ALL_BITS, g.spec_bits());
                lemma_distinct_bits(g.spec_bits(), g.spec_bits());
            }
            assert(f@ =~= Self::spec_from_bits_unchecked(bits)@);
        }
        f
    }

    /// Takes a word from the framework if every bit of it has a name.
    pub fn from_bits(bits: i32) -> (r: Option<PamFlags>)
        ensures
            bits & !ALL_BITS == 0 ==> r == Some(Self::spec_from_bits_unchecked(bits)),
            bits & !ALL_BITS != 0 ==> r.is_none(),
    {
        if bits & !ALL_BITS == 0 {
            Some(PamFlags { bits })
        } else {
            None
        }
    }

    /// The set whose word is `bits`.
    pub closed spec fn spec_from_bits_unchecked(bits: i32) -> PamFlags {
        PamFlags { bits }
    }

    /// Whether no bit is set, named or not.
    pub fn is_empty(&self) -> (b: bool)
        ensures
            b == (self.spec_bits() == 0),
    {
        self.bits == 0
    }

    /// Whether the named flag is set.
    pub fn has(&self, flag: PamFlag) -> (b: bool)
        ensures
            b == self@.contains(flag),
    {
        self.bits & flag.bits() != 0
    }

    /// Whether every bit of `other` is set in `self`.
    pub fn contains(&self, other: PamFlags) -> (b: bool)
        ensures
            b == (self.spec_bits() & other.spec_bits() == other.spec_bits()),
            b ==> other@.subset_of(self@),
    {
        let b = self.bits & other.bits == other.bits;
        proof {
            if b {
                assert forall|g: PamFlag| other@.contains(g) implies self@.contains(g) by {
                    lemma_contained_bit(self.bits, other.bits, g.spec_bits());
                }
            }
        }
        b
    }

    /// Whether some bit is set in both.
    pub fn intersects(&self, other: PamFlags) -> (b: bool)
        ensures
            b == (self.spec_bits() & other.spec_bits() != 0),
            !b ==> self@.disjoint(other@),
    {
        let b = self.bits & other.bits != 0;
        proof {
            if !b {
                assert forall|g: PamFlag| !(self@.contains(g) && other@.contains(g)) by {
                    lemma_and_bit(self.bits, other.bits, g.spec_bits());
                    lemma_distinct_bits(g.spec_bits(), g.spec_bits());
                }
            }
        }
        b
    }

    /// The flags that are in `self` or in `other`.
    pub fn union(self, other: PamFlags) -> (f: PamFlags)
        ensures
            f.spec_bits() == self.spec_bits() | other.spec_bits(),
            f@ == self@.union(other@),
    {
        let f = PamFlags { bits: self.bits | other.bits };
        proof {
            assert forall|g: PamFlag| f@.contains(g) == (self@.contains(g) || other@.contains(g)) by {
                lemma_or_bit(self.bits, other.bits, g.spec_bits());
            }
            assert(f@ =~= self@.union(other@));
        }
        f
    }

    /// The flags that are in `self` and in `other`.
    pub fn intersection(self, other: PamFlags) -> (f: PamFlags)
        ensures
            f.spec_bits() == self.spec_bits() & other.spec_bits(),
            f@ == self@.intersect(other@),
    {
        let f = PamFlags { bits: self.bits & other.bits };
        proof {
            assert forall|g: PamFlag| f@.contains(g) == (self@.contains(g) && other@.contains(g)) by {
                lemma_and_bit(self.bits, other.bits, g.spec_bits());
            }
            assert(f@ =~= self@.intersect(other@));
        }
        f
    }

    /// The flags that are in `self` and not in `other`.
    pub fn difference(self, other: PamFlags) -> (f: PamFlags)
        ensures
            f.spec_bits() == self.spec_bits() & !other.spec_bits(),
            f@ == self@.difference(other@),
    {
        let f = PamFlags { bits: self.bits & !other.bits };
        proof {
            assert forall|g: PamFlag| f@.contains(g) == (self@.contains(g) && !other@.contains(g)) by {
                lemma_clear_bit(self.bits, other.bits, g.spec_bits());
            }
            assert(f@ =~= self@.difference(other@));
        }
        f
    }

    /// Sets every bit of `other`.
    pub fn insert(&mut self, other: PamFlags)
        ensures
            final(self).spec_bits() == old(self).spec_bits() | other.spec_bits(),
            final(self)@ == old(self)@.union(other@),
    {
        *self = self.union(other);
    }

    /// Clears every bit of `other`.
    pub fn remove(&mut self, other: PamFlags)
        ensures
            final(self).spec_bits() == old(self).spec_bits() & !other.spec_bits(),
            final(self)@ == old(self)@.difference(other@),
    {
        *self = self.difference(other);
    }

    /// Two flag sets with the same word are the same set.
    pub proof fn lemma_bits_determine(a: PamFlags, b: PamFlags)
        requires
            a.spec_bits() == b.spec_bits(),
        ensures
            a == b,
    {
    }

    /// A word survives the trip into a flag set and back, whatever bits it
    /// holds, and the set shows exactly the named bits of the word.
    pub proof fn lemma_round_trip(x: i32)
        ensures
            Self::spec_from_bits_unchecked(x).spec_bits() == x,
            forall|g: PamFlag|
                Self::spec_from_bits_unchecked(x)@.contains(g) == (x & g.spec_bits()
                    == g.spec_bits()),
    {
        assert forall|g: PamFlag|
            Self::spec_from_bits_unchecked(x)@.contains(g) == (x & g.spec_bits()
                == g.spec_bits()) by {
            let c = g.spec_bits();
            assert(single_bit(c) ==> (x & c != 0) == (x & c == c)) by (bit_vector);
        }
    }

    /// Decoding loses nothing of a word made of named bits: two such words
    /// that show the same flags are the same word.
    pub proof fn lemma_decoding_lossless(x: i32, y: i32)
        requires
            x & !ALL_BITS == 0,
            y & !ALL_BITS == 0,
            Self::spec_from_bits_unchecked(x)@ == Self::spec_from_bits_unchecked(y)@,
        ensures
            x == y,
    {
        let fx = Self::spec_from_bits_unchecked(x);
        let fy = Self::spec_from_bits_unchecked(y);
        assert forall|g: PamFlag| (x & #[trigger] g.spec_bits() != 0) == (y & g.spec_bits()
            != 0) by {
            assert(fx@.contains(g) == fy@.contains(g));
        }
        lemma_named_bits_determine(x, y);
    }
}

} // verus!
