//! The switches that tell a host how to treat a parameter.
//!
//! A host receives the switches as one machine word. In contracts the word is
//! read as the set of switches that are on.

use vstd::prelude::*;

verus! {

/// One switch.
#[derive(Clone, Copy, Debug, PartialEq, Eq, Structural)]
pub enum ParamFlag {
    /// The host may not drive the parameter from an automation lane.
    NonAutomatable,
    /// The parameter is left out of every generic control surface.
    Hidden,
    /// The parameter is left out of generated control surfaces only; an
    /// editor written for the plugin still shows it.
    HideInGenericUi,
}

/// The bit that stands for `flag` in the word handed to a host.
pub open spec fn bit_of(flag: ParamFlag) -> u32 {
    match flag {
        ParamFlag::NonAutomatable => 1,
        ParamFlag::Hidden => 2,
        ParamFlag::HideInGenericUi => 4,
    }
}

/// A set of switches, kept as one word.
#[derive(Clone, Copy, Debug, PartialEq, Eq, Structural)]
pub struct ParamFlags {
    bits: u32,
}

impl View for ParamFlags {
    type V = Set<ParamFlag>;

    /// The switches that are on.
    closed spec fn view(&self) -> Set<ParamFlag> {
        Set::new(|flag: ParamFlag| self.bits & bit_of(flag) == bit_of(flag))
    }
}

/// The word that has exactly the bits of the switches in `on`.
pub open spec fn word_of(on: Set<ParamFlag>) -> int {
    (if on.contains(ParamFlag::NonAutomatable) { 1int } else { 0int })
        + (if on.contains(ParamFlag::Hidden) { 2int } else { 0int })
        + (if on.contains(ParamFlag::HideInGenericUi) { 4int } else { 0int })
}

/// Setting the bit `mask` in `word` turns that one switch on and leaves the
/// bit `probe` as it was whenever `probe` is another switch.
proof fn lemma_set_bit(word: u32, mask: u32, probe: u32)
    requires
        mask == 1 || mask == 2 || mask == 4,
        probe == 1 || probe == 2 || probe == 4,
    ensures
        mask == probe ==> (word | mask) & probe == probe,
        mask != probe ==> ((word | mask) & probe == probe <==> word & probe == probe),
        word <= 7 ==> (word | mask) <= 7,
{
    assert(word <= 7 ==> (word | mask) <= 7) by (bit_vector)
        requires
            mask == 1 || mask == 2 || mask == 4,
    ;
    assert(mask == probe ==> (word | mask) & probe == probe) by (bit_vector)
        requires
            mask == 1 || mask == 2 || mask == 4,
            probe == 1 || probe == 2 || probe == 4,
    ;
    assert(mask != probe ==> ((word | mask) & probe == probe <==> word & probe == probe))
        by (bit_vector)
        requires
            mask == 1 || mask == 2 || mask == 4,
            probe == 1 || probe == 2 || probe == 4,
    ;
}

/// A bit of the joined word is on exactly when it is on in one of the two.
proof fn lemma_join_bits(left: u32, right: u32, probe: u32)
    requires
        probe == 1 || probe == 2 || probe == 4,
    ensures
        (left | right) & probe == probe <==> (left & probe == probe || right & probe == probe),
        left <= 7 && right <= 7 ==> (left | right) <= 7,
{
    assert(left <= 7 && right <= 7 ==> (left | right) <= 7) by (bit_vector);
    assert((left | right) & probe == probe <==> (left & probe == probe || right & probe == probe))
        by (bit_vector)
        requires
            probe == 1 || probe == 2 || probe == 4,
    ;
}

/// A word without stray bits is the sum of the switch bits that are set in it.
proof fn lemma_word_is_sum(word: u32)
    requires
        word <= 7,
    ensures
        word == (if word & 1 == 1 { 1int } else { 0int }) + (if word & 2 == 2 { 2int } else { 0int })
            + (if word & 4 == 4 { 4int } else { 0int }),
{
    assert(word == (word & 1) + (word & 2) + (word & 4)) by (bit_vector)
        requires
            word <= 7,
    ;
    assert(word & 1 == 1 || word & 1 == 0) by (bit_vector);
    assert(word & 2 == 2 || word & 2 == 0) by (bit_vector);
    assert(word & 4 == 4 || word & 4 == 0) by (bit_vector);
}

impl ParamFlag {
    /// The bit that stands for this switch.
    pub fn bit(self) -> (mask: u32)
        ensures
            mask == bit_of(self),
    {
        match self {
            ParamFlag::NonAutomatable => 1,
            ParamFlag::Hidden => 2,
            ParamFlag::HideInGenericUi => 4,
        }
    }
}

impl ParamFlags {
    /// No bit is set but those of the three switches.
    #[verifier::type_invariant]
    spec fn no_stray_bits(self) -> bool {
        self.bits <= 7
    }

    /// No switch is on.
    pub fn empty() -> (none: ParamFlags)
        ensures
            none@ == Set::<ParamFlag>::empty(),
    {
        let none = ParamFlags { bits: 0 };
        proof {
            assert forall|flag: ParamFlag| !none@.contains(flag) by {
                let probe = bit_of(flag);
                assert(0u32 & probe != probe) by (bit_vector)
                    requires
                        probe == 1 || probe == 2 || probe == 4,
                ;
            }
            assert(none@ =~= Set::<ParamFlag>::empty());
        }
        none
    }

    /// Whether `flag` is on.
    pub fn contains(&self, flag: ParamFlag) -> (found: bool)
        ensures
            found == self@.contains(flag),
    {
        let mask = flag.bit();
        self.bits & mask == mask
    }

    /// Turns `flag` on and leaves every other switch as it was.
    pub fn insert(&mut self, flag: ParamFlag)
        ensures
            final(self)@ == old(self)@.insert(flag),
    {
        let mask = flag.bit();
        let ghost before = *self;
        proof {
            use_type_invariant(&*self);
            lemma_set_bit(before.bits, mask, mask);
        }
        self.bits = self.bits | mask;
        proof {
            assert forall|probe: ParamFlag|
                self@.contains(probe) == before@.insert(flag).contains(probe) by {
                lemma_set_bit(before.bits, mask, bit_of(probe));
            }
            assert(self@ =~= before@.insert(flag));
        }
    }

    /// The switches that are on in `self` or in `other`.
    pub fn union(self, other: ParamFlags) -> (both: ParamFlags)
        ensures
            both@ == self@.union(other@),
    {
        proof {
            use_type_invariant(&self);
            use_type_invariant(&other);
            lemma_join_bits(self.bits, other.bits, 1);
        }
        let both = ParamFlags { bits: self.bits | other.bits };
        proof {
            assert forall|probe: ParamFlag|
                both@.contains(probe) == self@.union(other@).contains(probe) by {
                lemma_join_bits(self.bits, other.bits, bit_of(probe));
            }
            assert(both@ =~= self@.union(other@));
        }
        both
    }

    /// The word handed to a host: the bits of the switches that are on, and
    /// no other bit.
    pub fn bits(&self) -> (word: u32)
        ensures
            word == word_of(self@),
    {
        proof {
            use_type_invariant(self);
            lemma_word_is_sum(self.bits);
            assert(self@.contains(ParamFlag::NonAutomatable) == (self.bits & 1 == 1));
            assert(self@.contains(ParamFlag::Hidden) == (self.bits & 2 == 2));
            assert(self@.contains(ParamFlag::HideInGenericUi) == (self.bits & 4 == 4));
        }
        self.bits
    }
}

impl Default for ParamFlags {
    /// No switch is on.
    fn default() -> (none: ParamFlags)
        ensures
            none@ == Set::<ParamFlag>::empty(),
    {
        ParamFlags::empty()
    }
}

} // verus!
