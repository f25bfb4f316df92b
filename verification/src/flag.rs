//! Flags that steer how the engine loads the filters for a path.

use vstd::prelude::*;

verus! {

/// Engine bit: allow filters that the engine considers unsafe.
pub const FLAG_ALLOW_UNSAFE: u32 = 1;

/// Engine bit: do not read the system-wide attribute file.
pub const FLAG_NO_SYSTEM_ATTRIBUTES: u32 = 2;

/// Engine bit: read attributes from the tip commit, not the working copy.
pub const FLAG_ATTRIBUTES_FROM_HEAD: u32 = 4;

/// Engine bit: read attributes from a commit that the caller names.
pub const FLAG_ATTRIBUTES_FROM_COMMIT: u32 = 8;

/// Every bit that stands for a recognized option.
pub const FLAG_ALL: u32 = 15;

/// One recognized load option.
#[derive(Clone, Copy, PartialEq, Eq, Debug, Structural)]
pub enum FlagOption {
    AllowUnsafe,
    NoSystemAttributes,
    AttributesFromHead,
    AttributesFromCommit,
}

/// The engine bit that stands for an option.
pub open spec fn option_bit(option: FlagOption) -> u32 {
    match option {
        FlagOption::AllowUnsafe => FLAG_ALLOW_UNSAFE,
        FlagOption::NoSystemAttributes => FLAG_NO_SYSTEM_ATTRIBUTES,
        FlagOption::AttributesFromHead => FLAG_ATTRIBUTES_FROM_HEAD,
        FlagOption::AttributesFromCommit => FLAG_ATTRIBUTES_FROM_COMMIT,
    }
}

/// Whether `raw` sets recognized bits only.
pub open spec fn known_bits(raw: u32) -> bool {
    raw & !FLAG_ALL == 0
}

/// The options whose bits are set in `raw`.
pub open spec fn options_of_bits(raw: u32) -> Set<FlagOption> {
    Set::new(|o: FlagOption| raw & option_bit(o) != 0)
}

/// A set of load options, kept as the engine's bit pattern. The default is
/// the empty set.
#[derive(Clone, Copy, PartialEq, Eq, Debug, Structural)]
pub struct FilterFlag {
    bits: u32,
}

impl View for FilterFlag {
    type V = Set<FlagOption>;

    open spec fn view(&self) -> Set<FlagOption> {
        options_of_bits(self.raw_bits())
    }
}

impl FilterFlag {
    /// The engine's integer for this set.
    pub closed spec fn raw_bits(self) -> u32 {
        self.bits
    }

    /// Validity of a set: only recognized bits are set.
    pub open spec fn is_valid(self) -> bool {
        known_bits(self.raw_bits())
    }

    #[verifier::type_invariant]
    spec fn inv(self) -> bool {
        known_bits(self.bits)
    }

    /// The empty set, which the engine calls its default.
    pub fn empty() -> (f: FilterFlag)
        ensures
            f.raw_bits() == 0,
            f@ == Set::<FlagOption>::empty(),
            f.is_valid(),
    {
        assert(0u32 & !15u32 == 0) by (bit_vector);
        let f = FilterFlag { bits: 0 };
        proof {
            lemma_bits_of_empty();
        }
        f
    }

    /// The set of all recognized options.
    pub fn all() -> (f: FilterFlag)
        ensures
            f.raw_bits() == FLAG_ALL,
            forall|o: FlagOption| f@.contains(o),
            f.is_valid(),
    {
        assert(15u32 & !15u32 == 0) by (bit_vector);
        assert(15u32 & 1u32 != 0 && 15u32 & 2u32 != 0 && 15u32 & 4u32 != 0 && 15u32 & 8u32 != 0)
            by (bit_vector);
        FilterFlag { bits: FLAG_ALL }
    }

    /// The set that holds `option` and nothing else.
    pub fn of(option: FlagOption) -> (f: FilterFlag)
        ensures
            f.raw_bits() == option_bit(option),
            f@ == set![option],
            f.is_valid(),
    {
        let bits: u32 = match option {
            FlagOption::AllowUnsafe => FLAG_ALLOW_UNSAFE,
            FlagOption::NoSystemAttributes => FLAG_NO_SYSTEM_ATTRIBUTES,
            FlagOption::AttributesFromHead => FLAG_ATTRIBUTES_FROM_HEAD,
            FlagOption::AttributesFromCommit => FLAG_ATTRIBUTES_FROM_COMMIT,
        };
        proof {
            lemma_bits_of_single(option);
        }
        FilterFlag { bits }
    }

    /// The engine's integer for this set.
    pub fn bits(&self) -> (raw: u32)
        ensures
            raw == self.raw_bits(),
            known_bits(raw),
            options_of_bits(raw) == self@,
    {
        proof {
            use_type_invariant(self);
        }
        self.bits
    }

    /// Reads a set from the engine's integer. An integer that sets a bit
    /// outside the recognized ones is refused.
    pub fn from_bits(raw: u32) -> (f: Option<FilterFlag>)
        ensures
            known_bits(raw) <==> f is Some,
            f is Some ==> f->Some_0.raw_bits() == raw && f->Some_0@ == options_of_bits(raw),
    {
        if raw & !FLAG_ALL == 0 {
            Some(FilterFlag { bits: raw })
        } else {
            None
        }
    }

    /// Reads a set from the engine's integer, dropping every bit outside the
    /// recognized ones.
    pub fn from_bits_truncate(raw: u32) -> (f: FilterFlag)
        ensures
            f.raw_bits() == raw & FLAG_ALL,
            f@ == options_of_bits(raw),
            known_bits(raw) ==> f.raw_bits() == raw,
    {
        assert((raw & 15u32) & !15u32 == 0) by (bit_vector);
        assert(raw & !15u32 == 0 ==> raw & 15u32 == raw) by (bit_vector);
        let f = FilterFlag { bits: raw & FLAG_ALL };
        proof {
            lemma_truncation_keeps_options(raw);
        }
        f
    }

    /// Whether no option is in the set.
    pub fn is_empty(&self) -> (b: bool)
        ensures
            b <==> self@ == Set::<FlagOption>::empty(),
            b <==> self.raw_bits() == 0,
    {
        proof {
            use_type_invariant(self);
            lemma_bits_of_empty();
            if self@ == Set::<FlagOption>::empty() {
                lemma_options_determine_bits(self.bits, 0);
            }
        }
        self.bits == 0
    }

    /// Whether `option` is in the set.
    pub fn has(&self, option: FlagOption) -> (b: bool)
        ensures
            b <==> self@.contains(option),
    {
        let bit: u32 = match option {
            FlagOption::AllowUnsafe => FLAG_ALLOW_UNSAFE,
            FlagOption::NoSystemAttributes => FLAG_NO_SYSTEM_ATTRIBUTES,
            FlagOption::AttributesFromHead => FLAG_ATTRIBUTES_FROM_HEAD,
            FlagOption::AttributesFromCommit => FLAG_ATTRIBUTES_FROM_COMMIT,
        };
        self.bits & bit != 0
    }

    /// Whether every option of `other` is in this set.
    pub fn contains(&self, other: FilterFlag) -> (b: bool)
        ensures
            b <==> other@.subset_of(self@),
    {
        proof {
            use_type_invariant(self);
            use_type_invariant(&other);
            lemma_subset_bits(self.bits, other.bits);
        }
        self.bits & other.bits == other.bits
    }

    /// Whether the two sets share an option.
    pub fn intersects(&self, other: FilterFlag) -> (b: bool)
        ensures
            b <==> !self@.disjoint(other@),
    {
        proof {
            use_type_invariant(self);
            use_type_invariant(&other);
            lemma_intersection_bits(self.bits, other.bits);
            lemma_bits_of_empty();
            if self@.disjoint(other@) {
                assert(self@.intersect(other@) =~= Set::<FlagOption>::empty());
                lemma_options_determine_bits(self.bits & other.bits, 0);
            }
            if self.bits & other.bits == 0 {
                assert forall|o: FlagOption| !(self@.contains(o) && other@.contains(o)) by {
                    assert(!self@.intersect(other@).contains(o));
                }
            }
        }
        self.bits & other.bits != 0
    }

    /// The options that are in either set.
    pub fn union(self, other: FilterFlag) -> (f: FilterFlag)
        ensures
            f@ == self@.union(other@),
            f.raw_bits() == self.raw_bits() | other.raw_bits(),
            f.is_valid(),
    {
        proof {
            use_type_invariant(&self);
            use_type_invariant(&other);
            lemma_union_bits(self.bits, other.bits);
        }
        FilterFlag { bits: self.bits | other.bits }
    }

    /// The options that are in both sets.
    pub fn intersection(self, other: FilterFlag) -> (f: FilterFlag)
        ensures
            f@ == self@.intersect(other@),
            f.raw_bits() == self.raw_bits() & other.raw_bits(),
            f.is_valid(),
    {
        proof {
            use_type_invariant(&self);
            use_type_invariant(&other);
            lemma_intersection_bits(self.bits, other.bits);
        }
        FilterFlag { bits: self.bits & other.bits }
    }

    /// The options of this set that are not in `other`.
    pub fn difference(self, other: FilterFlag) -> (f: FilterFlag)
        ensures
            f@ == self@.difference(other@),
            f.raw_bits() == self.raw_bits() & !other.raw_bits(),
            f.is_valid(),
    {
        proof {
            use_type_invariant(&self);
            use_type_invariant(&other);
            lemma_difference_bits(self.bits, other.bits);
        }
        FilterFlag { bits: self.bits & !other.bits }
    }

    /// Adds the options of `other` to this set.
    pub fn insert(&mut self, other: FilterFlag)
        ensures
            final(self)@ == old(self)@.union(other@),
            final(self).is_valid(),
    {
        *self = self.union(other);
    }

    /// Takes the options of `other` out of this set.
    pub fn remove(&mut self, other: FilterFlag)
        ensures
            final(self)@ == old(self)@.difference(other@),
            final(self).is_valid(),
    {
        *self = self.difference(other);
    }
}

impl Default for FilterFlag {
    fn default() -> (f: FilterFlag)
        ensures
            f@ == Set::<FlagOption>::empty(),
            f.raw_bits() == 0,
    {
        FilterFlag::empty()
    }
}

/// No option has its bit set in zero.
pub proof fn lemma_bits_of_empty()
    ensures
        options_of_bits(0) == Set::<FlagOption>::empty(),
        known_bits(0),
{
    assert(0u32 & 1u32 == 0 && 0u32 & 2u32 == 0 && 0u32 & 4u32 == 0 && 0u32 & 8u32 == 0)
        by (bit_vector);
    assert(0u32 & !15u32 == 0) by (bit_vector);
    assert(options_of_bits(0) =~= Set::<FlagOption>::empty());
}

/// The bit of an option holds that option and no other.
pub proof fn lemma_bits_of_single(option: FlagOption)
    ensures
        options_of_bits(option_bit(option)) == set![option],
        known_bits(option_bit(option)),
{
    assert(1u32 & 1u32 != 0 && 1u32 & 2u32 == 0 && 1u32 & 4u32 == 0 && 1u32 & 8u32 == 0)
        by (bit_vector);
    assert(2u32 & 1u32 == 0 && 2u32 & 2u32 != 0 && 2u32 & 4u32 == 0 && 2u32 & 8u32 == 0)
        by (bit_vector);
    assert(4u32 & 1u32 == 0 && 4u32 & 2u32 == 0 && 4u32 & 4u32 != 0 && 4u32 & 8u32 == 0)
        by (bit_vector);
    assert(8u32 & 1u32 == 0 && 8u32 & 2u32 == 0 && 8u32 & 4u32 == 0 && 8u32 & 8u32 != 0)
        by (bit_vector);
    assert(1u32 & !15u32 == 0 && 2u32 & !15u32 == 0 && 4u32 & !15u32 == 0 && 8u32 & !15u32 == 0)
        by (bit_vector);
    assert(options_of_bits(option_bit(option)) =~= set![option]);
}

/// Dropping unrecognized bits changes no option.
pub proof fn lemma_truncation_keeps_options(raw: u32)
    ensures
        options_of_bits(raw & FLAG_ALL) == options_of_bits(raw),
        known_bits(raw & FLAG_ALL),
{
    assert(((raw & 15u32) & 1u32 != 0) == (raw & 1u32 != 0)) by (bit_vector);
    assert(((raw & 15u32) & 2u32 != 0) == (raw & 2u32 != 0)) by (bit_vector);
    assert(((raw & 15u32) & 4u32 != 0) == (raw & 4u32 != 0)) by (bit_vector);
    assert(((raw & 15u32) & 8u32 != 0) == (raw & 8u32 != 0)) by (bit_vector);
    assert((raw & 15u32) & !15u32 == 0) by (bit_vector);
    assert(options_of_bits(raw & FLAG_ALL) =~= options_of_bits(raw));
}

/// Two integers of recognized bits that hold the same options are the same
/// integer.
pub proof fn lemma_options_determine_bits(a: u32, b: u32)
    requires
        known_bits(a),
        known_bits(b),
        options_of_bits(a) == options_of_bits(b),
    ensures
        a == b,
{
    let sa = options_of_bits(a);
    let sb = options_of_bits(b);
    assert((a & 1u32 != 0) == (b & 1u32 != 0)) by {
        assert(sa.contains(FlagOption::AllowUnsafe) == sb.contains(FlagOption::AllowUnsafe));
        assert(option_bit(FlagOption::AllowUnsafe) == 1u32);
    }
    assert((a & 2u32 != 0) == (b & 2u32 != 0)) by {
        assert(sa.contains(FlagOption::NoSystemAttributes) == sb.contains(
            FlagOption::NoSystemAttributes,
        ));
        assert(option_bit(FlagOption::NoSystemAttributes) == 2u32);
    }
    assert((a & 4u32 != 0) == (b & 4u32 != 0)) by {
        assert(sa.contains(FlagOption::AttributesFromHead) == sb.contains(
            FlagOption::AttributesFromHead,
        ));
        assert(option_bit(FlagOption::AttributesFromHead) == 4u32);
    }
    assert((a & 8u32 != 0) == (b & 8u32 != 0)) by {
        assert(sa.contains(FlagOption::AttributesFromCommit) == sb.contains(
            FlagOption::AttributesFromCommit,
        ));
        assert(option_bit(FlagOption::AttributesFromCommit) == 8u32);
    }
    assert(a & !15u32 == 0 && b & !15u32 == 0);
    assert(a & !15u32 == 0 && b & !15u32 == 0 && ((a & 1u32 != 0) == (b & 1u32 != 0)) && ((a & 2u32
        != 0) == (b & 2u32 != 0)) && ((a & 4u32 != 0) == (b & 4u32 != 0)) && ((a & 8u32 != 0) == (b
        & 8u32 != 0)) ==> a == b) by (bit_vector);
}

/// Bitwise or is the union of the options.
pub proof fn lemma_union_bits(a: u32, b: u32)
    ensures
        options_of_bits(a | b) == options_of_bits(a).union(options_of_bits(b)),
        known_bits(a) && known_bits(b) ==> known_bits(a | b),
{
    assert(((a | b) & 1u32 != 0) == (a & 1u32 != 0 || b & 1u32 != 0)) by (bit_vector);
    assert(((a | b) & 2u32 != 0) == (a & 2u32 != 0 || b & 2u32 != 0)) by (bit_vector);
    assert(((a | b) & 4u32 != 0) == (a & 4u32 != 0 || b & 4u32 != 0)) by (bit_vector);
    assert(((a | b) & 8u32 != 0) == (a & 8u32 != 0 || b & 8u32 != 0)) by (bit_vector);
    assert(a & !15u32 == 0 && b & !15u32 == 0 ==> (a | b) & !15u32 == 0) by (bit_vector);
    assert(options_of_bits(a | b) =~= options_of_bits(a).union(options_of_bits(b)));
}

/// Bitwise and is the intersection of the options.
pub proof fn lemma_intersection_bits(a: u32, b: u32)
    ensures
        options_of_bits(a & b) == options_of_bits(a).intersect(options_of_bits(b)),
        known_bits(a) ==> known_bits(a & b),
{
    assert(((a & b) & 1u32 != 0) == (a & 1u32 != 0 && b & 1u32 != 0)) by (bit_vector);
    assert(((a & b) & 2u32 != 0) == (a & 2u32 != 0 && b & 2u32 != 0)) by (bit_vector);
    assert(((a & b) & 4u32 != 0) == (a & 4u32 != 0 && b & 4u32 != 0)) by (bit_vector);
    assert(((a & b) & 8u32 != 0) == (a & 8u32 != 0 && b & 8u32 != 0)) by (bit_vector);
    assert(a & !15u32 == 0 ==> (a & b) & !15u32 == 0) by (bit_vector);
    assert(options_of_bits(a & b) =~= options_of_bits(a).intersect(options_of_bits(b)));
}

/// Masking out the bits of `b` is the difference of the options.
pub proof fn lemma_difference_bits(a: u32, b: u32)
    ensures
        options_of_bits(a & !b) == options_of_bits(a).difference(options_of_bits(b)),
        known_bits(a) ==> known_bits(a & !b),
{
    assert(((a & !b) & 1u32 != 0) == (a & 1u32 != 0 && !(b & 1u32 != 0))) by (bit_vector);
    assert(((a & !b) & 2u32 != 0) == (a & 2u32 != 0 && !(b & 2u32 != 0))) by (bit_vector);
    assert(((a & !b) & 4u32 != 0) == (a & 4u32 != 0 && !(b & 4u32 != 0))) by (bit_vector);
    assert(((a & !b) & 8u32 != 0) == (a & 8u32 != 0 && !(b & 8u32 != 0))) by (bit_vector);
    assert(a & !15u32 == 0 ==> (a & !b) & !15u32 == 0) by (bit_vector);
    assert(options_of_bits(a & !b) =~= options_of_bits(a).difference(options_of_bits(b)));
}

/// One integer of recognized bits covers another exactly when its options
/// include the other's.
pub proof fn lemma_subset_bits(a: u32, b: u32)
    requires
        known_bits(a),
        known_bits(b),
    ensures
        (a & b == b) <==> options_of_bits(b).subset_of(options_of_bits(a)),
{
    lemma_intersection_bits(a, b);
    assert(b & !15u32 == 0 ==> (a & b) & !15u32 == 0) by (bit_vector);
    if a & b == b {
        assert(options_of_bits(b) =~= options_of_bits(a).intersect(options_of_bits(b)));
    }
    if options_of_bits(b).subset_of(options_of_bits(a)) {
        assert(options_of_bits(a).intersect(options_of_bits(b)) =~= options_of_bits(b));
        lemma_options_determine_bits(a & b, b);
    }
}

/// A set of options survives the trip to the engine's integer and back:
/// the integer holds recognized bits only, reads back as the same set, and
/// an option is in the set exactly when its bit is set in the integer.
pub proof fn lemma_flag_round_trip(f: FilterFlag)
    requires
        f.is_valid(),
    ensures
        known_bits(f.raw_bits()),
        options_of_bits(f.raw_bits()) == f@,
        forall|o: FlagOption| f@.contains(o) <==> f.raw_bits() & option_bit(o) != 0,
        forall|g: FilterFlag| g.is_valid() && g.raw_bits() == f.raw_bits() ==> g == f,
        forall|g: FilterFlag| g.is_valid() && g@ == f@ ==> g == f,
{
    assert forall|g: FilterFlag| g.is_valid() && g@ == f@ implies g == f by {
        lemma_options_determine_bits(g.raw_bits(), f.raw_bits());
    }
}

/// An integer of recognized bits survives the trip to a set of options and
/// back.
pub proof fn lemma_bits_round_trip(raw: u32, f: FilterFlag)
    requires
        known_bits(raw),
        f.is_valid(),
        f@ == options_of_bits(raw),
    ensures
        f.raw_bits() == raw,
{
    lemma_options_determine_bits(f.raw_bits(), raw);
}

} // verus!
