//! The set of display options, kept as bits of a `u32`.
use vstd::prelude::*;

verus! {

/// One display option.
#[derive(Clone, Copy, Debug, PartialEq, Eq, Structural)]
pub enum Flag {
    /// Report the engine's own message when a pattern fails to compile.
    VerboseErrors,
    /// Show every capture group after a successful match.
    CaptureGroups,
    /// Report how long a pattern took to compile.
    CompileTime,
}

/// The bit that stands for `f`.
pub open spec fn flag_bit(f: Flag) -> u32 {
    match f {
        Flag::VerboseErrors => 1,
        Flag::CaptureGroups => 2,
        Flag::CompileTime => 4,
    }
}

/// All bits that a `Config` may hold.
pub const ALL_BITS: u32 = 7;

impl Flag {
    /// The bit that stands for this flag.
    pub fn bit(self) -> (r: u32)
        ensures
            r == flag_bit(self),
    {
        match self {
            Flag::VerboseErrors => 1,
            Flag::CaptureGroups => 2,
            Flag::CompileTime => 4,
        }
    }
}

/// A set of flags.
#[derive(Clone, Copy, Debug, PartialEq, Eq, Structural)]
pub struct Config {
    bits: u32,
}

impl Config {
    /// Only the bits of the three flags are ever set.
    #[verifier::type_invariant]
    spec fn inv(self) -> bool {
        self.bits & !ALL_BITS == 0
    }

    /// Whether `f` is in the set.
    pub closed spec fn has(self, f: Flag) -> bool {
        self.bits & flag_bit(f) != 0
    }

    /// Two sets agree on every flag but `f`.
    pub open spec fn same_except(self, other: Config, f: Flag) -> bool {
        forall|g: Flag| g != f ==> self.has(g) == other.has(g)
    }

    /// The set with no flag.
    pub fn empty() -> (r: Config)
        ensures
            forall|g: Flag| !r.has(g),
    {
        assert(0u32 & !7u32 == 0) by (bit_vector);
        let r = Config { bits: 0 };
        assert forall|g: Flag| !r.has(g) by {
            assert(0u32 & 1u32 == 0 && 0u32 & 2u32 == 0 && 0u32 & 4u32 == 0) by (bit_vector);
        }
        r
    }

    /// The bits of the set: 1 for verbose errors, 2 for capture groups,
    /// 4 for compile time.
    pub fn bits(&self) -> (r: u32)
        ensures
            r == (if self.has(Flag::VerboseErrors) { 1u32 } else { 0u32 }) + (if self.has(
                Flag::CaptureGroups,
            ) {
                2u32
            } else {
                0u32
            }) + (if self.has(Flag::CompileTime) { 4u32 } else { 0u32 }),
    {
        proof {
            use_type_invariant(self);
            lemma_bits_sum(self.bits);
        }
        self.bits
    }

    /// Whether `f` is in the set.
    pub fn contains(&self, f: Flag) -> (r: bool)
        ensures
            r == self.has(f),
    {
        self.bits & f.bit() != 0
    }

    /// Puts `f` in the set.
    pub fn insert(&mut self, f: Flag)
        ensures
            final(self).has(f),
            final(self).same_except(*old(self), f),
    {
        proof {
            use_type_invariant(&*self);
        }
        let b = f.bit();
        proof {
            lemma_or_bits(self.bits, b);
        }
        self.bits = self.bits | b;
    }

    /// Takes `f` out of the set.
    pub fn remove(&mut self, f: Flag)
        ensures
            !final(self).has(f),
            final(self).same_except(*old(self), f),
    {
        proof {
            use_type_invariant(&*self);
        }
        let b = f.bit();
        proof {
            lemma_clear_bits(self.bits, b);
        }
        self.bits = self.bits & !b;
    }

    /// Flips `f`: puts it in the set if it was out, takes it out if it was in.
    pub fn toggle(&mut self, f: Flag)
        ensures
            final(self).has(f) == !old(self).has(f),
            final(self).same_except(*old(self), f),
    {
        proof {
            use_type_invariant(&*self);
        }
        let b = f.bit();
        proof {
            lemma_xor_bits(self.bits, b);
        }
        self.bits = self.bits ^ b;
    }
}

proof fn lemma_bits_sum(x: u32)
    requires
        x & !7u32 == 0,
    ensures
        x == (if x & 1u32 != 0 { 1u32 } else { 0u32 }) + (if x & 2u32 != 0 { 2u32 } else { 0u32 })
            + (if x & 4u32 != 0 { 4u32 } else { 0u32 }),
{
    assert(x == (if x & 1u32 != 0 { 1u32 } else { 0u32 }) + (if x & 2u32 != 0 { 2u32 } else { 0u32 })
        + (if x & 4u32 != 0 { 4u32 } else { 0u32 })) by (bit_vector)
        requires
            x & !7u32 == 0,
    ;
}

proof fn lemma_or_bits(x: u32, b: u32)
    requires
        x & !7u32 == 0,
        b == 1 || b == 2 || b == 4,
    ensures
        (x | b) & !7u32 == 0,
        (x | b) & b != 0,
        forall|c: u32| (c == 1 || c == 2 || c == 4) && c != b ==> ((x | b) & c != 0) == (x & c != 0),
{
    assert((x | b) & !7u32 == 0 && (x | b) & b != 0) by (bit_vector)
        requires
            x & !7u32 == 0,
            b == 1 || b == 2 || b == 4,
    ;
    assert forall|c: u32| (c == 1 || c == 2 || c == 4) && c != b implies ((x | b) & c != 0) == (x & c != 0) by {
        assert(((x | b) & c != 0) == (x & c != 0)) by (bit_vector)
            requires
                (c == 1 || c == 2 || c == 4) && c != b,
                b == 1 || b == 2 || b == 4,
        ;
    }
}

proof fn lemma_clear_bits(x: u32, b: u32)
    requires
        x & !7u32 == 0,
        b == 1 || b == 2 || b == 4,
    ensures
        (x & !b) & !7u32 == 0,
        (x & !b) & b == 0,
        forall|c: u32| (c == 1 || c == 2 || c == 4) && c != b ==> ((x & !b) & c != 0) == (x & c != 0),
{
    assert((x & !b) & !7u32 == 0 && (x & !b) & b == 0) by (bit_vector)
        requires
            x & !7u32 == 0,
            b == 1 || b == 2 || b == 4,
    ;
    assert forall|c: u32| (c == 1 || c == 2 || c == 4) && c != b implies ((x & !b) & c != 0) == (x & c != 0) by {
        assert(((x & !b) & c != 0) == (x & c != 0)) by (bit_vector)
            requires
                (c == 1 || c == 2 || c == 4) && c != b,
                b == 1 || b == 2 || b == 4,
        ;
    }
}

proof fn lemma_xor_bits(x: u32, b: u32)
    requires
        x & !7u32 == 0,
        b == 1 || b == 2 || b == 4,
    ensures
        (x ^ b) & !7u32 == 0,
        ((x ^ b) & b != 0) == !(x & b != 0),
        forall|c: u32| (c == 1 || c == 2 || c == 4) && c != b ==> ((x ^ b) & c != 0) == (x & c != 0),
{
    assert((x ^ b) & !7u32 == 0 && (((x ^ b) & b != 0) == !(x & b != 0))) by (bit_vector)
        requires
            x & !7u32 == 0,
            b == 1 || b == 2 || b == 4,
    ;
    assert forall|c: u32| (c == 1 || c == 2 || c == 4) && c != b implies ((x ^ b) & c != 0) == (x & c != 0) by {
        assert(((x ^ b) & c != 0) == (x & c != 0)) by (bit_vector)
            requires
                (c == 1 || c == 2 || c == 4) && c != b,
                b == 1 || b == 2 || b == 4,
        ;
    }
}

impl Default for Config {
    /// Verbose errors and compile time on, capture groups off.
    fn default() -> (r: Config)
        ensures
            r.has(Flag::VerboseErrors),
            !r.has(Flag::CaptureGroups),
            r.has(Flag::CompileTime),
    {
        assert(5u32 & !7u32 == 0 && 5u32 & 1u32 != 0 && 5u32 & 2u32 == 0 && 5u32 & 4u32 != 0) by (bit_vector);
        Config { bits: 5 }
    }
}

} // verus!
