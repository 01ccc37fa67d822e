//! Configuration values: runtime resources, I/O datatypes and resampling quality.
use crate::api::{
    SOXR_DOUBLE_PRECISION, SOXR_HI_PREC_CLOCK, SOXR_HQ, SOXR_LQ, SOXR_MQ, SOXR_QQ, SOXR_ROLLOFF_MEDIUM,
    SOXR_ROLLOFF_NONE, SOXR_ROLLOFF_SMALL, SOXR_VHQ, SOXR_VR,
};
use crate::datatype::Datatype;
use vstd::prelude::*;

verus! {

/// Runtime parameters for the resampler: the number of threads it may use.
#[derive(Debug, Clone, Copy, PartialEq, Eq, Structural)]
pub struct RuntimeSpec {
    num_threads: u32,
}

impl RuntimeSpec {
    pub closed spec fn spec_num_threads(self) -> u32 {
        self.num_threads
    }

    /// Creates a runtime spec for `num_threads` threads; 0 means automatic.
    pub fn new(num_threads: u32) -> (r: RuntimeSpec)
        ensures
            r.spec_num_threads() == num_threads,
    {
        RuntimeSpec { num_threads }
    }

    pub fn num_threads(&self) -> (r: u32)
        ensures
            r == self.spec_num_threads(),
    {
        self.num_threads
    }
}

/// The datatypes of the input and of the output buffers.
#[derive(Debug, Clone, Copy, PartialEq, Eq, Structural)]
pub struct IOSpec {
    input_type: Datatype,
    output_type: Datatype,
}

impl IOSpec {
    pub closed spec fn spec_input_type(self) -> Datatype {
        self.input_type
    }

    pub closed spec fn spec_output_type(self) -> Datatype {
        self.output_type
    }

    pub fn new(input_type: Datatype, output_type: Datatype) -> (r: IOSpec)
        ensures
            r.spec_input_type() == input_type,
            r.spec_output_type() == output_type,
    {
        IOSpec { input_type, output_type }
    }

    pub fn input_type(&self) -> (r: Datatype)
        ensures
            r == self.spec_input_type(),
    {
        self.input_type
    }

    pub fn output_type(&self) -> (r: Datatype)
        ensures
            r == self.spec_output_type(),
    {
        self.output_type
    }
}

/// Every bit that names a quality flag.
pub const QUALITY_FLAG_BITS: u64 = SOXR_ROLLOFF_SMALL | SOXR_ROLLOFF_MEDIUM | SOXR_ROLLOFF_NONE
    | SOXR_HI_PREC_CLOCK | SOXR_DOUBLE_PRECISION | SOXR_VR;

/// A set of quality flags, as the native `flags` field of a quality spec holds them.
#[derive(Debug, Clone, Copy, PartialEq, Eq, Structural, Hash)]
pub struct QualityFlags {
    bits: u64,
}

impl View for QualityFlags {
    type V = u64;

    closed spec fn view(&self) -> u64 {
        self.bits
    }
}

proof fn lemma_named_flags_are_known()
    ensures
        QUALITY_FLAG_BITS == 59,
        SOXR_ROLLOFF_SMALL & !QUALITY_FLAG_BITS == 0,
        SOXR_ROLLOFF_MEDIUM & !QUALITY_FLAG_BITS == 0,
        SOXR_ROLLOFF_NONE & !QUALITY_FLAG_BITS == 0,
        SOXR_HI_PREC_CLOCK & !QUALITY_FLAG_BITS == 0,
        SOXR_DOUBLE_PRECISION & !QUALITY_FLAG_BITS == 0,
        SOXR_VR & !QUALITY_FLAG_BITS == 0,
        QUALITY_FLAG_BITS & !QUALITY_FLAG_BITS == 0,
{
    assert(0u64 | 1u64 | 2u64 | 8u64 | 16u64 | 32u64 == 59u64) by (bit_vector);
    assert(0u64 & !59u64 == 0 && 1u64 & !59u64 == 0 && 2u64 & !59u64 == 0 && 8u64 & !59u64 == 0
        && 16u64 & !59u64 == 0 && 32u64 & !59u64 == 0 && 59u64 & !59u64 == 0) by (bit_vector);
}

impl QualityFlags {
    /// Every set of flags holds only bits that name a flag.
    #[verifier::type_invariant]
    spec fn known_bits_only(self) -> bool {
        self.bits & !QUALITY_FLAG_BITS == 0
    }

    /// Holds only bits that name a flag.
    pub open spec fn wf(self) -> bool {
        self@ & !QUALITY_FLAG_BITS == 0
    }

    fn from_known(bits: u64) -> (r: QualityFlags)
        requires
            bits & !QUALITY_FLAG_BITS == 0,
        ensures
            r@ == bits,
            r.wf(),
    {
        QualityFlags { bits }
    }

    /// <= 0.01 dB (no bit: always contained).
    pub fn rolloff_small() -> (r: QualityFlags)
        ensures
            r@ == SOXR_ROLLOFF_SMALL,
            r.wf(),
    {
        proof {
            lemma_named_flags_are_known();
        }
        Self::from_known(SOXR_ROLLOFF_SMALL)
    }

    /// <= 0.35 dB
    pub fn rolloff_medium() -> (r: QualityFlags)
        ensures
            r@ == SOXR_ROLLOFF_MEDIUM,
            r.wf(),
    {
        proof {
            lemma_named_flags_are_known();
        }
        Self::from_known(SOXR_ROLLOFF_MEDIUM)
    }

    /// For Chebyshev bandwidth.
    pub fn rolloff_none() -> (r: QualityFlags)
        ensures
            r@ == SOXR_ROLLOFF_NONE,
            r.wf(),
    {
        proof {
            lemma_named_flags_are_known();
        }
        Self::from_known(SOXR_ROLLOFF_NONE)
    }

    /// Increase 'irrational' ratio accuracy.
    pub fn hi_prec_clock() -> (r: QualityFlags)
        ensures
            r@ == SOXR_HI_PREC_CLOCK,
            r.wf(),
    {
        proof {
            lemma_named_flags_are_known();
        }
        Self::from_known(SOXR_HI_PREC_CLOCK)
    }

    /// Use D.P. calcs even if precision <= 20.
    pub fn double_precision() -> (r: QualityFlags)
        ensures
            r@ == SOXR_DOUBLE_PRECISION,
            r.wf(),
    {
        proof {
            lemma_named_flags_are_known();
        }
        Self::from_known(SOXR_DOUBLE_PRECISION)
    }

    /// Variable-rate resampling.
    pub fn vr() -> (r: QualityFlags)
        ensures
            r@ == SOXR_VR,
            r.wf(),
    {
        proof {
            lemma_named_flags_are_known();
        }
        Self::from_known(SOXR_VR)
    }

    pub fn empty() -> (r: QualityFlags)
        ensures
            r@ == 0,
            r.wf(),
    {
        proof {
            lemma_named_flags_are_known();
        }
        Self::from_known(0)
    }

    pub fn all() -> (r: QualityFlags)
        ensures
            r@ == QUALITY_FLAG_BITS,
            r.wf(),
    {
        proof {
            lemma_named_flags_are_known();
        }
        Self::from_known(QUALITY_FLAG_BITS)
    }

    pub fn bits(&self) -> (r: u64)
        ensures
            r == self@,
            self.wf(),
    {
        proof {
            use_type_invariant(self);
        }
        self.bits
    }

    /// The flags of `bits`, or `None` where `bits` holds a bit that names no flag.
    pub fn from_bits(bits: u64) -> (r: Option<QualityFlags>)
        ensures
            r is Some <==> bits & !QUALITY_FLAG_BITS == 0,
            r matches Some(f) ==> f@ == bits && f.wf(),
    {
        if bits & !QUALITY_FLAG_BITS == 0 {
            Some(Self::from_known(bits))
        } else {
            None
        }
    }

    /// The flags of `bits`, dropping the bits that name no flag.
    pub fn from_bits_truncate(bits: u64) -> (r: QualityFlags)
        ensures
            r@ == bits & QUALITY_FLAG_BITS,
            r.wf(),
    {
        let b = bits & QUALITY_FLAG_BITS;
        assert((bits & QUALITY_FLAG_BITS) & !QUALITY_FLAG_BITS == 0) by (bit_vector);
        Self::from_known(b)
    }

    /// Whether every flag of `other` is set in `self`.
    pub fn contains(&self, other: QualityFlags) -> (r: bool)
        ensures
            r == (self@ & other@ == other@),
    {
        self.bits & other.bits == other.bits
    }

    /// The flags set in `self` or in `other`.
    pub fn union(self, other: QualityFlags) -> (r: QualityFlags)
        ensures
            r@ == self@ | other@,
            r.wf(),
    {
        proof {
            use_type_invariant(&self);
            use_type_invariant(&other);
        }
        let (a, b) = (self.bits, other.bits);
        assert(a & !QUALITY_FLAG_BITS == 0 && b & !QUALITY_FLAG_BITS == 0 ==> (a | b)
            & !QUALITY_FLAG_BITS == 0) by (bit_vector);
        Self::from_known(a | b)
    }

    /// Sets the flags of `other` in `self`.
    pub fn insert(&mut self, other: QualityFlags)
        ensures
            final(self)@ == old(self)@ | other@,
            final(self).wf(),
    {
        *self = self.union(other);
    }

    /// Clears the flags of `other` in `self`.
    pub fn remove(&mut self, other: QualityFlags)
        ensures
            final(self)@ == old(self)@ & !other@,
            final(self).wf(),
    {
        proof {
            use_type_invariant(&*self);
        }
        let (a, b) = (self.bits, other.bits);
        assert(a & !QUALITY_FLAG_BITS == 0 ==> (a & !b) & !QUALITY_FLAG_BITS == 0) by (bit_vector);
        *self = Self::from_known(a & !b);
    }
}

/// Preset resampling qualities.
#[derive(Debug, Clone, Copy, PartialEq, Eq, Structural)]
pub enum QualityRecipe {
    /// 'Quick' cubic interpolation
    Quick,
    /// 'Low' 16-bit with larger rolloff
    Low,
    /// 'Medium' 16-bit with medium rolloff
    Medium,
    /// 'High quality'
    High,
    /// 'Very high quality'
    VeryHigh,
}

impl QualityRecipe {
    pub open spec fn spec_recipe(self) -> u32 {
        match self {
            QualityRecipe::Quick => SOXR_QQ,
            QualityRecipe::Low => SOXR_LQ,
            QualityRecipe::Medium => SOXR_MQ,
            QualityRecipe::High => SOXR_HQ,
            QualityRecipe::VeryHigh => SOXR_VHQ,
        }
    }

    /// The native recipe constant.
    pub fn to_recipe(&self) -> (r: u32)
        ensures
            r == self.spec_recipe(),
    {
        match self {
            QualityRecipe::Quick => SOXR_QQ,
            QualityRecipe::Low => SOXR_LQ,
            QualityRecipe::Medium => SOXR_MQ,
            QualityRecipe::High => SOXR_HQ,
            QualityRecipe::VeryHigh => SOXR_VHQ,
        }
    }
}

/// The quality of the resampling: a native recipe and a set of flags.
#[derive(Debug, Clone, Copy, PartialEq, Eq, Structural)]
pub struct QualitySpec {
    recipe: u32,
    flags: QualityFlags,
}

impl QualitySpec {
    pub closed spec fn spec_recipe(self) -> u32 {
        self.recipe
    }

    pub closed spec fn spec_flags(self) -> QualityFlags {
        self.flags
    }

    /// Creates a spec from the supplied recipe and flags.
    pub fn new(quality: &QualityRecipe, flags: QualityFlags) -> (r: QualitySpec)
        ensures
            r.spec_recipe() == quality.spec_recipe(),
            r.spec_flags() == flags,
    {
        QualitySpec { recipe: quality.to_recipe(), flags }
    }

    /// The native recipe constant.
    pub fn recipe(&self) -> (r: u32)
        ensures
            r == self.spec_recipe(),
    {
        self.recipe
    }

    pub fn flags(&self) -> (r: QualityFlags)
        ensures
            r == self.spec_flags(),
            r.wf(),
    {
        proof {
            use_type_invariant(&self.flags);
        }
        self.flags
    }
}

} // verus!
