//! Values of the native resampler's C interface that the library reasons about.
//!
//! Buffer lengths (and occupancies) are expressed as the number of contained
//! samples per channel.
#![allow(non_camel_case_types)]

use vstd::prelude::*;

verus! {

/// The opaque native resampler object; only ever seen behind a pointer.
pub struct soxr {
    _private: (),
}

/// Datatypes supported for I/O to/from the native resampler.
///
/// The `_I` types are for interleaved channels, the `_S` types for split channels.
/// The declaration order gives each variant its ABI value (0 to 7).
#[derive(Debug, Clone, Copy, PartialEq, Eq, Structural)]
pub enum soxr_datatype_t {
    SOXR_FLOAT32_I,
    SOXR_FLOAT64_I,
    SOXR_INT32_I,
    SOXR_INT16_I,
    SOXR_FLOAT32_S,
    SOXR_FLOAT64_S,
    SOXR_INT32_S,
    SOXR_INT16_S,
}

/// ABI values from this one on denote split (planar) channel layouts.
pub const SOXR_SPLIT: u32 = 4;

impl soxr_datatype_t {
    /// The ABI value of the datatype.
    pub open spec fn spec_code(self) -> u32 {
        match self {
            soxr_datatype_t::SOXR_FLOAT32_I => 0,
            soxr_datatype_t::SOXR_FLOAT64_I => 1,
            soxr_datatype_t::SOXR_INT32_I => 2,
            soxr_datatype_t::SOXR_INT16_I => 3,
            soxr_datatype_t::SOXR_FLOAT32_S => 4,
            soxr_datatype_t::SOXR_FLOAT64_S => 5,
            soxr_datatype_t::SOXR_INT32_S => 6,
            soxr_datatype_t::SOXR_INT16_S => 7,
        }
    }

    pub fn code(self) -> (r: u32)
        ensures
            r == self.spec_code(),
            r < 8,
    {
        match self {
            soxr_datatype_t::SOXR_FLOAT32_I => 0,
            soxr_datatype_t::SOXR_FLOAT64_I => 1,
            soxr_datatype_t::SOXR_INT32_I => 2,
            soxr_datatype_t::SOXR_INT16_I => 3,
            soxr_datatype_t::SOXR_FLOAT32_S => 4,
            soxr_datatype_t::SOXR_FLOAT64_S => 5,
            soxr_datatype_t::SOXR_INT32_S => 6,
            soxr_datatype_t::SOXR_INT16_S => 7,
        }
    }

    /// Whether buffers of this datatype hold one segment per channel.
    pub open spec fn spec_is_split(self) -> bool {
        self.spec_code() >= SOXR_SPLIT
    }
}

// Quality recipes.
/// 'Quick' cubic interpolation.
pub const SOXR_QQ: u32 = 0;
/// 'Low' 16-bit with larger rolloff.
pub const SOXR_LQ: u32 = 1;
/// 'Medium' 16-bit with medium rolloff.
pub const SOXR_MQ: u32 = 2;
pub const SOXR_16_BITQ: u32 = 3;
pub const SOXR_20_BITQ: u32 = 4;
pub const SOXR_24_BITQ: u32 = 5;
pub const SOXR_28_BITQ: u32 = 6;
pub const SOXR_32_BITQ: u32 = 7;
/// 'High quality'.
pub const SOXR_HQ: u32 = SOXR_20_BITQ;
/// 'Very high quality'.
pub const SOXR_VHQ: u32 = SOXR_28_BITQ;

// Quality flags.
/// <= 0.01 dB
pub const SOXR_ROLLOFF_SMALL: u64 = 0;
/// <= 0.35 dB
pub const SOXR_ROLLOFF_MEDIUM: u64 = 1;
/// For Chebyshev bandwidth.
pub const SOXR_ROLLOFF_NONE: u64 = 2;
/// Increase 'irrational' ratio accuracy.
pub const SOXR_HI_PREC_CLOCK: u64 = 8;
/// Use D.P. calcs even if precision <= 20.
pub const SOXR_DOUBLE_PRECISION: u64 = 16;
/// Variable-rate resampling.
pub const SOXR_VR: u64 = 32;

} // verus!
