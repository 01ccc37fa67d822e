//! Encapsulated data types for samples.
use crate::api::soxr_datatype_t;
use vstd::prelude::*;

verus! {

/// Datatypes supported for I/O to/from the resampler.
/// Use the I data types for interleaved channels and the S data types for split channels.
#[derive(Debug, Copy, Clone, PartialEq, Eq, Structural, PartialOrd, Ord, Hash)]
pub enum Datatype {
    Float32I,
    Float64I,
    Int32I,
    Int16I,
    Float32S,
    Float64S,
    Int32S,
    Int16S,
}

impl Datatype {
    pub open spec fn spec_soxr_datatype(self) -> soxr_datatype_t {
        match self {
            Datatype::Float32I => soxr_datatype_t::SOXR_FLOAT32_I,
            Datatype::Float64I => soxr_datatype_t::SOXR_FLOAT64_I,
            Datatype::Int32I => soxr_datatype_t::SOXR_INT32_I,
            Datatype::Int16I => soxr_datatype_t::SOXR_INT16_I,
            Datatype::Float32S => soxr_datatype_t::SOXR_FLOAT32_S,
            Datatype::Float64S => soxr_datatype_t::SOXR_FLOAT64_S,
            Datatype::Int32S => soxr_datatype_t::SOXR_INT32_S,
            Datatype::Int16S => soxr_datatype_t::SOXR_INT16_S,
        }
    }

    /// Whether samples of all channels alternate in one buffer.
    pub open spec fn spec_is_interleaved(self) -> bool {
        match self {
            Datatype::Float32I | Datatype::Float64I | Datatype::Int32I | Datatype::Int16I => true,
            _ => false,
        }
    }

    /// Converts from `Datatype` to the native `soxr_datatype_t`.
    pub fn to_soxr_datatype(self) -> (r: soxr_datatype_t)
        ensures
            r == self.spec_soxr_datatype(),
            r.spec_is_split() == !self.spec_is_interleaved(),
    {
        match self {
            Datatype::Float32I => soxr_datatype_t::SOXR_FLOAT32_I,
            Datatype::Float64I => soxr_datatype_t::SOXR_FLOAT64_I,
            Datatype::Int32I => soxr_datatype_t::SOXR_INT32_I,
            Datatype::Int16I => soxr_datatype_t::SOXR_INT16_I,
            Datatype::Float32S => soxr_datatype_t::SOXR_FLOAT32_S,
            Datatype::Float64S => soxr_datatype_t::SOXR_FLOAT64_S,
            Datatype::Int32S => soxr_datatype_t::SOXR_INT32_S,
            Datatype::Int16S => soxr_datatype_t::SOXR_INT16_S,
        }
    }

    pub fn is_interleaved(self) -> (r: bool)
        ensures
            r == self.spec_is_interleaved(),
    {
        match self {
            Datatype::Float32I | Datatype::Float64I | Datatype::Int32I | Datatype::Int16I => true,
            _ => false,
        }
    }
}

} // verus!
