//! A safe wrapper around the libsoxr sample-rate conversion engine: the data,
//! rules and state machine that drive the engine, with their contracts.
//!
//! * `spec` and `datatype`: configuration values (I/O datatypes, quality,
//!   runtime resources).
//! * `layout`: how a host buffer is divided among channels, in samples per
//!   channel.
//! * `trampoline`: the block through which the engine pulls input from a
//!   host-defined supplier, and the reply it gets for each request.
//! * `soxr`: the state of a resampler handle around each native call, and the
//!   ownership of registered input blocks.
pub mod api;
pub mod datatype;
mod error_handling;
pub mod layout;
pub mod soxr;
pub mod spec;
pub mod trampoline;
mod wrapper_helpers;

pub use crate::datatype::Datatype;
pub use crate::error_handling::{Error, ErrorType, Result};
pub use crate::layout::{plan_buffer, samples_per_channel, BufferPlan};
pub use crate::soxr::{change_result, InputMode, ProcessPlan, SoxrState};
pub use crate::spec::{IOSpec, QualityFlags, QualityRecipe, QualitySpec, RuntimeSpec};
pub use crate::trampoline::{reply_for, InputReply, InputSupplier, ScratchOwner, TrampolineData};
pub use crate::wrapper_helpers::from_const;
