//! The input trampoline: the state block through which the native engine pulls
//! input from a host-defined supplier.
//!
//! The engine holds only an opaque pointer to a `TrampolineData` and calls a
//! shim with it. The shim asks the block for a reply (`supply`), then hands the
//! engine the block's scratch buffer, or a null pointer where the reply is a
//! failure, and the reply's count.
use crate::error_handling::{Error, ErrorType, Result};
use vstd::prelude::*;

verus! {

/// A source of input samples for a resampler.
///
/// `supply` writes up to `requested` samples per channel into `buffer`
/// (interleaved, or one segment per channel for split input) and returns how
/// many samples per channel it wrote: `Ok(0)` signals the end of input.
/// The buffer must not be kept beyond the call.
pub trait InputSupplier<T>: Sized {
    /// How one call of `supply` relates the supplier before and after it, the
    /// buffer it was handed and the buffer it left, the request, and its result.
    /// A supplier verified with its own contract states it here; by default
    /// nothing is said.
    open spec fn supplied(
        before: Self,
        after: Self,
        buffer: Seq<T>,
        filled: Seq<T>,
        requested: usize,
        r: Result<usize>,
    ) -> bool {
        true
    }

    fn supply(&mut self, buffer: &mut [T], requested: usize) -> (r: Result<usize>)
        ensures
            Self::supplied(*old(self), *final(self), old(buffer)@, final(buffer)@, requested, r),
            final(buffer)@.len() == old(buffer)@.len(),
    ;
}

/// Marks a live trampoline block, so that a stray pointer is not taken for one.
pub const TRAMPOLINE_CHECK: u64 = 0x5452_414d_504f_4c49;

/// What the shim reports to the native engine after one request for input.
#[derive(Debug, Clone, Copy, PartialEq, Eq, Structural)]
pub enum InputReply {
    /// The scratch buffer holds this many samples per channel (more than 0).
    Data(usize),
    /// No data is available nor shall be: count 0 with a valid pointer.
    EndOfInput,
    /// The supplier failed: count 0 with a null pointer.
    Failure,
}

impl InputReply {
    pub open spec fn spec_count(self) -> usize {
        match self {
            InputReply::Data(n) => n,
            _ => 0,
        }
    }

    /// The count returned to the engine, in samples per channel.
    pub fn count(&self) -> (r: usize)
        ensures
            r == self.spec_count(),
    {
        match self {
            InputReply::Data(n) => *n,
            _ => 0,
        }
    }

    /// Whether the engine is handed the scratch buffer (otherwise a null pointer).
    pub fn publishes_buffer(&self) -> (r: bool)
        ensures
            r == !(self is Failure),
    {
        match self {
            InputReply::Failure => false,
            _ => true,
        }
    }
}

/// The reply for a supplier's `result`, where the scratch buffer has room for
/// `room` samples per channel: the supplier's count is passed on as it is,
/// except a count beyond the room, which is a failure since the engine would
/// read past the buffer.
pub open spec fn spec_reply(result: Result<usize>, room: nat) -> InputReply {
    match result {
        Err(_) => InputReply::Failure,
        Ok(n) => if n == 0 {
            InputReply::EndOfInput
        } else if n <= room {
            InputReply::Data(n)
        } else {
            InputReply::Failure
        },
    }
}

/// Whether `after` is the last error recorded for a supplier's `result` that
/// got `reply`, where `before` was recorded until then: the supplier's own
/// error, a `ProcessError` for a count the scratch buffer cannot back, and no
/// change otherwise.
pub open spec fn records_error(
    result: Result<usize>,
    reply: InputReply,
    before: Option<ErrorType>,
    after: Option<ErrorType>,
) -> bool {
    match result {
        Err(e) => after == Some(e.1),
        Ok(_) => if reply is Failure {
            after matches Some(ErrorType::ProcessError(_))
        } else {
            after == before
        },
    }
}

/// The reply for a supplier's `result`; see `spec_reply`.
pub fn reply_for(result: &Result<usize>, room: usize) -> (r: InputReply)
    ensures
        r == spec_reply(*result, room as nat),
{
    match result {
        Err(_) => InputReply::Failure,
        Ok(n) => if *n == 0 {
            InputReply::EndOfInput
        } else if *n <= room {
            InputReply::Data(*n)
        } else {
            InputReply::Failure
        },
    }
}

/// `size` default values.
fn default_buffer<T: Default>(size: usize) -> (r: Vec<T>)
    ensures
        r@.len() == size,
{
    let mut buffer: Vec<T> = Vec::new();
    let mut i: usize = 0;
    while i < size
        invariant
            buffer@.len() == i,
            i <= size,
        decreases size - i,
    {
        buffer.push(T::default());
        i = i + 1;
    }
    buffer
}

/// An owner of a registered block, whose scratch buffer must follow the
/// resampler's channel count.
pub trait ScratchOwner: Sized {
    /// Whether the owned scratch buffer is sized for `channels` channels. An
    /// owner verified with its own contract states it here; by default nothing
    /// is said.
    open spec fn sized_for(&self, channels: u32) -> bool {
        true
    }

    fn follow_channels(&mut self, channels: u32)
        ensures
            final(self).sized_for(channels),
    ;
}

/// The state block behind the opaque pointer that the native engine holds
/// while a supplier is registered.
pub struct TrampolineData<P, T> {
    check: u64,
    input_fn: P,
    last_error: Option<ErrorType>,
    channels: usize,
    max_samples: usize,
    input_buffer: Vec<T>,
}

impl<P, T> TrampolineData<P, T> {
    pub closed spec fn wf(&self) -> bool {
        self.check == TRAMPOLINE_CHECK && self.channels > 0
    }

    pub closed spec fn spec_channels(&self) -> nat {
        self.channels as nat
    }

    pub closed spec fn spec_max_samples(&self) -> nat {
        self.max_samples as nat
    }

    pub closed spec fn spec_last_error(&self) -> Option<ErrorType> {
        self.last_error
    }

    pub closed spec fn spec_input_fn(&self) -> P {
        self.input_fn
    }

    pub closed spec fn spec_input_buffer(&self) -> Seq<T> {
        self.input_buffer@
    }

    /// Whether the block carries the trampoline mark.
    pub fn is_tagged(&self) -> (r: bool)
        ensures
            r ==> self.wf(),
            self.wf() ==> r,
    {
        self.check == TRAMPOLINE_CHECK && self.channels > 0
    }

    /// The last failure that the supplier reported, kept because the native
    /// error channel only says that the input function failed.
    pub fn last_error(&self) -> (r: &Option<ErrorType>)
        ensures
            *r == self.spec_last_error(),
    {
        &self.last_error
    }

    /// The scratch buffer that the engine reads after a reply that publishes it.
    pub fn input_buffer(&self) -> (r: &Vec<T>)
        ensures
            r@ == self.spec_input_buffer(),
    {
        &self.input_buffer
    }

    pub fn input_fn(&self) -> (r: &P)
        ensures
            *r == self.spec_input_fn(),
    {
        &self.input_fn
    }
}

impl<P: InputSupplier<T>, T: Default> TrampolineData<P, T> {
    /// A block for requests of up to `max_samples` samples per channel over
    /// `channels` channels, with a scratch buffer of `max_samples * channels`
    /// values. Fails where there are no channels or that size does not fit in
    /// memory.
    pub fn new(input_fn: P, max_samples: usize, channels: u32) -> (r: Result<Self>)
        ensures
            r is Ok <==> (channels > 0 && max_samples * channels <= usize::MAX),
            r matches Ok(d) ==> {
                &&& d.wf()
                &&& d.spec_channels() == channels
                &&& d.spec_max_samples() == max_samples
                &&& d.spec_input_buffer().len() == max_samples * channels
                &&& d.spec_last_error() is None
                &&& d.spec_input_fn() == input_fn
            },
            r matches Err(e) ==> (channels == 0 ==> e.1 == (ErrorType::SizeMismatch {
                len: max_samples,
                channels,
            })) && (channels > 0 ==> e.1 is ProcessError),
    {
        if channels == 0 {
            return Err(Error::new(None, ErrorType::SizeMismatch { len: max_samples, channels }));
        }
        let size = match max_samples.checked_mul(channels as usize) {
            Some(size) => size,
            None => {
                return Err(
                    Error::new(
                        Some("Soxr::set_input".to_owned()),
                        ErrorType::ProcessError("input buffer size overflows".to_owned()),
                    ),
                );
            },
        };
        let input_buffer = default_buffer(size);
        Ok(
            TrampolineData {
                check: TRAMPOLINE_CHECK,
                input_fn,
                last_error: None,
                channels: channels as usize,
                max_samples,
                input_buffer,
            },
        )
    }

    /// Resizes the scratch buffer for `channels` channels, to
    /// `max_samples * channels` values. Where there are no channels the block
    /// is left as it is. Where that size does not fit in memory the buffer is
    /// emptied and the failure recorded, so that every later request fails
    /// instead of the engine reading past the buffer.
    pub fn set_channels(&mut self, channels: u32) -> (r: Result<()>)
        requires
            old(self).wf(),
        ensures
            final(self).wf(),
            r is Ok <==> (channels > 0 && old(self).spec_max_samples() * channels <= usize::MAX),
            final(self).spec_max_samples() == old(self).spec_max_samples(),
            final(self).spec_input_fn() == old(self).spec_input_fn(),
            channels == 0 ==> *final(self) == *old(self),
            channels > 0 ==> final(self).spec_channels() == channels,
            r is Ok ==> final(self).spec_input_buffer().len() == old(self).spec_max_samples()
                * channels && final(self).spec_last_error() == old(self).spec_last_error(),
            r is Err && channels > 0 ==> final(self).spec_input_buffer().len() == 0
                && final(self).spec_last_error() matches Some(ErrorType::ProcessError(_)),
            r matches Err(e) ==> (channels == 0 ==> e.1 == (ErrorType::SizeMismatch {
                len: old(self).spec_max_samples() as usize,
                channels,
            })) && (channels > 0 ==> e.1 is ProcessError),
    {
        if channels == 0 {
            return Err(
                Error::new(None, ErrorType::SizeMismatch { len: self.max_samples, channels }),
            );
        }
        self.channels = channels as usize;
        match self.max_samples.checked_mul(channels as usize) {
            Some(size) => {
                self.input_buffer = default_buffer(size);
                Ok(())
            },
            None => {
                self.input_buffer = Vec::new();
                self.last_error = Some(
                    ErrorType::ProcessError("input buffer size overflows".to_owned()),
                );
                Err(
                    Error::new(
                        Some("Soxr::set_num_channels".to_owned()),
                        ErrorType::ProcessError("input buffer size overflows".to_owned()),
                    ),
                )
            },
        }
    }
}

impl<P: InputSupplier<T>, T: Default> ScratchOwner for TrampolineData<P, T> {
    /// A marked block whose buffer for `channels` channels fits in memory
    /// holds `max_samples * channels` values for `channels` channels.
    open spec fn sized_for(&self, channels: u32) -> bool {
        (self.wf() && channels > 0 && self.spec_max_samples() * channels <= usize::MAX) ==> (
        self.spec_channels() == channels && self.spec_input_buffer().len()
            == self.spec_max_samples() * channels)
    }

    fn follow_channels(&mut self, channels: u32) {
        if self.is_tagged() {
            let _ = self.set_channels(channels);
        }
    }
}

impl<P: InputSupplier<T>, T> TrampolineData<P, T> {
    /// Answers one request of the engine for `requested` samples per channel:
    /// calls the supplier once, with the whole scratch buffer and `requested`
    /// unchanged, and turns its result into the reply for the engine
    /// (`spec_reply`), recording a failure as the last error
    /// (`records_error`). A `Data(n)` reply never promises more samples than
    /// the scratch buffer holds.
    pub fn supply(&mut self, requested: usize) -> (r: InputReply)
        requires
            old(self).wf(),
        ensures
            final(self).wf(),
            final(self).spec_channels() == old(self).spec_channels(),
            final(self).spec_max_samples() == old(self).spec_max_samples(),
            final(self).spec_input_buffer().len() == old(self).spec_input_buffer().len(),
            exists|res: Result<usize>|
                {
                    &&& #[trigger] P::supplied(
                        old(self).spec_input_fn(),
                        final(self).spec_input_fn(),
                        old(self).spec_input_buffer(),
                        final(self).spec_input_buffer(),
                        requested,
                        res,
                    )
                    &&& r == spec_reply(
                        res,
                        old(self).spec_input_buffer().len() / old(self).spec_channels(),
                    )
                    &&& records_error(
                        res,
                        r,
                        old(self).spec_last_error(),
                        final(self).spec_last_error(),
                    )
                },
            r matches InputReply::Data(n) ==> 0 < n && n * final(self).spec_channels()
                <= final(self).spec_input_buffer().len(),
    {
        let result = self.input_fn.supply(self.input_buffer.as_mut_slice(), requested);
        let room = self.input_buffer.len() / self.channels;
        let reply = reply_for(&result, room);
        let ghost res = result;
        proof {
            if let InputReply::Data(n) = reply {
                let len = self.input_buffer@.len();
                let ch = self.channels as nat;
                assert(n * ch <= len) by (nonlinear_arith)
                    requires
                        n <= room,
                        room == len / ch,
                        ch > 0,
                ;
            }
        }
        if let InputReply::Failure = reply {
            self.last_error = match result {
                Err(Error(_, e)) => Some(e),
                Ok(_) => Some(
                    ErrorType::ProcessError(
                        "input function returned more samples than the input buffer holds".to_owned(),
                    ),
                ),
            };
        }
        proof {
            assert(P::supplied(
                old(self).spec_input_fn(),
                self.spec_input_fn(),
                old(self).spec_input_buffer(),
                self.spec_input_buffer(),
                requested,
                res,
            ));
        }
        reply
    }
}

} // verus!
