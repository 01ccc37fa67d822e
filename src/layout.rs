//! Buffer layout: how a flat sample buffer is divided among channels.
//!
//! Lengths handed to the native engine count samples per channel; a host
//! buffer holds `samples per channel * channels` values, either interleaved
//! (all channels of one instant side by side) or split (one contiguous
//! segment per channel).
use crate::error_handling::{Error, ErrorType, Result};
use vstd::prelude::*;

verus! {

/// Whether `starts` holds the start of each channel's segment in a split buffer
/// of `samples` samples per channel: channel `c` starts at `c * samples`.
pub open spec fn segment_starts(starts: Seq<usize>, samples: nat, channels: nat) -> bool {
    &&& starts.len() == channels
    &&& forall|c: int| 0 <= c < channels ==> #[trigger] starts[c] == c * samples
}

/// Where the native call finds the samples of a host buffer.
#[derive(Debug)]
pub struct BufferPlan {
    /// Samples per channel that the buffer holds.
    pub samples_per_channel: usize,
    /// For a split buffer, the index at which each channel's segment starts;
    /// empty for an interleaved buffer, which is handed over as one pointer.
    pub channel_starts: Vec<usize>,
}

impl BufferPlan {
    /// The plan for a buffer of `len` values over `channels` channels.
    pub open spec fn describes(&self, len: nat, channels: nat, interleaved: bool) -> bool {
        &&& channels > 0
        &&& len % channels == 0
        &&& self.samples_per_channel == len / channels
        &&& if interleaved {
            self.channel_starts@.len() == 0
        } else {
            segment_starts(self.channel_starts@, len / channels, channels)
        }
    }
}

/// Whether a buffer of `len` values divides evenly among `channels` channels.
pub open spec fn divides(len: nat, channels: nat) -> bool {
    channels > 0 && len % channels == 0
}

/// Samples per channel in a buffer of `len` values; fails with `SizeMismatch`
/// where the values do not divide evenly among the channels.
pub fn samples_per_channel(len: usize, channels: u32) -> (r: Result<usize>)
    ensures
        r is Ok <==> divides(len as nat, channels as nat),
        r matches Ok(n) ==> n == (len as nat) / (channels as nat),
        r matches Err(e) ==> e.1 == (ErrorType::SizeMismatch { len, channels }),
{
    if channels == 0 || len % (channels as usize) != 0 {
        Err(Error::new(None, ErrorType::SizeMismatch { len, channels }))
    } else {
        Ok(len / (channels as usize))
    }
}

/// Lays out a buffer of `len` values over `channels` channels, interleaved or split.
/// Fails with `SizeMismatch` where the values do not divide evenly among the channels.
pub fn plan_buffer(len: usize, channels: u32, interleaved: bool) -> (r: Result<BufferPlan>)
    ensures
        r is Ok <==> divides(len as nat, channels as nat),
        r matches Ok(p) ==> p.describes(len as nat, channels as nat, interleaved),
        r matches Err(e) ==> e.1 == (ErrorType::SizeMismatch { len, channels }),
{
    let samples = samples_per_channel(len, channels)?;
    let mut starts: Vec<usize> = Vec::new();
    if !interleaved {
        let ghost n: nat = (len as nat) / (channels as nat);
        assert(n * channels == len) by (nonlinear_arith)
            requires
                channels > 0,
                (len as nat) % (channels as nat) == 0,
                n == (len as nat) / (channels as nat),
        ;
        let mut c: usize = 0;
        let mut start: usize = 0;
        while c < channels as usize
            invariant
                samples == n,
                n * channels == len,
                c <= channels,
                start == c * n,
                segment_starts(starts@, n, c as nat),
            decreases channels - c,
        {
            assert(start + n <= len) by (nonlinear_arith)
                requires
                    start == c * n,
                    c < channels,
                    n * channels == len,
            ;
            let ghost prev = starts@;
            starts.push(start);
            proof {
                assert(starts@ == prev.push(start));
                assert(start + samples == (c + 1) * n) by (nonlinear_arith)
                    requires
                        start == c * n,
                        samples == n,
                ;
            }
            start = start + samples;
            c = c + 1;
        }
    }
    Ok(BufferPlan { samples_per_channel: samples, channel_starts: starts })
}

} // verus!
