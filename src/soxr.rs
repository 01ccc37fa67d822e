//! The bookkeeping of a resampler handle: channel count and buffer layout,
//! the input mode, and the ownership of registered input-function blocks.
//!
//! Each operation of a handle is the native call framed by two steps of
//! `SoxrState`: one that decides whether and with what arguments the call is
//! made, and one that takes the native outcome and yields the result.
use crate::error_handling::{Error, ErrorType, Result};
use crate::layout::{divides, plan_buffer, BufferPlan};
use crate::spec::IOSpec;
use crate::trampoline::ScratchOwner;
use vstd::prelude::*;

verus! {

/// How a resampler gets its input.
#[derive(Debug, Clone, Copy, PartialEq, Eq, Structural)]
pub enum InputMode {
    /// Buffers are pushed through `process`.
    Direct,
    /// `process` was told that the input has ended; only a flush or a clear may follow.
    Ended,
    /// A supplier is registered and `output` drives the conversion.
    Callback,
}

/// The buffers of one conversion step: the input (absent at the end of input)
/// and the output.
#[derive(Debug)]
pub struct ProcessPlan {
    pub input: Option<BufferPlan>,
    pub output: BufferPlan,
}

impl ProcessPlan {
    /// Input samples per channel handed to the engine.
    pub open spec fn spec_input_len(&self) -> nat {
        match self.input {
            Some(p) => p.samples_per_channel as nat,
            None => 0,
        }
    }
}

/// The state of a resampler handle that outlives single calls. `B` owns a
/// registered input-function block (see `trampoline`).
#[derive(Debug)]
pub struct SoxrState<B> {
    channels: u32,
    io_spec: Option<IOSpec>,
    mode: InputMode,
    input_fn: Option<B>,
    stale: Vec<B>,
    engine_live: bool,
}

/// The error for a refused change, naming `func`.
pub fn change_result(func: &str, native_error: Option<String>) -> (r: Result<()>)
    ensures
        r is Ok <==> native_error is None,
        r matches Err(e) ==> (e.0 matches Some(f) && f@ == func@) && (e.1 matches ErrorType::ChangeError(
            m,
        ) && m@ == native_error->Some_0@),
{
    match native_error {
        None => Ok(()),
        Some(m) => Err(Error::new(Some(func.to_owned()), ErrorType::ChangeError(m))),
    }
}

impl<B> SoxrState<B> {
    pub closed spec fn spec_channels(&self) -> u32 {
        self.channels
    }

    pub closed spec fn spec_io_spec(&self) -> Option<IOSpec> {
        self.io_spec
    }

    pub closed spec fn spec_mode(&self) -> InputMode {
        self.mode
    }

    /// The block that the engine calls into, if any.
    pub closed spec fn spec_input_fn(&self) -> Option<B> {
        self.input_fn
    }

    /// Blocks whose registration the engine refused: it may still hold their
    /// address, so they live until the engine is deleted.
    pub closed spec fn spec_stale(&self) -> Seq<B> {
        self.stale@
    }

    pub closed spec fn spec_engine_live(&self) -> bool {
        self.engine_live
    }

    /// Every block the handle keeps alive.
    pub open spec fn spec_live_blocks(&self) -> Seq<B> {
        match self.spec_input_fn() {
            Some(b) => self.spec_stale().push(b),
            None => self.spec_stale(),
        }
    }

    /// Input buffers are interleaved (the default) unless the I/O spec says split.
    pub open spec fn spec_input_interleaved(&self) -> bool {
        match self.spec_io_spec() {
            Some(s) => s.spec_input_type().spec_is_interleaved(),
            None => true,
        }
    }

    pub open spec fn spec_output_interleaved(&self) -> bool {
        match self.spec_io_spec() {
            Some(s) => s.spec_output_type().spec_is_interleaved(),
            None => true,
        }
    }

    /// Whether `process` may run, with or without an input buffer.
    pub open spec fn process_allowed(&self, has_input: bool) -> bool {
        &&& self.spec_engine_live()
        &&& !(self.spec_mode() is Callback)
        &&& !(self.spec_mode() is Ended && has_input)
    }

    /// Samples per channel that `output` asks of the engine.
    pub open spec fn spec_output_request(&self, samples: usize) -> usize {
        if self.spec_engine_live() && self.spec_mode() is Callback {
            samples
        } else {
            0
        }
    }

    /// The state of a handle whose native engine was created, or the creation
    /// error where the engine reported one.
    pub fn create(num_channels: u32, io_spec: Option<&IOSpec>, native_error: Option<String>) -> (r:
        Result<Self>)
        ensures
            r is Ok <==> native_error is None,
            r matches Ok(s) ==> {
                &&& s.spec_channels() == num_channels
                &&& s.spec_io_spec() == match io_spec {
                    Some(x) => Some(*x),
                    None => None::<IOSpec>,
                }
                &&& s.spec_mode() is Direct
                &&& s.spec_input_fn() is None
                &&& s.spec_stale().len() == 0
                &&& s.spec_engine_live()
            },
            r matches Err(e) ==> (e.0 matches Some(f) && f@ == "Soxr::new"@) && (e.1 matches ErrorType::CreateError(
                m,
            ) && m@ == native_error->Some_0@),
    {
        match native_error {
            Some(m) => Err(Error::new(Some("Soxr::new".to_owned()), ErrorType::CreateError(m))),
            None => {
                let io = match io_spec {
                    Some(x) => Some(*x),
                    None => None,
                };
                Ok(
                    SoxrState {
                        channels: num_channels,
                        io_spec: io,
                        mode: InputMode::Direct,
                        input_fn: None,
                        stale: Vec::new(),
                        engine_live: true,
                    },
                )
            },
        }
    }

    pub fn channels(&self) -> (r: u32)
        ensures
            r == self.spec_channels(),
    {
        self.channels
    }

    pub fn io_spec(&self) -> (r: Option<IOSpec>)
        ensures
            r == self.spec_io_spec(),
    {
        self.io_spec
    }

    pub fn mode(&self) -> (r: InputMode)
        ensures
            r == self.spec_mode(),
    {
        self.mode
    }

    pub fn has_input_fn(&self) -> (r: bool)
        ensures
            r == self.spec_input_fn() is Some,
    {
        self.input_fn.is_some()
    }

    pub fn engine_live(&self) -> (r: bool)
        ensures
            r == self.spec_engine_live(),
    {
        self.engine_live
    }

    pub fn input_interleaved(&self) -> (r: bool)
        ensures
            r == self.spec_input_interleaved(),
    {
        match &self.io_spec {
            Some(s) => s.input_type().is_interleaved(),
            None => true,
        }
    }

    pub fn output_interleaved(&self) -> (r: bool)
        ensures
            r == self.spec_output_interleaved(),
    {
        match &self.io_spec {
            Some(s) => s.output_type().is_interleaved(),
            None => true,
        }
    }

    /// Decides a conversion step with an input buffer of `in_len` values
    /// (`None`: the end of input) and an output buffer of `out_len` values.
    /// Fails with `SizeMismatch` where a buffer does not divide among the
    /// channels, whatever the state; otherwise refused while a supplier is
    /// registered, after the engine's deletion, and for input after the end of
    /// input (until `clear`). Nothing reaches the engine unless this returns a
    /// plan.
    pub fn plan_process(&self, in_len: Option<usize>, out_len: usize) -> (r: Result<ProcessPlan>)
        ensures
            r is Ok <==> {
                &&& self.process_allowed(in_len is Some)
                &&& (in_len matches Some(l) ==> divides(l as nat, self.spec_channels() as nat))
                &&& divides(out_len as nat, self.spec_channels() as nat)
            },
            r matches Ok(p) ==> {
                &&& (in_len is None <==> p.input is None)
                &&& (in_len matches Some(l) ==> p.input->Some_0.describes(
                    l as nat,
                    self.spec_channels() as nat,
                    self.spec_input_interleaved(),
                ))
                &&& p.output.describes(
                    out_len as nat,
                    self.spec_channels() as nat,
                    self.spec_output_interleaved(),
                )
            },
            r matches Err(e) ==> {
                &&& in_len matches Some(l) ==> (!divides(l as nat, self.spec_channels() as nat)
                    ==> e.1 == (ErrorType::SizeMismatch { len: l, channels: self.spec_channels() }))
                &&& (in_len matches Some(l) ==> divides(l as nat, self.spec_channels() as nat))
                    ==> (!divides(out_len as nat, self.spec_channels() as nat) ==> e.1 == (
                ErrorType::SizeMismatch { len: out_len, channels: self.spec_channels() }))
                &&& ((in_len matches Some(l) ==> divides(l as nat, self.spec_channels() as nat))
                    && divides(out_len as nat, self.spec_channels() as nat)) ==> (e.0 matches Some(
                    f,
                ) && f@ == "Soxr::process"@ && e.1 is ProcessError)
            },
    {
        let input = match in_len {
            Some(len) => Some(plan_buffer(len, self.channels, self.input_interleaved())?),
            None => None,
        };
        let output = plan_buffer(out_len, self.channels, self.output_interleaved())?;
        let refusal = if !self.engine_live {
            Some("the resampler has been deleted")
        } else if let InputMode::Callback = self.mode {
            Some("an input function is registered: use output")
        } else if let (InputMode::Ended, Some(_)) = (self.mode, in_len) {
            Some("input after the end of input: clear the resampler first")
        } else {
            None
        };
        if let Some(reason) = refusal {
            return Err(
                Error::new(
                    Some("Soxr::process".to_owned()),
                    ErrorType::ProcessError(reason.to_owned()),
                ),
            );
        }
        Ok(ProcessPlan { input, output })
    }

    /// Completes a conversion step from the engine's outcome: its error, or the
    /// input samples it consumed and the output samples it produced, per
    /// channel. A count beyond its buffer is refused. After a successful step
    /// without input the handle is at the end of input.
    pub fn finish_process(
        &mut self,
        plan: &ProcessPlan,
        native_error: Option<String>,
        idone: usize,
        odone: usize,
    ) -> (r: Result<(usize, usize)>)
        requires
            old(self).process_allowed(plan.input is Some),
        ensures
            r is Ok <==> (native_error is None && idone <= plan.spec_input_len()
                && odone <= plan.output.samples_per_channel),
            r matches Ok(counts) ==> counts == (idone, odone),
            plan.input is None ==> (r matches Ok(counts) ==> counts.0 == 0),
            r matches Err(e) ==> (e.0 matches Some(f) && f@ == "Soxr::process"@) && (e.1 matches ErrorType::ProcessError(
                m,
            ) && (native_error matches Some(n) ==> m@ == n@)),
            final(self).spec_mode() == if r is Ok && plan.input is None {
                InputMode::Ended
            } else {
                old(self).spec_mode()
            },
            final(self).spec_channels() == old(self).spec_channels(),
            final(self).spec_io_spec() == old(self).spec_io_spec(),
            final(self).spec_input_fn() == old(self).spec_input_fn(),
            final(self).spec_stale() == old(self).spec_stale(),
            final(self).spec_engine_live() == old(self).spec_engine_live(),
    {
        let ilen = match &plan.input {
            Some(p) => p.samples_per_channel,
            None => 0,
        };
        let message = match native_error {
            Some(m) => m,
            None => {
                if idone <= ilen && odone <= plan.output.samples_per_channel {
                    if plan.input.is_none() {
                        self.mode = InputMode::Ended;
                    }
                    return Ok((idone, odone));
                }
                "the engine reported more samples than its buffers hold".to_owned()
            },
        };
        Err(Error::new(Some("Soxr::process".to_owned()), ErrorType::ProcessError(message)))
    }

    /// Takes a newly registered input-function block once the engine has
    /// answered its registration. On success the block becomes the one the
    /// engine calls into and the previous one is handed back to be freed: the
    /// engine no longer calls into it. On failure the handle keeps the new
    /// block alive until the engine's deletion and keeps the previous one.
    pub fn finish_set_input(&mut self, block: B, native_error: Option<String>) -> (r: (
        Result<()>,
        Option<B>,
    ))
        ensures
            r.0 is Ok <==> native_error is None,
            r.0 is Ok ==> {
                &&& final(self).spec_input_fn() == Some(block)
                &&& final(self).spec_live_blocks() == old(self).spec_stale().push(block)
                &&& r.1 == old(self).spec_input_fn()
                &&& final(self).spec_stale() == old(self).spec_stale()
                &&& final(self).spec_mode() is Callback
            },
            r.0 matches Err(e) ==> {
                &&& (e.0 matches Some(f) && f@ == "Soxr::set_input"@)
                &&& (e.1 matches ErrorType::ProcessError(m) && m@ == native_error->Some_0@)
                &&& final(self).spec_input_fn() == old(self).spec_input_fn()
                &&& final(self).spec_stale() == old(self).spec_stale().push(block)
                &&& final(self).spec_mode() == old(self).spec_mode()
                &&& r.1 is None
            },
            final(self).spec_channels() == old(self).spec_channels(),
            final(self).spec_io_spec() == old(self).spec_io_spec(),
            final(self).spec_engine_live() == old(self).spec_engine_live(),
    {
        match native_error {
            None => {
                let previous = self.input_fn.take();
                self.input_fn = Some(block);
                self.mode = InputMode::Callback;
                (Ok(()), previous)
            },
            Some(m) => {
                self.stale.push(block);
                (
                    Err(Error::new(Some("Soxr::set_input".to_owned()), ErrorType::ProcessError(m))),
                    None,
                )
            },
        }
    }

    /// Whether an output buffer of `data_len` values has room for `samples`
    /// samples per channel.
    pub fn output_fits(&self, data_len: usize, samples: usize) -> (r: bool)
        ensures
            r == (samples * self.spec_channels() <= data_len),
    {
        if self.channels == 0 {
            assert(samples * 0 == 0) by (nonlinear_arith);
            return true;
        }
        let room = data_len / (self.channels as usize);
        proof {
            let ch = self.channels as nat;
            assert(samples <= room <==> samples * ch <= data_len) by (nonlinear_arith)
                requires
                    ch > 0,
                    room == (data_len as nat) / ch,
            ;
        }
        samples <= room
    }

    /// The layout of an output buffer of `data_len` values for `output`: one
    /// segment of `data_len / channels` samples per channel where the output is
    /// split. Fails with `SizeMismatch` where there are no channels.
    pub fn plan_output(&self, data_len: usize) -> (r: Result<BufferPlan>)
        ensures
            r is Ok <==> self.spec_channels() > 0,
            r matches Ok(p) ==> p.describes(
                (data_len as nat / self.spec_channels() as nat) * self.spec_channels() as nat,
                self.spec_channels() as nat,
                self.spec_output_interleaved(),
            ),
            r matches Err(e) ==> e.1 == (ErrorType::SizeMismatch { len: data_len, channels: 0 }),
    {
        if self.channels == 0 {
            return Err(Error::new(None, ErrorType::SizeMismatch { len: data_len, channels: 0 }));
        }
        let ch = self.channels as usize;
        let rem = data_len % ch;
        assert(rem <= data_len) by (nonlinear_arith)
            requires
                ch > 0,
                rem == data_len % ch,
        ;
        let whole = data_len - rem;
        proof {
            let c = ch as nat;
            let l = data_len as nat;
            let w = whole as nat;
            assert(w == (l / c) * c && w % c == 0) by (nonlinear_arith)
                requires
                    c > 0,
                    w == l - l % c,
            ;
        }
        plan_buffer(whole, self.channels, self.output_interleaved())
    }

    /// Samples per channel that `output` asks of the engine: all of `samples`
    /// while a supplier is registered, none otherwise (no engine call is made).
    pub fn output_request(&self, samples: usize) -> (r: usize)
        ensures
            r == self.spec_output_request(samples),
    {
        if self.engine_live && self.mode == InputMode::Callback {
            samples
        } else {
            0
        }
    }

    /// The count that `output` returns for the engine's `produced` samples per
    /// channel: never more than was requested.
    pub fn finish_output(&self, requested: usize, produced: usize) -> (r: usize)
        ensures
            r <= requested,
            produced <= requested ==> r == produced,
            r == if produced <= requested {
                produced
            } else {
                requested
            },
    {
        if produced <= requested {
            produced
        } else {
            requested
        }
    }

    /// Takes the engine's answer to a clear: on success the handle is ready for
    /// a fresh signal; a registered supplier stays registered.
    pub fn finish_clear(&mut self, native_error: Option<String>) -> (r: Result<()>)
        ensures
            r is Ok <==> native_error is None,
            r matches Err(e) ==> (e.0 matches Some(f) && f@ == "Soxr::clear"@) && (e.1 matches ErrorType::ChangeError(
                m,
            ) && m@ == native_error->Some_0@),
            final(self).spec_mode() == if r is Ok && old(self).spec_mode() is Ended {
                InputMode::Direct
            } else {
                old(self).spec_mode()
            },
            final(self).spec_channels() == old(self).spec_channels(),
            final(self).spec_io_spec() == old(self).spec_io_spec(),
            final(self).spec_input_fn() == old(self).spec_input_fn(),
            final(self).spec_stale() == old(self).spec_stale(),
            final(self).spec_engine_live() == old(self).spec_engine_live(),
    {
        let r = change_result("Soxr::clear", native_error);
        if r.is_ok() && self.mode == InputMode::Ended {
            self.mode = InputMode::Direct;
        }
        r
    }

    /// Records that the native engine has been deleted: it makes no further
    /// calls into any block.
    pub fn engine_deleted(&mut self)
        ensures
            !final(self).spec_engine_live(),
            final(self).spec_channels() == old(self).spec_channels(),
            final(self).spec_io_spec() == old(self).spec_io_spec(),
            final(self).spec_mode() == old(self).spec_mode(),
            final(self).spec_input_fn() == old(self).spec_input_fn(),
            final(self).spec_stale() == old(self).spec_stale(),
    {
        self.engine_live = false;
    }

    /// Hands back every block the handle keeps alive, to be freed; allowed only
    /// once the engine is deleted, so that no block is freed while the engine
    /// may read it.
    pub fn release_blocks(&mut self) -> (r: Vec<B>)
        requires
            !old(self).spec_engine_live(),
        ensures
            r@ == old(self).spec_live_blocks(),
            final(self).spec_live_blocks().len() == 0,
            !final(self).spec_engine_live(),
    {
        let mut blocks: Vec<B> = Vec::new();
        std::mem::swap(&mut blocks, &mut self.stale);
        if let Some(b) = self.input_fn.take() {
            blocks.push(b);
        }
        blocks
    }
}

impl<B: ScratchOwner> SoxrState<B> {
    /// Takes the engine's answer to a change of the channel count. On success
    /// the new count governs buffer layout from now on, and every block the
    /// handle keeps alive is told to size its scratch buffer for it; on
    /// failure nothing changes.
    pub fn finish_channel_change(&mut self, num_channels: u32, native_error: Option<String>) -> (r:
        Result<()>)
        ensures
            r is Ok <==> native_error is None,
            final(self).spec_channels() == if r is Ok {
                num_channels
            } else {
                old(self).spec_channels()
            },
            r matches Err(e) ==> (e.0 matches Some(f) && f@ == "Soxr::set_num_channels"@) && (
            e.1 matches ErrorType::ChangeError(m) && m@ == native_error->Some_0@),
            r is Err ==> final(self).spec_input_fn() == old(self).spec_input_fn()
                && final(self).spec_stale() == old(self).spec_stale(),
            r is Ok ==> forall|i: int| 0 <= i < final(self).spec_live_blocks().len()
                ==> #[trigger] final(self).spec_live_blocks()[i].sized_for(num_channels),
            final(self).spec_input_fn() is Some == old(self).spec_input_fn() is Some,
            final(self).spec_stale().len() == old(self).spec_stale().len(),
            final(self).spec_io_spec() == old(self).spec_io_spec(),
            final(self).spec_mode() == old(self).spec_mode(),
            final(self).spec_engine_live() == old(self).spec_engine_live(),
    {
        let r = change_result("Soxr::set_num_channels", native_error);
        if r.is_ok() {
            self.channels = num_channels;
            if let Some(mut b) = self.input_fn.take() {
                b.follow_channels(num_channels);
                self.input_fn = Some(b);
            }
            let mut rest: Vec<B> = Vec::new();
            std::mem::swap(&mut rest, &mut self.stale);
            let ghost n = rest@.len();
            let mut kept: Vec<B> = Vec::new();
            while rest.len() > 0
                invariant
                    kept@.len() + rest@.len() == n,
                    forall|i: int| 0 <= i < kept@.len() ==> #[trigger] kept@[i].sized_for(num_channels),
                decreases rest@.len(),
            {
                let mut b = rest.remove(0);
                b.follow_channels(num_channels);
                kept.push(b);
            }
            self.stale = kept;
        }
        r
    }
}

/// Once a resampler has been told that its input has ended, it takes no
/// further input: `plan_process` refuses every input buffer until the handle
/// is cleared, while flushing without input stays allowed.
pub proof fn lemma_end_of_input_is_final<B>(s: SoxrState<B>)
    requires
        s.spec_mode() is Ended,
    ensures
        !s.process_allowed(true),
        s.process_allowed(false) == s.spec_engine_live(),
{
}

/// Once the native engine is deleted, no request reaches it: `output` asks it
/// for nothing, so no supplier is invoked, and `process` is refused.
pub proof fn lemma_no_requests_after_delete<B>(s: SoxrState<B>, samples: usize)
    requires
        !s.spec_engine_live(),
    ensures
        s.spec_output_request(samples) == 0,
        !s.process_allowed(true),
        !s.process_allowed(false),
{
}

/// Registering a supplier on a handle that holds only its current block leaves
/// exactly one block alive, the new one; the previous block is handed back.
pub proof fn lemma_registration_keeps_one_block<B>(
    before: SoxrState<B>,
    after: SoxrState<B>,
    block: B,
    retired: Option<B>,
)
    requires
        before.spec_stale().len() == 0,
        after.spec_live_blocks() == before.spec_stale().push(block),
        retired == before.spec_input_fn(),
    ensures
        after.spec_live_blocks() == seq![block],
        before.spec_live_blocks() == match retired {
            Some(b) => seq![b],
            None => Seq::<B>::empty(),
        },
{
    assert(after.spec_live_blocks() =~= seq![block]);
    match retired {
        Some(b) => assert(before.spec_live_blocks() =~= seq![b]),
        None => assert(before.spec_live_blocks() =~= Seq::<B>::empty()),
    }
}

} // verus!
