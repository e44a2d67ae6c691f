//! The decisions of the stream harness loops. A driver hands a stream input
//! slices and output buffers, and after each call of the stream decides,
//! from how much the stream consumed and produced and what it returned,
//! whether to call it again, return, or give up. The calls themselves are
//! made by the caller of these state machines.
use vstd::prelude::*;
use crate::harness::{
    chunk_len, control, output_len, spec_chunk_len, spec_control, spec_output_len,
    spec_upstream_expected, FINISH_NO_PROGRESS_LIMIT, UPSTREAM_IN_CHUNK_SIZE,
};

verus! {

/// What a stream call reported on success.
#[derive(Clone, Copy, Debug, PartialEq, Eq)]
pub enum Status {
    Normal,
    StreamEnd,
    GetCheck,
    MemNeeded,
}

/// What a stream call is asked to do.
#[derive(Clone, Copy, Debug, PartialEq, Eq)]
pub enum Action {
    Run,
    SyncFlush,
    FullFlush,
    FullBarrier,
    Finish,
}

/// Errors a stream call can report.
#[derive(Clone, Copy, Debug, PartialEq, Eq)]
pub enum Error {
    Data,
    Options,
    Format,
    MemLimit,
    Mem,
    Program,
    NoCheck,
    UnsupportedCheck,
}

/// How many calls a driver makes for one action before it gives up.
pub const MAX_ROUNDS: usize = 200_000;

/// A driver's decision after a stream call.
#[derive(Clone, Copy, Debug, PartialEq, Eq)]
pub enum LoopStep {
    /// Call the stream again.
    Continue,
    /// Stop and report this status.
    Done(Status),
    /// The round limit was reached without finishing the action.
    Stuck,
}

/// Picks the output buffer size for the next call from the control bytes,
/// and moves to the next control byte.
pub fn next_output_len(controls: &[u8], control_index: &mut usize) -> (r: usize)
    requires
        *old(control_index) < usize::MAX,
    ensures
        r == spec_output_len(spec_control(controls@, *old(control_index) as nat)),
        *final(control_index) == *old(control_index) + 1,
        r >= 1,
{
    let r = output_len(control(controls, *control_index));
    *control_index = *control_index + 1;
    r
}

/// Appends the first `produced` bytes of `output` to `encoded`.
pub fn append_output(encoded: &mut Vec<u8>, output: &[u8], produced: usize)
    requires
        produced <= output@.len(),
    ensures
        final(encoded)@ == old(encoded)@ + output@.take(produced as int),
{
    let n = produced;
    let mut i: usize = 0;
    while i < n
        invariant
            n == produced,
            n <= output@.len(),
            i <= n,
            encoded@ == old(encoded)@ + output@.take(i as int),
        decreases n - i,
    {
        encoded.push(output[i]);
        i += 1;
        assert(encoded@ == old(encoded)@ + output@.take(i as int));
    }
}

/// Drives one action of an encoder with output buffers sized by the control
/// bytes: a run action ends once all of its input is consumed, any other
/// action once the stream reports the end of the stream.
pub struct EncoderActionLoop {
    pub action: Action,
    pub input_len: usize,
    pub input_pos: usize,
    pub round: usize,
}

impl EncoderActionLoop {
    pub open spec fn inv(&self) -> bool {
        self.input_pos <= self.input_len && self.round <= MAX_ROUNDS
    }

    /// A driver for `action` over an input of `input_len` bytes.
    pub fn new(action: Action, input_len: usize) -> (r: EncoderActionLoop)
        ensures
            r.inv(),
            r.action == action && r.input_len == input_len,
            r.input_pos == 0 && r.round == 0,
    {
        EncoderActionLoop { action, input_len, input_pos: 0, round: 0 }
    }

    /// Takes in the result of one call: the stream consumed `consumed` input
    /// bytes from `input_pos`, wrote `produced` bytes of `output` (they are
    /// appended to `encoded`) and returned `status`.
    pub fn absorb(
        &mut self,
        encoded: &mut Vec<u8>,
        output: &[u8],
        consumed: usize,
        produced: usize,
        status: Status,
    ) -> (r: LoopStep)
        requires
            old(self).inv(),
            old(self).round < MAX_ROUNDS,
            consumed <= old(self).input_len - old(self).input_pos,
            produced <= output@.len(),
        ensures
            final(self).inv(),
            final(self).action == old(self).action,
            final(self).input_len == old(self).input_len,
            final(self).input_pos == old(self).input_pos + consumed,
            final(self).round == old(self).round + 1,
            final(encoded)@ == old(encoded)@ + output@.take(produced as int),
            r == (if (old(self).action == Action::Run && final(self).input_pos
                == old(self).input_len) || (old(self).action != Action::Run && status
                == Status::StreamEnd) {
                LoopStep::Done(status)
            } else if final(self).round == MAX_ROUNDS {
                LoopStep::Stuck
            } else {
                LoopStep::Continue
            }),
    {
        self.round = self.round + 1;
        self.input_pos = self.input_pos + consumed;
        append_output(encoded, output, produced);
        let done = match self.action {
            Action::Run => self.input_pos == self.input_len,
            _ => match status {
                Status::StreamEnd => true,
                _ => false,
            },
        };
        if done {
            LoopStep::Done(status)
        } else if self.round == MAX_ROUNDS {
            LoopStep::Stuck
        } else {
            LoopStep::Continue
        }
    }
}

/// Drives one action of an encoder the way the upstream harness does: a
/// fixed output buffer per call, done as for `EncoderActionLoop`, and also
/// done after two calls in a row that neither consumed nor produced.
pub struct UpstreamEncoderLoop {
    pub action: Action,
    pub input_len: usize,
    pub input_pos: usize,
    pub no_progress: usize,
    pub round: usize,
}

impl UpstreamEncoderLoop {
    pub open spec fn inv(&self) -> bool {
        &&& self.input_pos <= self.input_len
        &&& self.round <= MAX_ROUNDS
        &&& self.no_progress <= 1
    }

    /// A driver for `action` over an input of `input_len` bytes.
    pub fn new(action: Action, input_len: usize) -> (r: UpstreamEncoderLoop)
        ensures
            r.inv(),
            r.action == action && r.input_len == input_len,
            r.input_pos == 0 && r.round == 0 && r.no_progress == 0,
    {
        UpstreamEncoderLoop { action, input_len, input_pos: 0, no_progress: 0, round: 0 }
    }

    /// Takes in the result of one call, as `EncoderActionLoop::absorb` does.
    pub fn absorb(
        &mut self,
        encoded: &mut Vec<u8>,
        output: &[u8],
        consumed: usize,
        produced: usize,
        status: Status,
    ) -> (r: LoopStep)
        requires
            old(self).inv(),
            old(self).round < MAX_ROUNDS,
            consumed <= old(self).input_len - old(self).input_pos,
            produced <= output@.len(),
        ensures
            final(self).inv(),
            final(self).action == old(self).action,
            final(self).input_len == old(self).input_len,
            final(self).input_pos == old(self).input_pos + consumed,
            final(self).round == old(self).round + 1,
            final(encoded)@ == old(encoded)@ + output@.take(produced as int),
            ({
                let finished = (old(self).action == Action::Run && final(self).input_pos
                    == old(self).input_len) || (old(self).action != Action::Run && status
                    == Status::StreamEnd);
                let idle = consumed == 0 && produced == 0;
                r == (if finished || (idle && old(self).no_progress == 1) {
                    LoopStep::Done(status)
                } else if final(self).round == MAX_ROUNDS {
                    LoopStep::Stuck
                } else {
                    LoopStep::Continue
                })
                    && (!finished && !(idle && old(self).no_progress == 1) ==> final(self).no_progress == (if idle {
                    old(self).no_progress + 1
                } else {
                    0
                }))
            }),
    {
        self.round = self.round + 1;
        self.input_pos = self.input_pos + consumed;
        append_output(encoded, output, produced);
        let finished = match self.action {
            Action::Run => self.input_pos == self.input_len,
            _ => match status {
                Status::StreamEnd => true,
                _ => false,
            },
        };
        if finished {
            return LoopStep::Done(status);
        }
        if consumed == 0 && produced == 0 {
            if self.no_progress >= 1 {
                self.no_progress = 1;
                return LoopStep::Done(status);
            }
            self.no_progress = self.no_progress + 1;
        } else {
            self.no_progress = 0;
        }
        if self.round == MAX_ROUNDS {
            LoopStep::Stuck
        } else {
            LoopStep::Continue
        }
    }
}

/// A decoder driver's decision after a stream call.
#[derive(Clone, Copy, Debug, PartialEq, Eq)]
pub enum DecoderStep {
    /// Call the stream again.
    Continue,
    /// Stop; `true` when the decoder is finished (end of stream or an
    /// error), `false` when it only needs more input.
    Finished(bool),
    /// The decoder reported a programming error.
    ProgramError,
    /// The round limit was reached without a decision.
    Stuck,
}

/// Drives one action of a decoder the way the upstream harness does.
pub struct UpstreamDecoderLoop {
    pub action: Action,
    pub input_len: usize,
    pub input_pos: usize,
    pub no_progress: usize,
    pub round: usize,
}

impl UpstreamDecoderLoop {
    pub open spec fn inv(&self) -> bool {
        &&& self.input_pos <= self.input_len
        &&& self.round <= MAX_ROUNDS
        &&& self.no_progress <= 1
    }

    /// A driver for `action` over an input of `input_len` bytes.
    pub fn new(action: Action, input_len: usize) -> (r: UpstreamDecoderLoop)
        ensures
            r.inv(),
            r.action == action && r.input_len == input_len,
            r.input_pos == 0 && r.round == 0 && r.no_progress == 0,
    {
        UpstreamDecoderLoop { action, input_len, input_pos: 0, no_progress: 0, round: 0 }
    }

    /// Takes in the result of one call: an error, or the bytes consumed and
    /// produced and the status returned.
    pub fn absorb(&mut self, result: Result<(usize, usize, Status), Error>) -> (r: DecoderStep)
        requires
            old(self).inv(),
            old(self).round < MAX_ROUNDS,
            result matches Ok((c, _, _)) ==> c <= old(self).input_len - old(self).input_pos,
        ensures
            final(self).inv(),
            final(self).action == old(self).action,
            final(self).input_len == old(self).input_len,
            final(self).round == old(self).round + 1,
            result is Err ==> final(self).input_pos == old(self).input_pos,
            match result {
                Err(Error::Program) => r == DecoderStep::ProgramError,
                Err(_) => r == DecoderStep::Finished(true),
                Ok((consumed, produced, status)) => {
                    let progress = consumed != 0 || produced != 0;
                    &&& final(self).input_pos == old(self).input_pos + consumed
                    &&& r == (if status == Status::StreamEnd {
                        DecoderStep::Finished(true)
                    } else if final(self).input_pos == old(self).input_len && (old(self).action
                        == Action::Run || !progress) {
                        DecoderStep::Finished(false)
                    } else if !progress && old(self).no_progress == 1 {
                        DecoderStep::Finished(false)
                    } else if final(self).round == MAX_ROUNDS {
                        DecoderStep::Stuck
                    } else {
                        DecoderStep::Continue
                    })
                },
            },
    {
        self.round = self.round + 1;
        let (consumed, produced, status) = match result {
            Err(Error::Program) => {
                return DecoderStep::ProgramError;
            },
            Err(_) => {
                return DecoderStep::Finished(true);
            },
            Ok(t) => t,
        };
        self.input_pos = self.input_pos + consumed;
        let made_progress = consumed != 0 || produced != 0;
        if let Status::StreamEnd = status {
            return DecoderStep::Finished(true);
        }
        let is_run = match self.action {
            Action::Run => true,
            _ => false,
        };
        if self.input_pos == self.input_len && (is_run || !made_progress) {
            return DecoderStep::Finished(false);
        }
        if made_progress {
            self.no_progress = 0;
        } else {
            if self.no_progress >= 1 {
                return DecoderStep::Finished(false);
            }
            self.no_progress = self.no_progress + 1;
        }
        if self.round == MAX_ROUNDS {
            DecoderStep::Stuck
        } else {
            DecoderStep::Continue
        }
    }
}

/// One slice of input handed to a stream with an action: the bytes
/// `input[start..end]` (empty for flushes and the final finish).
#[derive(Clone, Copy, Debug, PartialEq, Eq)]
pub struct Feed {
    pub start: usize,
    pub end: usize,
    pub action: Action,
}

/// Where the control-driven encoder plan is.
#[derive(Clone, Copy, Debug, PartialEq, Eq)]
pub enum EncodePhase {
    Chunk,
    Flush,
    Finish,
    Done,
}

/// The action a flush control byte asks for.
pub open spec fn flush_action(flush: u8, allow_sync_flush: bool) -> Action {
    if allow_sync_flush {
        if flush % 3 == 0 {
            Action::SyncFlush
        } else if flush % 3 == 1 {
            Action::FullFlush
        } else {
            Action::FullBarrier
        }
    } else if flush % 2 == 0 {
        Action::FullFlush
    } else {
        Action::FullBarrier
    }
}

/// The control-driven encoder plan: the input goes in as run actions of
/// chunks sized by the control bytes, each chunk possibly followed by a
/// flush chosen by the next control byte, and the stream ends with a
/// finish. The control index is shared with the per-call output sizes.
pub struct EncodePlan {
    pub input_len: usize,
    pub input_pos: usize,
    pub control_index: usize,
    pub allow_sync_flush: bool,
    pub phase: EncodePhase,
    /// The input handed out so far, in order.
    pub fed: Ghost<Seq<u8>>,
}

impl EncodePlan {
    pub open spec fn inv(&self, input: Seq<u8>) -> bool {
        &&& self.input_len == input.len()
        &&& self.input_pos <= self.input_len
        &&& self.fed@ == input.take(self.input_pos as int)
        &&& (self.phase == EncodePhase::Done ==> self.input_pos == self.input_len)
        &&& (self.phase == EncodePhase::Finish ==> self.input_pos == self.input_len)
    }

    /// A plan over `input`.
    pub fn new(input: &[u8], allow_sync_flush: bool) -> (r: EncodePlan)
        ensures
            r.inv(input@),
            r.input_pos == 0 && r.control_index == 0,
            r.allow_sync_flush == allow_sync_flush,
            r.phase == EncodePhase::Chunk,
    {
        proof {
            assert(input@.take(0) == Seq::<u8>::empty());
        }
        EncodePlan {
            input_len: input.len(),
            input_pos: 0,
            control_index: 0,
            allow_sync_flush,
            phase: EncodePhase::Chunk,
            fed: Ghost(Seq::empty()),
        }
    }

    /// The next slice and action to hand the encoder, or `None` once the
    /// finish has been handed out. Run slices follow each other without gap
    /// or overlap; flushes and the finish carry no input, and the finish
    /// comes only after all input: once it is handed out, the run slices
    /// together are the whole input.
    pub fn next(&mut self, input: &[u8], controls: &[u8]) -> (r: Option<Feed>)
        requires
            old(self).inv(input@),
            old(self).control_index <= usize::MAX - 2 * (old(self).input_len - old(self).input_pos)
                - 2,
        ensures
            final(self).inv(input@),
            final(self).input_len == old(self).input_len,
            final(self).allow_sync_flush == old(self).allow_sync_flush,
            r matches Some(f) ==> f.start <= f.end <= input@.len() && final(self).fed@
                == old(self).fed@ + input@.subrange(f.start as int, f.end as int),
            r is None ==> final(self).fed@ == old(self).fed@,
            r matches Some(f) && f.action == Action::Finish ==> final(self).fed@ == input@,
            final(self).control_index >= old(self).control_index,
            final(self).control_index <= old(self).control_index + 2,
            final(self).control_index <= usize::MAX - 2 * (final(self).input_len
                - final(self).input_pos),
            ({
                let pos = old(self).input_pos;
                let len = old(self).input_len;
                let c0 = spec_control(controls@, old(self).control_index as nat);
                let flushing = old(self).phase == EncodePhase::Flush;
                let flush_taken = flushing && c0 % 4 == 0;
                let ci1: int = if flushing {
                    old(self).control_index + 1
                } else {
                    old(self).control_index as int
                };
                if flush_taken {
                    &&& r == Some(
                        Feed { start: pos, end: pos, action: flush_action(c0, old(self).allow_sync_flush) },
                    )
                    &&& final(self).phase == EncodePhase::Chunk
                    &&& final(self).input_pos == pos
                    &&& final(self).control_index == old(self).control_index + 1
                } else if old(self).phase == EncodePhase::Done {
                    &&& r is None
                    &&& final(self).phase == EncodePhase::Done
                    &&& final(self).control_index == old(self).control_index
                } else if old(self).phase == EncodePhase::Finish || pos == len {
                    &&& r == Some(Feed { start: len, end: len, action: Action::Finish })
                    &&& final(self).phase == EncodePhase::Done
                    &&& final(self).input_pos == len
                    &&& final(self).control_index == ci1
                } else {
                    let chunk = spec_chunk_len(spec_control(controls@, ci1 as nat), (len - pos) as nat);
                    &&& 1 <= chunk <= len - pos
                    &&& r == Some(Feed { start: pos, end: (pos + chunk) as usize, action: Action::Run })
                    &&& final(self).phase == EncodePhase::Flush
                    &&& final(self).input_pos == pos + chunk
                    &&& final(self).control_index == ci1 + 1
                }
            }),
    {
        if let EncodePhase::Flush = self.phase {
            let flush = control(controls, self.control_index);
            self.control_index = self.control_index + 1;
            self.phase = EncodePhase::Chunk;
            if flush % 4 == 0 {
                let action = if self.allow_sync_flush {
                    match flush % 3 {
                        0 => Action::SyncFlush,
                        1 => Action::FullFlush,
                        _ => Action::FullBarrier,
                    }
                } else if flush % 2 == 0 {
                    Action::FullFlush
                } else {
                    Action::FullBarrier
                };
                proof {
                    let pos = self.input_pos as int;
                    assert(input@.subrange(pos, pos) == Seq::<u8>::empty());
                    assert(self.fed@ + input@.subrange(pos, pos) == self.fed@);
                }
                return Some(Feed { start: self.input_pos, end: self.input_pos, action });
            }
        }
        proof {
            let pos = self.input_pos as int;
            assert(input@.subrange(pos, pos) == Seq::<u8>::empty());
            assert(self.fed@ + input@.subrange(pos, pos) == self.fed@);
            assert(pos == input@.len() ==> input@.take(pos) == input@);
        }
        match self.phase {
            EncodePhase::Done => None,
            EncodePhase::Finish => {
                self.phase = EncodePhase::Done;
                Some(Feed { start: self.input_pos, end: self.input_pos, action: Action::Finish })
            },
            _ => {
                if self.input_pos < self.input_len {
                    let chunk = chunk_len(
                        control(controls, self.control_index),
                        self.input_len - self.input_pos,
                    );
                    self.control_index = self.control_index + 1;
                    let start = self.input_pos;
                    self.input_pos = self.input_pos + chunk;
                    self.phase = EncodePhase::Flush;
                    proof {
                        let c = input@.subrange(start as int, self.input_pos as int);
                        assert(input@.take(start as int) + c == input@.take(self.input_pos as int));
                        self.fed@ = self.fed@ + c;
                    }
                    Some(Feed { start, end: self.input_pos, action: Action::Run })
                } else {
                    self.phase = EncodePhase::Done;
                    Some(
                        Feed { start: self.input_pos, end: self.input_pos, action: Action::Finish },
                    )
                }
            },
        }
    }
}

/// Where an upstream-shaped feeding plan is.
#[derive(Clone, Copy, Debug, PartialEq, Eq)]
pub enum UpstreamPhase {
    FirstHalf,
    Chunks,
    Done,
}

/// The upstream-shaped feeding plan: the first half of the input once as a
/// run, then the whole input again from the start in chunks of
/// `UPSTREAM_IN_CHUNK_SIZE` bytes, the last chunk with `last_action`. An
/// empty input gets a single empty call with `empty_action`. The plan stops
/// early when the caller reports that the stream is done.
pub struct UpstreamPlan {
    pub input_len: usize,
    pub input_pos: usize,
    pub phase: UpstreamPhase,
    pub last_action: Action,
    pub empty_action: Action,
    /// The input handed out so far, in order.
    pub fed: Ghost<Seq<u8>>,
}

impl UpstreamPlan {
    pub open spec fn inv(&self, input: Seq<u8>) -> bool {
        &&& self.input_len == input.len()
        &&& self.input_pos <= self.input_len
        &&& (self.phase == UpstreamPhase::FirstHalf ==> self.fed@ == Seq::<u8>::empty()
            && self.input_pos == 0)
        &&& (self.phase == UpstreamPhase::Chunks ==> self.fed@ == input.take(
            (input.len() / 2) as int,
        ) + input.take(self.input_pos as int))
    }

    /// A plan over `input`.
    pub fn new(input: &[u8], last_action: Action, empty_action: Action) -> (r: UpstreamPlan)
        ensures
            r.inv(input@),
            r.phase == UpstreamPhase::FirstHalf,
            r.last_action == last_action && r.empty_action == empty_action,
    {
        UpstreamPlan {
            input_len: input.len(),
            input_pos: 0,
            phase: UpstreamPhase::FirstHalf,
            last_action,
            empty_action,
            fed: Ghost(Seq::empty()),
        }
    }

    /// The next slice and action, or `None` when the plan is over. When the
    /// plan is over without having been stopped, everything handed out is
    /// the first half of the input followed by the whole input.
    pub fn next(&mut self, input: &[u8]) -> (r: Option<Feed>)
        requires
            old(self).inv(input@),
        ensures
            final(self).inv(input@),
            final(self).last_action == old(self).last_action,
            final(self).empty_action == old(self).empty_action,
            r is None <==> old(self).phase == UpstreamPhase::Done,
            r matches Some(f) ==> f.start <= f.end <= input@.len() && final(self).fed@
                == old(self).fed@ + input@.subrange(f.start as int, f.end as int),
            r is None ==> final(self).fed@ == old(self).fed@,
            r matches Some(f) ==> ({
                let half = input@.len() / 2;
                if old(self).phase == UpstreamPhase::FirstHalf && input@.len() == 0 {
                    f == (Feed { start: 0, end: 0, action: old(self).empty_action })
                        && final(self).phase == UpstreamPhase::Done
                } else if old(self).phase == UpstreamPhase::FirstHalf && half > 0 {
                    f == (Feed { start: 0, end: half as usize, action: Action::Run })
                        && final(self).phase == UpstreamPhase::Chunks && final(self).input_pos == 0
                } else {
                    let pos = old(self).input_pos;
                    let end = if pos + UPSTREAM_IN_CHUNK_SIZE < input@.len() {
                        pos + UPSTREAM_IN_CHUNK_SIZE
                    } else {
                        input@.len() as int
                    };
                    f.start == pos && f.end == end && f.action == (if end == input@.len() {
                        old(self).last_action
                    } else {
                        Action::Run
                    }) && final(self).input_pos == end && final(self).phase == (if end
                        == input@.len() {
                        UpstreamPhase::Done
                    } else {
                        UpstreamPhase::Chunks
                    })
                }
            }),
            final(self).phase == UpstreamPhase::Done && old(self).phase != UpstreamPhase::Done
                && input@.len() > 0 ==> final(self).fed@ == spec_upstream_expected(input@),
    {
        let len = input.len();
        let half = len / 2;
        if let UpstreamPhase::FirstHalf = self.phase {
            if len == 0 {
                self.phase = UpstreamPhase::Done;
                proof {
                    assert(input@.subrange(0, 0) == Seq::<u8>::empty());
                    self.fed@ = self.fed@ + input@.subrange(0, 0);
                }
                return Some(Feed { start: 0, end: 0, action: self.empty_action });
            }
            self.phase = UpstreamPhase::Chunks;
            if half > 0 {
                proof {
                    self.fed@ = self.fed@ + input@.subrange(0, half as int);
                    assert(input@.take(0) == Seq::<u8>::empty());
                    assert(self.fed@ == input@.take(half as int) + input@.take(0));
                }
                return Some(Feed { start: 0, end: half, action: Action::Run });
            }
            proof {
                assert(input@.take(0) == Seq::<u8>::empty());
                assert(self.fed@ == input@.take(half as int) + input@.take(0));
            }
        }
        if let UpstreamPhase::Done = self.phase {
            return None;
        }
        let pos = self.input_pos;
        let end: usize = if len - pos > UPSTREAM_IN_CHUNK_SIZE {
            pos + UPSTREAM_IN_CHUNK_SIZE
        } else {
            len
        };
        let action = if end == len {
            self.last_action
        } else {
            Action::Run
        };
        proof {
            let old_fed = self.fed@;
            let a = input@.take(half as int);
            let b = input@.take(pos as int);
            let c = input@.subrange(pos as int, end as int);
            assert(old_fed == a + b);
            self.fed@ = old_fed + c;
            assert(b + c == input@.take(end as int));
            assert((a + b) + c == a + (b + c));
            assert(self.fed@ == input@.take(half as int) + input@.take(end as int));
            assert(input@.take(len as int) == input@);
        }
        self.input_pos = end;
        if end == len {
            self.phase = UpstreamPhase::Done;
        }
        Some(Feed { start: pos, end, action })
    }

    /// Ends the plan early: the stream reported that it is done.
    pub fn stop(&mut self)
        ensures
            final(self).phase == UpstreamPhase::Done,
            final(self).fed@ == old(self).fed@,
            final(self).input_len == old(self).input_len,
            final(self).input_pos == old(self).input_pos,
    {
        self.phase = UpstreamPhase::Done;
    }
}

/// What the control-driven decoder feed asks of its caller.
#[derive(Clone, Copy, Debug, PartialEq, Eq)]
pub enum FeedRequest {
    /// Call the decoder with `input[start..end]`, run action, and an output
    /// buffer of `out_len` bytes.
    Run { start: usize, end: usize, out_len: usize },
    /// Call the decoder with no input, finish action, and an output buffer
    /// of `out_len` bytes.
    Finish { out_len: usize },
    /// The feed is over.
    Done,
}

/// What the control-driven decoder feed decided after a call.
#[derive(Clone, Copy, Debug, PartialEq, Eq)]
pub enum FeedStep {
    /// Ask for the next request.
    Continue,
    /// The feed is over.
    Return,
    /// The decoder reported a programming error.
    ProgramError,
    /// The decoder made no progress in too many finish calls in a row.
    NoProgress,
}

/// Where the control-driven decoder feed is.
#[derive(Clone, Copy, Debug, PartialEq, Eq)]
pub enum FeedPhase {
    Feeding,
    Finishing,
    Over,
}

/// The control-driven decoder feed: the input goes in as run calls of chunks
/// sized by the control bytes, with output buffers sized by the control
/// bytes; a call that makes no progress is followed by one offering all the
/// remaining input, and a second such call ends the feeding. Then finish
/// calls follow until the decoder ends, fails, or stalls for more than
/// `FINISH_NO_PROGRESS_LIMIT` calls in a row.
pub struct DecoderFeed {
    pub input_len: usize,
    pub input_pos: usize,
    pub control_index: usize,
    pub force_all_remaining: bool,
    pub phase: FeedPhase,
    pub pending_end: usize,
    pub no_progress: usize,
}

impl DecoderFeed {
    pub open spec fn inv(&self) -> bool {
        &&& self.input_pos <= self.pending_end <= self.input_len
        &&& self.no_progress <= FINISH_NO_PROGRESS_LIMIT
    }

    /// A feed for `input_len` bytes.
    pub fn new(input_len: usize) -> (r: DecoderFeed)
        ensures
            r.inv(),
            r.input_len == input_len && r.input_pos == 0 && r.control_index == 0,
            !r.force_all_remaining && r.phase == FeedPhase::Feeding && r.no_progress == 0,
    {
        DecoderFeed {
            input_len,
            input_pos: 0,
            control_index: 0,
            force_all_remaining: false,
            phase: FeedPhase::Feeding,
            pending_end: 0,
            no_progress: 0,
        }
    }

    /// The next call to make.
    pub fn next_request(&mut self, controls: &[u8]) -> (r: FeedRequest)
        requires
            old(self).inv(),
            old(self).control_index < usize::MAX - 2,
        ensures
            final(self).inv(),
            final(self).input_len == old(self).input_len,
            final(self).input_pos == old(self).input_pos,
            final(self).no_progress == old(self).no_progress,
            final(self).force_all_remaining == old(self).force_all_remaining,
            final(self).control_index <= old(self).control_index + 2,
            old(self).phase == FeedPhase::Over ==> r == FeedRequest::Done && final(self).phase
                == FeedPhase::Over,
            old(self).phase == FeedPhase::Finishing || (old(self).phase == FeedPhase::Feeding
                && old(self).input_pos == old(self).input_len) ==> final(self).phase
                == FeedPhase::Finishing && r == (FeedRequest::Finish {
                out_len: spec_output_len(spec_control(controls@, old(self).control_index as nat))
                    as usize,
            }) && final(self).control_index == old(self).control_index + 1,
            old(self).phase == FeedPhase::Feeding && old(self).input_pos < old(self).input_len
                ==> ({
                let remaining = old(self).input_len - old(self).input_pos;
                let chunk: int = if old(self).force_all_remaining {
                    remaining
                } else {
                    spec_chunk_len(
                        spec_control(controls@, old(self).control_index as nat),
                        remaining as nat,
                    ) as int
                };
                &&& r == (FeedRequest::Run {
                    start: old(self).input_pos,
                    end: (old(self).input_pos + chunk) as usize,
                    out_len: spec_output_len(
                        spec_control(controls@, (old(self).control_index + 1) as nat),
                    ) as usize,
                })
                &&& final(self).pending_end == old(self).input_pos + chunk
                &&& chunk >= 1
                &&& final(self).phase == FeedPhase::Feeding
                &&& final(self).control_index == old(self).control_index + 2
            }),
    {
        match self.phase {
            FeedPhase::Over => {
                return FeedRequest::Done;
            },
            FeedPhase::Feeding => {
                if self.input_pos < self.input_len {
                    let remaining = self.input_len - self.input_pos;
                    let chunk = if self.force_all_remaining {
                        remaining
                    } else {
                        chunk_len(control(controls, self.control_index), remaining)
                    };
                    self.control_index = self.control_index + 1;
                    let out_len = output_len(control(controls, self.control_index));
                    self.control_index = self.control_index + 1;
                    self.pending_end = self.input_pos + chunk;
                    return FeedRequest::Run {
                        start: self.input_pos,
                        end: self.pending_end,
                        out_len,
                    };
                }
            },
            FeedPhase::Finishing => {},
        }
        self.phase = FeedPhase::Finishing;
        self.pending_end = self.input_pos;
        let out_len = output_len(control(controls, self.control_index));
        self.control_index = self.control_index + 1;
        FeedRequest::Finish { out_len }
    }

    /// Takes in the result of a run call: an error, or the bytes consumed
    /// and produced and the status returned.
    pub fn on_run(&mut self, result: Result<(usize, usize, Status), Error>) -> (r: FeedStep)
        requires
            old(self).inv(),
            old(self).phase == FeedPhase::Feeding,
            result matches Ok((c, _, _)) ==> c <= old(self).pending_end - old(self).input_pos,
        ensures
            final(self).inv(),
            final(self).input_len == old(self).input_len,
            final(self).control_index == old(self).control_index,
            final(self).no_progress == old(self).no_progress,
            match result {
                Err(Error::Program) => r == FeedStep::ProgramError,
                Err(_) => r == FeedStep::Return && final(self).phase == FeedPhase::Over,
                Ok((consumed, produced, status)) => {
                    let progress = consumed != 0 || produced != 0;
                    &&& final(self).input_pos == old(self).input_pos + consumed
                    &&& if status == Status::StreamEnd {
                        r == FeedStep::Return && final(self).phase == FeedPhase::Over
                    } else if progress {
                        r == FeedStep::Continue && final(self).phase == FeedPhase::Feeding
                            && !final(self).force_all_remaining
                    } else if old(self).force_all_remaining {
                        r == FeedStep::Continue && final(self).phase == FeedPhase::Finishing
                    } else {
                        r == FeedStep::Continue && final(self).phase == FeedPhase::Feeding
                            && final(self).force_all_remaining
                    }
                },
            },
    {
        let (consumed, produced, status) = match result {
            Err(Error::Program) => {
                return FeedStep::ProgramError;
            },
            Err(_) => {
                self.phase = FeedPhase::Over;
                return FeedStep::Return;
            },
            Ok(t) => t,
        };
        self.input_pos = self.input_pos + consumed;
        self.pending_end = self.input_pos;
        let made_progress = consumed != 0 || produced != 0;
        if let Status::StreamEnd = status {
            self.phase = FeedPhase::Over;
            return FeedStep::Return;
        }
        if made_progress {
            self.force_all_remaining = false;
        } else if self.force_all_remaining {
            self.phase = FeedPhase::Finishing;
        } else {
            self.force_all_remaining = true;
        }
        FeedStep::Continue
    }

    /// Takes in the result of a finish call: an error, or the bytes
    /// produced and the status returned.
    pub fn on_finish(&mut self, result: Result<(usize, Status), Error>) -> (r: FeedStep)
        requires
            old(self).inv(),
            old(self).phase == FeedPhase::Finishing,
        ensures
            final(self).inv(),
            final(self).input_len == old(self).input_len,
            final(self).input_pos == old(self).input_pos,
            final(self).control_index == old(self).control_index,
            match result {
                Err(Error::Program) => r == FeedStep::ProgramError,
                Err(_) => r == FeedStep::Return && final(self).phase == FeedPhase::Over,
                Ok((_, Status::StreamEnd)) => r == FeedStep::Return && final(self).phase
                    == FeedPhase::Over,
                Ok((_, Status::MemNeeded)) => r == FeedStep::Return && final(self).phase
                    == FeedPhase::Over,
                Ok((produced, _)) => if produced != 0 {
                    r == FeedStep::Continue && final(self).no_progress == 0
                } else if old(self).no_progress < FINISH_NO_PROGRESS_LIMIT {
                    r == FeedStep::Continue && final(self).no_progress == old(self).no_progress + 1
                } else {
                    r == FeedStep::NoProgress
                },
            },
    {
        let produced = match result {
            Ok((_, Status::StreamEnd)) | Ok((_, Status::MemNeeded)) => {
                self.phase = FeedPhase::Over;
                return FeedStep::Return;
            },
            Ok((produced, _)) => produced,
            Err(Error::Program) => {
                return FeedStep::ProgramError;
            },
            Err(_) => {
                self.phase = FeedPhase::Over;
                return FeedStep::Return;
            },
        };
        if produced != 0 {
            self.no_progress = 0;
        } else {
            if self.no_progress >= FINISH_NO_PROGRESS_LIMIT {
                return FeedStep::NoProgress;
            }
            self.no_progress = self.no_progress + 1;
        }
        FeedStep::Continue
    }
}

} // verus!
