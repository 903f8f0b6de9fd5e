//! The codec's stream state, as far as it is made of plain values.
//!
//! A native stream keeps byte counters and takes, for each step, the sizes of
//! the two buffers it may work on. `Stream` keeps those numbers. It says which
//! native call is due (`StepCall`) and takes in what the native state shows
//! after it (`StepReturn`); the call itself is made by the owner of the native
//! state.

use vstd::prelude::*;
use crate::Compression;

verus! {

/// Return code of a step that went on normally (decompression).
pub const BZ_OK: i32 = 0;
/// Return code of a compression step under `Action::Run`.
pub const BZ_RUN_OK: i32 = 1;
/// Return code of a compression step under `Action::Flush` with more to come.
pub const BZ_FLUSH_OK: i32 = 2;
/// Return code of a compression step under `Action::Finish` with more to come.
pub const BZ_FINISH_OK: i32 = 3;
/// Return code of the step that completed the stream.
pub const BZ_STREAM_END: i32 = 4;
/// The calls came in an order the codec does not allow.
pub const BZ_SEQUENCE_ERROR: i32 = -1;
/// A parameter was out of range.
pub const BZ_PARAM_ERROR: i32 = -2;
/// The codec could not get the memory it needed.
pub const BZ_MEM_ERROR: i32 = -3;
/// The compressed data fails its integrity check.
pub const BZ_DATA_ERROR: i32 = -4;
/// The compressed data does not begin with the right magic bytes.
pub const BZ_DATA_ERROR_MAGIC: i32 = -5;
/// An input or output operation failed.
pub const BZ_IO_ERROR: i32 = -6;
/// The compressed data ends before the end of the stream.
pub const BZ_UNEXPECTED_EOF: i32 = -7;
/// The output buffer was used up in this call.
pub const BZ_OUTBUFF_FULL: i32 = -8;
/// The codec was built for a platform it does not fit.
pub const BZ_CONFIG_ERROR: i32 = -9;

/// The work factor that the adapters start a compression stream with.
pub const WORK_FACTOR: u32 = 30;

/// The largest work factor the codec accepts.
pub const MAX_WORK_FACTOR: u32 = 250;

/// Kinds of streams
#[derive(Copy, Clone, Debug, PartialEq, Eq, Structural)]
pub enum Kind {
    /// Streams used for compression
    Compress,
    /// Streams used for decompression
    Decompress,
}

/// Possible actions to take on compression.
#[derive(Copy, Clone, Debug, PartialEq, Eq, Structural)]
pub enum Action {
    /// Normal compression.
    Run,
    /// Request that the current compression block is terminate.
    Flush,
    /// Request that the compression stream be finalized.
    Finish,
}

impl Action {
    /// The number the codec knows this action by.
    pub open spec fn spec_code(self) -> i32 {
        match self {
            Action::Run => 0,
            Action::Flush => 1,
            Action::Finish => 2,
        }
    }

    /// The number the codec knows this action by.
    pub fn code(self) -> (c: i32)
        ensures
            c == self.spec_code(),
    {
        match self {
            Action::Run => 0,
            Action::Flush => 1,
            Action::Finish => 2,
        }
    }
}

/// What a step of the codec reported.
#[derive(Copy, Clone, Debug, PartialEq, Eq, Structural)]
pub enum Status {
    /// The step went on normally.
    Okay,
    /// A `Run` step was accepted.
    RunOk,
    /// A `Flush` step was accepted and the flush is not complete.
    FlushOk,
    /// A `Finish` step was accepted and the stream is not complete.
    FinishOk,
    /// The stream is complete.
    StreamEnd,
    /// The calls came in an order the codec does not allow.
    Sequence,
    /// A parameter was out of range.
    Param,
    /// The codec could not get the memory it needed.
    Mem,
    /// The compressed data fails its integrity check.
    Data,
    /// The compressed data does not begin with the right magic bytes.
    DataMagic,
    /// An input or output operation failed.
    Io,
    /// The compressed data ends before the end of the stream.
    UnexpectedEof,
    /// The output buffer was used up in this call: call again.
    OutbuffFull,
    /// The codec was built for a platform it does not fit.
    Config,
}

/// The errors a caller can be handed.
#[derive(Copy, Clone, Debug, PartialEq, Eq, Structural)]
pub enum Error {
    /// The calls came in an order the codec does not allow.
    Sequence,
    /// A parameter was out of range.
    Param,
    /// The codec could not get the memory it needed.
    Mem,
    /// The compressed data fails its integrity check.
    Data,
    /// The compressed data does not begin with the right magic bytes.
    DataMagic,
    /// An input or output operation failed.
    Io,
    /// The compressed data ends before the end of the stream.
    UnexpectedEof,
    /// The codec was built for a platform it does not fit.
    Config,
}

impl Status {
    /// The status that a return code stands for, if it is one the codec
    /// documents.
    pub open spec fn spec_from_code(rc: i32) -> Option<Status> {
        if rc == BZ_OK {
            Some(Status::Okay)
        } else if rc == BZ_RUN_OK {
            Some(Status::RunOk)
        } else if rc == BZ_FLUSH_OK {
            Some(Status::FlushOk)
        } else if rc == BZ_FINISH_OK {
            Some(Status::FinishOk)
        } else if rc == BZ_STREAM_END {
            Some(Status::StreamEnd)
        } else if rc == BZ_SEQUENCE_ERROR {
            Some(Status::Sequence)
        } else if rc == BZ_PARAM_ERROR {
            Some(Status::Param)
        } else if rc == BZ_MEM_ERROR {
            Some(Status::Mem)
        } else if rc == BZ_DATA_ERROR {
            Some(Status::Data)
        } else if rc == BZ_DATA_ERROR_MAGIC {
            Some(Status::DataMagic)
        } else if rc == BZ_IO_ERROR {
            Some(Status::Io)
        } else if rc == BZ_UNEXPECTED_EOF {
            Some(Status::UnexpectedEof)
        } else if rc == BZ_OUTBUFF_FULL {
            Some(Status::OutbuffFull)
        } else if rc == BZ_CONFIG_ERROR {
            Some(Status::Config)
        } else {
            None
        }
    }

    /// The return code that stands for this status.
    pub open spec fn spec_code(self) -> i32 {
        match self {
            Status::Okay => BZ_OK,
            Status::RunOk => BZ_RUN_OK,
            Status::FlushOk => BZ_FLUSH_OK,
            Status::FinishOk => BZ_FINISH_OK,
            Status::StreamEnd => BZ_STREAM_END,
            Status::Sequence => BZ_SEQUENCE_ERROR,
            Status::Param => BZ_PARAM_ERROR,
            Status::Mem => BZ_MEM_ERROR,
            Status::Data => BZ_DATA_ERROR,
            Status::DataMagic => BZ_DATA_ERROR_MAGIC,
            Status::Io => BZ_IO_ERROR,
            Status::UnexpectedEof => BZ_UNEXPECTED_EOF,
            Status::OutbuffFull => BZ_OUTBUFF_FULL,
            Status::Config => BZ_CONFIG_ERROR,
        }
    }

    /// True of the four codes that only say "go on".
    pub open spec fn spec_is_continue(self) -> bool {
        self == Status::Okay || self == Status::RunOk || self == Status::FlushOk
            || self == Status::FinishOk
    }

    /// The error that this status hands to a caller, if it is one.
    /// `OutbuffFull` is none: it asks for another call.
    pub open spec fn spec_error(self) -> Option<Error> {
        match self {
            Status::Sequence => Some(Error::Sequence),
            Status::Param => Some(Error::Param),
            Status::Mem => Some(Error::Mem),
            Status::Data => Some(Error::Data),
            Status::DataMagic => Some(Error::DataMagic),
            Status::Io => Some(Error::Io),
            Status::UnexpectedEof => Some(Error::UnexpectedEof),
            Status::Config => Some(Error::Config),
            _ => None,
        }
    }

    /// Reads a return code of the codec.
    pub fn from_code(rc: i32) -> (s: Option<Status>)
        ensures
            s == Status::spec_from_code(rc),
            s is Some <==> -9 <= rc <= 4,
    {
        match rc {
            0 => Some(Status::Okay),
            1 => Some(Status::RunOk),
            2 => Some(Status::FlushOk),
            3 => Some(Status::FinishOk),
            4 => Some(Status::StreamEnd),
            -1 => Some(Status::Sequence),
            -2 => Some(Status::Param),
            -3 => Some(Status::Mem),
            -4 => Some(Status::Data),
            -5 => Some(Status::DataMagic),
            -6 => Some(Status::Io),
            -7 => Some(Status::UnexpectedEof),
            -8 => Some(Status::OutbuffFull),
            -9 => Some(Status::Config),
            _ => None,
        }
    }

    /// The return code that stands for this status.
    pub fn code(self) -> (rc: i32)
        ensures
            rc == self.spec_code(),
            Status::spec_from_code(rc) == Some(self),
    {
        match self {
            Status::Okay => 0,
            Status::RunOk => 1,
            Status::FlushOk => 2,
            Status::FinishOk => 3,
            Status::StreamEnd => 4,
            Status::Sequence => -1,
            Status::Param => -2,
            Status::Mem => -3,
            Status::Data => -4,
            Status::DataMagic => -5,
            Status::Io => -6,
            Status::UnexpectedEof => -7,
            Status::OutbuffFull => -8,
            Status::Config => -9,
        }
    }

    /// True of the four codes that only say "go on".
    pub fn is_continue(self) -> (b: bool)
        ensures
            b == self.spec_is_continue(),
            b <==> 0 <= self.spec_code() <= 3,
    {
        match self {
            Status::Okay | Status::RunOk | Status::FlushOk | Status::FinishOk => true,
            _ => false,
        }
    }

    /// The error that this status hands to a caller, if it is one.
    pub fn error(self) -> (e: Option<Error>)
        ensures
            e == self.spec_error(),
            e is Some <==> self.spec_code() < 0 && self != Status::OutbuffFull,
            e is None <==> self.spec_is_continue() || self == Status::StreamEnd
                || self == Status::OutbuffFull,
    {
        match self {
            Status::Sequence => Some(Error::Sequence),
            Status::Param => Some(Error::Param),
            Status::Mem => Some(Error::Mem),
            Status::Data => Some(Error::Data),
            Status::DataMagic => Some(Error::DataMagic),
            Status::Io => Some(Error::Io),
            Status::UnexpectedEof => Some(Error::UnexpectedEof),
            Status::Config => Some(Error::Config),
            _ => None,
        }
    }
}

impl Error {
    /// The status that this error was made from.
    pub open spec fn spec_status(self) -> Status {
        match self {
            Error::Sequence => Status::Sequence,
            Error::Param => Status::Param,
            Error::Mem => Status::Mem,
            Error::Data => Status::Data,
            Error::DataMagic => Status::DataMagic,
            Error::Io => Status::Io,
            Error::UnexpectedEof => Status::UnexpectedEof,
            Error::Config => Status::Config,
        }
    }

    /// The status that this error was made from.
    pub fn status(self) -> (s: Status)
        ensures
            s == self.spec_status(),
            s.spec_error() == Some(self),
    {
        match self {
            Error::Sequence => Status::Sequence,
            Error::Param => Status::Param,
            Error::Mem => Status::Mem,
            Error::Data => Status::Data,
            Error::DataMagic => Status::DataMagic,
            Error::Io => Status::Io,
            Error::UnexpectedEof => Status::UnexpectedEof,
            Error::Config => Status::Config,
        }
    }

    /// Whether this error shows a fault of the program and none of the data:
    /// the codec was called out of order.
    pub open spec fn spec_is_misuse(self) -> bool {
        self == Error::Sequence
    }

    /// Whether this error shows a fault of the program and none of the data.
    pub fn is_misuse(self) -> (b: bool)
        ensures
            b == self.spec_is_misuse(),
    {
        match self {
            Error::Sequence => true,
            _ => false,
        }
    }

    /// The native return code behind this error.
    pub fn code(self) -> (rc: i32)
        ensures
            rc == self.spec_status().spec_code(),
            -9 <= rc <= -1,
            rc != BZ_OUTBUFF_FULL,
    {
        self.status().code()
    }
}

/// Reading a code and writing it back gives the code; writing a status and
/// reading it back gives the status.
pub proof fn lemma_status_code_round_trip(rc: i32, s: Status)
    ensures
        Status::spec_from_code(s.spec_code()) == Some(s),
        Status::spec_from_code(rc) == Some(s) ==> s.spec_code() == rc,
{
}

/// The byte counters of a native stream, each total in two 32-bit halves.
#[derive(Copy, Clone, Debug, PartialEq, Eq, Structural)]
pub struct Counters {
    /// Low half of the number of bytes taken in.
    pub total_in_lo32: u32,
    /// High half of the number of bytes taken in.
    pub total_in_hi32: u32,
    /// Low half of the number of bytes put out.
    pub total_out_lo32: u32,
    /// High half of the number of bytes put out.
    pub total_out_hi32: u32,
}

/// The 64-bit number whose halves are `lo` and `hi`.
pub open spec fn wide(lo: u32, hi: u32) -> int {
    lo as int + hi as int * 0x1_0000_0000
}

/// What a buffer length becomes in a 32-bit register of the native state:
/// its low 32 bits.
pub open spec fn spec_bound(len: usize) -> int {
    len as int % 0x1_0000_0000
}

/// Joins the two halves of a counter.
pub fn join(lo: u32, hi: u32) -> (t: u64)
    ensures
        t == wide(lo, hi),
{
    let l: u64 = lo as u64;
    let h: u64 = hi as u64;
    assert((l | (h << 32)) == l + h * 0x1_0000_0000) by (bit_vector)
        requires
            l <= 0xffff_ffff,
            h <= 0xffff_ffff,
    ;
    l | (h << 32)
}

/// The length of a buffer as the native state takes it.
pub fn bound(len: usize) -> (n: u32)
    ensures
        n == spec_bound(len),
        n <= len,
        len <= u32::MAX ==> n == len,
{
    let wide_len: u64 = len as u64;
    assert((wide_len & 0xffff_ffff) == wide_len % 0x1_0000_0000) by (bit_vector);
    (wide_len & 0xffff_ffff) as u32
}

impl Counters {
    /// Total number of bytes taken in.
    pub open spec fn spec_total_in(self) -> int {
        wide(self.total_in_lo32, self.total_in_hi32)
    }

    /// Total number of bytes put out.
    pub open spec fn spec_total_out(self) -> int {
        wide(self.total_out_lo32, self.total_out_hi32)
    }

    /// Counters of a stream that has not worked yet.
    pub fn zero() -> (c: Counters)
        ensures
            c.spec_total_in() == 0,
            c.spec_total_out() == 0,
            c == (Counters {
                total_in_lo32: 0,
                total_in_hi32: 0,
                total_out_lo32: 0,
                total_out_hi32: 0,
            }),
    {
        Counters { total_in_lo32: 0, total_in_hi32: 0, total_out_lo32: 0, total_out_hi32: 0 }
    }

    /// Total number of bytes taken in.
    pub fn total_in(&self) -> (t: u64)
        ensures
            t == self.spec_total_in(),
    {
        join(self.total_in_lo32, self.total_in_hi32)
    }

    /// Total number of bytes put out.
    pub fn total_out(&self) -> (t: u64)
        ensures
            t == self.spec_total_out(),
    {
        join(self.total_out_lo32, self.total_out_hi32)
    }
}

/// The native call that starts a stream, with its arguments.
#[derive(Copy, Clone, Debug, PartialEq, Eq, Structural)]
pub enum InitCall {
    /// Start of a compression stream.
    Compress {
        /// Block size in units of 100k, 1 to 9.
        block_size: i32,
        /// How much the codec prints: nothing.
        verbosity: i32,
        /// Effort spent on repetitive input before the fallback sort, 0 to 250.
        work_factor: i32,
    },
    /// Start of a decompression stream.
    Decompress {
        /// How much the codec prints: nothing.
        verbosity: i32,
        /// 1 for the slower algorithm that needs less memory, else 0.
        small: i32,
    },
}

/// One native step that is due: the routine and what is bound into the native
/// state before it runs.
#[derive(Copy, Clone, Debug, PartialEq, Eq, Structural)]
pub struct StepCall {
    /// Which of the two step routines to call.
    pub kind: Kind,
    /// Number of input bytes offered.
    pub avail_in: u32,
    /// Number of output bytes that may be written.
    pub avail_out: u32,
    /// The action of a compression step; a decompression step has none.
    pub action: Option<Action>,
}

/// What the native state shows after a step.
#[derive(Copy, Clone, Debug, PartialEq, Eq, Structural)]
pub struct StepReturn {
    /// What the step routine returned.
    pub status: Status,
    /// The byte counters after the step.
    pub counters: Counters,
}

/// What one step did.
#[derive(Copy, Clone, Debug, PartialEq, Eq, Structural)]
pub struct Progress {
    /// What the step routine returned.
    pub status: Status,
    /// Number of input bytes the step took.
    pub consumed: usize,
    /// Number of output bytes the step wrote.
    pub produced: usize,
}

/// The plain part of a native stream: how it was started and its counters.
pub struct Stream {
    init: InitCall,
    counters: Counters,
}

impl Stream {
    /// The native call that started this stream.
    pub closed spec fn spec_init(&self) -> InitCall {
        self.init
    }

    /// The counters as of the last completed step.
    pub closed spec fn spec_counters(&self) -> Counters {
        self.counters
    }

    /// The direction of this stream.
    pub open spec fn spec_kind(&self) -> Kind {
        match self.spec_init() {
            InitCall::Compress { .. } => Kind::Compress,
            InitCall::Decompress { .. } => Kind::Decompress,
        }
    }

    /// Total number of bytes processed as input.
    pub open spec fn spec_total_in(&self) -> int {
        self.spec_counters().spec_total_in()
    }

    /// Total number of bytes processed as output.
    pub open spec fn spec_total_out(&self) -> int {
        self.spec_counters().spec_total_out()
    }

    /// A step is one the codec can have made from this state under `call`:
    /// neither counter went back, and neither went further than the buffer
    /// it counts allowed.
    pub open spec fn admits(&self, call: StepCall, ret: StepReturn) -> bool {
        &&& self.spec_total_in() <= ret.counters.spec_total_in()
        &&& ret.counters.spec_total_in() - self.spec_total_in() <= call.avail_in
        &&& self.spec_total_out() <= ret.counters.spec_total_out()
        &&& ret.counters.spec_total_out() - self.spec_total_out() <= call.avail_out
    }

    /// Creates a new stream prepared for decompression.
    ///
    /// If `small` is true, the codec is asked for its alternative
    /// decompression algorithm, which uses less memory and is slower.
    pub fn new_decompress(small: bool) -> (s: Stream)
        ensures
            s.spec_init() == (InitCall::Decompress {
                verbosity: 0,
                small: if small { 1i32 } else { 0i32 },
            }),
            s.spec_kind() == Kind::Decompress,
            s.spec_total_in() == 0,
            s.spec_total_out() == 0,
    {
        let flag: i32 = if small { 1 } else { 0 };
        Stream {
            init: InitCall::Decompress { verbosity: 0, small: flag },
            counters: Counters::zero(),
        }
    }

    /// Creates a new stream prepared for compression.
    ///
    /// `work_factor` says how much effort the standard sort may spend on
    /// highly repetitive input before the codec falls back to its slower
    /// algorithm. The codec accepts 0 to 250, and reads 0 as its default of
    /// 30.
    pub fn new_compress(lvl: Compression, work_factor: u32) -> (s: Stream)
        requires
            lvl.valid(),
            work_factor <= MAX_WORK_FACTOR,
        ensures
            s.spec_init() == (InitCall::Compress {
                block_size: lvl.spec_level() as i32,
                verbosity: 0,
                work_factor: work_factor as i32,
            }),
            s.spec_kind() == Kind::Compress,
            s.spec_total_in() == 0,
            s.spec_total_out() == 0,
    {
        Stream {
            init: InitCall::Compress {
                block_size: lvl.level() as i32,
                verbosity: 0,
                work_factor: work_factor as i32,
            },
            counters: Counters::zero(),
        }
    }

    /// The native call that starts this stream.
    pub fn init(&self) -> (c: InitCall)
        ensures
            c == self.spec_init(),
    {
        self.init
    }

    /// The direction of this stream, which is also that of the routine that
    /// ends it when its owner gives it up.
    pub fn kind(&self) -> (k: Kind)
        ensures
            k == self.spec_kind(),
    {
        match self.init {
            InitCall::Compress { .. } => Kind::Compress,
            InitCall::Decompress { .. } => Kind::Decompress,
        }
    }

    /// Total number of bytes processed as input
    pub fn total_in(&self) -> (t: u64)
        ensures
            t == self.spec_total_in(),
    {
        self.counters.total_in()
    }

    /// Total number of bytes processed as output
    pub fn total_out(&self) -> (t: u64)
        ensures
            t == self.spec_total_out(),
    {
        self.counters.total_out()
    }

    /// Decompress a block of input into a block of output: the step that is
    /// due for buffers of these lengths.
    pub fn decompress(&self, input_len: usize, output_len: usize) -> (call: StepCall)
        ensures
            call == (StepCall {
                kind: Kind::Decompress,
                avail_in: spec_bound(input_len) as u32,
                avail_out: spec_bound(output_len) as u32,
                action: None,
            }),
    {
        StepCall {
            kind: Kind::Decompress,
            avail_in: bound(input_len),
            avail_out: bound(output_len),
            action: None,
        }
    }

    /// Decompress a block of input into an output vector: the step that is
    /// due for a vector of length `len` and capacity `cap`.
    ///
    /// The step does not grow the vector: it may fill the space after its
    /// current length up to its capacity.
    pub fn decompress_vec(&self, input_len: usize, len: usize, cap: usize) -> (call: StepCall)
        requires
            len <= cap,
        ensures
            call == (StepCall {
                kind: Kind::Decompress,
                avail_in: spec_bound(input_len) as u32,
                avail_out: spec_bound((cap - len) as usize) as u32,
                action: None,
            }),
            call.avail_out <= cap - len,
    {
        StepCall {
            kind: Kind::Decompress,
            avail_in: bound(input_len),
            avail_out: bound(cap - len),
            action: None,
        }
    }

    /// Compress a block of input into a block of output: the step that is due
    /// for buffers of these lengths.
    pub fn compress(&self, input_len: usize, output_len: usize, action: Action) -> (call:
        StepCall)
        ensures
            call == (StepCall {
                kind: Kind::Compress,
                avail_in: spec_bound(input_len) as u32,
                avail_out: spec_bound(output_len) as u32,
                action: Some(action),
            }),
    {
        StepCall {
            kind: Kind::Compress,
            avail_in: bound(input_len),
            avail_out: bound(output_len),
            action: Some(action),
        }
    }

    /// Compress a block of input into an output vector: the step that is due
    /// for a vector of length `len` and capacity `cap`.
    ///
    /// The step does not grow the vector: it may fill the space after its
    /// current length up to its capacity.
    pub fn compress_vec(&self, input_len: usize, len: usize, cap: usize, action: Action) -> (call:
        StepCall)
        requires
            len <= cap,
        ensures
            call == (StepCall {
                kind: Kind::Compress,
                avail_in: spec_bound(input_len) as u32,
                avail_out: spec_bound((cap - len) as usize) as u32,
                action: Some(action),
            }),
            call.avail_out <= cap - len,
    {
        StepCall {
            kind: Kind::Compress,
            avail_in: bound(input_len),
            avail_out: bound(cap - len),
            action: Some(action),
        }
    }

    /// Whether `ret` can be what the codec left after `call`.
    pub fn accepts(&self, call: &StepCall, ret: &StepReturn) -> (b: bool)
        ensures
            b == self.admits(*call, *ret),
    {
        let before_in = self.total_in();
        let before_out = self.total_out();
        let after_in = ret.counters.total_in();
        let after_out = ret.counters.total_out();
        before_in <= after_in && after_in - before_in <= call.avail_in as u64 && before_out
            <= after_out && after_out - before_out <= call.avail_out as u64
    }

    /// Takes in what the native state shows after a step, and says what the
    /// step did.
    pub fn complete(&mut self, call: StepCall, ret: StepReturn) -> (p: Progress)
        requires
            old(self).admits(call, ret),
        ensures
            final(self).spec_init() == old(self).spec_init(),
            final(self).spec_counters() == ret.counters,
            p.status == ret.status,
            p.consumed == final(self).spec_total_in() - old(self).spec_total_in(),
            p.produced == final(self).spec_total_out() - old(self).spec_total_out(),
            p.consumed <= call.avail_in,
            p.produced <= call.avail_out,
            old(self).spec_total_in() <= final(self).spec_total_in(),
            old(self).spec_total_out() <= final(self).spec_total_out(),
    {
        let before_in = self.total_in();
        let before_out = self.total_out();
        self.counters = ret.counters;
        let consumed = (self.total_in() - before_in) as usize;
        let produced = (self.total_out() - before_out) as usize;
        Progress { status: ret.status, consumed, produced }
    }

    /// Takes in what the native state shows after a step into a vector of
    /// length `len`, and says what the step did and how long the vector is
    /// now.
    pub fn complete_vec(&mut self, call: StepCall, ret: StepReturn, len: usize, cap: usize) -> (r:
        (Progress, usize))
        requires
            old(self).admits(call, ret),
            len <= cap,
            call.avail_out <= cap - len,
        ensures
            final(self).spec_init() == old(self).spec_init(),
            final(self).spec_counters() == ret.counters,
            r.0.status == ret.status,
            r.0.consumed == final(self).spec_total_in() - old(self).spec_total_in(),
            r.0.produced == final(self).spec_total_out() - old(self).spec_total_out(),
            r.0.consumed <= call.avail_in,
            r.1 == len + r.0.produced,
            r.1 <= cap,
            old(self).spec_total_in() <= final(self).spec_total_in(),
            old(self).spec_total_out() <= final(self).spec_total_out(),
    {
        let p = self.complete(call, ret);
        (p, len + p.produced)
    }
}

} // verus!
