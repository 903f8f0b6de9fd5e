//! Writer-based compression/decompression streams
//!
//! A writer takes bytes from its caller, runs the codec on them into a
//! scratch buffer and writes that buffer out to a sink. The types here keep
//! every number of that work and decide each move: `next` says whether the
//! scratch buffer has to be written out, the codec has to step, the sink has
//! to be flushed, or the call is over; `dumped` and `stepped` take in what
//! came of it. The bytes, the sink's calls and the codec's step are the
//! caller's part.

use vstd::prelude::*;
use crate::Compression;
use crate::raw::{
    spec_bound, Action, Error, InitCall, Kind, Status, StepCall, StepReturn, Stream,
    WORK_FACTOR,
};

verus! {

/// Capacity of the scratch buffer of a writer.
pub const SCRATCH_CAP: usize = 32768;

/// A call on a writer.
#[derive(Copy, Clone, Debug, PartialEq, Eq)]
pub enum Op {
    /// A write of this many bytes.
    Write(usize),
    /// A flush: all that was written so far goes out to the sink.
    Flush,
    /// The end of the stream is written, and all of it goes out to the sink.
    Finish,
}

/// What a writer needs done next.
#[derive(Copy, Clone, Debug, PartialEq, Eq)]
pub enum Todo {
    /// Write the first `len` bytes of the scratch buffer to the sink, all of
    /// them, and report with `dumped`.
    Dump {
        /// Number of bytes that wait in the scratch buffer.
        len: usize,
    },
    /// Run the codec with the bytes of the call as input (none for a flush
    /// or a finish) and the scratch buffer from `offset` on as output, and
    /// report with `stepped`.
    Step {
        /// Number of bytes that wait in the scratch buffer.
        offset: usize,
        /// The native call that is due.
        call: StepCall,
    },
    /// Flush the sink; the call is over with what that gives.
    Sink,
    /// The call is over, with this result: for a write the number of bytes
    /// taken from the caller, else 0.
    Yield(Result<usize, Error>),
}

/// The state of a writer, as contracts see it.
pub struct WriteView {
    /// The native call that started the codec.
    pub init: InitCall,
    /// Bytes the codec has taken in.
    pub total_in: int,
    /// Bytes the codec has put out.
    pub total_out: int,
    /// Number of bytes that wait in the scratch buffer.
    pub len: usize,
    /// Capacity of the scratch buffer.
    pub cap: usize,
    /// Whether a decompressor has seen the end of its stream.
    pub done: bool,
    /// The call in progress, or the last one.
    pub op: Option<Op>,
    /// Whether the rounds of the call are over and only its last moves are
    /// left.
    pub exiting: bool,
    /// The result of the call, where a step has decided it.
    pub over: Option<Result<usize, Error>>,
    /// Bytes written to the sink since the writer was made.
    pub sunk: int,
    /// Bytes the codec had taken in when the call in progress began.
    pub in_base: int,
}

impl WriteView {
    /// The state of a writer that has done nothing yet.
    pub open spec fn fresh(init: InitCall, cap: usize) -> WriteView {
        WriteView {
            init,
            total_in: 0,
            total_out: 0,
            len: 0,
            cap,
            done: false,
            op: None,
            exiting: false,
            over: None,
            sunk: 0,
            in_base: 0,
        }
    }

    /// Direction of the codec.
    pub open spec fn kind(self) -> Kind {
        match self.init {
            InitCall::Compress { .. } => Kind::Compress,
            InitCall::Decompress { .. } => Kind::Decompress,
        }
    }

    /// The scratch buffer is within its capacity, and no byte is lost or
    /// made up: what the codec put out has gone to the sink or waits in the
    /// scratch buffer, and a write answers with what the codec took in since
    /// the write began.
    pub open spec fn wf(self) -> bool {
        &&& self.len <= self.cap
        &&& self.sunk + self.len == self.total_out
        &&& self.in_base <= self.total_in
        &&& self.total_in - self.in_base <= self.input_len()
        &&& self.over matches Some(Ok(n)) ==> n == self.total_in - self.in_base
        &&& self.over matches Some(Ok(_)) ==> self.op is Some && self.op->0 is Write
        &&& self.over is None ==> self.total_in == self.in_base
        &&& self.done ==> self.kind() == Kind::Decompress
    }

    /// The state when a write of `n` bytes begins. A decompressor that has
    /// seen the end of its stream takes nothing more.
    pub open spec fn write(self, n: usize) -> WriteView {
        WriteView {
            op: Some(Op::Write(n)),
            exiting: false,
            over: if self.done {
                Some(Ok(0usize))
            } else {
                None
            },
            in_base: self.total_in,
            ..self
        }
    }

    /// The state when a flush begins. A decompressor has nothing to ask of
    /// its codec: it goes on to its last moves.
    pub open spec fn flush(self) -> WriteView {
        WriteView {
            op: Some(Op::Flush),
            exiting: self.kind() == Kind::Decompress,
            over: None,
            in_base: self.total_in,
            ..self
        }
    }

    /// The state when a finish begins. A decompressor that has seen the end
    /// of its stream goes on to its last moves.
    pub open spec fn do_finish(self) -> WriteView {
        WriteView {
            op: Some(Op::Finish),
            exiting: self.done,
            over: None,
            in_base: self.total_in,
            ..self
        }
    }

    /// Number of bytes that the call in progress offers the codec.
    pub open spec fn input_len(self) -> usize {
        match self.op {
            Some(Op::Write(n)) => n,
            _ => 0,
        }
    }

    /// The action of the next step of a compressor.
    pub open spec fn action(self) -> Action {
        match self.op {
            Some(Op::Flush) => Action::Flush,
            Some(Op::Finish) => Action::Finish,
            _ => Action::Run,
        }
    }

    /// The native call of the next step: the bytes of the call as input, all
    /// that is free in the scratch buffer as output.
    pub open spec fn call(self) -> StepCall {
        StepCall {
            kind: self.kind(),
            avail_in: spec_bound(self.input_len()) as u32,
            avail_out: spec_bound((self.cap - self.len) as usize) as u32,
            action: match self.kind() {
                Kind::Compress => Some(self.action()),
                Kind::Decompress => None,
            },
        }
    }

    /// What is due. What waits in the scratch buffer goes out before
    /// anything else is done.
    pub open spec fn next(self) -> Todo {
        match self.over {
            Some(r) => Todo::Yield(r),
            None => match self.op {
                None => Todo::Yield(Ok(0usize)),
                Some(op) => if self.len > 0 {
                    Todo::Dump { len: self.len }
                } else if !self.exiting {
                    Todo::Step { offset: self.len, call: self.call() }
                } else if op == Op::Flush {
                    Todo::Sink
                } else {
                    Todo::Yield(Ok(0usize))
                },
            },
        }
    }

    /// The state after the scratch buffer went out to the sink.
    pub open spec fn dumped(self) -> WriteView {
        WriteView { len: 0, sunk: self.sunk + self.len, ..self }
    }

    /// A step is one the codec can have made under `self.call()`.
    pub open spec fn admits(self, ret: StepReturn) -> bool {
        &&& self.total_in <= ret.counters.spec_total_in()
        &&& ret.counters.spec_total_in() - self.total_in <= self.call().avail_in
        &&& self.total_out <= ret.counters.spec_total_out()
        &&& ret.counters.spec_total_out() - self.total_out <= self.call().avail_out
    }

    /// Whether the step `ret` was the last round of the call in progress. A
    /// write is over once the codec took some of it, or there was nothing
    /// to take, or a decompressor saw the end of its stream. A flush is over
    /// once the codec has no more to put out. A finish is over at the end of
    /// the stream.
    pub open spec fn last_round(self, ret: StepReturn) -> bool {
        let consumed = ret.counters.spec_total_in() - self.total_in;
        let produced = ret.counters.spec_total_out() - self.total_out;
        let ended = ret.status == Status::StreamEnd;
        match self.op {
            Some(Op::Write(n)) => consumed > 0 || n == 0 || (self.kind() == Kind::Decompress
                && ended),
            Some(Op::Flush) => produced == 0,
            _ => ended,
        }
    }

    /// The state after a step. The scratch buffer grows by what the step
    /// wrote. An error ends the call with that error. A decompressor keeps
    /// the end of its stream. After the last round a write is over with the
    /// number of bytes the step took, and a flush or finish goes on to its
    /// last moves.
    pub open spec fn stepped(self, ret: StepReturn) -> WriteView {
        let consumed = (ret.counters.spec_total_in() - self.total_in) as usize;
        let produced = (ret.counters.spec_total_out() - self.total_out) as usize;
        let moved = WriteView {
            total_in: ret.counters.spec_total_in(),
            total_out: ret.counters.spec_total_out(),
            len: (self.len + produced) as usize,
            ..self
        };
        match ret.status.spec_error() {
            Some(e) => WriteView { over: Some(Err(e)), ..moved },
            None => {
                let kept = WriteView {
                    done: self.done || (self.kind() == Kind::Decompress && ret.status
                        == Status::StreamEnd),
                    ..moved
                };
                if !self.last_round(ret) {
                    kept
                } else if self.op is Some && self.op->0 is Write {
                    WriteView { over: Some(Ok(consumed)), ..kept }
                } else {
                    WriteView { exiting: true, ..kept }
                }
            },
        }
    }

    /// Whether the stream is complete and all of it has gone to the sink:
    /// a finish is over, without an error.
    pub open spec fn finished(self) -> bool {
        self.op == Some(Op::Finish) && self.next() == Todo::Yield(Ok(0usize))
    }
}

/// The state of a writer, but for its sink: its codec and the numbers of its
/// scratch buffer and of the call in progress.
struct Core {
    data: Stream,
    len: usize,
    cap: usize,
    done: bool,
    op: Option<Op>,
    exiting: bool,
    over: Option<Result<usize, Error>>,
    sunk: Ghost<int>,
    in_base: Ghost<int>,
}

impl Core {
    closed spec fn view(&self) -> WriteView {
        WriteView {
            init: self.data.spec_init(),
            total_in: self.data.spec_total_in(),
            total_out: self.data.spec_total_out(),
            len: self.len,
            cap: self.cap,
            done: self.done,
            op: self.op,
            exiting: self.exiting,
            over: self.over,
            sunk: self.sunk@,
            in_base: self.in_base@,
        }
    }

    fn new(data: Stream, cap: usize) -> (c: Core)
        requires
            data.spec_total_in() == 0,
            data.spec_total_out() == 0,
        ensures
            c.view() == WriteView::fresh(data.spec_init(), cap),
            c.view().wf(),
    {
        Core {
            data,
            len: 0,
            cap,
            done: false,
            op: None,
            exiting: false,
            over: None,
            sunk: Ghost(0),
            in_base: Ghost(0),
        }
    }

    fn begin(&mut self, op: Op)
        requires
            old(self).view().wf(),
        ensures
            final(self).view() == (match op {
                Op::Write(n) => old(self).view().write(n),
                Op::Flush => old(self).view().flush(),
                Op::Finish => old(self).view().do_finish(),
            }),
            final(self).view().wf(),
    {
        self.exiting = match op {
            Op::Write(_) => false,
            Op::Flush => match self.data.kind() {
                Kind::Compress => false,
                Kind::Decompress => true,
            },
            Op::Finish => self.done,
        };
        self.over = match op {
            Op::Write(_) => if self.done {
                Some(Ok(0))
            } else {
                None
            },
            _ => None,
        };
        self.op = Some(op);
        self.in_base = Ghost(self.data.spec_total_in());
    }

    fn call(&self) -> (call: StepCall)
        requires
            self.view().wf(),
        ensures
            call == self.view().call(),
            call.avail_in <= self.view().input_len(),
            call.avail_out <= self.cap - self.len,
    {
        let input_len = match self.op {
            Some(Op::Write(n)) => n,
            _ => 0,
        };
        match self.data.kind() {
            Kind::Compress => {
                let action = match self.op {
                    Some(Op::Flush) => Action::Flush,
                    Some(Op::Finish) => Action::Finish,
                    _ => Action::Run,
                };
                self.data.compress_vec(input_len, self.len, self.cap, action)
            },
            Kind::Decompress => self.data.decompress_vec(input_len, self.len, self.cap),
        }
    }

    fn next(&self) -> (t: Todo)
        requires
            self.view().wf(),
        ensures
            t == self.view().next(),
    {
        match self.over {
            Some(r) => Todo::Yield(r),
            None => match self.op {
                None => Todo::Yield(Ok(0)),
                Some(op) => {
                    if self.len > 0 {
                        Todo::Dump { len: self.len }
                    } else if !self.exiting {
                        Todo::Step { offset: self.len, call: self.call() }
                    } else {
                        match op {
                            Op::Flush => Todo::Sink,
                            _ => Todo::Yield(Ok(0)),
                        }
                    }
                },
            },
        }
    }

    fn dumped(&mut self)
        requires
            old(self).view().wf(),
            old(self).view().next() is Dump,
        ensures
            final(self).view() == old(self).view().dumped(),
            final(self).view().wf(),
    {
        self.sunk = Ghost(self.sunk@ + self.len);
        self.len = 0;
    }

    fn accepts(&self, ret: &StepReturn) -> (b: bool)
        requires
            self.view().wf(),
        ensures
            b == self.view().admits(*ret),
    {
        let call = self.call();
        self.data.accepts(&call, ret)
    }

    fn stepped(&mut self, ret: StepReturn)
        requires
            old(self).view().wf(),
            old(self).view().next() is Step,
            old(self).view().admits(ret),
        ensures
            final(self).view() == old(self).view().stepped(ret),
            final(self).view().wf(),
    {
        let call = self.call();
        let (p, len) = self.data.complete_vec(call, ret, self.len, self.cap);
        self.len = len;
        match p.status.error() {
            Some(e) => {
                self.over = Some(Err(e));
            },
            None => {
                let ended = p.status == Status::StreamEnd;
                let decoding = match self.data.kind() {
                    Kind::Compress => false,
                    Kind::Decompress => true,
                };
                self.done = self.done || (decoding && ended);
                match self.op {
                    Some(Op::Write(n)) => {
                        if p.consumed > 0 || n == 0 || (decoding && ended) {
                            self.over = Some(Ok(p.consumed));
                        }
                    },
                    Some(Op::Flush) => {
                        if p.produced == 0 {
                            self.exiting = true;
                        }
                    },
                    _ => {
                        if ended {
                            self.exiting = true;
                        }
                    },
                }
            },
        }
    }

    fn finished(&self) -> (b: bool)
        requires
            self.view().wf(),
        ensures
            b == self.view().finished(),
    {
        match (self.op, self.over) {
            (Some(Op::Finish), None) => self.len == 0 && self.exiting,
            (Some(Op::Finish), Some(Ok(n))) => n == 0,
            _ => false,
        }
    }
}

/// A compression stream which will have uncompressed data written to it and
/// will write compressed data to an output stream.
pub struct BzEncoder<W> {
    core: Core,
    obj: Option<W>,
}

impl<W> View for BzEncoder<W> {
    type V = WriteView;

    closed spec fn view(&self) -> WriteView {
        self.core.view()
    }
}

impl<W> BzEncoder<W> {
    /// The wrapped sink, until `finish` hands it out.
    pub closed spec fn inner(&self) -> Option<W> {
        self.obj
    }

    /// Create a new compression stream which will compress at the given level
    /// to write compress output to the give output stream.
    pub fn new(obj: W, level: Compression) -> (s: BzEncoder<W>)
        requires
            level.valid(),
        ensures
            s.inner() == Some(obj),
            s@ == WriteView::fresh(
                InitCall::Compress {
                    block_size: level.spec_level() as i32,
                    verbosity: 0,
                    work_factor: WORK_FACTOR as i32,
                },
                SCRATCH_CAP,
            ),
            s@.wf(),
    {
        BzEncoder::with_capacity(obj, level, SCRATCH_CAP)
    }

    /// Create a new compression stream with a scratch buffer of `cap` bytes.
    pub fn with_capacity(obj: W, level: Compression, cap: usize) -> (s: BzEncoder<W>)
        requires
            level.valid(),
        ensures
            s.inner() == Some(obj),
            s@ == WriteView::fresh(
                InitCall::Compress {
                    block_size: level.spec_level() as i32,
                    verbosity: 0,
                    work_factor: WORK_FACTOR as i32,
                },
                cap,
            ),
            s@.wf(),
    {
        BzEncoder { core: Core::new(Stream::new_compress(level, WORK_FACTOR), cap), obj: Some(obj) }
    }

    /// The native call that starts the codec.
    pub fn init(&self) -> (c: InitCall)
        ensures
            c == self@.init,
    {
        self.core.data.init()
    }

    /// Acquires a reference to the underlying sink, while it is held.
    pub fn get_ref(&self) -> (r: Option<&W>)
        ensures
            r is Some == self.inner() is Some,
            r matches Some(w) ==> *w == self.inner()->0,
    {
        self.obj.as_ref()
    }

    /// Acquires a mutable reference to the underlying sink, while it is
    /// held, for the write or flush that `next` asked for.
    pub fn get_mut(&mut self) -> (r: Option<&mut W>)
        ensures
            final(self)@ == old(self)@,
            r is Some == old(self).inner() is Some,
            final(self).inner() is Some == old(self).inner() is Some,
            r matches Some(w) ==> *w == old(self).inner()->0,
            r matches Some(w) ==> final(self).inner()->0 == *final(w),
    {
        self.obj.as_mut()
    }

    /// Begins a write of `len` bytes.
    pub fn write(&mut self, len: usize)
        requires
            old(self)@.wf(),
        ensures
            final(self)@ == old(self)@.write(len),
            final(self)@.wf(),
            final(self).inner() == old(self).inner(),
    {
        self.core.begin(Op::Write(len))
    }

    /// Begins a flush.
    pub fn flush(&mut self)
        requires
            old(self)@.wf(),
        ensures
            final(self)@ == old(self)@.flush(),
            final(self)@.wf(),
            final(self).inner() == old(self).inner(),
    {
        self.core.begin(Op::Flush)
    }

    /// Begins the end of the stream.
    pub fn do_finish(&mut self)
        requires
            old(self)@.wf(),
        ensures
            final(self)@ == old(self)@.do_finish(),
            final(self)@.wf(),
            final(self).inner() == old(self).inner(),
    {
        self.core.begin(Op::Finish)
    }

    /// What the call in progress needs done next.
    pub fn next(&self) -> (t: Todo)
        requires
            self@.wf(),
        ensures
            t == self@.next(),
            t matches Todo::Dump { len } ==> 0 < len <= self@.cap,
            t matches Todo::Step { offset, call } ==> {
                &&& offset == 0
                &&& call.avail_in <= self@.input_len()
                &&& call.avail_out <= self@.cap
            },
            t is Sink ==> self@.len == 0 && self@.sunk == self@.total_out,
            t matches Todo::Yield(Ok(n)) ==> n <= self@.input_len() && n == self@.total_in
                - self@.in_base,
    {
        self.core.next()
    }

    /// Takes in that the scratch buffer went out to the sink.
    pub fn dumped(&mut self)
        requires
            old(self)@.wf(),
            old(self)@.next() is Dump,
        ensures
            final(self)@ == old(self)@.dumped(),
            final(self)@.wf(),
            final(self).inner() == old(self).inner(),
    {
        self.core.dumped()
    }

    /// Whether `ret` can be what the codec left after the step that is due.
    pub fn accepts(&self, ret: &StepReturn) -> (b: bool)
        requires
            self@.wf(),
        ensures
            b == self@.admits(*ret),
    {
        self.core.accepts(ret)
    }

    /// Takes in what the native state shows after the step that was due.
    pub fn stepped(&mut self, ret: StepReturn)
        requires
            old(self)@.wf(),
            old(self)@.next() is Step,
            old(self)@.admits(ret),
        ensures
            final(self)@ == old(self)@.stepped(ret),
            final(self)@.wf(),
            final(self).inner() == old(self).inner(),
            old(self)@.total_in <= final(self)@.total_in,
            old(self)@.total_out <= final(self)@.total_out,
            final(self)@.len - old(self)@.len == final(self)@.total_out - old(self)@.total_out,
    {
        self.core.stepped(ret)
    }

    /// Hands out the sink of a finished encoder.
    ///
    /// The sink is handed out once a finish is over without an error, and
    /// once only; until then, and after, the answer is `None`.
    pub fn finish(&mut self) -> (w: Option<W>)
        requires
            old(self)@.wf(),
        ensures
            final(self)@ == old(self)@,
            old(self)@.finished() ==> w == old(self).inner() && final(self).inner() is None,
            !old(self)@.finished() ==> w is None && final(self).inner() == old(self).inner(),
    {
        if self.core.finished() {
            self.obj.take()
        } else {
            None
        }
    }

    /// Returns the number of bytes produced by the compressor
    ///
    /// Note that, due to buffering, this only bears any relation to
    /// `total_in()` after a flush.
    pub fn total_out(&self) -> (t: u64)
        ensures
            t == self@.total_out,
            self@.wf() ==> t == self@.sunk + self@.len,
    {
        self.core.data.total_out()
    }

    /// Returns the number of bytes consumed by the compressor
    /// (e.g. the number of bytes written to this stream.)
    pub fn total_in(&self) -> (t: u64)
        ensures
            t == self@.total_in,
    {
        self.core.data.total_in()
    }
}

/// A compression stream which will have compressed data written to it and
/// will write uncompressed data to an output stream.
pub struct BzDecoder<W> {
    core: Core,
    obj: Option<W>,
}

impl<W> View for BzDecoder<W> {
    type V = WriteView;

    closed spec fn view(&self) -> WriteView {
        self.core.view()
    }
}

impl<W> BzDecoder<W> {
    /// The wrapped sink, until `finish` hands it out.
    pub closed spec fn inner(&self) -> Option<W> {
        self.obj
    }

    /// Create a new decoding stream which will decompress all data written
    /// to it into `obj`.
    pub fn new(obj: W) -> (s: BzDecoder<W>)
        ensures
            s.inner() == Some(obj),
            s@ == WriteView::fresh(InitCall::Decompress { verbosity: 0, small: 0 }, SCRATCH_CAP),
            s@.wf(),
    {
        BzDecoder::with_capacity(obj, SCRATCH_CAP)
    }

    /// Create a new decoding stream with a scratch buffer of `cap` bytes.
    pub fn with_capacity(obj: W, cap: usize) -> (s: BzDecoder<W>)
        ensures
            s.inner() == Some(obj),
            s@ == WriteView::fresh(InitCall::Decompress { verbosity: 0, small: 0 }, cap),
            s@.wf(),
    {
        BzDecoder { core: Core::new(Stream::new_decompress(false), cap), obj: Some(obj) }
    }

    /// The native call that starts the codec.
    pub fn init(&self) -> (c: InitCall)
        ensures
            c == self@.init,
    {
        self.core.data.init()
    }

    /// Acquires a reference to the underlying sink, while it is held.
    pub fn get_ref(&self) -> (r: Option<&W>)
        ensures
            r is Some == self.inner() is Some,
            r matches Some(w) ==> *w == self.inner()->0,
    {
        self.obj.as_ref()
    }

    /// Acquires a mutable reference to the underlying sink, while it is
    /// held, for the write or flush that `next` asked for.
    pub fn get_mut(&mut self) -> (r: Option<&mut W>)
        ensures
            final(self)@ == old(self)@,
            r is Some == old(self).inner() is Some,
            final(self).inner() is Some == old(self).inner() is Some,
            r matches Some(w) ==> *w == old(self).inner()->0,
            r matches Some(w) ==> final(self).inner()->0 == *final(w),
    {
        self.obj.as_mut()
    }

    /// Begins a write of `len` bytes.
    pub fn write(&mut self, len: usize)
        requires
            old(self)@.wf(),
        ensures
            final(self)@ == old(self)@.write(len),
            final(self)@.wf(),
            final(self).inner() == old(self).inner(),
    {
        self.core.begin(Op::Write(len))
    }

    /// Begins a flush.
    pub fn flush(&mut self)
        requires
            old(self)@.wf(),
        ensures
            final(self)@ == old(self)@.flush(),
            final(self)@.wf(),
            final(self).inner() == old(self).inner(),
    {
        self.core.begin(Op::Flush)
    }

    /// Begins the end of the stream.
    pub fn do_finish(&mut self)
        requires
            old(self)@.wf(),
        ensures
            final(self)@ == old(self)@.do_finish(),
            final(self)@.wf(),
            final(self).inner() == old(self).inner(),
    {
        self.core.begin(Op::Finish)
    }

    /// What the call in progress needs done next.
    pub fn next(&self) -> (t: Todo)
        requires
            self@.wf(),
        ensures
            t == self@.next(),
            t matches Todo::Dump { len } ==> 0 < len <= self@.cap,
            t matches Todo::Step { offset, call } ==> {
                &&& offset == 0
                &&& call.avail_in <= self@.input_len()
                &&& call.avail_out <= self@.cap
            },
            t is Sink ==> self@.len == 0 && self@.sunk == self@.total_out,
            t matches Todo::Yield(Ok(n)) ==> n <= self@.input_len() && n == self@.total_in
                - self@.in_base,
    {
        self.core.next()
    }

    /// Takes in that the scratch buffer went out to the sink.
    pub fn dumped(&mut self)
        requires
            old(self)@.wf(),
            old(self)@.next() is Dump,
        ensures
            final(self)@ == old(self)@.dumped(),
            final(self)@.wf(),
            final(self).inner() == old(self).inner(),
    {
        self.core.dumped()
    }

    /// Whether `ret` can be what the codec left after the step that is due.
    pub fn accepts(&self, ret: &StepReturn) -> (b: bool)
        requires
            self@.wf(),
        ensures
            b == self@.admits(*ret),
    {
        self.core.accepts(ret)
    }

    /// Takes in what the native state shows after the step that was due.
    pub fn stepped(&mut self, ret: StepReturn)
        requires
            old(self)@.wf(),
            old(self)@.next() is Step,
            old(self)@.admits(ret),
        ensures
            final(self)@ == old(self)@.stepped(ret),
            final(self)@.wf(),
            final(self).inner() == old(self).inner(),
            old(self)@.total_in <= final(self)@.total_in,
            old(self)@.total_out <= final(self)@.total_out,
            final(self)@.len - old(self)@.len == final(self)@.total_out - old(self)@.total_out,
    {
        self.core.stepped(ret)
    }

    /// Unwrap the underlying writer of a finished decoder.
    ///
    /// The sink is handed out once a finish is over without an error, and
    /// once only; until then, and after, the answer is `None`.
    pub fn finish(&mut self) -> (w: Option<W>)
        requires
            old(self)@.wf(),
        ensures
            final(self)@ == old(self)@,
            old(self)@.finished() ==> w == old(self).inner() && final(self).inner() is None,
            !old(self)@.finished() ==> w is None && final(self).inner() == old(self).inner(),
    {
        if self.core.finished() {
            self.obj.take()
        } else {
            None
        }
    }

    /// Returns the number of bytes produced by the decompressor
    ///
    /// Note that, due to buffering, this only bears any relation to
    /// `total_in()` after a flush.
    pub fn total_out(&self) -> (t: u64)
        ensures
            t == self@.total_out,
            self@.wf() ==> t == self@.sunk + self@.len,
    {
        self.core.data.total_out()
    }

    /// Returns the number of bytes consumed by the decompressor
    /// (e.g. the number of bytes written to this stream.)
    pub fn total_in(&self) -> (t: u64)
        ensures
            t == self@.total_in,
    {
        self.core.data.total_in()
    }
}

/// One thing that happens to a writer.
pub enum Event {
    /// A call begins.
    Begin(Op),
    /// The scratch buffer went out to the sink.
    Dumped,
    /// The codec made a step and left this.
    Stepped(StepReturn),
}

impl WriteView {
    /// Whether `e` can happen in this state.
    pub open spec fn allows(self, e: Event) -> bool {
        match e {
            Event::Begin(_) => true,
            Event::Dumped => self.next() is Dump,
            Event::Stepped(ret) => self.next() is Step && self.admits(ret),
        }
    }

    /// The state after `e`.
    pub open spec fn after(self, e: Event) -> WriteView {
        match e {
            Event::Begin(Op::Write(n)) => self.write(n),
            Event::Begin(Op::Flush) => self.flush(),
            Event::Begin(Op::Finish) => self.do_finish(),
            Event::Dumped => self.dumped(),
            Event::Stepped(ret) => self.stepped(ret),
        }
    }

    /// The state after all of `es`, in order.
    pub open spec fn run(self, es: Seq<Event>) -> WriteView
        decreases es.len(),
    {
        if es.len() == 0 {
            self
        } else {
            self.run(es.drop_last()).after(es.last())
        }
    }

    /// Whether each of `es` can happen in the state it meets.
    pub open spec fn runs(self, es: Seq<Event>) -> bool
        decreases es.len(),
    {
        es.len() == 0 || (self.runs(es.drop_last()) && self.run(es.drop_last()).allows(es.last()))
    }
}

/// A decompressor that has seen the end of its stream takes nothing more:
/// every write is over at once with 0 bytes, and no event takes the end
/// back.
pub proof fn lemma_end_of_stream_is_final(v: WriteView, e: Event, n: usize)
    requires
        v.done,
    ensures
        v.after(e).done,
        v.write(n).next() == Todo::Yield(Ok(0usize)),
{
}

/// A write answers with the number of bytes the codec took from it, which
/// is more than none unless there was nothing to take or a decompressor met
/// the end of its stream.
pub proof fn lemma_write_takes_input(v: WriteView, ret: StepReturn, n: usize, k: usize)
    requires
        v.wf(),
        v.op == Some(Op::Write(n)),
        v.next() is Step,
        v.admits(ret),
        v.stepped(ret).next() == Todo::Yield(Ok(k)),
    ensures
        k == ret.counters.spec_total_in() - v.total_in,
        k <= n,
        k == 0 ==> n == 0 || (v.kind() == Kind::Decompress && ret.status == Status::StreamEnd),
{
}

/// When a flush comes to flushing the sink, nothing waits in the scratch
/// buffer: all that the codec has put out, for all that was written before
/// the flush, has gone to the sink.
pub proof fn lemma_flush_leaves_nothing(v: WriteView)
    requires
        v.wf(),
        v.op == Some(Op::Flush),
        v.next() is Sink,
    ensures
        v.len == 0,
        v.sunk == v.total_out,
        v.total_in == v.in_base,
{
}

/// A compressor's flush asks the codec for more until a step puts out
/// nothing, and only then turns to the sink.
pub proof fn lemma_flush_runs_dry(v: WriteView, ret: StepReturn)
    requires
        v.wf(),
        v.op == Some(Op::Flush),
        v.next() is Step,
        v.admits(ret),
        ret.status.spec_error() is None,
    ensures
        v.stepped(ret).exiting <==> ret.counters.spec_total_out() == v.total_out,
        v.stepped(ret).exiting ==> v.stepped(ret).next() is Sink,
        !v.stepped(ret).exiting ==> v.stepped(ret).next() is Dump,
{
}

/// When a finish is over, all that the codec has put out has gone to the
/// sink.
pub proof fn lemma_finish_leaves_nothing(v: WriteView)
    requires
        v.wf(),
        v.finished(),
    ensures
        v.len == 0,
        v.sunk == v.total_out,
{
}

/// A step ends the call with an error exactly when the codec reported one,
/// and then with that one.
pub proof fn lemma_error_surfaces(v: WriteView, ret: StepReturn, e: Error)
    requires
        v.wf(),
        v.next() is Step,
        v.admits(ret),
    ensures
        v.stepped(ret).next() == Todo::Yield(Err(e)) <==> ret.status.spec_error() == Some(e),
{
}

/// What the codec writes goes to the sink once and in order. The codec
/// steps only when nothing waits in the scratch buffer, so what a step wrote
/// is all that waits after it; and what waits goes out whole before the
/// codec steps again or the call is over.
pub proof fn lemma_output_goes_out_in_order(v: WriteView, ret: StepReturn)
    requires
        v.wf(),
        v.next() is Step,
        v.admits(ret),
    ensures
        v.len == 0,
        v.sunk == v.total_out,
        v.stepped(ret).len == ret.counters.spec_total_out() - v.total_out,
        v.stepped(ret).sunk == v.sunk,
        v.stepped(ret).len > 0 && ret.status.spec_error() is None && !(v.op is Some && v.op->0
            is Write && v.last_round(ret)) ==> v.stepped(ret).next() == (Todo::Dump {
            len: v.stepped(ret).len,
        }),
{
}

/// Whatever happens to a writer, in whatever order: its state stays well
/// formed, neither counter of the codec goes back, no byte that went to the
/// sink is taken back, and the end of the stream once seen stays.
pub proof fn lemma_run_keeps_count(v: WriteView, es: Seq<Event>)
    requires
        v.wf(),
        v.runs(es),
    ensures
        v.run(es).wf(),
        v.run(es).init == v.init,
        v.run(es).cap == v.cap,
        v.total_in <= v.run(es).total_in,
        v.total_out <= v.run(es).total_out,
        v.sunk <= v.run(es).sunk,
        v.done ==> v.run(es).done,
    decreases es.len(),
{
    if es.len() > 0 {
        lemma_run_keeps_count(v, es.drop_last());
    }
}

} // verus!
