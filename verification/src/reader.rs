//! Reader-based compression/decompression streams
//!
//! A reader pulls bytes from a source into a scratch buffer, runs the codec
//! on them and hands what the codec wrote to its caller. The types here keep
//! every number of that work: the cursor into the scratch buffer, the count
//! of bytes read in the current call, the end-of-stream flag. The bytes, the
//! source's `read` and the codec's step are the caller's part: `next` says
//! which of them is due, `filled` and `stepped` take in what came of it.

use vstd::prelude::*;
use crate::Compression;
use crate::raw::{
    spec_bound, Action, Error, InitCall, Kind, Status, StepCall, StepReturn, Stream,
    WORK_FACTOR,
};

verus! {

/// Length of the scratch buffer of a reader.
pub const SCRATCH_LEN: usize = 32768;

/// What a reader needs done next.
#[derive(Copy, Clone, Debug, PartialEq, Eq)]
pub enum Next {
    /// Pull from the source into the scratch buffer, all `room` bytes of it
    /// on offer, and report the number of bytes pulled with `filled`.
    Fill {
        /// Length of the scratch buffer.
        room: usize,
    },
    /// Run the codec with the scratch buffer from `from` to `to` as input and
    /// the caller's buffer from `offset` on as output, and report with
    /// `stepped`.
    Step {
        /// Start of the unread region of the scratch buffer.
        from: usize,
        /// End of the unread region of the scratch buffer.
        to: usize,
        /// Number of bytes of the caller's buffer that are filled.
        offset: usize,
        /// The native call that is due.
        call: StepCall,
    },
    /// The read call is over, with this result.
    Yield(Result<usize, Error>),
}

/// The state of a reader, as contracts see it.
pub struct ReadView {
    /// The native call that started the codec.
    pub init: InitCall,
    /// Bytes the codec has taken in.
    pub total_in: int,
    /// Bytes the codec has put out.
    pub total_out: int,
    /// Length of the scratch buffer.
    pub buf_len: usize,
    /// Start of the unread region of the scratch buffer.
    pub pos: usize,
    /// End of the unread region of the scratch buffer.
    pub cap: usize,
    /// Whether the codec has reported the end of the stream.
    pub done: bool,
    /// Length of the buffer of the read call in progress.
    pub target: usize,
    /// Bytes written to that buffer so far.
    pub read: usize,
    /// Whether this round of the call met the end of the source or stream.
    pub eof: bool,
    /// Whether this round of the call has pulled from the source.
    pub fed: bool,
    /// The result of the call, once it is decided.
    pub over: Option<Result<usize, Error>>,
    /// Bytes pulled from the source since the reader was made.
    pub pulled: int,
    /// Bytes the codec had put out when the call in progress began.
    pub out_base: int,
}

impl ReadView {
    /// The state of a reader that has done nothing yet.
    pub open spec fn fresh(init: InitCall, buf_len: usize) -> ReadView {
        ReadView {
            init,
            total_in: 0,
            total_out: 0,
            buf_len,
            pos: 0,
            cap: 0,
            done: false,
            target: 0,
            read: 0,
            eof: false,
            fed: false,
            over: None,
            pulled: 0,
            out_base: 0,
        }
    }

    /// Direction of the codec.
    pub open spec fn kind(self) -> Kind {
        match self.init {
            InitCall::Compress { .. } => Kind::Compress,
            InitCall::Decompress { .. } => Kind::Decompress,
        }
    }

    /// The cursors are in order, and no byte is lost or made up: what was
    /// pulled from the source has gone into the codec or waits in the scratch
    /// buffer, and what the call has written is what the codec put out since
    /// the call began.
    pub open spec fn wf(self) -> bool {
        &&& self.pos <= self.cap <= self.buf_len
        &&& self.read <= self.target
        &&& self.pulled == self.total_in + (self.cap - self.pos)
        &&& self.out_base + self.read == self.total_out
        &&& self.over matches Some(Ok(n)) ==> n == self.read
    }

    /// The state when a read call for `target` bytes begins. A reader that
    /// has seen the end of the stream answers at once, with 0.
    pub open spec fn begin(self, target: usize) -> ReadView {
        ReadView {
            target,
            read: 0,
            eof: false,
            fed: false,
            over: if self.done {
                Some(Ok(0usize))
            } else {
                None
            },
            out_base: self.total_out,
            ..self
        }
    }

    /// The action of the next step: a compressor finishes once the source
    /// is at its end, and runs until then.
    pub open spec fn action(self) -> Option<Action> {
        match self.kind() {
            Kind::Compress => Some(
                if self.eof {
                    Action::Finish
                } else {
                    Action::Run
                },
            ),
            Kind::Decompress => None,
        }
    }

    /// The native call of the next step: all that is unread in the scratch
    /// buffer as input, all that is free in the caller's buffer as output.
    pub open spec fn call(self) -> StepCall {
        StepCall {
            kind: self.kind(),
            avail_in: spec_bound((self.cap - self.pos) as usize) as u32,
            avail_out: spec_bound((self.target - self.read) as usize) as u32,
            action: self.action(),
        }
    }

    /// What is due. The source is asked only when the scratch buffer holds
    /// nothing unread, and once in a round.
    pub open spec fn next(self) -> Next {
        match self.over {
            Some(r) => Next::Yield(r),
            None => if self.pos == self.cap && !self.fed {
                Next::Fill { room: self.buf_len }
            } else {
                Next::Step { from: self.pos, to: self.cap, offset: self.read, call: self.call() }
            },
        }
    }

    /// The state after the source gave `n` bytes: they are the unread region,
    /// and none at all is the end of the source.
    pub open spec fn filled(self, n: usize) -> ReadView {
        ReadView { cap: n, pos: 0, eof: n == 0, fed: true, pulled: self.pulled + n, ..self }
    }

    /// A step is one the codec can have made under `self.call()`.
    pub open spec fn admits(self, ret: StepReturn) -> bool {
        &&& self.total_in <= ret.counters.spec_total_in()
        &&& ret.counters.spec_total_in() - self.total_in <= self.call().avail_in
        &&& self.total_out <= ret.counters.spec_total_out()
        &&& ret.counters.spec_total_out() - self.total_out <= self.call().avail_out
    }

    /// The state after a step. Both cursors move by what the step took and
    /// wrote. An error ends the call with that error. The end of the stream
    /// is kept and ends the call. Else the call goes into another round
    /// while the caller's buffer has room and the source was not at its end.
    pub open spec fn stepped(self, ret: StepReturn) -> ReadView {
        let pos = (self.pos + (ret.counters.spec_total_in() - self.total_in)) as usize;
        let read = (self.read + (ret.counters.spec_total_out() - self.total_out)) as usize;
        let moved = ReadView {
            total_in: ret.counters.spec_total_in(),
            total_out: ret.counters.spec_total_out(),
            pos,
            read,
            ..self
        };
        let ended = ret.status == Status::StreamEnd;
        match ret.status.spec_error() {
            Some(e) => ReadView { over: Some(Err(e)), ..moved },
            None => if self.target > read && !self.eof && !ended {
                ReadView { eof: false, fed: false, ..moved }
            } else {
                ReadView {
                    done: self.done || ended,
                    eof: self.eof || ended,
                    over: Some(Ok(read)),
                    ..moved
                }
            },
        }
    }
}

/// The state of a reader: its codec, its source, and the numbers of its
/// scratch buffer and of the read call in progress.
struct Inner<R> {
    stream: Stream,
    r: R,
    buf_len: usize,
    cap: usize,
    pos: usize,
    done: bool,
    target: usize,
    read: usize,
    eof: bool,
    fed: bool,
    over: Option<Result<usize, Error>>,
    pulled: Ghost<int>,
    out_base: Ghost<int>,
}

impl<R> Inner<R> {
    closed spec fn view(&self) -> ReadView {
        ReadView {
            init: self.stream.spec_init(),
            total_in: self.stream.spec_total_in(),
            total_out: self.stream.spec_total_out(),
            buf_len: self.buf_len,
            pos: self.pos,
            cap: self.cap,
            done: self.done,
            target: self.target,
            read: self.read,
            eof: self.eof,
            fed: self.fed,
            over: self.over,
            pulled: self.pulled@,
            out_base: self.out_base@,
        }
    }

    fn new(stream: Stream, r: R, buf_len: usize) -> (s: Inner<R>)
        requires
            stream.spec_total_in() == 0,
            stream.spec_total_out() == 0,
        ensures
            s.r == r,
            s.stream == stream,
            s.view() == ReadView::fresh(stream.spec_init(), buf_len),
    {
        Inner {
            stream,
            r,
            buf_len,
            cap: 0,
            pos: 0,
            done: false,
            target: 0,
            read: 0,
            eof: false,
            fed: false,
            over: None,
            pulled: Ghost(0),
            out_base: Ghost(0),
        }
    }

    fn begin(&mut self, target: usize)
        ensures
            final(self).r == old(self).r,
            final(self).view() == old(self).view().begin(target),
    {
        self.target = target;
        self.read = 0;
        self.eof = false;
        self.fed = false;
        self.over = if self.done {
            Some(Ok(0))
        } else {
            None
        };
        self.out_base = Ghost(self.stream.spec_total_out());
    }

    fn next(&self) -> (t: Next)
        requires
            self.view().wf(),
        ensures
            t == self.view().next(),
    {
        match self.over {
            Some(r) => Next::Yield(r),
            None => {
                if self.pos == self.cap && !self.fed {
                    Next::Fill { room: self.buf_len }
                } else {
                    let call = self.call();
                    Next::Step { from: self.pos, to: self.cap, offset: self.read, call }
                }
            },
        }
    }

    fn call(&self) -> (call: StepCall)
        requires
            self.view().wf(),
        ensures
            call == self.view().call(),
            call.avail_in <= self.cap - self.pos,
            call.avail_out <= self.target - self.read,
    {
        let input_len = self.cap - self.pos;
        let output_len = self.target - self.read;
        match self.stream.kind() {
            Kind::Compress => {
                let action = if self.eof {
                    Action::Finish
                } else {
                    Action::Run
                };
                self.stream.compress(input_len, output_len, action)
            },
            Kind::Decompress => self.stream.decompress(input_len, output_len),
        }
    }

    fn filled(&mut self, n: usize)
        requires
            old(self).view().wf(),
            old(self).view().next() is Fill,
            n <= old(self).view().buf_len,
        ensures
            final(self).r == old(self).r,
            final(self).view() == old(self).view().filled(n),
            final(self).view().wf(),
    {
        self.cap = n;
        self.pos = 0;
        self.eof = n == 0;
        self.fed = true;
        self.pulled = Ghost(self.pulled@ + n);
    }

    fn accepts(&self, ret: &StepReturn) -> (b: bool)
        requires
            self.view().wf(),
        ensures
            b == self.view().admits(*ret),
    {
        let call = self.call();
        self.stream.accepts(&call, ret)
    }

    fn stepped(&mut self, ret: StepReturn)
        requires
            old(self).view().wf(),
            old(self).view().next() is Step,
            old(self).view().admits(ret),
        ensures
            final(self).r == old(self).r,
            final(self).view() == old(self).view().stepped(ret),
            final(self).view().wf(),
    {
        let call = self.call();
        let p = self.stream.complete(call, ret);
        self.pos = self.pos + p.consumed;
        self.read = self.read + p.produced;
        let ended = p.status == Status::StreamEnd;
        match p.status.error() {
            Some(e) => {
                self.over = Some(Err(e));
            },
            None => {
                if self.target > self.read && !self.eof && !ended {
                    self.eof = false;
                    self.fed = false;
                } else {
                    self.done = self.done || ended;
                    self.eof = self.eof || ended;
                    self.over = Some(Ok(self.read));
                }
            },
        }
    }
}


/// A compression stream which wraps an uncompressed stream of data. Compressed
/// data will be read from the stream.
pub struct BzCompressor<R>(Inner<R>);

impl<R> View for BzCompressor<R> {
    type V = ReadView;

    closed spec fn view(&self) -> ReadView {
        self.0.view()
    }
}

impl<R> BzCompressor<R> {
    /// The wrapped source.
    pub closed spec fn inner(&self) -> R {
        self.0.r
    }

    /// The native call that starts the codec of this reader.
    pub fn init(&self) -> (c: InitCall)
        ensures
            c == self@.init,
    {
        self.0.stream.init()
    }

    /// Create a new compression stream which will compress at the given level
    /// what it reads from `r`.
    pub fn new(r: R, level: Compression) -> (s: BzCompressor<R>)
        requires
            level.valid(),
        ensures
            s.inner() == r,
            s@ == ReadView::fresh(
                InitCall::Compress {
                    block_size: level.spec_level() as i32,
                    verbosity: 0,
                    work_factor: WORK_FACTOR as i32,
                },
                SCRATCH_LEN,
            ),
            s@.wf(),
    {
        BzCompressor::with_capacity(r, level, SCRATCH_LEN)
    }

    /// Create a new compression stream with a scratch buffer of `buf_len`
    /// bytes.
    pub fn with_capacity(r: R, level: Compression, buf_len: usize) -> (s: BzCompressor<R>)
        requires
            level.valid(),
        ensures
            s.inner() == r,
            s@ == ReadView::fresh(
                InitCall::Compress {
                    block_size: level.spec_level() as i32,
                    verbosity: 0,
                    work_factor: WORK_FACTOR as i32,
                },
                buf_len,
            ),
            s@.wf(),
    {
        BzCompressor(Inner::new(Stream::new_compress(level, WORK_FACTOR), r, buf_len))
    }

    /// Acquires a reference to the underlying stream
    pub fn get_ref(&self) -> (r: &R)
        ensures
            *r == self.inner(),
    {
        &self.0.r
    }

    /// Acquires a mutable reference to the underlying stream, for the pull
    /// that `next` asked for.
    pub fn get_mut(&mut self) -> (r: &mut R)
        ensures
            *r == old(self).inner(),
            final(self).inner() == *final(r),
            final(self)@ == old(self)@,
    {
        &mut self.0.r
    }

    /// Unwrap the underlying stream.
    pub fn into_inner(self) -> (r: R)
        ensures
            r == self.inner(),
    {
        self.0.r
    }

    /// Returns the number of bytes the codec has taken in, which are the
    /// bytes pulled from the source but for those that wait in the scratch
    /// buffer.
    pub fn total_in(&self) -> (t: u64)
        ensures
            t == self@.total_in,
            self@.wf() ==> t == self@.pulled - (self@.cap - self@.pos),
    {
        self.0.stream.total_in()
    }

    /// Returns the number of bytes the codec has put out.
    pub fn total_out(&self) -> (t: u64)
        ensures
            t == self@.total_out,
    {
        self.0.stream.total_out()
    }

    /// Begins a read into a buffer of `len` bytes. After the end of the
    /// stream the call is over at once, with 0 bytes.
    pub fn read(&mut self, len: usize)
        requires
            old(self)@.wf(),
        ensures
            final(self).inner() == old(self).inner(),
            final(self)@ == old(self)@.begin(len),
            final(self)@.wf(),
            old(self)@.done ==> final(self)@.next() == Next::Yield(Ok(0usize)),
    {
        self.0.begin(len)
    }

    /// What the read call in progress needs done next.
    pub fn next(&self) -> (t: Next)
        requires
            self@.wf(),
        ensures
            t == self@.next(),
            t matches Next::Fill { room } ==> room == self@.buf_len && self@.pos == self@.cap,
            t matches Next::Step { from, to, offset, call } ==> {
                &&& from <= to <= self@.buf_len
                &&& offset <= self@.target
                &&& call.avail_in <= to - from
                &&& call.avail_out <= self@.target - offset
            },
            t matches Next::Yield(Ok(n)) ==> n <= self@.target && n == self@.total_out
                - self@.out_base,
    {
        self.0.next()
    }

    /// Takes in that the source gave `n` bytes, which now stand at the start
    /// of the scratch buffer.
    pub fn filled(&mut self, n: usize)
        requires
            old(self)@.wf(),
            old(self)@.next() is Fill,
            n <= old(self)@.buf_len,
        ensures
            final(self).inner() == old(self).inner(),
            final(self)@ == old(self)@.filled(n),
            final(self)@.wf(),
    {
        self.0.filled(n)
    }

    /// Whether `ret` can be what the codec left after the step that is due.
    pub fn accepts(&self, ret: &StepReturn) -> (b: bool)
        requires
            self@.wf(),
        ensures
            b == self@.admits(*ret),
    {
        self.0.accepts(ret)
    }

    /// Takes in what the native state shows after the step that was due.
    pub fn stepped(&mut self, ret: StepReturn)
        requires
            old(self)@.wf(),
            old(self)@.next() is Step,
            old(self)@.admits(ret),
        ensures
            final(self).inner() == old(self).inner(),
            final(self)@ == old(self)@.stepped(ret),
            final(self)@.wf(),
            final(self)@.init == old(self)@.init,
            old(self)@.total_in <= final(self)@.total_in,
            old(self)@.total_out <= final(self)@.total_out,
            final(self)@.pos - old(self)@.pos == final(self)@.total_in - old(self)@.total_in,
            final(self)@.read - old(self)@.read == final(self)@.total_out - old(
                self,
            )@.total_out,
    {
        self.0.stepped(ret)
    }
}

/// A decompression stream which wraps a compressed stream of data. Decompressed
/// data will be read from the stream.
pub struct BzDecompressor<R>(Inner<R>);

impl<R> View for BzDecompressor<R> {
    type V = ReadView;

    closed spec fn view(&self) -> ReadView {
        self.0.view()
    }
}

impl<R> BzDecompressor<R> {
    /// The wrapped source.
    pub closed spec fn inner(&self) -> R {
        self.0.r
    }

    /// The native call that starts the codec of this reader.
    pub fn init(&self) -> (c: InitCall)
        ensures
            c == self@.init,
    {
        self.0.stream.init()
    }

    /// Create a new decompression stream which will decompress what it reads
    /// from `r`.
    pub fn new(r: R) -> (s: BzDecompressor<R>)
        ensures
            s.inner() == r,
            s@ == ReadView::fresh(InitCall::Decompress { verbosity: 0, small: 0 }, SCRATCH_LEN),
            s@.wf(),
    {
        BzDecompressor::with_capacity(r, SCRATCH_LEN)
    }

    /// Create a new decompression stream with a scratch buffer of `buf_len`
    /// bytes.
    pub fn with_capacity(r: R, buf_len: usize) -> (s: BzDecompressor<R>)
        ensures
            s.inner() == r,
            s@ == ReadView::fresh(InitCall::Decompress { verbosity: 0, small: 0 }, buf_len),
            s@.wf(),
    {
        BzDecompressor(Inner::new(Stream::new_decompress(false), r, buf_len))
    }

    /// Acquires a reference to the underlying stream
    pub fn get_ref(&self) -> (r: &R)
        ensures
            *r == self.inner(),
    {
        &self.0.r
    }

    /// Acquires a mutable reference to the underlying stream, for the pull
    /// that `next` asked for.
    pub fn get_mut(&mut self) -> (r: &mut R)
        ensures
            *r == old(self).inner(),
            final(self).inner() == *final(r),
            final(self)@ == old(self)@,
    {
        &mut self.0.r
    }

    /// Unwrap the underlying stream.
    pub fn into_inner(self) -> (r: R)
        ensures
            r == self.inner(),
    {
        self.0.r
    }

    /// Returns the number of bytes the codec has taken in, which are the
    /// bytes pulled from the source but for those that wait in the scratch
    /// buffer.
    pub fn total_in(&self) -> (t: u64)
        ensures
            t == self@.total_in,
            self@.wf() ==> t == self@.pulled - (self@.cap - self@.pos),
    {
        self.0.stream.total_in()
    }

    /// Returns the number of bytes the codec has put out.
    pub fn total_out(&self) -> (t: u64)
        ensures
            t == self@.total_out,
    {
        self.0.stream.total_out()
    }

    /// Begins a read into a buffer of `len` bytes. After the end of the
    /// stream the call is over at once, with 0 bytes.
    pub fn read(&mut self, len: usize)
        requires
            old(self)@.wf(),
        ensures
            final(self).inner() == old(self).inner(),
            final(self)@ == old(self)@.begin(len),
            final(self)@.wf(),
            old(self)@.done ==> final(self)@.next() == Next::Yield(Ok(0usize)),
    {
        self.0.begin(len)
    }

    /// What the read call in progress needs done next.
    pub fn next(&self) -> (t: Next)
        requires
            self@.wf(),
        ensures
            t == self@.next(),
            t matches Next::Fill { room } ==> room == self@.buf_len && self@.pos == self@.cap,
            t matches Next::Step { from, to, offset, call } ==> {
                &&& from <= to <= self@.buf_len
                &&& offset <= self@.target
                &&& call.avail_in <= to - from
                &&& call.avail_out <= self@.target - offset
            },
            t matches Next::Yield(Ok(n)) ==> n <= self@.target && n == self@.total_out
                - self@.out_base,
    {
        self.0.next()
    }

    /// Takes in that the source gave `n` bytes, which now stand at the start
    /// of the scratch buffer.
    pub fn filled(&mut self, n: usize)
        requires
            old(self)@.wf(),
            old(self)@.next() is Fill,
            n <= old(self)@.buf_len,
        ensures
            final(self).inner() == old(self).inner(),
            final(self)@ == old(self)@.filled(n),
            final(self)@.wf(),
    {
        self.0.filled(n)
    }

    /// Whether `ret` can be what the codec left after the step that is due.
    pub fn accepts(&self, ret: &StepReturn) -> (b: bool)
        requires
            self@.wf(),
        ensures
            b == self@.admits(*ret),
    {
        self.0.accepts(ret)
    }

    /// Takes in what the native state shows after the step that was due.
    pub fn stepped(&mut self, ret: StepReturn)
        requires
            old(self)@.wf(),
            old(self)@.next() is Step,
            old(self)@.admits(ret),
        ensures
            final(self).inner() == old(self).inner(),
            final(self)@ == old(self)@.stepped(ret),
            final(self)@.wf(),
            final(self)@.init == old(self)@.init,
            old(self)@.total_in <= final(self)@.total_in,
            old(self)@.total_out <= final(self)@.total_out,
            final(self)@.pos - old(self)@.pos == final(self)@.total_in - old(self)@.total_in,
            final(self)@.read - old(self)@.read == final(self)@.total_out - old(
                self,
            )@.total_out,
    {
        self.0.stepped(ret)
    }
}

/// One thing that happens to a reader.
pub enum Event {
    /// A read call for a buffer of this length begins.
    Read(usize),
    /// The source gave this many bytes.
    Filled(usize),
    /// The codec made a step and left this.
    Stepped(StepReturn),
}

impl ReadView {
    /// Whether `e` can happen in this state.
    pub open spec fn allows(self, e: Event) -> bool {
        match e {
            Event::Read(_) => true,
            Event::Filled(n) => self.next() is Fill && n <= self.buf_len,
            Event::Stepped(ret) => self.next() is Step && self.admits(ret),
        }
    }

    /// The state after `e`.
    pub open spec fn after(self, e: Event) -> ReadView {
        match e {
            Event::Read(len) => self.begin(len),
            Event::Filled(n) => self.filled(n),
            Event::Stepped(ret) => self.stepped(ret),
        }
    }

    /// The state after all of `es`, in order.
    pub open spec fn run(self, es: Seq<Event>) -> ReadView
        decreases es.len(),
    {
        if es.len() == 0 {
            self
        } else {
            self.run(es.drop_last()).after(es.last())
        }
    }

    /// Whether each of `es` can happen in the state it meets.
    pub open spec fn runs(self, es: Seq<Event>) -> bool
        decreases es.len(),
    {
        es.len() == 0 || (self.runs(es.drop_last()) && self.run(es.drop_last()).allows(es.last()))
    }
}

/// The number of bytes that the source gave in the course of `es`.
pub open spec fn pulled_in(es: Seq<Event>) -> int
    decreases es.len(),
{
    if es.len() == 0 {
        0
    } else {
        pulled_in(es.drop_last()) + match es.last() {
            Event::Filled(n) => n as int,
            _ => 0,
        }
    }
}

/// End of stream is final: a reader that has seen the end of the stream
/// answers every read at once with 0 bytes, and no event takes the end back.
pub proof fn lemma_end_of_stream_is_final(v: ReadView, e: Event, len: usize)
    requires
        v.done,
    ensures
        v.after(e).done,
        v.begin(len).next() == Next::Yield(Ok(0usize)),
{
}

/// A read for at least one byte yields 0 bytes only at an end: the source
/// had no more to give, or the codec reported the end of the stream.
pub proof fn lemma_zero_means_end(v: ReadView, ret: StepReturn)
    requires
        v.wf(),
        v.next() is Step,
        v.admits(ret),
        v.target > 0,
        v.stepped(ret).next() == Next::Yield(Ok(0usize)),
    ensures
        v.eof || ret.status == Status::StreamEnd,
{
}

/// The codec's verdict decides the call: a step ends the call with an error
/// exactly when the codec reported one, and then with that one.
pub proof fn lemma_error_surfaces(v: ReadView, ret: StepReturn, e: Error)
    requires
        v.wf(),
        v.next() is Step,
        v.admits(ret),
    ensures
        v.stepped(ret).next() == Next::Yield(Err(e)) <==> ret.status.spec_error() == Some(e),
{
}

/// No byte is skipped and none is used twice. After a step, the next step
/// takes up the scratch buffer where this one stopped reading and the
/// caller's buffer where this one stopped writing; the source is asked for
/// more only when all that it gave has gone into the codec; and what is left
/// unread when a call is over is where the next call begins.
pub proof fn lemma_steps_leave_no_gap(v: ReadView, ret: StepReturn, len: usize)
    requires
        v.wf(),
        v.next() is Step,
        v.admits(ret),
    ensures
        ({
            let w = v.stepped(ret);
            let consumed = ret.counters.spec_total_in() - v.total_in;
            let produced = ret.counters.spec_total_out() - v.total_out;
            &&& w.pos == v.pos + consumed
            &&& w.cap == v.cap
            &&& w.read == v.read + produced
            &&& w.next() matches Next::Step { from, to, offset, .. } ==> from == w.pos && to
                == w.cap && offset == w.read
            &&& w.next() is Fill ==> w.pos == w.cap
            &&& w.next() matches Next::Yield(Ok(n)) ==> n == w.read
            &&& w.begin(len).pos == w.pos && w.begin(len).cap == w.cap
            &&& w.begin(len).next() matches Next::Step { from, to, offset, .. } ==> from == w.pos
                && to == w.cap && offset == 0
        }),
{
}

/// Whatever happens to a reader, in whatever order: its state stays well
/// formed, neither counter of the codec goes back, the end of the stream
/// once seen stays, and every byte that the source gave has gone into the
/// codec or waits unread in the scratch buffer.
pub proof fn lemma_run_keeps_count(v: ReadView, es: Seq<Event>)
    requires
        v.wf(),
        v.runs(es),
    ensures
        v.run(es).wf(),
        v.run(es).init == v.init,
        v.run(es).buf_len == v.buf_len,
        v.total_in <= v.run(es).total_in,
        v.total_out <= v.run(es).total_out,
        v.done ==> v.run(es).done,
        v.run(es).pulled == v.pulled + pulled_in(es),
        v.run(es).total_in == v.pulled + pulled_in(es) - (v.run(es).cap - v.run(es).pos),
    decreases es.len(),
{
    if es.len() > 0 {
        lemma_run_keeps_count(v, es.drop_last());
    }
}

} // verus!
