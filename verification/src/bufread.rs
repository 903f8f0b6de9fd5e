//! I/O streams for wrapping `BufRead` types as encoders/decoders
//!
//! These adapters read from a source that buffers its own input, so they keep
//! no scratch buffer. For each round of a read the caller looks at what the
//! source holds, asks `step` for the native call that is due on it, makes the
//! call, and hands what the native state then shows to `stepped`. The answer
//! says how many bytes to mark as consumed in the source, whether to start
//! the codec anew for another member, and whether the read is over.

use vstd::prelude::*;
use crate::Compression;
use crate::raw::{
    spec_bound, Action, Error, InitCall, Kind, Status, StepCall, StepReturn, Stream,
    WORK_FACTOR,
};

verus! {

/// What one round of a read came to.
#[derive(Copy, Clone, Debug, PartialEq, Eq)]
pub struct Turn {
    /// Number of bytes to mark as consumed in the source.
    pub consumed: usize,
    /// Whether the codec has to be started anew before the next step, for
    /// the next member of the input.
    pub restart: bool,
    /// The result of the read, once it is decided; `None` asks for another
    /// round.
    pub over: Option<Result<usize, Error>>,
}

/// The state of an adapter over a buffered source, as contracts see it.
pub struct BufView {
    /// The native call that starts the codec.
    pub init: InitCall,
    /// Bytes the codec has taken in since it was last started.
    pub total_in: int,
    /// Bytes the codec has put out since it was last started.
    pub total_out: int,
    /// Whether the adapter has seen the end of its stream.
    pub done: bool,
    /// Whether a new member may follow the end of one.
    pub multi: bool,
    /// Bytes taken in by the members that are complete.
    pub in_base: int,
    /// Bytes put out by the members that are complete.
    pub out_base: int,
    /// Bytes marked as consumed in the source since the adapter was made.
    pub taken: int,
    /// Bytes written to callers' buffers since the adapter was made.
    pub given: int,
}

impl BufView {
    /// The state of an adapter that has done nothing yet.
    pub open spec fn fresh(init: InitCall, multi: bool) -> BufView {
        BufView {
            init,
            total_in: 0,
            total_out: 0,
            done: false,
            multi,
            in_base: 0,
            out_base: 0,
            taken: 0,
            given: 0,
        }
    }

    /// Direction of the codec.
    pub open spec fn kind(self) -> Kind {
        match self.init {
            InitCall::Compress { .. } => Kind::Compress,
            InitCall::Decompress { .. } => Kind::Decompress,
        }
    }

    /// No byte is lost or made up: what was consumed from the source is what
    /// the codec took in, and what was written for callers is what the codec
    /// put out, the complete members counted in. Only a decompressor takes
    /// several members.
    pub open spec fn wf(self) -> bool {
        &&& self.multi ==> self.init == (InitCall::Decompress { verbosity: 0, small: 0 })
        &&& 0 <= self.total_in
        &&& 0 <= self.total_out
        &&& self.taken == self.in_base + self.total_in
        &&& self.given == self.out_base + self.total_out
    }

    /// The native call for a round in which the source holds `input_len`
    /// bytes and the caller's buffer is `output_len` long. A compressor
    /// finishes once the source holds nothing, and runs until then.
    pub open spec fn step(self, input_len: usize, output_len: usize) -> StepCall {
        StepCall {
            kind: self.kind(),
            avail_in: spec_bound(input_len) as u32,
            avail_out: spec_bound(output_len) as u32,
            action: match self.kind() {
                Kind::Compress => Some(
                    if input_len == 0 {
                        Action::Finish
                    } else {
                        Action::Run
                    },
                ),
                Kind::Decompress => None,
            },
        }
    }

    /// A step is one the codec can have made under `self.step(..)`.
    pub open spec fn admits(self, input_len: usize, output_len: usize, ret: StepReturn) -> bool {
        &&& self.total_in <= ret.counters.spec_total_in()
        &&& ret.counters.spec_total_in() - self.total_in <= self.step(
            input_len,
            output_len,
        ).avail_in
        &&& self.total_out <= ret.counters.spec_total_out()
        &&& ret.counters.spec_total_out() - self.total_out <= self.step(
            input_len,
            output_len,
        ).avail_out
    }

    /// Whether the step `ret` ended a member that another may follow: the
    /// adapter takes several members, and the source was not at its end.
    pub open spec fn restarts(self, input_len: usize, ret: StepReturn) -> bool {
        ret.status == Status::StreamEnd && self.multi && input_len != 0
    }

    /// What the round came to. An error ends the read with that error. The
    /// end of the stream ends the read unless another member may follow.
    /// Else the read is over when the step wrote something, when the source
    /// was at its end, or when the caller's buffer is empty; a round that
    /// wrote nothing with input still to come is followed by another.
    pub open spec fn turn(self, input_len: usize, output_len: usize, ret: StepReturn) -> Turn {
        let consumed = (ret.counters.spec_total_in() - self.total_in) as usize;
        let read = (ret.counters.spec_total_out() - self.total_out) as usize;
        let restart = self.restarts(input_len, ret);
        Turn {
            consumed,
            restart: ret.status.spec_error() is None && restart,
            over: match ret.status.spec_error() {
                Some(e) => Some(Err(e)),
                None => if (ret.status == Status::StreamEnd && !restart) || read > 0 || input_len
                    == 0 || output_len == 0 {
                    Some(Ok(read))
                } else {
                    None
                },
            },
        }
    }

    /// The state after the round. The counters are the codec's, or zero
    /// where it starts anew; the end of the stream is kept unless another
    /// member may follow.
    pub open spec fn stepped(self, input_len: usize, ret: StepReturn) -> BufView {
        let consumed = ret.counters.spec_total_in() - self.total_in;
        let read = ret.counters.spec_total_out() - self.total_out;
        let moved = BufView {
            total_in: ret.counters.spec_total_in(),
            total_out: ret.counters.spec_total_out(),
            taken: self.taken + consumed,
            given: self.given + read,
            ..self
        };
        if ret.status.spec_error() is Some {
            moved
        } else if self.restarts(input_len, ret) {
            BufView {
                total_in: 0,
                total_out: 0,
                in_base: self.in_base + ret.counters.spec_total_in(),
                out_base: self.out_base + ret.counters.spec_total_out(),
                ..moved
            }
        } else {
            BufView { done: self.done || ret.status == Status::StreamEnd, ..moved }
        }
    }
}

/// The state of an adapter over a buffered source, but for the source.
struct Core {
    data: Stream,
    done: bool,
    multi: bool,
    in_base: Ghost<int>,
    out_base: Ghost<int>,
    taken: Ghost<int>,
    given: Ghost<int>,
}

impl Core {
    closed spec fn view(&self) -> BufView {
        BufView {
            init: self.data.spec_init(),
            total_in: self.data.spec_total_in(),
            total_out: self.data.spec_total_out(),
            done: self.done,
            multi: self.multi,
            in_base: self.in_base@,
            out_base: self.out_base@,
            taken: self.taken@,
            given: self.given@,
        }
    }

    fn new(data: Stream, multi: bool) -> (c: Core)
        requires
            data.spec_total_in() == 0,
            data.spec_total_out() == 0,
        ensures
            c.view() == BufView::fresh(data.spec_init(), multi),
    {
        Core {
            data,
            done: false,
            multi,
            in_base: Ghost(0),
            out_base: Ghost(0),
            taken: Ghost(0),
            given: Ghost(0),
        }
    }

    fn step(&self, input_len: usize, output_len: usize) -> (call: StepCall)
        ensures
            call == self.view().step(input_len, output_len),
            call.avail_in <= input_len,
            call.avail_out <= output_len,
    {
        match self.data.kind() {
            Kind::Compress => {
                let action = if input_len == 0 {
                    Action::Finish
                } else {
                    Action::Run
                };
                self.data.compress(input_len, output_len, action)
            },
            Kind::Decompress => self.data.decompress(input_len, output_len),
        }
    }

    fn accepts(&self, input_len: usize, output_len: usize, ret: &StepReturn) -> (b: bool)
        ensures
            b == self.view().admits(input_len, output_len, *ret),
    {
        let call = self.step(input_len, output_len);
        self.data.accepts(&call, ret)
    }

    fn stepped(&mut self, input_len: usize, output_len: usize, ret: StepReturn) -> (t: Turn)
        requires
            old(self).view().wf(),
            old(self).view().admits(input_len, output_len, ret),
        ensures
            t == old(self).view().turn(input_len, output_len, ret),
            final(self).view() == old(self).view().stepped(input_len, ret),
            final(self).view().wf(),
    {
        let call = self.step(input_len, output_len);
        let p = self.data.complete(call, ret);
        self.taken = Ghost(self.taken@ + p.consumed);
        self.given = Ghost(self.given@ + p.produced);
        match p.status.error() {
            Some(e) => Turn { consumed: p.consumed, restart: false, over: Some(Err(e)) },
            None => {
                let ended = p.status == Status::StreamEnd;
                let restart = ended && self.multi && input_len != 0;
                if restart {
                    self.in_base = Ghost(self.in_base@ + self.data.spec_total_in());
                    self.out_base = Ghost(self.out_base@ + self.data.spec_total_out());
                    self.data = Stream::new_decompress(false);
                } else if ended {
                    self.done = true;
                }
                let over = if (ended && !restart) || p.produced > 0 || input_len == 0
                    || output_len == 0 {
                    Some(Ok(p.produced))
                } else {
                    None
                };
                Turn { consumed: p.consumed, restart, over }
            },
        }
    }
}

/// A bz2 encoder, or compressor.
///
/// This structure reads uncompressed data from an underlying buffered stream
/// and emits a stream of compressed data.
pub struct BzEncoder<R> {
    obj: R,
    core: Core,
}

/// A bz2 decoder, or decompressor.
///
/// This structure takes a buffered stream of compressed data as input,
/// providing the decompressed data when read from.
pub struct BzDecoder<R> {
    obj: R,
    core: Core,
}

/// A bzip2 streaming decoder that decodes all members of a multistream
///
/// Wikipedia, particularly, uses bzip2 multistream for their dumps.
pub struct MultiBzDecoder<R>(BzDecoder<R>);

impl<R> View for BzEncoder<R> {
    type V = BufView;

    closed spec fn view(&self) -> BufView {
        self.core.view()
    }
}

impl<R> View for BzDecoder<R> {
    type V = BufView;

    closed spec fn view(&self) -> BufView {
        self.core.view()
    }
}

impl<R> View for MultiBzDecoder<R> {
    type V = BufView;

    closed spec fn view(&self) -> BufView {
        self.0.core.view()
    }
}

impl<R> BzEncoder<R> {
    /// The wrapped source.
    pub closed spec fn inner(&self) -> R {
        self.obj
    }

    /// Creates a new encoder which will read uncompressed data from the given
    /// stream and emit the compressed stream.
    pub fn new(r: R, level: Compression) -> (s: BzEncoder<R>)
        requires
            level.valid(),
        ensures
            s.inner() == r,
            s@ == BufView::fresh(
                InitCall::Compress {
                    block_size: level.spec_level() as i32,
                    verbosity: 0,
                    work_factor: WORK_FACTOR as i32,
                },
                false,
            ),
            s@.wf(),
    {
        BzEncoder { obj: r, core: Core::new(Stream::new_compress(level, WORK_FACTOR), false) }
    }

    /// Acquires a reference to the underlying stream
    pub fn get_ref(&self) -> (r: &R)
        ensures
            *r == self.inner(),
    {
        &self.obj
    }

    /// Acquires a mutable reference to the underlying stream
    ///
    /// Note that mutation of the stream may result in surprising results if
    /// this encoder is continued to be used.
    pub fn get_mut(&mut self) -> (r: &mut R)
        ensures
            *r == old(self).inner(),
            final(self).inner() == *final(r),
            final(self)@ == old(self)@,
    {
        &mut self.obj
    }

    /// Consumes this encoder, returning the underlying reader.
    pub fn into_inner(self) -> (r: R)
        ensures
            r == self.inner(),
    {
        self.obj
    }

    /// The native call that starts the codec, at first and for each further
    /// member.
    pub fn init(&self) -> (c: InitCall)
        ensures
            c == self@.init,
    {
        self.core.data.init()
    }

    /// Begins a read: after the end of the stream the answer is 0 bytes at
    /// once, and the source is not to be touched. `None` asks for a round.
    pub fn read(&self) -> (r: Option<usize>)
        ensures
            r == (if self@.done {
                Some(0usize)
            } else {
                None
            }),
    {
        if self.core.done {
            Some(0)
        } else {
            None
        }
    }

    /// The native call that is due when the source holds `input_len` bytes
    /// and the caller's buffer is `output_len` bytes long.
    pub fn step(&self, input_len: usize, output_len: usize) -> (call: StepCall)
        ensures
            call == self@.step(input_len, output_len),
            call.avail_in <= input_len,
            call.avail_out <= output_len,
    {
        self.core.step(input_len, output_len)
    }

    /// Whether `ret` can be what the codec left after the step that is due.
    pub fn accepts(&self, input_len: usize, output_len: usize, ret: &StepReturn) -> (b: bool)
        ensures
            b == self@.admits(input_len, output_len, *ret),
    {
        self.core.accepts(input_len, output_len, ret)
    }

    /// Takes in what the native state shows after the step that was due, and
    /// says what the round came to.
    pub fn stepped(&mut self, input_len: usize, output_len: usize, ret: StepReturn) -> (t: Turn)
        requires
            old(self)@.wf(),
            old(self)@.admits(input_len, output_len, ret),
        ensures
            t == old(self)@.turn(input_len, output_len, ret),
            final(self)@ == old(self)@.stepped(input_len, ret),
            final(self)@.wf(),
            final(self).inner() == old(self).inner(),
            t.consumed <= input_len,
            t.over matches Some(Ok(n)) ==> n <= output_len,
            t.consumed == final(self)@.taken - old(self)@.taken,
    {
        self.core.stepped(input_len, output_len, ret)
    }

    /// Returns the number of bytes produced by the compressor
    /// (e.g. the number of bytes read from this stream)
    ///
    /// Note that, due to buffering, this only bears any relation to
    /// total_in() when the compressor chooses to flush its data
    /// (unfortunately, this won't happen in general
    /// at the end of the stream, because the compressor doesn't know
    /// if there's more data to come).  At that point,
    /// `total_out() / total_in()` would be the compression ratio.
    pub fn total_out(&self) -> (t: u64)
        ensures
            t == self@.total_out,
    {
        self.core.data.total_out()
    }

    /// Returns the number of bytes consumed by the compressor
    /// (e.g. the number of bytes read from the underlying stream)
    pub fn total_in(&self) -> (t: u64)
        ensures
            t == self@.total_in,
    {
        self.core.data.total_in()
    }
}

impl<R> BzDecoder<R> {
    /// The wrapped source.
    pub closed spec fn inner(&self) -> R {
        self.obj
    }

    /// Creates a new decoder which will decompress data read from the given
    /// stream.
    pub fn new(r: R) -> (s: BzDecoder<R>)
        ensures
            s.inner() == r,
            s@ == BufView::fresh(InitCall::Decompress { verbosity: 0, small: 0 }, false),
            s@.wf(),
    {
        BzDecoder { obj: r, core: Core::new(Stream::new_decompress(false), false) }
    }

    fn multi(self, flag: bool) -> (s: BzDecoder<R>)
        requires
            self@.init == (InitCall::Decompress { verbosity: 0, small: 0 }),
        ensures
            s.inner() == self.inner(),
            s@ == (BufView { multi: flag, ..self@ }),
    {
        let mut s = self;
        s.core.multi = flag;
        s
    }

    /// Acquires a reference to the underlying stream
    pub fn get_ref(&self) -> (r: &R)
        ensures
            *r == self.inner(),
    {
        &self.obj
    }

    /// Acquires a mutable reference to the underlying stream
    ///
    /// Note that mutation of the stream may result in surprising results if
    /// this decoder is continued to be used.
    pub fn get_mut(&mut self) -> (r: &mut R)
        ensures
            *r == old(self).inner(),
            final(self).inner() == *final(r),
            final(self)@ == old(self)@,
    {
        &mut self.obj
    }

    /// Consumes this decoder, returning the underlying reader.
    pub fn into_inner(self) -> (r: R)
        ensures
            r == self.inner(),
    {
        self.obj
    }

    /// The native call that starts the codec, at first and for each further
    /// member.
    pub fn init(&self) -> (c: InitCall)
        ensures
            c == self@.init,
    {
        self.core.data.init()
    }

    /// Begins a read: after the end of the stream the answer is 0 bytes at
    /// once, and the source is not to be touched. `None` asks for a round.
    pub fn read(&self) -> (r: Option<usize>)
        ensures
            r == (if self@.done {
                Some(0usize)
            } else {
                None
            }),
    {
        if self.core.done {
            Some(0)
        } else {
            None
        }
    }

    /// The native call that is due when the source holds `input_len` bytes
    /// and the caller's buffer is `output_len` bytes long.
    pub fn step(&self, input_len: usize, output_len: usize) -> (call: StepCall)
        ensures
            call == self@.step(input_len, output_len),
            call.avail_in <= input_len,
            call.avail_out <= output_len,
    {
        self.core.step(input_len, output_len)
    }

    /// Whether `ret` can be what the codec left after the step that is due.
    pub fn accepts(&self, input_len: usize, output_len: usize, ret: &StepReturn) -> (b: bool)
        ensures
            b == self@.admits(input_len, output_len, *ret),
    {
        self.core.accepts(input_len, output_len, ret)
    }

    /// Takes in what the native state shows after the step that was due, and
    /// says what the round came to.
    pub fn stepped(&mut self, input_len: usize, output_len: usize, ret: StepReturn) -> (t: Turn)
        requires
            old(self)@.wf(),
            old(self)@.admits(input_len, output_len, ret),
        ensures
            t == old(self)@.turn(input_len, output_len, ret),
            final(self)@ == old(self)@.stepped(input_len, ret),
            final(self)@.wf(),
            final(self).inner() == old(self).inner(),
            t.consumed <= input_len,
            t.over matches Some(Ok(n)) ==> n <= output_len,
            t.consumed == final(self)@.taken - old(self)@.taken,
    {
        self.core.stepped(input_len, output_len, ret)
    }

    /// Returns the number of bytes that the decompressor has consumed.
    ///
    /// Note that this will likely be smaller than what the decompressor
    /// actually read from the underlying stream due to buffering.
    pub fn total_in(&self) -> (t: u64)
        ensures
            t == self@.total_in,
    {
        self.core.data.total_in()
    }

    /// Returns the number of bytes that the decompressor has produced.
    pub fn total_out(&self) -> (t: u64)
        ensures
            t == self@.total_out,
    {
        self.core.data.total_out()
    }
}

impl<R> MultiBzDecoder<R> {
    /// The wrapped source.
    pub closed spec fn inner(&self) -> R {
        self.0.obj
    }

    /// Creates a new decoder from the given reader. If the bzip2 stream contains multiple members
    /// all will be decoded.
    pub fn new(r: R) -> (s: MultiBzDecoder<R>)
        ensures
            s.inner() == r,
            s@ == BufView::fresh(InitCall::Decompress { verbosity: 0, small: 0 }, true),
            s@.wf(),
    {
        MultiBzDecoder(BzDecoder::new(r).multi(true))
    }

    /// Acquires a reference to the underlying stream
    pub fn get_ref(&self) -> (r: &R)
        ensures
            *r == self.inner(),
    {
        &self.0.obj
    }

    /// Acquires a mutable reference to the underlying stream
    ///
    /// Note that mutation of the stream may result in surprising results if
    /// this decoder is continued to be used.
    pub fn get_mut(&mut self) -> (r: &mut R)
        ensures
            *r == old(self).inner(),
            final(self).inner() == *final(r),
            final(self)@ == old(self)@,
    {
        &mut self.0.obj
    }

    /// Consumes this decoder, returning the underlying reader.
    pub fn into_inner(self) -> (r: R)
        ensures
            r == self.inner(),
    {
        self.0.obj
    }

    /// The native call that starts the codec, at first and for each further
    /// member.
    pub fn init(&self) -> (c: InitCall)
        ensures
            c == self@.init,
    {
        self.0.core.data.init()
    }

    /// Begins a read: after the end of the stream the answer is 0 bytes at
    /// once, and the source is not to be touched. `None` asks for a round.
    pub fn read(&self) -> (r: Option<usize>)
        ensures
            r == (if self@.done {
                Some(0usize)
            } else {
                None
            }),
    {
        if self.0.core.done {
            Some(0)
        } else {
            None
        }
    }

    /// The native call that is due when the source holds `input_len` bytes
    /// and the caller's buffer is `output_len` bytes long.
    pub fn step(&self, input_len: usize, output_len: usize) -> (call: StepCall)
        ensures
            call == self@.step(input_len, output_len),
            call.avail_in <= input_len,
            call.avail_out <= output_len,
    {
        self.0.core.step(input_len, output_len)
    }

    /// Whether `ret` can be what the codec left after the step that is due.
    pub fn accepts(&self, input_len: usize, output_len: usize, ret: &StepReturn) -> (b: bool)
        ensures
            b == self@.admits(input_len, output_len, *ret),
    {
        self.0.core.accepts(input_len, output_len, ret)
    }

    /// Takes in what the native state shows after the step that was due, and
    /// says what the round came to.
    pub fn stepped(&mut self, input_len: usize, output_len: usize, ret: StepReturn) -> (t: Turn)
        requires
            old(self)@.wf(),
            old(self)@.admits(input_len, output_len, ret),
        ensures
            t == old(self)@.turn(input_len, output_len, ret),
            final(self)@ == old(self)@.stepped(input_len, ret),
            final(self)@.wf(),
            final(self).inner() == old(self).inner(),
            t.consumed <= input_len,
            t.over matches Some(Ok(n)) ==> n <= output_len,
            t.consumed == final(self)@.taken - old(self)@.taken,
    {
        self.0.core.stepped(input_len, output_len, ret)
    }

    /// Returns the number of bytes that the decompressor has consumed.
    ///
    /// Note that this will likely be smaller than what the decompressor
    /// actually read from the underlying stream due to buffering.
    pub fn total_in(&self) -> (t: u64)
        ensures
            t == self@.total_in,
    {
        self.0.core.data.total_in()
    }

    /// Returns the number of bytes that the decompressor has produced.
    pub fn total_out(&self) -> (t: u64)
        ensures
            t == self@.total_out,
    {
        self.0.core.data.total_out()
    }
}

/// End of stream is final: an adapter that has seen the end of its stream
/// answers every read at once with 0 bytes, and no round takes the end back.
pub proof fn lemma_end_of_stream_is_final(v: BufView, input_len: usize, ret: StepReturn)
    requires
        v.done,
    ensures
        v.stepped(input_len, ret).done,
{
}

/// The end of the stream is seen when the codec reports it, unless another
/// member may follow; then the codec starts anew, and the read goes on.
pub proof fn lemma_end_of_member(v: BufView, input_len: usize, output_len: usize, ret: StepReturn)
    requires
        ret.status == Status::StreamEnd,
    ensures
        v.turn(input_len, output_len, ret).restart == (v.multi && input_len != 0),
        v.turn(input_len, output_len, ret).restart ==> {
            &&& v.stepped(input_len, ret).total_in == 0
            &&& v.stepped(input_len, ret).total_out == 0
            &&& v.stepped(input_len, ret).done == v.done
        },
        !v.turn(input_len, output_len, ret).restart ==> {
            &&& v.stepped(input_len, ret).done
            &&& v.turn(input_len, output_len, ret).over is Some
        },
{
}

/// A read into a buffer with room yields 0 bytes only at an end: the source
/// held nothing, or the codec reported the end of the stream and no member
/// may follow.
pub proof fn lemma_zero_means_end(v: BufView, input_len: usize, output_len: usize, ret: StepReturn)
    requires
        v.admits(input_len, output_len, ret),
        output_len > 0,
        v.turn(input_len, output_len, ret).over == Some(Ok::<usize, Error>(0usize)),
    ensures
        input_len == 0 || (ret.status == Status::StreamEnd && !v.multi),
{
}

/// A round ends the read with an error exactly when the codec reported one,
/// and then with that one.
pub proof fn lemma_error_surfaces(
    v: BufView,
    input_len: usize,
    output_len: usize,
    ret: StepReturn,
    e: Error,
)
    ensures
        v.turn(input_len, output_len, ret).over == Some(Err::<usize, Error>(e))
            <==> ret.status.spec_error() == Some(e),
{
}

/// One round of a read: what the source held, how long the caller's buffer
/// was, and what the codec left.
pub struct Round {
    /// Number of bytes the source held.
    pub input_len: usize,
    /// Length of the caller's buffer.
    pub output_len: usize,
    /// What the native state showed after the step.
    pub ret: StepReturn,
}

impl BufView {
    /// The state after all of `rs`, in order.
    pub open spec fn run(self, rs: Seq<Round>) -> BufView
        decreases rs.len(),
    {
        if rs.len() == 0 {
            self
        } else {
            self.run(rs.drop_last()).stepped(rs.last().input_len, rs.last().ret)
        }
    }

    /// Whether each of `rs` is a round the codec can have made in the state
    /// it meets.
    pub open spec fn runs(self, rs: Seq<Round>) -> bool
        decreases rs.len(),
    {
        rs.len() == 0 || (self.runs(rs.drop_last()) && self.run(rs.drop_last()).admits(
            rs.last().input_len,
            rs.last().output_len,
            rs.last().ret,
        ))
    }

    /// The number of bytes that the rounds `rs` marked as consumed.
    pub open spec fn consumed_in(self, rs: Seq<Round>) -> int
        decreases rs.len(),
    {
        if rs.len() == 0 {
            0
        } else {
            self.consumed_in(rs.drop_last()) + self.run(rs.drop_last()).turn(
                rs.last().input_len,
                rs.last().output_len,
                rs.last().ret,
            ).consumed
        }
    }
}

/// Whatever rounds an adapter goes through: its state stays well formed,
/// the end of the stream once seen stays, the bytes that the rounds marked
/// as consumed in the source are the bytes that the codec took in, member by
/// member, and within a member neither counter goes back.
pub proof fn lemma_run_keeps_count(v: BufView, rs: Seq<Round>)
    requires
        v.wf(),
        v.runs(rs),
    ensures
        v.run(rs).wf(),
        v.run(rs).init == v.init,
        v.run(rs).multi == v.multi,
        v.done ==> v.run(rs).done,
        v.run(rs).taken == v.taken + v.consumed_in(rs),
        v.run(rs).in_base + v.run(rs).total_in == v.taken + v.consumed_in(rs),
        v.taken <= v.run(rs).taken,
        v.given <= v.run(rs).given,
        !v.multi ==> v.total_in <= v.run(rs).total_in && v.total_out <= v.run(rs).total_out,
    decreases rs.len(),
{
    if rs.len() > 0 {
        lemma_run_keeps_count(v, rs.drop_last());
    }
}

} // verus!
