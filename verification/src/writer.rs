//! Writer-based compression/decompression streams with a large scratch
//! buffer
//!
//! These writers work as those of `write` do, with a scratch buffer of 128
//! KiB, and take the action of a call as an argument.

use vstd::prelude::*;
use crate::Compression;
use crate::raw::{Action, InitCall, StepReturn, WORK_FACTOR};
use crate::write::{BzDecoder, BzEncoder, Todo, WriteView};

verus! {

/// Capacity of the scratch buffer of these writers.
pub const SCRATCH_CAP: usize = 131072;

/// A compression stream which will have uncompressed data written to it and
/// will write compressed data to an output stream.
pub struct BzCompressor<W>(BzEncoder<W>);

impl<W> View for BzCompressor<W> {
    type V = WriteView;

    closed spec fn view(&self) -> WriteView {
        self.0@
    }
}

impl<W> BzCompressor<W> {
    /// The wrapped sink, until `into_inner` hands it out.
    pub closed spec fn inner(&self) -> Option<W> {
        self.0.inner()
    }

    /// Create a new compression stream which will compress at the given level
    /// to write compress output to the give output stream.
    pub fn new(w: W, level: Compression) -> (s: BzCompressor<W>)
        requires
            level.valid(),
        ensures
            s.inner() == Some(w),
            s@ == WriteView::fresh(
                InitCall::Compress {
                    block_size: level.spec_level() as i32,
                    verbosity: 0,
                    work_factor: WORK_FACTOR as i32,
                },
                SCRATCH_CAP,
            ),
            s@.wf(),
    {
        BzCompressor(BzEncoder::with_capacity(w, level, SCRATCH_CAP))
    }

    /// The native call that starts the codec.
    pub fn init(&self) -> (c: InitCall)
        ensures
            c == self@.init,
    {
        self.0.init()
    }

    /// Acquires a reference to the underlying sink, while it is held.
    pub fn get_ref(&self) -> (r: Option<&W>)
        ensures
            r is Some == self.inner() is Some,
            r matches Some(w) ==> *w == self.inner()->0,
    {
        self.0.get_ref()
    }

    /// Acquires a mutable reference to the underlying sink, while it is
    /// held, for the write or flush that `next` asked for.
    pub fn get_mut(&mut self) -> (r: Option<&mut W>)
        ensures
            final(self)@ == old(self)@,
            r is Some == old(self).inner() is Some,
            final(self).inner() is Some == old(self).inner() is Some,
            r matches Some(w) ==> *w == old(self).inner()->0,
            r matches Some(w) ==> final(self).inner()->0 == *final(w),
    {
        self.0.get_mut()
    }

    /// Begins a call that feeds `len` bytes to the codec under `action`: a
    /// write under `Run`, a flush under `Flush`, the end of the stream under
    /// `Finish`. Only a write offers the codec any bytes.
    pub fn do_write(&mut self, len: usize, action: Action)
        requires
            old(self)@.wf(),
        ensures
            final(self)@ == (match action {
                Action::Run => old(self)@.write(len),
                Action::Flush => old(self)@.flush(),
                Action::Finish => old(self)@.do_finish(),
            }),
            final(self)@.wf(),
            final(self).inner() == old(self).inner(),
    {
        match action {
            Action::Run => self.0.write(len),
            Action::Flush => self.0.flush(),
            Action::Finish => self.0.do_finish(),
        }
    }

    /// Begins a write of `len` bytes.
    pub fn write(&mut self, len: usize)
        requires
            old(self)@.wf(),
        ensures
            final(self)@ == old(self)@.write(len),
            final(self)@.wf(),
            final(self).inner() == old(self).inner(),
    {
        self.do_write(len, Action::Run)
    }

    /// Begins a flush.
    pub fn flush(&mut self)
        requires
            old(self)@.wf(),
        ensures
            final(self)@ == old(self)@.flush(),
            final(self)@.wf(),
            final(self).inner() == old(self).inner(),
    {
        self.do_write(0, Action::Flush)
    }

    /// What the call in progress needs done next.
    pub fn next(&self) -> (t: Todo)
        requires
            self@.wf(),
        ensures
            t == self@.next(),
            t matches Todo::Dump { len } ==> 0 < len <= self@.cap,
            t matches Todo::Step { offset, call } ==> {
                &&& offset == 0
                &&& call.avail_in <= self@.input_len()
                &&& call.avail_out <= self@.cap
            },
            t is Sink ==> self@.len == 0 && self@.sunk == self@.total_out,
            t matches Todo::Yield(Ok(n)) ==> n <= self@.input_len() && n == self@.total_in
                - self@.in_base,
    {
        self.0.next()
    }

    /// Takes in that the scratch buffer went out to the sink.
    pub fn dumped(&mut self)
        requires
            old(self)@.wf(),
            old(self)@.next() is Dump,
        ensures
            final(self)@ == old(self)@.dumped(),
            final(self)@.wf(),
            final(self).inner() == old(self).inner(),
    {
        self.0.dumped()
    }

    /// Whether `ret` can be what the codec left after the step that is due.
    pub fn accepts(&self, ret: &StepReturn) -> (b: bool)
        requires
            self@.wf(),
        ensures
            b == self@.admits(*ret),
    {
        self.0.accepts(ret)
    }

    /// Takes in what the native state shows after the step that was due.
    pub fn stepped(&mut self, ret: StepReturn)
        requires
            old(self)@.wf(),
            old(self)@.next() is Step,
            old(self)@.admits(ret),
        ensures
            final(self)@ == old(self)@.stepped(ret),
            final(self)@.wf(),
            final(self).inner() == old(self).inner(),
            old(self)@.total_in <= final(self)@.total_in,
            old(self)@.total_out <= final(self)@.total_out,
            final(self)@.len - old(self)@.len == final(self)@.total_out - old(self)@.total_out,
    {
        self.0.stepped(ret)
    }

    /// Unwrap the underlying writer of a finished stream.
    ///
    /// The sink is handed out once a call under `Finish` is over without an
    /// error, and once only; until then, and after, the answer is `None`.
    pub fn into_inner(&mut self) -> (w: Option<W>)
        requires
            old(self)@.wf(),
        ensures
            final(self)@ == old(self)@,
            old(self)@.finished() ==> w == old(self).inner() && final(self).inner() is None,
            !old(self)@.finished() ==> w is None && final(self).inner() == old(self).inner(),
    {
        self.0.finish()
    }

    /// Returns the number of bytes produced by the compressor
    ///
    /// Note that, due to buffering, this only bears any relation to
    /// `total_in()` after a flush.
    pub fn total_out(&self) -> (t: u64)
        ensures
            t == self@.total_out,
    {
        self.0.total_out()
    }

    /// Returns the number of bytes consumed by the compressor
    /// (e.g. the number of bytes written to this stream.)
    pub fn total_in(&self) -> (t: u64)
        ensures
            t == self@.total_in,
    {
        self.0.total_in()
    }
}

/// A compression stream which will have compressed data written to it and
/// will write uncompressed data to an output stream.
pub struct BzDecompressor<W>(BzDecoder<W>);

impl<W> View for BzDecompressor<W> {
    type V = WriteView;

    closed spec fn view(&self) -> WriteView {
        self.0@
    }
}

impl<W> BzDecompressor<W> {
    /// The wrapped sink, until `into_inner` hands it out.
    pub closed spec fn inner(&self) -> Option<W> {
        self.0.inner()
    }

    /// Create a new decompression stream which will write what it
    /// decompresses to the given output stream.
    pub fn new(w: W) -> (s: BzDecompressor<W>)
        ensures
            s.inner() == Some(w),
            s@ == WriteView::fresh(InitCall::Decompress { verbosity: 0, small: 0 }, SCRATCH_CAP),
            s@.wf(),
    {
        BzDecompressor(BzDecoder::with_capacity(w, SCRATCH_CAP))
    }

    /// The native call that starts the codec.
    pub fn init(&self) -> (c: InitCall)
        ensures
            c == self@.init,
    {
        self.0.init()
    }

    /// Acquires a reference to the underlying sink, while it is held.
    pub fn get_ref(&self) -> (r: Option<&W>)
        ensures
            r is Some == self.inner() is Some,
            r matches Some(w) ==> *w == self.inner()->0,
    {
        self.0.get_ref()
    }

    /// Acquires a mutable reference to the underlying sink, while it is
    /// held, for the write or flush that `next` asked for.
    pub fn get_mut(&mut self) -> (r: Option<&mut W>)
        ensures
            final(self)@ == old(self)@,
            r is Some == old(self).inner() is Some,
            final(self).inner() is Some == old(self).inner() is Some,
            r matches Some(w) ==> *w == old(self).inner()->0,
            r matches Some(w) ==> final(self).inner()->0 == *final(w),
    {
        self.0.get_mut()
    }

    /// Begins a call that feeds `len` bytes to the codec under `action`: a
    /// write under `Run`, a flush under `Flush`, the end of the stream under
    /// `Finish`. Only a write offers the codec any bytes.
    pub fn do_write(&mut self, len: usize, action: Action)
        requires
            old(self)@.wf(),
        ensures
            final(self)@ == (match action {
                Action::Run => old(self)@.write(len),
                Action::Flush => old(self)@.flush(),
                Action::Finish => old(self)@.do_finish(),
            }),
            final(self)@.wf(),
            final(self).inner() == old(self).inner(),
    {
        match action {
            Action::Run => self.0.write(len),
            Action::Flush => self.0.flush(),
            Action::Finish => self.0.do_finish(),
        }
    }

    /// Begins a write of `len` bytes.
    pub fn write(&mut self, len: usize)
        requires
            old(self)@.wf(),
        ensures
            final(self)@ == old(self)@.write(len),
            final(self)@.wf(),
            final(self).inner() == old(self).inner(),
    {
        self.do_write(len, Action::Run)
    }

    /// Begins a flush.
    pub fn flush(&mut self)
        requires
            old(self)@.wf(),
        ensures
            final(self)@ == old(self)@.flush(),
            final(self)@.wf(),
            final(self).inner() == old(self).inner(),
    {
        self.do_write(0, Action::Flush)
    }

    /// What the call in progress needs done next.
    pub fn next(&self) -> (t: Todo)
        requires
            self@.wf(),
        ensures
            t == self@.next(),
            t matches Todo::Dump { len } ==> 0 < len <= self@.cap,
            t matches Todo::Step { offset, call } ==> {
                &&& offset == 0
                &&& call.avail_in <= self@.input_len()
                &&& call.avail_out <= self@.cap
            },
            t is Sink ==> self@.len == 0 && self@.sunk == self@.total_out,
            t matches Todo::Yield(Ok(n)) ==> n <= self@.input_len() && n == self@.total_in
                - self@.in_base,
    {
        self.0.next()
    }

    /// Takes in that the scratch buffer went out to the sink.
    pub fn dumped(&mut self)
        requires
            old(self)@.wf(),
            old(self)@.next() is Dump,
        ensures
            final(self)@ == old(self)@.dumped(),
            final(self)@.wf(),
            final(self).inner() == old(self).inner(),
    {
        self.0.dumped()
    }

    /// Whether `ret` can be what the codec left after the step that is due.
    pub fn accepts(&self, ret: &StepReturn) -> (b: bool)
        requires
            self@.wf(),
        ensures
            b == self@.admits(*ret),
    {
        self.0.accepts(ret)
    }

    /// Takes in what the native state shows after the step that was due.
    pub fn stepped(&mut self, ret: StepReturn)
        requires
            old(self)@.wf(),
            old(self)@.next() is Step,
            old(self)@.admits(ret),
        ensures
            final(self)@ == old(self)@.stepped(ret),
            final(self)@.wf(),
            final(self).inner() == old(self).inner(),
            old(self)@.total_in <= final(self)@.total_in,
            old(self)@.total_out <= final(self)@.total_out,
            final(self)@.len - old(self)@.len == final(self)@.total_out - old(self)@.total_out,
    {
        self.0.stepped(ret)
    }

    /// Unwrap the underlying writer of a finished stream.
    ///
    /// The sink is handed out once a call under `Finish` is over without an
    /// error, and once only; until then, and after, the answer is `None`.
    pub fn into_inner(&mut self) -> (w: Option<W>)
        requires
            old(self)@.wf(),
        ensures
            final(self)@ == old(self)@,
            old(self)@.finished() ==> w == old(self).inner() && final(self).inner() is None,
            !old(self)@.finished() ==> w is None && final(self).inner() == old(self).inner(),
    {
        self.0.finish()
    }

    /// Returns the number of bytes produced by the decompressor
    ///
    /// Note that, due to buffering, this only bears any relation to
    /// `total_in()` after a flush.
    pub fn total_out(&self) -> (t: u64)
        ensures
            t == self@.total_out,
    {
        self.0.total_out()
    }

    /// Returns the number of bytes consumed by the decompressor
    /// (e.g. the number of bytes written to this stream.)
    pub fn total_in(&self) -> (t: u64)
        ensures
            t == self@.total_in,
    {
        self.0.total_in()
    }
}

} // verus!
