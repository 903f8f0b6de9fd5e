//! The adapters under their first names
//!
//! These take the length of their scratch buffer from the caller and leave
//! the rest to the adapters of `reader` and `write`.

use vstd::prelude::*;
use crate::Compression;
use crate::raw::{InitCall, WORK_FACTOR};
use crate::reader::{BzCompressor, BzDecompressor, ReadView};
use crate::write::{BzDecoder, BzEncoder, WriteView};

verus! {

/// A compressor that is written to.
pub struct EncoderWriter<W>(BzEncoder<W>);

impl<W> View for EncoderWriter<W> {
    type V = WriteView;

    closed spec fn view(&self) -> WriteView {
        self.0@
    }
}

impl<W> EncoderWriter<W> {
    /// The adapter that does the work.
    pub closed spec fn adapter(&self) -> BzEncoder<W> {
        self.0
    }

    /// Creates the adapter around `inner`, with a scratch buffer of
    /// `buf_len` bytes. The codec frames its stream in one way only: `raw`
    /// changes nothing.
    pub fn new(inner: W, level: Compression, raw: bool, buf_len: usize) -> (s: EncoderWriter<W>)
        requires
            level.valid(),
        ensures
            s@ == WriteView::fresh(
                InitCall::Compress {
                    block_size: level.spec_level() as i32,
                    verbosity: 0,
                    work_factor: WORK_FACTOR as i32,
                },
                buf_len,
            ),
            s@.wf(),
            s.adapter().inner() == Some(inner),
    {
        EncoderWriter(BzEncoder::with_capacity(inner, level, buf_len))
    }

    /// The adapter that does the work, to drive it.
    pub fn get_mut(&mut self) -> (a: &mut BzEncoder<W>)
        ensures
            *a == old(self).adapter(),
            a@ == old(self)@,
            final(self).adapter() == *final(a),
            final(self)@ == final(a)@,
    {
        &mut self.0
    }

    /// Begins the end of the stream.
    pub fn do_finish(&mut self)
        requires
            old(self)@.wf(),
        ensures
            final(self)@ == old(self)@.do_finish(),
            final(self)@.wf(),
            final(self).adapter().inner() == old(self).adapter().inner(),
    {
        self.0.do_finish()
    }
}

/// A compressor that is read from.
pub struct EncoderReader<R>(BzCompressor<R>);

impl<R> View for EncoderReader<R> {
    type V = ReadView;

    closed spec fn view(&self) -> ReadView {
        self.0@
    }
}

impl<R> EncoderReader<R> {
    /// The adapter that does the work.
    pub closed spec fn adapter(&self) -> BzCompressor<R> {
        self.0
    }

    /// Creates the adapter around `inner`, with a scratch buffer of
    /// `buf_len` bytes. The codec frames its stream in one way only: `raw`
    /// changes nothing.
    pub fn new(inner: R, level: Compression, raw: bool, buf_len: usize) -> (s: EncoderReader<R>)
        requires
            level.valid(),
        ensures
            s@ == ReadView::fresh(
                InitCall::Compress {
                    block_size: level.spec_level() as i32,
                    verbosity: 0,
                    work_factor: WORK_FACTOR as i32,
                },
                buf_len,
            ),
            s@.wf(),
            s.adapter().inner() == inner,
    {
        EncoderReader(BzCompressor::with_capacity(inner, level, buf_len))
    }

    /// The adapter that does the work, to drive it.
    pub fn get_mut(&mut self) -> (a: &mut BzCompressor<R>)
        ensures
            *a == old(self).adapter(),
            a@ == old(self)@,
            final(self).adapter() == *final(a),
            final(self)@ == final(a)@,
    {
        &mut self.0
    }
}

/// A decompressor that is read from.
pub struct DecoderReader<R>(BzDecompressor<R>);

impl<R> View for DecoderReader<R> {
    type V = ReadView;

    closed spec fn view(&self) -> ReadView {
        self.0@
    }
}

impl<R> DecoderReader<R> {
    /// The adapter that does the work.
    pub closed spec fn adapter(&self) -> BzDecompressor<R> {
        self.0
    }

    /// Creates the adapter around `inner`, with a scratch buffer of
    /// `buf_len` bytes. The codec frames its stream in one way only: `raw`
    /// changes nothing.
    pub fn new(inner: R, raw: bool, buf_len: usize) -> (s: DecoderReader<R>)
        ensures
            s@ == ReadView::fresh(InitCall::Decompress { verbosity: 0, small: 0 }, buf_len),
            s@.wf(),
            s.adapter().inner() == inner,
    {
        DecoderReader(BzDecompressor::with_capacity(inner, buf_len))
    }

    /// The adapter that does the work, to drive it.
    pub fn get_mut(&mut self) -> (a: &mut BzDecompressor<R>)
        ensures
            *a == old(self).adapter(),
            a@ == old(self)@,
            final(self).adapter() == *final(a),
            final(self)@ == final(a)@,
    {
        &mut self.0
    }
}

/// A decompressor that is written to.
pub struct DecoderWriter<W>(BzDecoder<W>);

impl<W> View for DecoderWriter<W> {
    type V = WriteView;

    closed spec fn view(&self) -> WriteView {
        self.0@
    }
}

impl<W> DecoderWriter<W> {
    /// The adapter that does the work.
    pub closed spec fn adapter(&self) -> BzDecoder<W> {
        self.0
    }

    /// Creates the adapter around `inner`, with a scratch buffer of
    /// `buf_len` bytes. The codec frames its stream in one way only: `raw`
    /// changes nothing.
    pub fn new(inner: W, raw: bool, buf_len: usize) -> (s: DecoderWriter<W>)
        ensures
            s@ == WriteView::fresh(InitCall::Decompress { verbosity: 0, small: 0 }, buf_len),
            s@.wf(),
            s.adapter().inner() == Some(inner),
    {
        DecoderWriter(BzDecoder::with_capacity(inner, buf_len))
    }

    /// The adapter that does the work, to drive it.
    pub fn get_mut(&mut self) -> (a: &mut BzDecoder<W>)
        ensures
            *a == old(self).adapter(),
            a@ == old(self)@,
            final(self).adapter() == *final(a),
            final(self)@ == final(a)@,
    {
        &mut self.0
    }

    /// Begins the end of the stream.
    pub fn do_finish(&mut self)
        requires
            old(self)@.wf(),
        ensures
            final(self)@ == old(self)@.do_finish(),
            final(self)@.wf(),
            final(self).adapter().inner() == old(self).adapter().inner(),
    {
        self.0.do_finish()
    }
}

} // verus!
