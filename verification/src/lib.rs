//! Streaming bzip2 compression and decompression, as verified state
//! machines.
//!
//! A stream of this crate wraps a byte source or sink and a codec, and turns
//! reads and writes of any size into steps of the codec on buffers of fixed
//! size. The crate holds every decision of that work and none of its effects:
//! the bytes, the source or sink and the native state of the codec belong to
//! the caller, who makes the calls that a stream asks for and tells it what
//! came of them.
//!
//! - `raw` has the plain part of the codec's stream: its counters, the call
//!   that is due for a step, and what the outcome of a step means.
//! - `reader` and `bufread` have the streams that are read from: `reader`
//!   over any source, with a scratch buffer; `bufread` over a source that
//!   buffers its own input, with a decoder for inputs of several members.
//! - `write` has the streams that are written to; `writer` has the same with
//!   a larger scratch buffer, and `wut` has readers and writers whose scratch
//!   buffer the caller sizes.
//! - `wasm_shim` has the layout of the blocks that the codec's allocator
//!   hands out on targets without a C library.
//!
//! A read through a `reader::BzDecompressor`, for one, goes like this: call
//! `read` with the length of the buffer to fill, then ask `next` what is due
//! until it yields the result. On `Next::Fill` pull from the source into the
//! scratch buffer and report the count with `filled`; on `Next::Step` run
//! the codec on the ranges named and report what its state shows with
//! `stepped`.
//!
//! The contracts state each move exactly, over a view of the stream's state.
//! On top of them stand the laws of a stream: the end of a stream is final,
//! no byte is lost or used twice between source, codec and sink, the
//! counters never go back, errors of the codec reach the caller as they are.

use vstd::prelude::*;

pub mod bufread;
pub mod raw;
pub mod reader;
pub mod wasm_shim;
pub mod write;
pub mod writer;
pub mod wut;

verus! {

/// When compressing data, the compression level can be specified by a value in
/// this enum.
#[derive(Copy, Clone, Debug, PartialEq, Eq, Structural)]
pub enum Compression {
    /// Optimize for the best speed of encoding.
    Fastest,
    /// Optimize for the size of data being encoded.
    Best,
    /// Choose the default compression, a balance between speed and size.
    Default,
    /// A level by its number: 1 is the fastest, 9 gives the smallest output.
    Level(u32),
}

impl Compression {
    /// The block size, in units of 100k, that the codec is started with.
    pub open spec fn spec_level(self) -> u32 {
        match self {
            Compression::Fastest => 1,
            Compression::Best => 9,
            Compression::Default => 6,
            Compression::Level(n) => n,
        }
    }

    /// Whether the codec takes this level: the levels are 1 to 9.
    pub open spec fn valid(self) -> bool {
        1 <= self.spec_level() <= 9
    }

    /// The level with the number `level`, if there is one.
    pub fn new(level: u32) -> (c: Option<Compression>)
        ensures
            c == (if 1 <= level <= 9 {
                Some(Compression::Level(level))
            } else {
                None
            }),
            c matches Some(l) ==> l.valid() && l.spec_level() == level,
    {
        if 1 <= level && level <= 9 {
            Some(Compression::Level(level))
        } else {
            None
        }
    }

    /// The block size, in units of 100k, that the codec is started with.
    pub fn level(self) -> (n: u32)
        ensures
            n == self.spec_level(),
    {
        match self {
            Compression::Fastest => 1,
            Compression::Best => 9,
            Compression::Default => 6,
            Compression::Level(n) => n,
        }
    }

    /// Whether the codec takes this level.
    pub fn is_valid(self) -> (b: bool)
        ensures
            b == self.valid(),
    {
        let n = self.level();
        1 <= n && n <= 9
    }
}

/// The three named levels are levels that the codec takes.
pub proof fn lemma_named_levels_are_valid()
    ensures
        Compression::Fastest.valid() && Compression::Fastest.spec_level() == 1,
        Compression::Default.valid() && Compression::Default.spec_level() == 6,
        Compression::Best.valid() && Compression::Best.spec_level() == 9,
{
}

} // verus!
