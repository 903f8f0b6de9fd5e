//! The adapters move by move, with the returns of the codec written out.

use bzip2::bufread;
use bzip2::bufread::Turn;
use bzip2::raw::{Action, Counters, Error, InitCall, Kind, Status, StepCall, StepReturn};
use bzip2::reader::{BzCompressor, BzDecompressor, Next, SCRATCH_LEN};
use bzip2::write::{BzDecoder, BzEncoder, Todo, SCRATCH_CAP};
use bzip2::writer;
use bzip2::wut::{DecoderReader, DecoderWriter, EncoderReader, EncoderWriter};
use bzip2::Compression;

fn ret(status: Status, total_in: u64, total_out: u64) -> StepReturn {
    StepReturn {
        status,
        counters: Counters {
            total_in_lo32: total_in as u32,
            total_in_hi32: (total_in >> 32) as u32,
            total_out_lo32: total_out as u32,
            total_out_hi32: (total_out >> 32) as u32,
        },
    }
}

fn call(kind: Kind, avail_in: u32, avail_out: u32, action: Option<Action>) -> StepCall {
    StepCall { kind, avail_in, avail_out, action }
}

const ERRORS: [(Status, Error); 8] = [
    (Status::Sequence, Error::Sequence),
    (Status::Param, Error::Param),
    (Status::Mem, Error::Mem),
    (Status::Data, Error::Data),
    (Status::DataMagic, Error::DataMagic),
    (Status::Io, Error::Io),
    (Status::UnexpectedEof, Error::UnexpectedEof),
    (Status::Config, Error::Config),
];

#[test]
fn a_reader_fills_steps_and_yields() {
    let mut d = BzDecompressor::new(());
    assert_eq!(SCRATCH_LEN, 32 * 1024);
    assert_eq!(d.init(), InitCall::Decompress { verbosity: 0, small: 0 });
    d.read(10);
    assert_eq!(d.next(), Next::Fill { room: 32 * 1024 });
    d.filled(5);
    assert_eq!(
        d.next(),
        Next::Step { from: 0, to: 5, offset: 0, call: call(Kind::Decompress, 5, 10, None) }
    );
    let r = ret(Status::Okay, 2, 3);
    assert!(d.accepts(&r));
    d.stepped(r);
    // room is left and the source was not at its end: another round, and no
    // pull while two bytes wait unread
    assert_eq!(
        d.next(),
        Next::Step { from: 2, to: 5, offset: 3, call: call(Kind::Decompress, 3, 7, None) }
    );
    d.stepped(ret(Status::Okay, 5, 3));
    assert_eq!(d.next(), Next::Fill { room: 32 * 1024 });
    d.filled(0);
    assert_eq!(
        d.next(),
        Next::Step { from: 0, to: 0, offset: 3, call: call(Kind::Decompress, 0, 7, None) }
    );
    d.stepped(ret(Status::Okay, 5, 3));
    assert_eq!(d.next(), Next::Yield(Ok(3)));
    assert_eq!((d.total_in(), d.total_out()), (5, 3));
}

#[test]
fn a_reader_stops_when_the_buffer_is_full() {
    let mut d = BzDecompressor::new(());
    d.read(4);
    d.filled(100);
    d.stepped(ret(Status::Okay, 10, 4));
    assert_eq!(d.next(), Next::Yield(Ok(4)));
    d.read(4);
    assert_eq!(
        d.next(),
        Next::Step { from: 10, to: 100, offset: 0, call: call(Kind::Decompress, 90, 4, None) }
    );
}

#[test]
fn a_reader_keeps_the_end_of_the_stream() {
    let mut d = BzDecompressor::new(());
    d.read(10);
    d.filled(8);
    assert!(!d.accepts(&ret(Status::StreamEnd, 9, 0)));
    assert!(!d.accepts(&ret(Status::StreamEnd, 8, 11)));
    d.stepped(ret(Status::StreamEnd, 6, 2));
    assert_eq!(d.next(), Next::Yield(Ok(2)));
    for len in [10, 0, 1] {
        d.read(len);
        assert_eq!(d.next(), Next::Yield(Ok(0)));
    }
    assert_eq!((d.total_in(), d.total_out()), (6, 2));
}

#[test]
fn a_compressing_reader_finishes_at_the_end_of_the_source() {
    let mut c = BzCompressor::new((), Compression::Fastest);
    assert_eq!(c.init(), InitCall::Compress { block_size: 1, verbosity: 0, work_factor: 30 });
    c.read(100);
    c.filled(40);
    assert_eq!(
        c.next(),
        Next::Step {
            from: 0,
            to: 40,
            offset: 0,
            call: call(Kind::Compress, 40, 100, Some(Action::Run)),
        }
    );
    c.stepped(ret(Status::RunOk, 40, 0));
    assert_eq!(c.next(), Next::Fill { room: 32 * 1024 });
    c.filled(0);
    assert_eq!(
        c.next(),
        Next::Step {
            from: 0,
            to: 0,
            offset: 0,
            call: call(Kind::Compress, 0, 100, Some(Action::Finish)),
        }
    );
    c.stepped(ret(Status::StreamEnd, 40, 37));
    assert_eq!(c.next(), Next::Yield(Ok(37)));
    c.read(100);
    assert_eq!(c.next(), Next::Yield(Ok(0)));
}

#[test]
fn a_read_of_no_bytes_steps_once() {
    let mut d = BzDecompressor::new(());
    d.read(0);
    assert_eq!(d.next(), Next::Fill { room: 32 * 1024 });
    d.filled(9);
    assert_eq!(
        d.next(),
        Next::Step { from: 0, to: 9, offset: 0, call: call(Kind::Decompress, 9, 0, None) }
    );
    d.stepped(ret(Status::Okay, 4, 0));
    assert_eq!(d.next(), Next::Yield(Ok(0)));
    d.read(5);
    assert_eq!(
        d.next(),
        Next::Step { from: 4, to: 9, offset: 0, call: call(Kind::Decompress, 5, 5, None) }
    );
}

#[test]
fn a_reader_hands_on_every_error() {
    for (status, error) in ERRORS {
        let mut d = BzDecompressor::new(());
        d.read(10);
        d.filled(5);
        d.stepped(ret(status, 1, 0));
        assert_eq!(d.next(), Next::Yield(Err(error)));
    }
    let mut d = BzDecompressor::new(());
    d.read(10);
    d.filled(5);
    d.stepped(ret(Status::OutbuffFull, 1, 1));
    assert_eq!(
        d.next(),
        Next::Step { from: 1, to: 5, offset: 1, call: call(Kind::Decompress, 4, 9, None) }
    );
}

#[test]
fn a_buffered_reader_turns_round_by_round() {
    let mut e = bufread::BzEncoder::new((), Compression::Best);
    assert_eq!(e.init(), InitCall::Compress { block_size: 9, verbosity: 0, work_factor: 30 });
    assert_eq!(e.read(), None);
    assert_eq!(e.step(50, 20), call(Kind::Compress, 50, 20, Some(Action::Run)));
    assert_eq!(e.step(0, 20), call(Kind::Compress, 0, 20, Some(Action::Finish)));
    assert!(e.accepts(50, 20, &ret(Status::RunOk, 50, 20)));
    assert!(!e.accepts(50, 20, &ret(Status::RunOk, 51, 20)));
    assert!(!e.accepts(50, 20, &ret(Status::RunOk, 50, 21)));

    // nothing written, input to come: another round
    assert_eq!(
        e.stepped(50, 20, ret(Status::RunOk, 50, 0)),
        Turn { consumed: 50, restart: false, over: None }
    );
    // something written
    assert_eq!(
        e.stepped(30, 20, ret(Status::RunOk, 60, 7)),
        Turn { consumed: 10, restart: false, over: Some(Ok(7)) }
    );
    // the caller's buffer is empty
    assert_eq!(
        e.stepped(20, 0, ret(Status::RunOk, 60, 7)),
        Turn { consumed: 0, restart: false, over: Some(Ok(0)) }
    );
    // the source is at its end
    assert_eq!(
        e.stepped(0, 20, ret(Status::FinishOk, 60, 7)),
        Turn { consumed: 0, restart: false, over: Some(Ok(0)) }
    );
    assert_eq!(e.read(), None);
    assert_eq!(
        e.stepped(0, 20, ret(Status::StreamEnd, 60, 12)),
        Turn { consumed: 0, restart: false, over: Some(Ok(5)) }
    );
    assert_eq!(e.read(), Some(0));
    assert_eq!((e.total_in(), e.total_out()), (60, 12));
}

#[test]
fn a_buffered_decoder_ends_with_its_member() {
    let mut d = bufread::BzDecoder::new(());
    assert_eq!(d.step(9, 4), call(Kind::Decompress, 9, 4, None));
    assert_eq!(
        d.stepped(9, 4, ret(Status::StreamEnd, 5, 0)),
        Turn { consumed: 5, restart: false, over: Some(Ok(0)) }
    );
    assert_eq!(d.read(), Some(0));
    assert_eq!((d.total_in(), d.total_out()), (5, 0));
}

#[test]
fn a_multi_decoder_starts_anew_after_a_member() {
    let mut d = bufread::MultiBzDecoder::new(());
    assert_eq!(d.init(), InitCall::Decompress { verbosity: 0, small: 0 });
    // a member ends with input left and nothing written: the codec starts
    // anew and the read goes on
    assert_eq!(
        d.stepped(9, 4, ret(Status::StreamEnd, 5, 0)),
        Turn { consumed: 5, restart: true, over: None }
    );
    assert_eq!(d.read(), None);
    assert_eq!((d.total_in(), d.total_out()), (0, 0));
    // a member ends with input left and something written
    assert_eq!(
        d.stepped(4, 4, ret(Status::StreamEnd, 3, 2)),
        Turn { consumed: 3, restart: true, over: Some(Ok(2)) }
    );
    assert_eq!(d.read(), None);
    // a member ends when the source was at its end
    assert_eq!(
        d.stepped(0, 4, ret(Status::StreamEnd, 0, 1)),
        Turn { consumed: 0, restart: false, over: Some(Ok(1)) }
    );
    assert_eq!(d.read(), Some(0));
}

#[test]
fn a_buffered_reader_hands_on_every_error() {
    for (status, error) in ERRORS {
        let mut d = bufread::MultiBzDecoder::new(());
        assert_eq!(
            d.stepped(9, 4, ret(status, 2, 1)),
            Turn { consumed: 2, restart: false, over: Some(Err(error)) }
        );
        assert_eq!(d.read(), None);
    }
    let mut d = bufread::BzDecoder::new(());
    assert_eq!(
        d.stepped(9, 4, ret(Status::OutbuffFull, 2, 0)),
        Turn { consumed: 2, restart: false, over: None }
    );
}

#[test]
fn a_write_is_over_when_input_was_taken() {
    let mut e = BzEncoder::new((), Compression::Default);
    assert_eq!(SCRATCH_CAP, 32 * 1024);
    assert_eq!(e.next(), Todo::Yield(Ok(0)));
    e.write(50);
    assert_eq!(
        e.next(),
        Todo::Step { offset: 0, call: call(Kind::Compress, 50, 32 * 1024, Some(Action::Run)) }
    );
    assert!(e.accepts(&ret(Status::RunOk, 50, 32 * 1024)));
    assert!(!e.accepts(&ret(Status::RunOk, 51, 0)));
    assert!(!e.accepts(&ret(Status::RunOk, 0, 32 * 1024 + 1)));
    // the codec took nothing: what it wrote goes out, and it steps again
    e.stepped(ret(Status::RunOk, 0, 100));
    assert_eq!(e.next(), Todo::Dump { len: 100 });
    e.dumped();
    assert_eq!(
        e.next(),
        Todo::Step { offset: 0, call: call(Kind::Compress, 50, 32 * 1024, Some(Action::Run)) }
    );
    e.stepped(ret(Status::RunOk, 20, 130));
    assert_eq!(e.next(), Todo::Yield(Ok(20)));
    // what the last step wrote goes out at the start of the next call
    e.write(30);
    assert_eq!(e.next(), Todo::Dump { len: 30 });
    e.dumped();
    e.stepped(ret(Status::RunOk, 50, 130));
    assert_eq!(e.next(), Todo::Yield(Ok(30)));
    assert_eq!((e.total_in(), e.total_out()), (50, 130));
}

#[test]
fn a_write_of_nothing_steps_once() {
    let mut e = BzEncoder::new((), Compression::Default);
    e.write(0);
    assert_eq!(
        e.next(),
        Todo::Step { offset: 0, call: call(Kind::Compress, 0, 32 * 1024, Some(Action::Run)) }
    );
    e.stepped(ret(Status::RunOk, 0, 0));
    assert_eq!(e.next(), Todo::Yield(Ok(0)));
}

#[test]
fn a_flush_steps_until_nothing_comes() {
    let mut e = BzEncoder::new((), Compression::Default);
    e.write(5);
    e.stepped(ret(Status::RunOk, 5, 0));
    e.flush();
    assert_eq!(
        e.next(),
        Todo::Step { offset: 0, call: call(Kind::Compress, 0, 32 * 1024, Some(Action::Flush)) }
    );
    e.stepped(ret(Status::FlushOk, 5, 32 * 1024));
    assert_eq!(e.next(), Todo::Dump { len: 32 * 1024 });
    e.dumped();
    e.stepped(ret(Status::RunOk, 5, 32 * 1024 + 9));
    assert_eq!(e.next(), Todo::Dump { len: 9 });
    e.dumped();
    assert_eq!(
        e.next(),
        Todo::Step { offset: 0, call: call(Kind::Compress, 0, 32 * 1024, Some(Action::Flush)) }
    );
    e.stepped(ret(Status::RunOk, 5, 32 * 1024 + 9));
    assert_eq!(e.next(), Todo::Sink);
}

#[test]
fn a_finish_steps_to_the_end_of_the_stream() {
    let mut e = BzEncoder::new(7u8, Compression::Default);
    assert_eq!(e.get_ref(), Some(&7));
    e.do_finish();
    assert_eq!(
        e.next(),
        Todo::Step { offset: 0, call: call(Kind::Compress, 0, 32 * 1024, Some(Action::Finish)) }
    );
    e.stepped(ret(Status::FinishOk, 0, 10));
    assert_eq!(e.finish(), None);
    assert_eq!(e.next(), Todo::Dump { len: 10 });
    e.dumped();
    e.stepped(ret(Status::StreamEnd, 0, 14));
    assert_eq!(e.next(), Todo::Dump { len: 4 });
    assert_eq!(e.finish(), None);
    e.dumped();
    assert_eq!(e.next(), Todo::Yield(Ok(0)));
    assert_eq!(e.finish(), Some(7));
    assert_eq!(e.finish(), None);
    assert_eq!(e.get_ref(), None);
    assert!(e.get_mut().is_none());
}

#[test]
fn a_decoder_takes_nothing_after_the_end() {
    let mut d = BzDecoder::new(());
    assert_eq!(d.init(), InitCall::Decompress { verbosity: 0, small: 0 });
    d.write(9);
    assert_eq!(
        d.next(),
        Todo::Step { offset: 0, call: call(Kind::Decompress, 9, 32 * 1024, None) }
    );
    d.stepped(ret(Status::StreamEnd, 6, 40));
    assert_eq!(d.next(), Todo::Yield(Ok(6)));
    d.write(3);
    assert_eq!(d.next(), Todo::Yield(Ok(0)));
    // a flush writes out what waits and flushes the sink
    d.flush();
    assert_eq!(d.next(), Todo::Dump { len: 40 });
    d.dumped();
    assert_eq!(d.next(), Todo::Sink);
    // after the end a finish has nothing to ask of the codec
    d.do_finish();
    assert_eq!(d.next(), Todo::Yield(Ok(0)));
    assert_eq!(d.finish(), Some(()));
    assert_eq!((d.total_in(), d.total_out()), (6, 40));
}

#[test]
fn a_decoder_finishes_by_stepping_to_the_end() {
    let mut d = BzDecoder::new(());
    d.write(9);
    d.stepped(ret(Status::Okay, 9, 0));
    assert_eq!(d.next(), Todo::Yield(Ok(9)));
    d.do_finish();
    assert_eq!(
        d.next(),
        Todo::Step { offset: 0, call: call(Kind::Decompress, 0, 32 * 1024, None) }
    );
    d.stepped(ret(Status::Okay, 9, 5));
    assert_eq!(d.next(), Todo::Dump { len: 5 });
    d.dumped();
    d.stepped(ret(Status::StreamEnd, 9, 6));
    assert_eq!(d.next(), Todo::Dump { len: 1 });
    d.dumped();
    assert_eq!(d.next(), Todo::Yield(Ok(0)));
    assert_eq!(d.finish(), Some(()));
}

#[test]
fn a_writer_hands_on_every_error() {
    for (status, error) in ERRORS {
        let mut d = BzDecoder::new(());
        d.write(9);
        d.stepped(ret(status, 3, 2));
        assert_eq!(d.next(), Todo::Yield(Err(error)));
        assert_eq!(d.finish(), None);

        let mut e = BzEncoder::new((), Compression::Default);
        e.do_finish();
        e.stepped(ret(status, 0, 0));
        assert_eq!(e.next(), Todo::Yield(Err(error)));
        assert_eq!(e.finish(), None);
    }
    let mut d = BzDecoder::new(());
    d.write(9);
    d.stepped(ret(Status::OutbuffFull, 0, 0));
    assert_eq!(
        d.next(),
        Todo::Step { offset: 0, call: call(Kind::Decompress, 9, 32 * 1024, None) }
    );
}

#[test]
fn the_large_writers_take_their_action_as_an_argument() {
    assert_eq!(writer::SCRATCH_CAP, 128 * 1024);
    let mut c = writer::BzCompressor::new(3u8, Compression::Default);
    assert_eq!(c.init(), InitCall::Compress { block_size: 6, verbosity: 0, work_factor: 30 });
    c.do_write(10, Action::Run);
    assert_eq!(
        c.next(),
        Todo::Step { offset: 0, call: call(Kind::Compress, 10, 128 * 1024, Some(Action::Run)) }
    );
    c.stepped(ret(Status::RunOk, 10, 0));
    assert_eq!(c.next(), Todo::Yield(Ok(10)));
    c.do_write(0, Action::Flush);
    assert_eq!(
        c.next(),
        Todo::Step { offset: 0, call: call(Kind::Compress, 0, 128 * 1024, Some(Action::Flush)) }
    );
    c.stepped(ret(Status::RunOk, 10, 0));
    assert_eq!(c.next(), Todo::Sink);
    assert_eq!(c.into_inner(), None);
    c.do_write(0, Action::Finish);
    c.stepped(ret(Status::StreamEnd, 10, 20));
    assert_eq!(c.next(), Todo::Dump { len: 20 });
    c.dumped();
    assert_eq!(c.next(), Todo::Yield(Ok(0)));
    assert_eq!(c.into_inner(), Some(3));
    assert_eq!(c.into_inner(), None);
    assert_eq!((c.total_in(), c.total_out()), (10, 20));

    let mut d = writer::BzDecompressor::new(3u8);
    d.write(4);
    assert_eq!(
        d.next(),
        Todo::Step { offset: 0, call: call(Kind::Decompress, 4, 128 * 1024, None) }
    );
    d.stepped(ret(Status::StreamEnd, 4, 0));
    assert_eq!(d.next(), Todo::Yield(Ok(4)));
    d.do_write(0, Action::Finish);
    assert_eq!(d.next(), Todo::Yield(Ok(0)));
    assert_eq!(d.into_inner(), Some(3));
}

#[test]
fn the_first_names_take_the_length_of_their_buffer() {
    let mut r = EncoderReader::new((), Compression::Best, false, 100);
    r.get_mut().read(10);
    assert_eq!(r.get_mut().next(), Next::Fill { room: 100 });
    assert_eq!(
        r.get_mut().init(),
        InitCall::Compress { block_size: 9, verbosity: 0, work_factor: 30 }
    );

    let mut r = DecoderReader::new((), true, 64);
    r.get_mut().read(10);
    assert_eq!(r.get_mut().next(), Next::Fill { room: 64 });
    r.get_mut().filled(64);
    assert_eq!(
        r.get_mut().next(),
        Next::Step { from: 0, to: 64, offset: 0, call: call(Kind::Decompress, 64, 10, None) }
    );

    let mut w = EncoderWriter::new(1u8, Compression::Fastest, false, 50);
    w.do_finish();
    assert_eq!(
        w.get_mut().next(),
        Todo::Step { offset: 0, call: call(Kind::Compress, 0, 50, Some(Action::Finish)) }
    );
    w.get_mut().stepped(ret(Status::StreamEnd, 0, 0));
    assert_eq!(w.get_mut().finish(), Some(1));

    let mut w = DecoderWriter::new(1u8, false, 50);
    w.get_mut().write(5);
    assert_eq!(
        w.get_mut().next(),
        Todo::Step { offset: 0, call: call(Kind::Decompress, 5, 50, None) }
    );
    w.do_finish();
    assert_eq!(
        w.get_mut().next(),
        Todo::Step { offset: 0, call: call(Kind::Decompress, 0, 50, None) }
    );
}

#[test]
fn sources_and_sinks_come_back_as_they_went_in() {
    let mut c = BzCompressor::new(vec![1u8, 2], Compression::Default);
    assert_eq!(c.get_ref(), &vec![1u8, 2]);
    c.get_mut().push(3);
    assert_eq!(c.into_inner(), vec![1u8, 2, 3]);
    let d = BzDecompressor::new("source");
    assert_eq!(d.into_inner(), "source");

    let mut e = bufread::BzEncoder::new(5u32, Compression::Default);
    *e.get_mut() += 1;
    assert_eq!(*e.get_ref(), 6);
    assert_eq!(e.into_inner(), 6);
    let mut d = bufread::BzDecoder::new(5u32);
    *d.get_mut() += 2;
    assert_eq!(*d.get_ref(), 7);
    assert_eq!(d.into_inner(), 7);
    let mut d = bufread::MultiBzDecoder::new(5u32);
    *d.get_mut() += 3;
    assert_eq!(*d.get_ref(), 8);
    assert_eq!(d.into_inner(), 8);

    let mut e = BzEncoder::new(vec![0u8], Compression::Default);
    e.get_mut().unwrap().push(9);
    assert_eq!(e.get_ref(), Some(&vec![0u8, 9]));
}
