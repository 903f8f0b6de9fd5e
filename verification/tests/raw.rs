//! The plain part of a stream: codes, counters and the calls that are due.

use bzip2::raw::{
    bound, join, Action, Counters, Error, InitCall, Kind, Progress, Status, StepCall, StepReturn,
    Stream,
};
use bzip2::Compression;

fn counters(total_in: u64, total_out: u64) -> Counters {
    Counters {
        total_in_lo32: total_in as u32,
        total_in_hi32: (total_in >> 32) as u32,
        total_out_lo32: total_out as u32,
        total_out_hi32: (total_out >> 32) as u32,
    }
}

#[test]
fn every_code_has_its_status() {
    let table = [
        (0, Status::Okay),
        (1, Status::RunOk),
        (2, Status::FlushOk),
        (3, Status::FinishOk),
        (4, Status::StreamEnd),
        (-1, Status::Sequence),
        (-2, Status::Param),
        (-3, Status::Mem),
        (-4, Status::Data),
        (-5, Status::DataMagic),
        (-6, Status::Io),
        (-7, Status::UnexpectedEof),
        (-8, Status::OutbuffFull),
        (-9, Status::Config),
    ];
    for (rc, status) in table {
        assert_eq!(Status::from_code(rc), Some(status));
        assert_eq!(status.code(), rc);
    }
    assert_eq!(Status::from_code(5), None);
    assert_eq!(Status::from_code(-10), None);
    assert_eq!(Status::from_code(i32::MAX), None);
    assert_eq!(Status::from_code(i32::MIN), None);
}

#[test]
fn four_codes_say_go_on() {
    for s in [Status::Okay, Status::RunOk, Status::FlushOk, Status::FinishOk] {
        assert!(s.is_continue());
        assert_eq!(s.error(), None);
    }
    for s in [
        Status::StreamEnd,
        Status::Sequence,
        Status::Param,
        Status::Mem,
        Status::Data,
        Status::DataMagic,
        Status::Io,
        Status::UnexpectedEof,
        Status::OutbuffFull,
        Status::Config,
    ] {
        assert!(!s.is_continue());
    }
}

#[test]
fn every_error_status_has_its_error() {
    let table = [
        (Status::Sequence, Error::Sequence, -1),
        (Status::Param, Error::Param, -2),
        (Status::Mem, Error::Mem, -3),
        (Status::Data, Error::Data, -4),
        (Status::DataMagic, Error::DataMagic, -5),
        (Status::Io, Error::Io, -6),
        (Status::UnexpectedEof, Error::UnexpectedEof, -7),
        (Status::Config, Error::Config, -9),
    ];
    for (status, error, rc) in table {
        assert_eq!(status.error(), Some(error));
        assert_eq!(error.status(), status);
        assert_eq!(error.code(), rc);
        assert_eq!(error.is_misuse(), rc == -1);
    }
    assert_eq!(Status::StreamEnd.error(), None);
    assert_eq!(Status::OutbuffFull.error(), None);
}

#[test]
fn actions_have_the_codes_of_the_codec() {
    assert_eq!(Action::Run.code(), 0);
    assert_eq!(Action::Flush.code(), 1);
    assert_eq!(Action::Finish.code(), 2);
}

#[test]
fn halves_join_to_one_count() {
    assert_eq!(join(0, 0), 0);
    assert_eq!(join(0xffff_ffff, 0), 4_294_967_295);
    assert_eq!(join(0, 1), 4_294_967_296);
    assert_eq!(join(5, 2), 8_589_934_597);
    assert_eq!(join(0xffff_ffff, 0xffff_ffff), u64::MAX);
    let c = Counters { total_in_lo32: 7, total_in_hi32: 1, total_out_lo32: 9, total_out_hi32: 0 };
    assert_eq!(c.total_in(), 4_294_967_303);
    assert_eq!(c.total_out(), 9);
    assert_eq!(Counters::zero(), counters(0, 0));
}

#[test]
fn a_length_is_bound_to_thirty_two_bits() {
    assert_eq!(bound(0), 0);
    assert_eq!(bound(7), 7);
    assert_eq!(bound(u32::MAX as usize), u32::MAX);
    assert_eq!(bound(0x1_0000_0000), 0);
    assert_eq!(bound(0x1_0000_0005), 5);
    assert_eq!(bound(0x7_1234_5678), 0x1234_5678);
}

#[test]
fn new_streams_name_their_first_call() {
    let s = Stream::new_compress(Compression::Best, 30);
    assert_eq!(s.init(), InitCall::Compress { block_size: 9, verbosity: 0, work_factor: 30 });
    assert_eq!(s.kind(), Kind::Compress);
    assert_eq!((s.total_in(), s.total_out()), (0, 0));

    let s = Stream::new_compress(Compression::Fastest, 0);
    assert_eq!(s.init(), InitCall::Compress { block_size: 1, verbosity: 0, work_factor: 0 });
    let s = Stream::new_compress(Compression::Default, 250);
    assert_eq!(s.init(), InitCall::Compress { block_size: 6, verbosity: 0, work_factor: 250 });

    for n in 1..=9 {
        let s = Stream::new_compress(Compression::new(n).unwrap(), 30);
        assert_eq!(
            s.init(),
            InitCall::Compress { block_size: n as i32, verbosity: 0, work_factor: 30 }
        );
    }

    let s = Stream::new_decompress(false);
    assert_eq!(s.init(), InitCall::Decompress { verbosity: 0, small: 0 });
    assert_eq!(s.kind(), Kind::Decompress);
    assert_eq!((s.total_in(), s.total_out()), (0, 0));
    let s = Stream::new_decompress(true);
    assert_eq!(s.init(), InitCall::Decompress { verbosity: 0, small: 1 });
}

#[test]
fn steps_bind_the_lengths_of_their_buffers() {
    let c = Stream::new_compress(Compression::Default, 30);
    assert_eq!(
        c.compress(10, 20, Action::Flush),
        StepCall { kind: Kind::Compress, avail_in: 10, avail_out: 20, action: Some(Action::Flush) }
    );
    assert_eq!(
        c.compress_vec(10, 30, 100, Action::Finish),
        StepCall { kind: Kind::Compress, avail_in: 10, avail_out: 70, action: Some(Action::Finish) }
    );
    assert_eq!(
        c.compress_vec(0, 100, 100, Action::Run),
        StepCall { kind: Kind::Compress, avail_in: 0, avail_out: 0, action: Some(Action::Run) }
    );
    let d = Stream::new_decompress(false);
    assert_eq!(
        d.decompress(0x1_0000_0003, 8),
        StepCall { kind: Kind::Decompress, avail_in: 3, avail_out: 8, action: None }
    );
    assert_eq!(
        d.decompress_vec(4, 0, 32768),
        StepCall { kind: Kind::Decompress, avail_in: 4, avail_out: 32768, action: None }
    );
}

#[test]
fn a_step_is_accepted_within_its_buffers_only() {
    let mut s = Stream::new_decompress(false);
    let call = s.decompress(10, 20);
    let ok = |i: u64, o: u64| StepReturn { status: Status::Okay, counters: counters(i, o) };
    assert!(s.accepts(&call, &ok(0, 0)));
    assert!(s.accepts(&call, &ok(10, 20)));
    assert!(!s.accepts(&call, &ok(11, 20)));
    assert!(!s.accepts(&call, &ok(10, 21)));

    let p = s.complete(call, ok(4, 9));
    assert_eq!(p, Progress { status: Status::Okay, consumed: 4, produced: 9 });
    assert_eq!((s.total_in(), s.total_out()), (4, 9));
    assert!(!s.accepts(&call, &ok(3, 9)));
    assert!(!s.accepts(&call, &ok(4, 8)));
    assert!(s.accepts(&call, &ok(14, 29)));
    assert!(!s.accepts(&call, &ok(15, 29)));
}

#[test]
fn counts_carry_into_the_high_half() {
    let mut s = Stream::new_compress(Compression::Default, 30);
    let far = s.compress(0xffff_fff0, 0xffff_fff0, Action::Run);
    let ret = StepReturn { status: Status::RunOk, counters: counters(0xffff_fff0, 0xffff_fff0) };
    assert!(s.accepts(&far, &ret));
    let p = s.complete(far, ret);
    assert_eq!((p.consumed, p.produced), (0xffff_fff0, 0xffff_fff0));

    let call = s.compress(0x40, 0x40, Action::Run);
    let ret = StepReturn { status: Status::RunOk, counters: counters(0x1_0000_0010, 0x1_0000_0000) };
    assert_eq!(ret.counters.total_in_hi32, 1);
    assert_eq!(ret.counters.total_in_lo32, 0x10);
    assert!(s.accepts(&call, &ret));
    let p = s.complete(call, ret);
    assert_eq!(p, Progress { status: Status::RunOk, consumed: 0x20, produced: 0x10 });
    assert_eq!(s.total_in(), 0x1_0000_0010);
    assert_eq!(s.total_out(), 0x1_0000_0000);
}

#[test]
fn a_step_into_a_vector_makes_it_longer() {
    let mut s = Stream::new_decompress(false);
    let call = s.decompress_vec(5, 30, 100);
    let ret = StepReturn { status: Status::StreamEnd, counters: counters(5, 70) };
    assert!(s.accepts(&call, &ret));
    let (p, len) = s.complete_vec(call, ret, 30, 100);
    assert_eq!(p, Progress { status: Status::StreamEnd, consumed: 5, produced: 70 });
    assert_eq!(len, 100);

    let call = s.decompress_vec(5, 0, 100);
    let ret = StepReturn { status: Status::Okay, counters: counters(5, 70) };
    let (p, len) = s.complete_vec(call, ret, 0, 100);
    assert_eq!((p.consumed, p.produced, len), (0, 0, 0));
}
