use moyu_video::decode_test::{
    check_frame, has_nonzero, run_decode_test, DecodeTest, TestAction, TestEvent, TestFailure,
    TestProgress,
};
use moyu_video::{
    MoyuVideoCodec, MoyuVideoDecoderConfig, MoyuVideoFrame, MoyuVideoPixelFormat, MoyuVideoResult,
};

fn frame() -> MoyuVideoFrame {
    MoyuVideoFrame {
        planes: [0x100, 0x200, 0x300],
        strides: [8, 4, 4],
        width: 6,
        height: 2,
        format: MoyuVideoPixelFormat::I420,
        pts: 0,
    }
}

/// Runs a trial in which the decoder answers requests for frames with `results`, one after the
/// other; says what came of it and which packets were sent.
fn run(packets: &Vec<Vec<u8>>, results: &[MoyuVideoResult]) -> (Result<u32, TestFailure>, Vec<i64>) {
    let mut sent = Vec::new();
    let mut ended = Vec::new();
    let mut results = results.iter();
    let mut test: DecodeTest = match run_decode_test(packets, MoyuVideoCodec::Av1) {
        Ok(test) => test,
        Err(failure) => return (Err(failure), sent),
    };
    loop {
        let event = match test.action() {
            TestAction::Create { config } => {
                assert_eq!(
                    config,
                    MoyuVideoDecoderConfig {
                        codec: MoyuVideoCodec::Av1,
                        output_format: MoyuVideoPixelFormat::I420,
                        thread_count: 1,
                    }
                );
                TestEvent::Created { result: MoyuVideoResult::Success, handle: 0x77 }
            }
            TestAction::Send { handle, data, size, pts } => {
                assert_eq!(handle, 0x77);
                assert_eq!(data, &packets[pts as usize]);
                assert_eq!(size as usize, data.len());
                sent.push(pts);
                TestEvent::Sent { result: MoyuVideoResult::Success }
            }
            TestAction::Receive { handle } => {
                assert_eq!(handle, 0x77);
                let result = *results.next().unwrap_or(&MoyuVideoResult::Again);
                TestEvent::Received { result, frame: frame() }
            }
            TestAction::ReadPlane { address, len } => {
                assert_eq!((address, len), (0x100, 16));
                TestEvent::Plane { bytes: &[0, 0, 0, 0, 0, 0, 0, 0, 0, 0, 5, 0, 0, 0, 0, 0] }
            }
            TestAction::Flush { handle } => {
                assert_eq!(handle, 0x77);
                ended.push("flushed");
                TestEvent::Flushed
            }
            TestAction::Destroy { handle } => {
                assert_eq!(handle, 0x77);
                ended.push("destroyed");
                TestEvent::Destroyed
            }
        };
        match test.resume(event) {
            TestProgress::Pending(next) => test = next,
            TestProgress::Passed(frames) => {
                assert_eq!(ended, vec!["flushed", "destroyed"]);
                return (Ok(frames), sent);
            }
            TestProgress::Failed(failure) => return (Err(failure), sent),
        }
    }
}

#[test]
fn a_run_stops_after_three_frames() {
    let packets = vec![vec![1], vec![2, 2], vec![3], vec![4]];
    let good = MoyuVideoResult::Success;
    assert_eq!(run(&packets, &[good, good, good, good]), (Ok(3), vec![0]));
    let again = MoyuVideoResult::Again;
    assert_eq!(run(&packets, &[again, good, again, good, good]), (Ok(3), vec![0, 1, 2]));
}

#[test]
fn a_run_stops_at_the_end() {
    let packets = vec![vec![1], vec![2]];
    let results = [MoyuVideoResult::Success, MoyuVideoResult::Eof];
    assert_eq!(run(&packets, &results), (Ok(1), vec![0]));
    let results = [MoyuVideoResult::Again, MoyuVideoResult::Success];
    assert_eq!(run(&packets, &results), (Ok(1), vec![0, 1]));
}

#[test]
fn a_run_without_frames_fails() {
    let packets = vec![vec![1], vec![2]];
    assert_eq!(run(&packets, &[]), (Err(TestFailure::NothingDecoded), vec![0, 1]));
    assert_eq!(run(&packets, &[MoyuVideoResult::Eof]), (Err(TestFailure::NothingDecoded), vec![0]));
    assert_eq!(run(&Vec::new(), &[]), (Err(TestFailure::NoPackets), vec![]));
}

#[test]
fn unexpected_results_fail_a_run() {
    let packets = vec![vec![1]];
    for result in [MoyuVideoResult::Error, MoyuVideoResult::InvalidArgument] {
        assert_eq!(
            run(&packets, &[result]),
            (Err(TestFailure::UnexpectedResult(result)), vec![0])
        );
    }
}

#[test]
fn failures_before_any_frame() {
    let packets = vec![vec![1], vec![2]];
    let test = run_decode_test(&packets, MoyuVideoCodec::Vp9).unwrap();
    let failed = test.resume(TestEvent::Created { result: MoyuVideoResult::Error, handle: 0 });
    assert!(matches!(
        failed,
        TestProgress::Failed(TestFailure::CreateFailed(MoyuVideoResult::Error))
    ));
    let failed = test.resume(TestEvent::Created { result: MoyuVideoResult::Success, handle: 0 });
    assert!(matches!(failed, TestProgress::Failed(TestFailure::NullHandle)));
    let sending = match test.resume(TestEvent::Created { result: MoyuVideoResult::Success, handle: 4 }) {
        TestProgress::Pending(test) => test,
        _ => panic!("the decoder is there"),
    };
    let failed = sending.resume(TestEvent::Sent { result: MoyuVideoResult::Again });
    assert!(matches!(
        failed,
        TestProgress::Failed(TestFailure::SendFailed(0, MoyuVideoResult::Again))
    ));
}

#[test]
fn blank_planes_fail_a_run() {
    let packets = vec![vec![1]];
    let mut test = run_decode_test(&packets, MoyuVideoCodec::Vp9).unwrap();
    let events = [
        TestEvent::Created { result: MoyuVideoResult::Success, handle: 1 },
        TestEvent::Sent { result: MoyuVideoResult::Success },
        TestEvent::Received { result: MoyuVideoResult::Success, frame: frame() },
    ];
    for event in events {
        test = match test.resume(event) {
            TestProgress::Pending(next) => next,
            _ => panic!("all is well so far"),
        };
    }
    let failed = test.resume(TestEvent::Plane { bytes: &[0; 16] });
    assert!(matches!(failed, TestProgress::Failed(TestFailure::BlankPlane)));
}

#[test]
fn frames_are_looked_over() {
    assert_eq!(check_frame(&frame()), Ok(16));
    let mut bad = frame();
    bad.width = 0;
    assert_eq!(check_frame(&bad), Err(TestFailure::BadWidth));
    let mut bad = frame();
    bad.height = -1;
    assert_eq!(check_frame(&bad), Err(TestFailure::BadHeight));
    let mut bad = frame();
    bad.planes[0] = 0;
    assert_eq!(check_frame(&bad), Err(TestFailure::NullPlane));
    let mut bad = frame();
    bad.strides[0] = 5;
    assert_eq!(check_frame(&bad), Err(TestFailure::ShortStride));
    let mut bad = frame();
    bad.strides[0] = i32::MAX;
    assert_eq!(check_frame(&bad), Err(TestFailure::PlaneTooLarge));
    let mut wide = frame();
    wide.strides[0] = i32::MAX;
    wide.height = 1;
    assert_eq!(check_frame(&wide), Ok(i32::MAX as usize));
}

#[test]
fn some_byte_is_not_zero() {
    assert!(!has_nonzero(&[]));
    assert!(!has_nonzero(&[0, 0, 0]));
    assert!(has_nonzero(&[0, 0, 1]));
    assert!(has_nonzero(&[2, 0]));
}
