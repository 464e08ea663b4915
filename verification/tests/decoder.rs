use moyu_video::decode_test::has_nonzero;
use moyu_video::decoder::receive::ReceiveProgress;
use moyu_video::decoder::send::SendProgress;
use moyu_video::decoder::setup::SetupProgress;
use moyu_video::decoder::{num_planes, Codec, Decoder, DecoderError, Frame, PixelFormat};
use moyu_video::ffi::{
    averror_eof, decoder_name, AvFrame, FfmpegCall, Reply, SwsParams, AVERROR, AV_PIX_FMT_NV12,
    AV_PIX_FMT_YUV420P,
};
use moyu_video::ivf::{check_ivf, read_ivf_frames};
use moyu_video::{
    moyu_video_decoder_create, moyu_video_decoder_create_finish, moyu_video_decoder_destroy,
    moyu_video_decoder_flush, moyu_video_decoder_receive_frame,
    moyu_video_decoder_receive_frame_finish, moyu_video_decoder_send_packet,
    moyu_video_decoder_send_packet_finish, MoyuVideoCodec, MoyuVideoDecoder,
    MoyuVideoDecoderConfig, MoyuVideoFrame, MoyuVideoPixelFormat, MoyuVideoResult,
};

/// Plays FFmpeg's part: hands out addresses, remembers which objects are alive, and logs calls.
struct Fake {
    next: usize,
    live: Vec<usize>,
    allocations: usize,
    fail_allocation: Option<usize>,
    codec_known: bool,
    open_ret: i32,
    send_ret: i32,
    receive_ret: i32,
    decoded: AvFrame,
    size: i32,
    converted: AvFrame,
    log: Vec<String>,
    packet_bytes: Option<Vec<u8>>,
}

fn frame(format: i32, data: [usize; 3], linesize: [i32; 3], pts: i64) -> AvFrame {
    AvFrame { format, width: 64, height: 32, pts, data, linesize }
}

impl Fake {
    fn new() -> Fake {
        Fake {
            next: 0x1000,
            live: Vec::new(),
            allocations: 0,
            fail_allocation: None,
            codec_known: true,
            open_ret: 0,
            send_ret: 0,
            receive_ret: 0,
            decoded: frame(AV_PIX_FMT_YUV420P, [11, 12, 13], [64, 32, 32], 5),
            size: 3072,
            converted: frame(AV_PIX_FMT_NV12, [21, 22, 23], [64, 64, 7], 0),
            log: Vec::new(),
            packet_bytes: None,
        }
    }

    fn allocate(&mut self) -> Reply {
        self.allocations += 1;
        if self.fail_allocation == Some(self.allocations) {
            return Reply::Pointer(0);
        }
        self.next += 0x10;
        self.live.push(self.next);
        Reply::Pointer(self.next)
    }

    fn free(&mut self, address: usize) -> Reply {
        let at = self.live.iter().position(|&a| a == address);
        assert!(at.is_some(), "freed an object that is not alive");
        self.live.remove(at.unwrap());
        Reply::Done
    }

    fn perform(&mut self, call: &FfmpegCall) -> Reply {
        let name = format!("{:?}", call);
        let name = name.split(' ').next().unwrap().to_string();
        self.log.push(name);
        let reply = match *call {
            FfmpegCall::FindDecoder { .. } => {
                Reply::Pointer(if self.codec_known { 0xC0DEC } else { 0 })
            }
            FfmpegCall::AllocContext { av_codec } => {
                assert_eq!(av_codec, 0xC0DEC);
                self.allocate()
            }
            FfmpegCall::AllocPacket | FfmpegCall::AllocFrame | FfmpegCall::GetSws { .. } => {
                self.allocate()
            }
            FfmpegCall::ConfigureThreads { .. } => Reply::Done,
            FfmpegCall::OpenCodec { .. } => Reply::Code(self.open_ret),
            FfmpegCall::FreeContext { codec_ctx } => self.free(codec_ctx),
            FfmpegCall::FreePacket { packet } => self.free(packet),
            FfmpegCall::FreeFrame { frame } => self.free(frame),
            FfmpegCall::FreeSws { sws_ctx } => self.free(sws_ctx),
            FfmpegCall::FillPacket { data, .. } => {
                self.packet_bytes = Some(data.to_vec());
                Reply::Done
            }
            FfmpegCall::SendPacket { .. } => Reply::Code(self.send_ret),
            FfmpegCall::ClearPacket { .. } => {
                self.packet_bytes = None;
                Reply::Done
            }
            FfmpegCall::UnrefFrame { .. } => Reply::Done,
            FfmpegCall::ReceiveFrame { .. } => Reply::Code(self.receive_ret),
            FfmpegCall::ReadFrame { .. } => {
                let converted = self.log.iter().any(|c| c == "Scale");
                Reply::Frame(if converted { self.converted } else { self.decoded })
            }
            FfmpegCall::ImageBufferSize { .. } => Reply::Code(self.size),
            FfmpegCall::ImageFillArrays { .. } => Reply::Code(self.size),
            FfmpegCall::Scale { rows, .. } => Reply::Code(rows),
            FfmpegCall::FlushBuffers { .. } => Reply::Done,
        };
        assert!(call.accepts(&reply));
        reply
    }

    fn names(&self) -> Vec<&str> {
        self.log.iter().map(|s| s.as_str()).collect()
    }
}

fn open(
    fake: &mut Fake,
    codec: Codec,
    format: PixelFormat,
    threads: i32,
) -> Result<Decoder, DecoderError> {
    let mut setup = Decoder::new(codec, format, threads);
    loop {
        let reply = fake.perform(&setup.call());
        match setup.resume(reply) {
            SetupProgress::Pending(next) => setup = next,
            SetupProgress::Ready(decoder) => return Ok(decoder),
            SetupProgress::Failed { error, cleanup } => {
                for call in &cleanup {
                    fake.perform(call);
                }
                return Err(error);
            }
        }
    }
}

fn send(
    fake: &mut Fake,
    decoder: Decoder,
    data: Option<&[u8]>,
    pts: i64,
) -> (Decoder, Result<(), DecoderError>) {
    let mut sending = decoder.send_packet(data, pts);
    loop {
        let reply = fake.perform(&sending.call());
        match sending.resume(reply) {
            SendProgress::Pending(next) => sending = next,
            SendProgress::Finished(decoder, outcome) => return (decoder, outcome),
        }
    }
}

fn receive(fake: &mut Fake, decoder: Decoder) -> (Decoder, Result<Frame, DecoderError>) {
    fake.log.clear();
    let mut receiving = decoder.receive_frame();
    loop {
        let call = receiving.call();
        let reply = fake.perform(&call);
        if let FfmpegCall::ImageFillArrays { len, .. } = call {
            assert_eq!(receiving.dst_buf_mut().len(), len);
        }
        match receiving.resume(reply) {
            ReceiveProgress::Pending(next) => receiving = next,
            ReceiveProgress::Finished(decoder, outcome) => return (decoder, outcome),
        }
    }
}

fn ready(fake: &mut Fake, format: PixelFormat) -> Decoder {
    match open(fake, Codec::Vp9, format, 1) {
        Ok(decoder) => decoder,
        Err(e) => panic!("Failed to create decoder: {:?}", e),
    }
}

fn create(fake: &mut Fake, config: &MoyuVideoDecoderConfig) -> (MoyuVideoResult, Option<MoyuVideoDecoder>) {
    let mut setup = match moyu_video_decoder_create(Some(config), true) {
        Ok(setup) => setup,
        Err(result) => return (result, None),
    };
    loop {
        let reply = fake.perform(&setup.call());
        match setup.resume(reply) {
            SetupProgress::Pending(next) => setup = next,
            SetupProgress::Ready(decoder) => return moyu_video_decoder_create_finish(Ok(decoder)),
            SetupProgress::Failed { error, cleanup } => {
                for call in &cleanup {
                    fake.perform(call);
                }
                return moyu_video_decoder_create_finish(Err(error));
            }
        }
    }
}

fn config() -> MoyuVideoDecoderConfig {
    MoyuVideoDecoderConfig {
        codec: MoyuVideoCodec::Vp9,
        output_format: MoyuVideoPixelFormat::I420,
        thread_count: 1,
    }
}

#[test]
fn test_decoder_create_destroy_via_c_api() {
    let mut fake = Fake::new();
    let (result, handle) = create(&mut fake, &config());
    assert_eq!(result, MoyuVideoResult::Success);
    assert!(handle.is_some());
    assert_eq!(fake.live.len(), 4);
    for call in &moyu_video_decoder_destroy(handle) {
        fake.perform(call);
    }
    assert!(fake.live.is_empty());
}

#[test]
fn test_null_pointer_safety() {
    assert_eq!(
        moyu_video_decoder_create(None, false).err(),
        Some(MoyuVideoResult::InvalidArgument)
    );
    assert_eq!(
        moyu_video_decoder_send_packet(None, None, 0, 0).err(),
        Some(MoyuVideoResult::InvalidArgument)
    );
    match moyu_video_decoder_receive_frame(None, false) {
        Err((decoder, result)) => {
            assert!(decoder.is_none());
            assert_eq!(result, MoyuVideoResult::InvalidArgument);
        }
        Ok(_) => panic!("a frame was asked of no decoder"),
    }
    // Flushing and destroying nothing asks for nothing.
    assert_eq!(moyu_video_decoder_flush(None), None);
    assert!(moyu_video_decoder_destroy(None).is_empty());
}

#[test]
fn one_missing_pointer_is_enough_to_refuse() {
    assert_eq!(
        moyu_video_decoder_create(Some(&config()), false).err(),
        Some(MoyuVideoResult::InvalidArgument)
    );
    assert_eq!(
        moyu_video_decoder_create(None, true).err(),
        Some(MoyuVideoResult::InvalidArgument)
    );
    let mut fake = Fake::new();
    let (_, handle) = create(&mut fake, &config());
    match moyu_video_decoder_receive_frame(handle, false) {
        Err((decoder, result)) => {
            assert_eq!(result, MoyuVideoResult::InvalidArgument);
            assert_eq!(moyu_video_decoder_destroy(decoder).len(), 4);
        }
        Ok(_) => panic!("there was no place for the frame"),
    }
    assert!(moyu_video_decoder_receive_frame(None, true).is_err());
}

#[test]
fn the_platform_decides_what_again_is() {
    let setup = Decoder::new(Codec::Vp9, PixelFormat::I420, 0);
    assert_eq!(setup.eagain, libc::EAGAIN);
}

#[test]
fn error_codes() {
    assert_eq!(AVERROR(11), -11);
    assert_eq!(AVERROR(-35), 35);
    assert_eq!(averror_eof(), -541478725);
    assert_eq!(averror_eof(), -i32::from_le_bytes([b'E', b'O', b'F', b' ']));
}

#[test]
fn formats_and_planes() {
    assert_eq!(PixelFormat::I420.as_av_pix_fmt(), 0);
    assert_eq!(PixelFormat::Nv12.as_av_pix_fmt(), 23);
    assert_eq!(num_planes(AV_PIX_FMT_NV12), 2);
    assert_eq!(num_planes(AV_PIX_FMT_YUV420P), 3);
    assert_eq!(num_planes(-1), 3);
}

#[test]
fn numbers_of_the_c_interface() {
    assert_eq!(MoyuVideoCodec::Vp9.code(), 0);
    assert_eq!(MoyuVideoCodec::Av1.code(), 1);
    assert_eq!(MoyuVideoPixelFormat::I420.code(), 0);
    assert_eq!(MoyuVideoPixelFormat::Nv12.code(), 1);
    assert_eq!(MoyuVideoResult::Success.code(), 0);
    assert_eq!(MoyuVideoResult::Error.code(), -1);
    assert_eq!(MoyuVideoResult::Again.code(), -2);
    assert_eq!(MoyuVideoResult::Eof.code(), -3);
    assert_eq!(MoyuVideoResult::InvalidArgument.code(), -4);
}

#[test]
fn numbers_are_read_back() {
    for n in -6..=6 {
        assert_eq!(MoyuVideoCodec::from_code(n).map(|c| c.code()), Some(n).filter(|n| (0..2).contains(n)));
        assert_eq!(
            MoyuVideoPixelFormat::from_code(n).map(|f| f.code()),
            Some(n).filter(|n| (0..2).contains(n))
        );
        assert_eq!(
            MoyuVideoResult::from_code(n).map(|r| r.code()),
            Some(n).filter(|n| (-4..=0).contains(n))
        );
    }
}

#[test]
fn names_of_the_codecs() {
    assert_eq!(decoder_name(Codec::Vp9), "vp9");
    assert_eq!(decoder_name(Codec::Av1), "av1");
}

#[test]
fn creation_configures_threads_before_opening() {
    let mut fake = Fake::new();
    let mut setup = Decoder::new(Codec::Av1, PixelFormat::Nv12, 7);
    assert_eq!(setup.call(), FfmpegCall::FindDecoder { name: "av1" });
    let mut configured = 0;
    let decoder = loop {
        let call = setup.call();
        if let FfmpegCall::ConfigureThreads { codec_ctx, thread_count, thread_type } = call {
            assert_eq!((codec_ctx, thread_count, thread_type), (0x1010, 7, 1));
            configured += 1;
        }
        let reply = fake.perform(&call);
        match setup.resume(reply) {
            SetupProgress::Pending(next) => setup = next,
            SetupProgress::Ready(decoder) => break decoder,
            SetupProgress::Failed { error, .. } => panic!("{:?}", error),
        }
    };
    assert_eq!(configured, 1);
    assert_eq!(
        fake.names(),
        vec![
            "FindDecoder",
            "AllocContext",
            "ConfigureThreads",
            "OpenCodec",
            "AllocPacket",
            "AllocFrame",
            "AllocFrame"
        ]
    );
    assert_eq!(
        decoder.drop(),
        vec![
            FfmpegCall::FreeFrame { frame: 0x1040 },
            FfmpegCall::FreeFrame { frame: 0x1030 },
            FfmpegCall::FreePacket { packet: 0x1020 },
            FfmpegCall::FreeContext { codec_ctx: 0x1010 },
        ]
    );
}

#[test]
fn unknown_codecs_are_not_found() {
    let mut fake = Fake::new();
    fake.codec_known = false;
    let outcome = open(&mut fake, Codec::Av1, PixelFormat::I420, 0);
    assert_eq!(outcome.err(), Some(DecoderError::CodecNotFound));
    assert_eq!(fake.names(), vec!["FindDecoder"]);
    assert_eq!(create(&mut fake, &config()).0, MoyuVideoResult::Error);
}

#[test]
fn failed_creations_free_what_they_allocated() {
    for failing in 1..5 {
        let mut fake = Fake::new();
        fake.fail_allocation = Some(failing);
        let outcome = open(&mut fake, Codec::Vp9, PixelFormat::I420, 0);
        assert_eq!(outcome.err(), Some(DecoderError::AllocationFailed));
        assert!(fake.live.is_empty());
        assert_eq!(fake.allocations, failing);
    }
    let mut fake = Fake::new();
    fake.fail_allocation = Some(4);
    let _ = open(&mut fake, Codec::Vp9, PixelFormat::I420, 0);
    let names = fake.names();
    assert_eq!(names[names.len() - 3..], ["FreeFrame", "FreePacket", "FreeContext"]);
}

#[test]
fn failed_openings_carry_their_code() {
    let mut fake = Fake::new();
    fake.open_ret = -22;
    let outcome = open(&mut fake, Codec::Vp9, PixelFormat::I420, 0);
    assert_eq!(outcome.err(), Some(DecoderError::FfmpegError(-22)));
    assert!(fake.live.is_empty());
    let (result, handle) = create(&mut fake, &config());
    assert_eq!(result, MoyuVideoResult::Error);
    assert!(handle.is_none());
}

#[test]
fn packets_are_filled_sent_and_cleared() {
    let mut fake = Fake::new();
    let decoder = ready(&mut fake, PixelFormat::I420);
    fake.log.clear();
    let bytes = [1u8, 2, 3];
    let mut sending = decoder.send_packet(Some(&bytes), 42);
    let mut calls = Vec::new();
    loop {
        let call = sending.call();
        calls.push(call);
        let reply = fake.perform(&call);
        match sending.resume(reply) {
            SendProgress::Pending(next) => sending = next,
            SendProgress::Finished(_, outcome) => {
                assert_eq!(outcome, Ok(()));
                break;
            }
        }
    }
    assert_eq!(
        calls,
        vec![
            FfmpegCall::FillPacket { packet: 0x1020, data: &bytes, size: 3, pts: 42, dts: 42 },
            FfmpegCall::SendPacket { codec_ctx: 0x1010, packet: 0x1020 },
            FfmpegCall::ClearPacket { packet: 0x1020 },
        ]
    );
}

#[test]
fn packets_are_cleared_after_errors_too() {
    let again = -libc::EAGAIN;
    let cases = [
        (again, Err(DecoderError::Again)),
        (-22, Err(DecoderError::FfmpegError(-22))),
        (averror_eof(), Err(DecoderError::FfmpegError(averror_eof()))),
        (3, Ok(())),
    ];
    for (ret, expected) in cases {
        let mut fake = Fake::new();
        let decoder = ready(&mut fake, PixelFormat::I420);
        fake.send_ret = ret;
        let (_, outcome) = send(&mut fake, decoder, Some(&[9]), 0);
        assert_eq!(outcome, expected);
        assert_eq!(fake.packet_bytes, None);
    }
}

#[test]
fn the_end_of_the_stream_is_the_null_packet() {
    let again = -libc::EAGAIN;
    let cases = [
        (0, Ok(())),
        (averror_eof(), Ok(())),
        (again, Err(DecoderError::FfmpegError(again))),
        (-5, Err(DecoderError::FfmpegError(-5))),
    ];
    for (ret, expected) in cases {
        let mut fake = Fake::new();
        let decoder = ready(&mut fake, PixelFormat::I420);
        fake.send_ret = ret;
        fake.log.clear();
        let sending = decoder.send_packet(None, 1);
        assert_eq!(sending.call(), FfmpegCall::SendPacket { codec_ctx: 0x1010, packet: 0 });
        match sending.resume(Reply::Code(ret)) {
            SendProgress::Finished(_, outcome) => assert_eq!(outcome, expected),
            SendProgress::Pending(_) => panic!("there is no packet to clear"),
        }
    }
}

fn send_call_of(data: Option<&[u8]>, size: i32) -> String {
    let mut fake = Fake::new();
    let (_, handle) = create(&mut fake, &config());
    match moyu_video_decoder_send_packet(handle, data, size, 6) {
        Ok(sending) => format!("{:?}", sending.call()),
        Err(result) => panic!("{:?}", result),
    }
}

#[test]
fn packets_through_the_c_interface() {
    let bytes = [7u8, 8, 9];
    assert_eq!(
        send_call_of(Some(&bytes), 2),
        "FillPacket { packet: 4128, data: [7, 8], size: 2, pts: 6, dts: 6 }"
    );
    let drained = "SendPacket { codec_ctx: 4112, packet: 0 }";
    assert_eq!(send_call_of(Some(&bytes), 0), drained);
    assert_eq!(send_call_of(Some(&bytes), -1), drained);
    assert_eq!(send_call_of(None, 0), drained);
    assert_eq!(send_call_of(None, 5), drained);
}

#[test]
fn answers_to_packets() {
    let mut fake = Fake::new();
    let decoder = ready(&mut fake, PixelFormat::I420);
    let (handle, result) = moyu_video_decoder_send_packet_finish(decoder, Ok(()));
    assert_eq!(result, MoyuVideoResult::Success);
    assert_eq!(
        moyu_video_decoder_flush(Some(&handle)),
        Some(FfmpegCall::FlushBuffers { codec_ctx: 0x1010 })
    );
    let cases = [
        (DecoderError::Again, MoyuVideoResult::Again),
        (DecoderError::Eof, MoyuVideoResult::Error),
        (DecoderError::FfmpegError(-1), MoyuVideoResult::Error),
    ];
    for (error, expected) in cases {
        let decoder = ready(&mut fake, PixelFormat::I420);
        assert_eq!(moyu_video_decoder_send_packet_finish(decoder, Err(error)).1, expected);
    }
}

#[test]
fn frames_in_the_output_format_are_handed_out_as_they_are() {
    let mut fake = Fake::new();
    let decoder = ready(&mut fake, PixelFormat::I420);
    let (decoder, outcome) = receive(&mut fake, decoder);
    assert_eq!(
        outcome,
        Ok(Frame {
            planes: [11, 12, 13],
            strides: [64, 32, 32],
            width: 64,
            height: 32,
            format: PixelFormat::I420,
            pts: 5,
        })
    );
    assert_eq!(fake.names(), vec!["UnrefFrame", "ReceiveFrame", "ReadFrame"]);
    assert_eq!(decoder.drop().len(), 4);
}

#[test]
fn nv12_frames_have_two_planes() {
    let mut fake = Fake::new();
    fake.decoded = frame(AV_PIX_FMT_NV12, [31, 32, 33], [64, 64, 64], -9);
    let decoder = ready(&mut fake, PixelFormat::Nv12);
    let (_, outcome) = receive(&mut fake, decoder);
    let frame = outcome.unwrap();
    assert_eq!(frame.planes, [31, 32, 0]);
    assert_eq!(frame.strides, [64, 64, 0]);
    assert_eq!(frame.format, PixelFormat::Nv12);
    assert_eq!(frame.pts, -9);
}

#[test]
fn receiving_without_a_frame() {
    let again = -libc::EAGAIN;
    let cases = [
        (again, DecoderError::Again, MoyuVideoResult::Again),
        (averror_eof(), DecoderError::Eof, MoyuVideoResult::Eof),
        (-1094995529, DecoderError::FfmpegError(-1094995529), MoyuVideoResult::Error),
    ];
    for (ret, error, result) in cases {
        let mut fake = Fake::new();
        let decoder = ready(&mut fake, PixelFormat::I420);
        fake.receive_ret = ret;
        let (decoder, outcome) = receive(&mut fake, decoder);
        assert_eq!(outcome, Err(error));
        assert_eq!(fake.names(), vec!["UnrefFrame", "ReceiveFrame"]);
        let (_, answer, out) = moyu_video_decoder_receive_frame_finish(decoder, outcome);
        assert_eq!(answer, result);
        assert_eq!(out, None);
    }
}

#[test]
fn other_formats_are_converted() {
    let mut fake = Fake::new();
    let decoder = ready(&mut fake, PixelFormat::Nv12);
    let (decoder, outcome) = receive(&mut fake, decoder);
    let frame = outcome.unwrap();
    assert_eq!(frame.planes, [21, 22, 0]);
    assert_eq!(frame.strides, [64, 64, 0]);
    assert_eq!((frame.width, frame.height, frame.pts), (64, 32, 5));
    assert_eq!(frame.format, PixelFormat::Nv12);
    assert_eq!(
        fake.names(),
        vec![
            "UnrefFrame",
            "ReceiveFrame",
            "ReadFrame",
            "GetSws",
            "ImageBufferSize",
            "ImageFillArrays",
            "Scale",
            "ReadFrame"
        ]
    );
    let calls = decoder.drop();
    assert_eq!(calls[0], FfmpegCall::FreeSws { sws_ctx: 0x1050 });
    for call in &calls {
        fake.perform(call);
    }
    assert!(fake.live.is_empty());
}

#[test]
fn conversions_are_asked_for_exactly() {
    let mut fake = Fake::new();
    let decoder = ready(&mut fake, PixelFormat::Nv12);
    let mut receiving = decoder.receive_frame();
    let mut calls = Vec::new();
    fake.log.clear();
    loop {
        let call = receiving.call();
        calls.push(call);
        let reply = fake.perform(&call);
        match receiving.resume(reply) {
            ReceiveProgress::Pending(next) => receiving = next,
            ReceiveProgress::Finished(..) => break,
        }
    }
    assert_eq!(
        calls[3..7],
        [
            FfmpegCall::GetSws {
                params: SwsParams {
                    src_width: 64,
                    src_height: 32,
                    src_format: 0,
                    dst_width: 64,
                    dst_height: 32,
                    dst_format: 23,
                    flags: 2,
                }
            },
            FfmpegCall::ImageBufferSize { format: 23, width: 64, height: 32, align: 1 },
            FfmpegCall::ImageFillArrays {
                frame: 0x1040,
                len: 3072,
                format: 23,
                width: 64,
                height: 32,
                align: 1,
            },
            FfmpegCall::Scale {
                sws_ctx: 0x1050,
                src_frame: 0x1030,
                first_row: 0,
                rows: 32,
                dst_frame: 0x1040,
            },
        ]
    );
}

#[test]
fn a_conversion_context_is_reused_while_it_fits() {
    let mut fake = Fake::new();
    let decoder = ready(&mut fake, PixelFormat::Nv12);
    let (decoder, _) = receive(&mut fake, decoder);
    let (decoder, outcome) = receive(&mut fake, decoder);
    assert!(outcome.is_ok());
    assert!(!fake.names().contains(&"GetSws"));
    assert!(!fake.names().contains(&"FreeSws"));
    // Another size, another source format: the old context goes, a new one comes.
    fake.decoded.width = 128;
    let (decoder, outcome) = receive(&mut fake, decoder);
    assert!(outcome.is_ok());
    assert_eq!(fake.names()[3..5], ["FreeSws", "GetSws"]);
    fake.decoded.format = 5;
    let (decoder, outcome) = receive(&mut fake, decoder);
    assert!(outcome.is_ok());
    assert_eq!(fake.names()[3..5], ["FreeSws", "GetSws"]);
    let (decoder, _) = receive(&mut fake, decoder);
    assert!(!fake.names().contains(&"GetSws"));
    for call in &decoder.drop() {
        fake.perform(call);
    }
    assert!(fake.live.is_empty());
}

#[test]
fn a_missing_conversion_context_fails_the_frame_only() {
    let mut fake = Fake::new();
    let decoder = ready(&mut fake, PixelFormat::Nv12);
    let (decoder, _) = receive(&mut fake, decoder);
    fake.decoded.height = 16;
    fake.fail_allocation = Some(fake.allocations + 1);
    let (decoder, outcome) = receive(&mut fake, decoder);
    assert_eq!(outcome, Err(DecoderError::AllocationFailed));
    let (decoder, outcome) = receive(&mut fake, decoder);
    assert!(outcome.is_ok());
    assert!(fake.names().contains(&"GetSws"));
    assert!(!fake.names().contains(&"FreeSws"));
    for call in &decoder.drop() {
        fake.perform(call);
    }
    assert!(fake.live.is_empty());
}

#[test]
fn the_buffer_follows_the_picture() {
    let mut fake = Fake::new();
    let decoder = ready(&mut fake, PixelFormat::Nv12);
    let (decoder, _) = receive(&mut fake, decoder);
    // A smaller picture shrinks the buffer; a need for less at the same size does not.
    fake.decoded.width = 8;
    fake.size = 100;
    let (decoder, _) = receive(&mut fake, decoder);
    fake.size = 60;
    let mut receiving = decoder.receive_frame();
    fake.log.clear();
    loop {
        let reply = fake.perform(&receiving.call());
        if receiving.call() == (FfmpegCall::Scale {
            sws_ctx: 0x1060,
            src_frame: 0x1030,
            first_row: 0,
            rows: 32,
            dst_frame: 0x1040,
        }) {
            assert_eq!(receiving.dst_buf_mut().len(), 100);
        }
        match receiving.resume(reply) {
            ReceiveProgress::Pending(next) => receiving = next,
            ReceiveProgress::Finished(_, outcome) => {
                assert!(outcome.is_ok());
                break;
            }
        }
    }
}

#[test]
fn frames_through_the_c_interface() {
    let mut fake = Fake::new();
    let decoder = ready(&mut fake, PixelFormat::I420);
    let (decoder, outcome) = receive(&mut fake, decoder);
    let (handle, result, out) = moyu_video_decoder_receive_frame_finish(decoder, outcome);
    assert_eq!(result, MoyuVideoResult::Success);
    assert_eq!(
        out,
        Some(MoyuVideoFrame {
            planes: [11, 12, 13],
            strides: [64, 32, 32],
            width: 64,
            height: 32,
            format: MoyuVideoPixelFormat::I420,
            pts: 5,
        })
    );
    match moyu_video_decoder_receive_frame(Some(handle), true) {
        Ok(receiving) => {
            assert_eq!(receiving.call(), FfmpegCall::UnrefFrame { frame: 0x1030 });
        }
        Err(_) => panic!("nothing is missing"),
    }
}

#[test]
fn replies_have_to_be_of_the_right_kind() {
    let call = FfmpegCall::AllocPacket;
    assert!(call.accepts(&Reply::Pointer(0)));
    assert!(!call.accepts(&Reply::Code(0)));
    assert!(FfmpegCall::SendPacket { codec_ctx: 1, packet: 0 }.accepts(&Reply::Code(0)));
    assert!(FfmpegCall::FreePacket { packet: 1 }.accepts(&Reply::Done));
    assert!(!FfmpegCall::ReadFrame { frame: 1 }.accepts(&Reply::Done));
}

/// Feeds the frames of an IVF stream to a decoder and looks over the first frame that comes out.
/// The codec holds the first packet back until it has seen the second.
fn decode_and_verify_first_frame(codec: Codec) {
    let mut data = b"DKIF".to_vec();
    data.resize(32, 0);
    for packet in [&b"key frame"[..], &b"next"[..], &b"unsent"[..]] {
        data.extend_from_slice(&(packet.len() as u32).to_le_bytes());
        data.extend_from_slice(&[0u8; 8]);
        data.extend_from_slice(packet);
    }
    assert_eq!(check_ivf(&data), Ok(()));
    let frames = read_ivf_frames(&data);
    assert!(!frames.is_empty(), "No frames in IVF file");

    let mut y_plane = vec![0u8; 64 * 32];
    y_plane[1000] = 16;
    let mut fake = Fake::new();
    fake.decoded.data[0] = y_plane.as_ptr() as usize;
    let mut decoder = match open(&mut fake, codec, PixelFormat::I420, 1) {
        Ok(decoder) => decoder,
        Err(e) => panic!("Failed to create decoder: {:?}", e),
    };
    let mut first = None;
    'stream: for (idx, frame_data) in frames.iter().enumerate() {
        fake.receive_ret = if idx == 0 { AVERROR(libc::EAGAIN) } else { 0 };
        fake.decoded.pts = idx as i64 - 1;
        let (free, sent) = send(&mut fake, decoder, Some(frame_data), idx as i64);
        decoder = free;
        assert_eq!(sent, Ok(()), "send_packet failed at frame {idx}");
        loop {
            let (free, received) = receive(&mut fake, decoder);
            decoder = free;
            match received {
                Ok(frame) => {
                    first = Some((idx, frame));
                    break 'stream;
                }
                Err(DecoderError::Again) => break,
                Err(e) => panic!("receive_frame returned unexpected error: {:?}", e),
            }
        }
    }

    let (idx, frame) = first.unwrap();
    assert_eq!(idx, 1);
    assert!(frame.width > 0 && frame.height > 0, "Frame dimensions must be positive");
    assert!(frame.planes[0] != 0, "Y plane must not be null");
    assert!(matches!(frame.format, PixelFormat::I420 | PixelFormat::Nv12));
    assert_eq!(frame.pts, 0);
    assert_eq!(frame.planes[0], y_plane.as_ptr() as usize);
    let y_size = (frame.strides[0] * frame.height) as usize;
    assert!(has_nonzero(&y_plane[..y_size]), "Y plane must contain non-zero pixel data");

    for call in &decoder.drop() {
        fake.perform(call);
    }
    assert!(fake.live.is_empty());
}

#[test]
fn test_vp9_decode_first_frame() {
    decode_and_verify_first_frame(Codec::Vp9);
}

#[test]
fn test_av1_decode_first_frame() {
    decode_and_verify_first_frame(Codec::Av1);
}

#[test]
fn frames_do_not_depend_on_what_was_converted_before() {
    let mut fake = Fake::new();
    let decoder = ready(&mut fake, PixelFormat::Nv12);
    let (decoder, first) = receive(&mut fake, decoder);
    let (_, second) = receive(&mut fake, decoder);
    assert_eq!(first, second);
    assert_eq!(first.unwrap().pts, 5);
}

#[test]
fn flushing_keeps_the_decoder() {
    let mut fake = Fake::new();
    let decoder = ready(&mut fake, PixelFormat::I420);
    assert_eq!(decoder.flush(), FfmpegCall::FlushBuffers { codec_ctx: 0x1010 });
    assert_eq!(decoder.flush(), FfmpegCall::FlushBuffers { codec_ctx: 0x1010 });
    let (_, outcome) = receive(&mut fake, decoder);
    assert_eq!(outcome.unwrap().format, PixelFormat::I420);
}

#[test]
fn the_converted_picture_stays_in_the_buffer() {
    let mut fake = Fake::new();
    let decoder = ready(&mut fake, PixelFormat::Nv12);
    let mut receiving = decoder.receive_frame();
    fake.log.clear();
    let decoder = loop {
        let call = receiving.call();
        let reply = fake.perform(&call);
        if matches!(call, FfmpegCall::Scale { .. }) {
            let buf = receiving.dst_buf_mut();
            assert_eq!((buf.len(), buf[0], buf[3071]), (3072, 0, 0));
            buf.fill(0x51);
        }
        match receiving.resume(reply) {
            ReceiveProgress::Pending(next) => receiving = next,
            ReceiveProgress::Finished(decoder, outcome) => {
                assert!(outcome.is_ok());
                break decoder;
            }
        }
    };
    // It outlives the sending of packets, and is there until the next frame comes.
    let (decoder, sent) = send(&mut fake, decoder, Some(&[1, 2, 3]), 6);
    assert_eq!(sent, Ok(()));
    let mut receiving = decoder.receive_frame();
    let buf = receiving.dst_buf_mut();
    assert!(buf.len() == 3072 && buf.iter().all(|&b| b == 0x51));
}

#[test]
fn draining_a_decoder() {
    let mut fake = Fake::new();
    let decoder = ready(&mut fake, PixelFormat::Nv12);
    let (mut decoder, drained) = send(&mut fake, decoder, None, 0);
    assert_eq!(drained, Ok(()));
    let mut answers = Vec::new();
    for received in [0, 0, averror_eof(), averror_eof(), averror_eof()] {
        fake.receive_ret = received;
        let (free, outcome) = receive(&mut fake, decoder);
        let (_, result, frame) = moyu_video_decoder_receive_frame_finish(
            ready(&mut Fake::new(), PixelFormat::Nv12),
            outcome,
        );
        assert_eq!(frame.is_some(), result == MoyuVideoResult::Success);
        answers.push(result);
        decoder = free;
        if received < 0 {
            // The end may be signalled again.
            fake.send_ret = averror_eof();
            let (free, again) = send(&mut fake, decoder, None, 0);
            assert_eq!(again, Ok(()));
            decoder = free;
        }
    }
    let (good, eof) = (MoyuVideoResult::Success, MoyuVideoResult::Eof);
    assert_eq!(answers, vec![good, good, eof, eof, eof]);
    for call in &decoder.drop() {
        fake.perform(call);
    }
    assert!(fake.live.is_empty());
}

#[test]
fn a_flushed_decoder_wants_packets() {
    let mut fake = Fake::new();
    let decoder = ready(&mut fake, PixelFormat::I420);
    let (decoder, drained) = send(&mut fake, decoder, None, 0);
    assert_eq!(drained, Ok(()));
    fake.receive_ret = averror_eof();
    let (decoder, outcome) = receive(&mut fake, decoder);
    assert_eq!(outcome, Err(DecoderError::Eof));
    fake.perform(&decoder.flush());
    fake.receive_ret = AVERROR(libc::EAGAIN);
    let (decoder, outcome) = receive(&mut fake, decoder);
    assert_eq!(outcome, Err(DecoderError::Again));
    let (decoder, sent) = send(&mut fake, decoder, Some(&[7]), -3);
    assert_eq!(sent, Ok(()));
    fake.receive_ret = 0;
    fake.decoded.pts = -3;
    let (_, outcome) = receive(&mut fake, decoder);
    assert_eq!(outcome.map(|frame| (frame.pts, frame.format)), Ok((-3, PixelFormat::I420)));
}
