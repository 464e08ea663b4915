//! The interface that embedders see.
//!
//! A pointer argument is an `Option` here, with `None` for the null pointer; one that is only
//! written through is a `bool` that says whether it is there. An operation that FFmpeg takes
//! part in has two ends: the function of its name, which refuses the request or begins the
//! operation, and a function whose name ends in `_finish`, which says what to answer once the
//! operation has come to its result.
use crate::decoder::life::{configuration_stays, life, Activity, Move};
use crate::decoder::receive::{
    converted_pixels_are_kept, frame_outcome, frames_are_in_the_output_format, receive_error,
    receive_next, receive_run, ReceiveNext, ReceivePhase, ReceiveReplies, Receiving,
};
use crate::decoder::send::{
    drain_outcome, packet_outcome, send_calls, send_run, SendNext, SendPhase, Sending,
};
use crate::decoder::setup::{
    creation_outcome, setup_run, DecoderSetup, SetupNext, SetupPhase, SetupReplies,
};
use crate::decoder::{
    drop_calls, flush_call, picture_in, Codec, Decoder, DecoderError, DecoderView, Frame, PixelFormat,
};
use crate::ffi::{is_eagain, FfmpegCall, Reply, EOF_TAG};
use vstd::prelude::*;
use vstd::slice::slice_subrange;

verus! {

/// Supported codecs.
#[derive(Debug, Clone, Copy, PartialEq, Eq, Structural)]
pub enum MoyuVideoCodec {
    Vp9,
    Av1,
}

/// Supported output pixel formats.
#[derive(Debug, Clone, Copy, PartialEq, Eq, Structural)]
pub enum MoyuVideoPixelFormat {
    /// Planar YUV 4:2:0. Planes: Y, U, V.
    I420,
    /// Semi-planar YUV 4:2:0. Planes: Y, UV-interleaved.
    Nv12,
}

/// Return codes for all functions.
#[derive(Debug, Clone, Copy, PartialEq, Eq, Structural)]
pub enum MoyuVideoResult {
    /// Operation completed successfully.
    Success,
    /// Unspecified internal error.
    Error,
    /// The codec pipeline requires more input before producing output.
    Again,
    /// The decoder has been flushed and there are no more frames to deliver.
    Eof,
    /// An invalid argument was supplied.
    InvalidArgument,
}

/// Configuration passed to [`moyu_video_decoder_create`].
#[derive(Debug, Clone, Copy, PartialEq, Eq, Structural)]
pub struct MoyuVideoDecoderConfig {
    pub codec: MoyuVideoCodec,
    pub output_format: MoyuVideoPixelFormat,
    /// Number of decoding threads. 0 = automatic (based on CPU core count).
    pub thread_count: i32,
}

/// Decoded frame descriptor.
///
/// The planes remain valid until the next frame is received, or the decoder is flushed or
/// destroyed. Callers that need the frame past that point must copy the planes.
#[derive(Debug, Clone, Copy, PartialEq, Eq)]
pub struct MoyuVideoFrame {
    /// Addresses of the planes. For I420: [Y, U, V]. For NV12: [Y, UV, 0].
    pub planes: [usize; 3],
    /// Row stride in bytes for each plane.
    pub strides: [i32; 3],
    pub width: i32,
    pub height: i32,
    pub format: MoyuVideoPixelFormat,
    /// Presentation timestamp, forwarded from the packet.
    pub pts: i64,
}

/// Opaque decoder handle.
pub struct MoyuVideoDecoder(Decoder);

impl View for MoyuVideoDecoder {
    type V = DecoderView;

    closed spec fn view(&self) -> DecoderView {
        self.0@
    }
}

impl MoyuVideoCodec {
    /// The number of the codec in the C interface.
    pub open spec fn number(self) -> int {
        match self {
            MoyuVideoCodec::Vp9 => 0,
            MoyuVideoCodec::Av1 => 1,
        }
    }

    /// The number of the codec in the C interface.
    pub fn code(self) -> (n: i32)
        ensures
            n == self.number(),
    {
        match self {
            MoyuVideoCodec::Vp9 => 0,
            MoyuVideoCodec::Av1 => 1,
        }
    }

    /// The codec with the number `n` in the C interface, if there is one.
    pub fn from_code(n: i32) -> (found: Option<MoyuVideoCodec>)
        ensures
            match found {
                Some(known) => known.number() == n,
                None => forall|any: MoyuVideoCodec| any.number() != n,
            },
    {
        match n {
            0 => Some(MoyuVideoCodec::Vp9),
            1 => Some(MoyuVideoCodec::Av1),
            _ => None,
        }
    }

    /// The decoder's name for the codec.
    pub open spec fn codec(self) -> Codec {
        match self {
            MoyuVideoCodec::Vp9 => Codec::Vp9,
            MoyuVideoCodec::Av1 => Codec::Av1,
        }
    }
}

impl MoyuVideoPixelFormat {
    /// The number of the format in the C interface.
    pub open spec fn number(self) -> int {
        match self {
            MoyuVideoPixelFormat::I420 => 0,
            MoyuVideoPixelFormat::Nv12 => 1,
        }
    }

    /// The number of the format in the C interface.
    pub fn code(self) -> (n: i32)
        ensures
            n == self.number(),
    {
        match self {
            MoyuVideoPixelFormat::I420 => 0,
            MoyuVideoPixelFormat::Nv12 => 1,
        }
    }

    /// The format with the number `n` in the C interface, if there is one.
    pub fn from_code(n: i32) -> (found: Option<MoyuVideoPixelFormat>)
        ensures
            match found {
                Some(known) => known.number() == n,
                None => forall|any: MoyuVideoPixelFormat| any.number() != n,
            },
    {
        match n {
            0 => Some(MoyuVideoPixelFormat::I420),
            1 => Some(MoyuVideoPixelFormat::Nv12),
            _ => None,
        }
    }

    /// The decoder's name for the format.
    pub open spec fn pixel_format(self) -> PixelFormat {
        match self {
            MoyuVideoPixelFormat::I420 => PixelFormat::I420,
            MoyuVideoPixelFormat::Nv12 => PixelFormat::Nv12,
        }
    }
}

impl MoyuVideoResult {
    /// The number of the result in the C interface: 0 for success, negative otherwise.
    pub open spec fn number(self) -> int {
        match self {
            MoyuVideoResult::Success => 0,
            MoyuVideoResult::Error => -1,
            MoyuVideoResult::Again => -2,
            MoyuVideoResult::Eof => -3,
            MoyuVideoResult::InvalidArgument => -4,
        }
    }

    /// The number of the result in the C interface: 0 for success, negative otherwise.
    pub fn code(self) -> (n: i32)
        ensures
            n == self.number(),
    {
        match self {
            MoyuVideoResult::Success => 0,
            MoyuVideoResult::Error => -1,
            MoyuVideoResult::Again => -2,
            MoyuVideoResult::Eof => -3,
            MoyuVideoResult::InvalidArgument => -4,
        }
    }

    /// The result with the number `n` in the C interface, if there is one.
    pub fn from_code(n: i32) -> (found: Option<MoyuVideoResult>)
        ensures
            match found {
                Some(known) => known.number() == n,
                None => forall|any: MoyuVideoResult| any.number() != n,
            },
    {
        match n {
            0 => Some(MoyuVideoResult::Success),
            -1 => Some(MoyuVideoResult::Error),
            -2 => Some(MoyuVideoResult::Again),
            -3 => Some(MoyuVideoResult::Eof),
            -4 => Some(MoyuVideoResult::InvalidArgument),
            _ => None,
        }
    }
}

/// The frame as embedders see it.
pub open spec fn public_frame(frame: Frame) -> MoyuVideoFrame {
    MoyuVideoFrame {
        planes: frame.planes,
        strides: frame.strides,
        width: frame.width,
        height: frame.height,
        format: match frame.format {
            PixelFormat::I420 => MoyuVideoPixelFormat::I420,
            PixelFormat::Nv12 => MoyuVideoPixelFormat::Nv12,
        },
        pts: frame.pts,
    }
}

/// What is answered when a packet was sent.
pub open spec fn send_answer(outcome: Result<(), DecoderError>) -> MoyuVideoResult {
    match outcome {
        Ok(()) => MoyuVideoResult::Success,
        Err(DecoderError::Again) => MoyuVideoResult::Again,
        Err(_) => MoyuVideoResult::Error,
    }
}

/// What is answered when a frame was asked for.
pub open spec fn receive_answer(outcome: Result<Frame, DecoderError>) -> MoyuVideoResult {
    match outcome {
        Ok(_) => MoyuVideoResult::Success,
        Err(DecoderError::Again) => MoyuVideoResult::Again,
        Err(DecoderError::Eof) => MoyuVideoResult::Eof,
        Err(_) => MoyuVideoResult::Error,
    }
}

/// The packet that the arguments of [`moyu_video_decoder_send_packet`] stand for: the first
/// `size` bytes of `data`, or the end of the stream where there are none.
pub open spec fn payload(data: Option<&[u8]>, size: i32) -> Option<Seq<u8>> {
    match data {
        Some(bytes) if size > 0 => Some(bytes@.subrange(0, size as int)),
        _ => None,
    }
}

/// The creation that a configuration asks for, on a platform with that `EAGAIN`.
pub open spec fn requested_setup(config: MoyuVideoDecoderConfig, eagain: i32) -> DecoderSetup {
    DecoderSetup {
        codec: config.codec.codec(),
        output_format: config.output_format.pixel_format(),
        thread_count: config.thread_count,
        eagain,
        phase: SetupPhase::FindDecoder,
    }
}

/// Begins to create and open a decoder.
///
/// `out_decoder` says whether there is a place for the handle. Without it, or without a
/// configuration, the request is refused, and nothing is written.
pub fn moyu_video_decoder_create(
    config: Option<&MoyuVideoDecoderConfig>,
    out_decoder: bool,
) -> (request: Result<DecoderSetup, MoyuVideoResult>)
    ensures
        match config {
            Some(cfg) if out_decoder => {
                &&& request matches Ok(setup)
                &&& setup.codec == cfg.codec.codec()
                &&& setup.output_format == cfg.output_format.pixel_format()
                &&& setup.thread_count == cfg.thread_count
                &&& is_eagain(setup.eagain)
                &&& setup.phase == SetupPhase::FindDecoder
                &&& setup.wf()
                &&& setup == requested_setup(*cfg, setup.eagain)
                &&& setup.next_call() matches FfmpegCall::FindDecoder { name } && name@
                    == (match cfg.codec {
                    MoyuVideoCodec::Vp9 => "vp9"@,
                    MoyuVideoCodec::Av1 => "av1"@,
                })
            },
            _ => request == Err::<DecoderSetup, MoyuVideoResult>(MoyuVideoResult::InvalidArgument),
        },
{
    match config {
        Some(cfg) => {
            if !out_decoder {
                return Err(MoyuVideoResult::InvalidArgument);
            }
            let codec = match cfg.codec {
                MoyuVideoCodec::Vp9 => Codec::Vp9,
                MoyuVideoCodec::Av1 => Codec::Av1,
            };
            let output_format = match cfg.output_format {
                MoyuVideoPixelFormat::I420 => PixelFormat::I420,
                MoyuVideoPixelFormat::Nv12 => PixelFormat::Nv12,
            };
            Ok(Decoder::new(codec, output_format, cfg.thread_count))
        },
        None => Err(MoyuVideoResult::InvalidArgument),
    }
}

/// Answers a request for a decoder: with a handle on success, and with the null handle and
/// `MoyuVideoResult::Error` on any failure.
pub fn moyu_video_decoder_create_finish(outcome: Result<Decoder, DecoderError>) -> (answer: (
    MoyuVideoResult,
    Option<MoyuVideoDecoder>,
))
    ensures
        match outcome {
            Ok(decoder) => {
                &&& answer.0 == MoyuVideoResult::Success
                &&& answer.1 matches Some(handle) && handle@ == decoder@
            },
            Err(_) => answer.0 == MoyuVideoResult::Error && answer.1 is None,
        },
        answer.0 == create_answer(
            match outcome {
                Ok(decoder) => SetupNext::Ready(decoder@),
                Err(error) => SetupNext::Failed(error, seq![]),
            },
        ),
{
    match outcome {
        Ok(decoder) => (MoyuVideoResult::Success, Some(MoyuVideoDecoder(decoder))),
        Err(_) => (MoyuVideoResult::Error, None),
    }
}

/// Begins to send a compressed video packet to the decoder.
///
/// `data` holds at least `size` bytes of compressed bitstream data. No data, or a size that is
/// not positive, signals the end of the stream. `pts` is an opaque timestamp value that is
/// preserved and returned with the corresponding decoded frame.
///
/// Without a decoder the request is refused.
pub fn moyu_video_decoder_send_packet<'a>(
    decoder: Option<MoyuVideoDecoder>,
    data: Option<&'a [u8]>,
    size: i32,
    pts: i64,
) -> (request: Result<Sending<'a>, MoyuVideoResult>)
    requires
        decoder matches Some(handle) ==> handle@.wf(),
        data matches Some(bytes) ==> size <= bytes@.len(),
    ensures
        match decoder {
            Some(handle) => {
                &&& request matches Ok(sending)
                &&& sending.decoder() == handle@
                &&& sending.wf()
                &&& match payload(data, size) {
                    Some(bytes) => sending.phase() matches SendPhase::Fill { data: sent, pts: at }
                        && sent@ == bytes && at == pts,
                    None => sending.phase() == SendPhase::Drain,
                }
                &&& data is Some && size > 0 ==> (sending.phase() matches SendPhase::Fill {
                    data: sent,
                    pts: at,
                } && sent@.len() == size && (forall|i: int|
                    0 <= i < size ==> #[trigger] sent@[i] == data->0@[i]) && at == pts)
                &&& data is None || size <= 0 ==> sending.phase() == SendPhase::Drain
            },
            None => request == Err::<Sending<'a>, MoyuVideoResult>(
                MoyuVideoResult::InvalidArgument,
            ),
        },
{
    match decoder {
        Some(handle) => {
            let packet = match data {
                Some(bytes) => if size <= 0 {
                    None
                } else {
                    Some(slice_subrange(bytes, 0, size as usize))
                },
                None => None,
            };
            Ok(handle.0.send_packet(packet, pts))
        },
        None => Err(MoyuVideoResult::InvalidArgument),
    }
}

/// Answers a request to send a packet, once the decoder is free again.
pub fn moyu_video_decoder_send_packet_finish(
    decoder: Decoder,
    outcome: Result<(), DecoderError>,
) -> (answer: (MoyuVideoDecoder, MoyuVideoResult))
    ensures
        answer.0@ == decoder@,
        answer.1 == send_answer(outcome),
{
    let result = match outcome {
        Ok(()) => MoyuVideoResult::Success,
        Err(DecoderError::Again) => MoyuVideoResult::Again,
        Err(_) => MoyuVideoResult::Error,
    };
    (MoyuVideoDecoder(decoder), result)
}

/// Begins to retrieve a decoded frame from the decoder.
///
/// `out_frame` says whether there is a place for the frame. Without it, or without a decoder,
/// the request is refused, and the decoder, if there is one, comes back as it was.
pub fn moyu_video_decoder_receive_frame(
    decoder: Option<MoyuVideoDecoder>,
    out_frame: bool,
) -> (request: Result<Receiving, (Option<MoyuVideoDecoder>, MoyuVideoResult)>)
    requires
        decoder matches Some(handle) ==> handle@.wf(),
    ensures
        match decoder {
            Some(handle) if out_frame => {
                &&& request matches Ok(receiving)
                &&& receiving.decoder() == handle@
                &&& receiving.phase() == ReceivePhase::Unref
                &&& receiving.wf()
            },
            _ => request == Err::<Receiving, (Option<MoyuVideoDecoder>, MoyuVideoResult)>(
                (decoder, MoyuVideoResult::InvalidArgument),
            ),
        },
{
    match decoder {
        Some(handle) => {
            if !out_frame {
                return Err((Some(handle), MoyuVideoResult::InvalidArgument));
            }
            Ok(handle.0.receive_frame())
        },
        None => Err((None, MoyuVideoResult::InvalidArgument)),
    }
}

/// Answers a request for a frame, once the decoder is free again: the result, and the frame to
/// write, which there is only on success.
pub fn moyu_video_decoder_receive_frame_finish(
    decoder: Decoder,
    outcome: Result<Frame, DecoderError>,
) -> (answer: (MoyuVideoDecoder, MoyuVideoResult, Option<MoyuVideoFrame>))
    ensures
        answer.0@ == decoder@,
        answer.1 == receive_answer(outcome),
        answer.2 == (match outcome {
            Ok(frame) => Some(public_frame(frame)),
            Err(_) => None,
        }),
{
    let handle = MoyuVideoDecoder(decoder);
    match outcome {
        Ok(frame) => {
            let format = match frame.format {
                PixelFormat::I420 => MoyuVideoPixelFormat::I420,
                PixelFormat::Nv12 => MoyuVideoPixelFormat::Nv12,
            };
            let out = MoyuVideoFrame {
                planes: frame.planes,
                strides: frame.strides,
                width: frame.width,
                height: frame.height,
                format,
                pts: frame.pts,
            };
            (handle, MoyuVideoResult::Success, Some(out))
        },
        Err(DecoderError::Again) => (handle, MoyuVideoResult::Again, None),
        Err(DecoderError::Eof) => (handle, MoyuVideoResult::Eof, None),
        Err(_) => (handle, MoyuVideoResult::Error, None),
    }
}

/// The call that resets the decoder's internal buffers, as must be done after a seek; none
/// without a decoder.
pub fn moyu_video_decoder_flush(decoder: Option<&MoyuVideoDecoder>) -> (call: Option<
    FfmpegCall<'static>,
>)
    ensures
        call == (match decoder {
            Some(handle) => Some(FfmpegCall::FlushBuffers { codec_ctx: handle@.codec_ctx }),
            None => None,
        }),
        call is Some <==> decoder is Some,
        call matches Some(reset) ==> reset == flush_call(decoder->0@),
{
    match decoder {
        Some(handle) => Some(handle.0.flush()),
        None => None,
    }
}

/// Destroys a decoder: the calls that release all its resources; none without a decoder.
pub fn moyu_video_decoder_destroy(decoder: Option<MoyuVideoDecoder>) -> (calls: Vec<
    FfmpegCall<'static>,
>)
    ensures
        calls@ == (match decoder {
            Some(handle) => drop_calls(handle@),
            None => seq![],
        }),
{
    match decoder {
        Some(handle) => handle.0.drop(),
        None => Vec::new(),
    }
}

/// No two results share a number; success alone is 0, and the rest are negative.
pub proof fn result_numbers_are_distinct(a: MoyuVideoResult, b: MoyuVideoResult)
    ensures
        a.number() == b.number() <==> a == b,
        a.number() == 0 <==> a == MoyuVideoResult::Success,
        a.number() <= 0,
{
}

/// No two codecs share a number, and no two pixel formats do; each goes to a codec or format of
/// the decoder of its own.
pub proof fn codecs_and_formats_are_distinct(
    a: MoyuVideoCodec,
    b: MoyuVideoCodec,
    c: MoyuVideoPixelFormat,
    d: MoyuVideoPixelFormat,
)
    ensures
        a.number() == b.number() <==> a == b,
        a.codec() == b.codec() <==> a == b,
        c.number() == d.number() <==> c == d,
        c.pixel_format() == d.pixel_format() <==> c == d,
{
}

/// What is answered when the creation of a decoder has ended.
pub open spec fn create_answer(ended: SetupNext) -> MoyuVideoResult {
    match ended {
        SetupNext::Ready(_) => MoyuVideoResult::Success,
        _ => MoyuVideoResult::Error,
    }
}

/// A request for a decoder that is not refused is answered with success if the codec is found
/// and opens and every allocation succeeds, and with an error otherwise.
pub proof fn create_answers(setup: DecoderSetup, replies: SetupReplies)
    requires
        setup.phase == SetupPhase::FindDecoder,
    ensures
        setup_run(setup, replies) !is Pending,
        create_answer(setup_run(setup, replies)) == (if replies.av_codec != 0 && replies.codec_ctx
            != 0 && replies.opened >= 0 && replies.packet != 0 && replies.av_frame != 0
            && replies.dst_frame != 0 {
            MoyuVideoResult::Success
        } else {
            MoyuVideoResult::Error
        }),
{
    creation_outcome(setup, replies);
}

/// A packet is answered with success if FFmpeg takes it, with a request to try again if FFmpeg
/// is full, and with an error otherwise.
pub proof fn packet_answers(d: DecoderView, data: &[u8], pts: i64, ret: i32)
    ensures
        send_run(d, SendPhase::Fill { data, pts }, ret) matches SendNext::Finished(_, outcome)
            && send_answer(outcome) == (if ret >= 0 {
            MoyuVideoResult::Success
        } else if ret == -d.eagain {
            MoyuVideoResult::Again
        } else {
            MoyuVideoResult::Error
        }),
{
    packet_outcome(d, data, pts, ret);
}

/// The end of the stream is answered with success, also where FFmpeg knew of it already, and
/// with an error if FFmpeg fails otherwise.
pub proof fn end_of_stream_answers(d: DecoderView, ret: i32)
    ensures
        send_run(d, SendPhase::Drain, ret) matches SendNext::Finished(_, outcome) && send_answer(
            outcome,
        ) == (if ret >= 0 || ret == -EOF_TAG {
            MoyuVideoResult::Success
        } else {
            MoyuVideoResult::Error
        }),
{
    drain_outcome(d, ret);
}

/// A request for a frame is answered with a request to try again if FFmpeg wants more packets,
/// with the end of the stream if FFmpeg has reached it, with an error if FFmpeg fails or no
/// conversion context can be had that is needed, and with success otherwise.
pub proof fn frame_answers(d: DecoderView, replies: ReceiveReplies)
    requires
        replies.size >= 0,
        is_eagain(d.eagain),
    ensures
        receive_run(d, ReceivePhase::Unref, replies) matches ReceiveNext::Finished(_, outcome)
            && receive_answer(outcome) == (if replies.received == -d.eagain {
            MoyuVideoResult::Again
        } else if replies.received == -EOF_TAG {
            MoyuVideoResult::Eof
        } else if replies.received < 0 {
            MoyuVideoResult::Error
        } else if replies.decoded.format != d.dst_fmt() && d.needs_new_sws(
            picture_in(replies.decoded),
        ) && replies.sws_ctx == 0 {
            MoyuVideoResult::Error
        } else {
            MoyuVideoResult::Success
        }),
{
    frame_outcome(d, replies);
}

/// A frame has the size and the time stamp of the picture that FFmpeg decoded, whether it was
/// converted or not.
pub proof fn frames_keep_size_and_time_stamp(d: DecoderView, replies: ReceiveReplies)
    requires
        replies.size >= 0,
    ensures
        receive_run(d, ReceivePhase::Unref, replies) matches ReceiveNext::Finished(_, Ok(frame))
            ==> {
            &&& public_frame(frame).width == replies.decoded.width
            &&& public_frame(frame).height == replies.decoded.height
            &&& public_frame(frame).pts == replies.decoded.pts
        },
{
    frame_outcome(d, replies);
}

/// A packet goes to FFmpeg with its time stamp, and a frame has the time stamp of the picture: so
/// where FFmpeg gives the time stamp of a packet to the picture in it, the frame has it too,
/// unchanged, whatever it is.
pub proof fn time_stamps_pass_through(
    d: DecoderView,
    data: &[u8],
    pts: i64,
    ret: i32,
    later: DecoderView,
    replies: ReceiveReplies,
)
    requires
        replies.size >= 0,
        replies.decoded.pts == pts,
    ensures
        send_calls(d, SendPhase::Fill { data, pts }, ret)[0] matches FfmpegCall::FillPacket {
            pts: sent,
            dts,
            ..
        } && sent == pts && dts == pts,
        receive_run(later, ReceivePhase::Unref, replies) matches ReceiveNext::Finished(_, Ok(frame))
            ==> public_frame(frame).pts == pts,
{
    packet_outcome(d, data, pts, ret);
    frame_outcome(later, replies);
}

/// What comes of a request for a frame, but for where its planes lie: two decoders with the same
/// output format answer alike, and give frames of the same size, format and time stamp, wherever
/// FFmpeg decodes alike for both and no allocation fails. Which objects they have, and what they
/// converted before, does not matter. Where FFmpeg converts alike too, the converted pictures are
/// the same byte for byte.
pub proof fn equal_pictures_give_equal_frames(
    d1: DecoderView,
    replies1: ReceiveReplies,
    d2: DecoderView,
    replies2: ReceiveReplies,
)
    requires
        d1.output_format == d2.output_format,
        d1.eagain == d2.eagain,
        replies1.received == replies2.received,
        picture_in(replies1.decoded) == picture_in(replies2.decoded),
        replies1.size >= 0,
        replies2.size >= 0,
        d1.needs_new_sws(picture_in(replies1.decoded)) ==> replies1.sws_ctx != 0,
        d2.needs_new_sws(picture_in(replies2.decoded)) ==> replies2.sws_ctx != 0,
    ensures
        receive_run(d1, ReceivePhase::Unref, replies1) matches ReceiveNext::Finished(
            after1,
            outcome1,
        ) && receive_run(d2, ReceivePhase::Unref, replies2) matches ReceiveNext::Finished(
            after2,
            outcome2,
        ) && match (outcome1, outcome2) {
            (Ok(frame1), Ok(frame2)) => {
                &&& {
                    &&& replies1.decoded.format != d1.dst_fmt()
                    &&& replies1.size == replies2.size
                    &&& replies1.pixels == replies2.pixels
                    &&& replies1.pixels.len() == replies1.size
                } ==> after1.dst_buf.take(replies1.size as int) == after2.dst_buf.take(
                    replies2.size as int,
                )
                &&& frame1.width == frame2.width
                &&& frame1.height == frame2.height
                &&& frame1.format == frame2.format
                &&& frame1.pts == frame2.pts
            },
            (Err(error1), Err(error2)) => error1 == error2,
            _ => false,
        },
{
    frame_outcome(d1, replies1);
    frame_outcome(d2, replies2);
    if receive_error(replies1.received, d1.eagain) is None && replies1.decoded.format
        != d1.dst_fmt() && replies1.pixels.len() == replies1.size && replies2.pixels.len()
        == replies2.size {
        converted_pixels_are_kept(d1, replies1);
        converted_pixels_are_kept(d2, replies2);
    }
}

/// Every frame comes in the pixel format that the decoder was configured for, whatever happened to
/// the decoder before, and NV12 frames have no third plane.
pub proof fn frames_come_in_the_configured_format<'a>(
    config: MoyuVideoDecoderConfig,
    setup: DecoderSetup,
    moves: Seq<Move<'a>>,
    reply: Reply,
)
    requires
        setup.wf(),
        setup.phase == SetupPhase::FindDecoder,
        setup.output_format == config.output_format.pixel_format(),
        life(setup, moves).lawful,
    ensures
        life(setup, moves).activity matches Activity::Receiving(d, phase) ==> (receive_next(
            d,
            phase,
            reply,
        ) matches ReceiveNext::Finished(_, Ok(frame)) ==> {
            &&& public_frame(frame).format == config.output_format
            &&& config.output_format == MoyuVideoPixelFormat::Nv12 ==> public_frame(frame).planes[2]
                == 0
        }),
{
    configuration_stays(setup, moves);
    if let Activity::Receiving(d, phase) = life(setup, moves).activity {
        frames_are_in_the_output_format(d, phase, reply);
    }
}

} // verus!
