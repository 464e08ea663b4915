//! The decoder: its state, and the operations on it.
//!
//! An operation is a conversation with FFmpeg. It begins with a method of [`Decoder`], which
//! hands over a value that names the call to carry out next (`call`) and takes the reply to
//! it (`resume`), until the operation is finished and the decoder is given back.
pub mod life;
pub mod receive;
pub mod resources;
pub mod send;
pub mod setup;

use crate::decoder::receive::{ReceivePhase, Receiving};
use crate::decoder::send::{SendPhase, Sending};
use crate::decoder::setup::{DecoderSetup, SetupPhase};
use crate::ffi::{
    eagain, is_eagain, AVPixelFormat, AvFrame, FfmpegCall, SwsParams, AV_PIX_FMT_NONE,
    AV_PIX_FMT_NV12, AV_PIX_FMT_YUV420P, SWS_BILINEAR,
};
use vstd::prelude::*;

verus! {

/// Supported codec identifiers.
#[derive(Debug, Clone, Copy, PartialEq, Eq, Structural)]
pub enum Codec {
    Vp9,
    Av1,
}

/// Supported output pixel formats.
#[derive(Debug, Clone, Copy, PartialEq, Eq, Structural)]
pub enum PixelFormat {
    /// Planar YUV 4:2:0, with the planes Y, U and V.
    I420,
    /// Semi-planar YUV 4:2:0, with the planes Y and interleaved UV.
    Nv12,
}

impl PixelFormat {
    /// FFmpeg's name for the format.
    pub open spec fn av_pix_fmt(self) -> AVPixelFormat {
        match self {
            PixelFormat::I420 => AV_PIX_FMT_YUV420P,
            PixelFormat::Nv12 => AV_PIX_FMT_NV12,
        }
    }

    /// FFmpeg's name for the format.
    pub fn as_av_pix_fmt(self) -> (fmt: AVPixelFormat)
        ensures
            fmt == self.av_pix_fmt(),
    {
        match self {
            PixelFormat::I420 => AV_PIX_FMT_YUV420P,
            PixelFormat::Nv12 => AV_PIX_FMT_NV12,
        }
    }
}

/// A decoded frame.
///
/// The planes lie in memory that the decoder owns, and stay valid until the next frame is
/// received, the decoder is flushed or it is dropped.
#[derive(Debug, Clone, Copy, PartialEq, Eq)]
pub struct Frame {
    /// Addresses of the planes; 0 for a plane that the format does not have.
    pub planes: [usize; 3],
    /// Bytes per row of each plane; 0 for a plane that the format does not have.
    pub strides: [i32; 3],
    pub width: i32,
    pub height: i32,
    pub format: PixelFormat,
    /// The time stamp that came with the packet.
    pub pts: i64,
}

/// Errors that the decoder can return.
#[derive(Debug, Clone, Copy, PartialEq, Eq, Structural)]
pub enum DecoderError {
    /// The operation completed but no output is available yet; more input is required.
    Again,
    /// The decoder has been flushed and has no more frames to deliver.
    Eof,
    /// Codec not found or not supported.
    CodecNotFound,
    /// Context allocation failed.
    AllocationFailed,
    /// An FFmpeg function returned an unexpected error code.
    FfmpegError(i32),
    /// Invalid argument supplied by the caller.
    InvalidArgument,
}

/// How many planes a picture of the format has.
pub open spec fn plane_count(fmt: AVPixelFormat) -> int {
    if fmt == AV_PIX_FMT_NV12 {
        2
    } else {
        3
    }
}

/// The number of planes of a pixel format: two for NV12, three for YUV420P and for most other
/// planar formats.
pub fn num_planes(fmt: AVPixelFormat) -> (n: usize)
    ensures
        n == plane_count(fmt),
{
    if fmt == AV_PIX_FMT_NV12 {
        2
    } else {
        3
    }
}

/// A picture that FFmpeg has decoded and that is to be handed out: its pixel format, size and
/// time stamp.
#[derive(Debug, Clone, Copy, PartialEq, Eq)]
pub struct Picture {
    pub src_fmt: AVPixelFormat,
    pub width: i32,
    pub height: i32,
    pub pts: i64,
}

impl Picture {
    /// The conversion of the picture to `dst_fmt`, at its own size.
    pub open spec fn conversion(self, dst_fmt: AVPixelFormat) -> SwsParams {
        SwsParams {
            src_width: self.width,
            src_height: self.height,
            src_format: self.src_fmt,
            dst_width: self.width,
            dst_height: self.height,
            dst_format: dst_fmt,
            flags: SWS_BILINEAR,
        }
    }

    pub(crate) fn sws_params(&self, dst_fmt: AVPixelFormat) -> (params: SwsParams)
        ensures
            params == self.conversion(dst_fmt),
    {
        SwsParams {
            src_width: self.width,
            src_height: self.height,
            src_format: self.src_fmt,
            dst_width: self.width,
            dst_height: self.height,
            dst_format: dst_fmt,
            flags: SWS_BILINEAR,
        }
    }
}

/// The picture that an `AVFrame` holds.
pub open spec fn picture_in(fields: AvFrame) -> Picture {
    Picture {
        src_fmt: fields.format,
        width: fields.width,
        height: fields.height,
        pts: fields.pts,
    }
}

/// The frame that shows `picture` in `format`, with the planes of `fields`: as many as the
/// format has, and null for the rest.
pub open spec fn frame_over(fields: AvFrame, picture: Picture, format: PixelFormat) -> Frame {
    let third = plane_count(format.av_pix_fmt()) == 3;
    Frame {
        planes: [
            fields.data[0],
            fields.data[1],
            if third {
                fields.data[2]
            } else {
                0
            },
        ],
        strides: [
            fields.linesize[0],
            fields.linesize[1],
            if third {
                fields.linesize[2]
            } else {
                0
            },
        ],
        width: picture.width,
        height: picture.height,
        format,
        pts: picture.pts,
    }
}

/// Builds the frame that shows `picture` in `format` with the planes of `fields`.
pub(crate) fn frame_from(fields: &AvFrame, picture: &Picture, format: PixelFormat) -> (frame:
    Frame)
    ensures
        frame == frame_over(*fields, *picture, format),
{
    let mut planes: [usize; 3] = [0usize; 3];
    let mut strides: [i32; 3] = [0i32; 3];
    let n_planes: usize = num_planes(format.as_av_pix_fmt());
    for i in 0..n_planes
        invariant
            2 <= n_planes <= 3,
            n_planes == plane_count(format.av_pix_fmt()),
            forall|j: int| 0 <= j < i ==> planes[j] == fields.data[j],
            forall|j: int| 0 <= j < i ==> strides[j] == fields.linesize[j],
            forall|j: int| i <= j < 3 ==> planes[j] == 0,
            forall|j: int| i <= j < 3 ==> strides[j] == 0,
    {
        planes[i] = fields.data[i];
        strides[i] = fields.linesize[i];
    }
    let frame = Frame {
        planes,
        strides,
        width: picture.width,
        height: picture.height,
        format,
        pts: picture.pts,
    };
    proof {
        let shown = frame_over(*fields, *picture, format);
        assert(planes =~= shown.planes);
        assert(strides =~= shown.strides);
    }
    frame
}

/// A decoder that has been opened. It owns the FFmpeg objects that it names.
pub struct Decoder {
    codec_ctx: usize,
    packet: usize,
    /// The decoded frame, as it comes from FFmpeg.
    av_frame: usize,
    /// The frame converted to the output format.
    dst_frame: usize,
    /// The conversion context, or 0; made when the first frame needs it.
    sws_ctx: usize,
    /// The source format of the conversion context.
    sws_src_fmt: AVPixelFormat,
    /// What the conversion context was made for.
    sws_made_for: Ghost<Option<SwsParams>>,
    output_format: PixelFormat,
    /// Width, height and format of `dst_frame`: 0, 0 and none when it has just been allocated.
    dst_width: i32,
    dst_height: i32,
    dst_format: AVPixelFormat,
    /// The memory behind the planes of `dst_frame`.
    dst_buf: Vec<u8>,
    /// The platform's `EAGAIN`.
    eagain: i32,
}

/// What a [`Decoder`] holds.
#[verifier::ext_equal]
pub struct DecoderView {
    pub codec_ctx: usize,
    pub packet: usize,
    pub av_frame: usize,
    pub dst_frame: usize,
    pub sws_ctx: usize,
    pub sws_src_fmt: AVPixelFormat,
    pub sws_made_for: Option<SwsParams>,
    pub output_format: PixelFormat,
    pub dst_width: i32,
    pub dst_height: i32,
    pub dst_format: AVPixelFormat,
    pub dst_buf: Seq<u8>,
    pub eagain: i32,
}

/// A buffer brought to the length `len`: cut off at the end, or filled up with zeros.
pub open spec fn resized(buf: Seq<u8>, len: nat) -> Seq<u8> {
    Seq::new(
        len,
        |i: int|
            if i < buf.len() {
                buf[i]
            } else {
                0u8
            },
    )
}

/// A buffer after something was written over it from its beginning on; its length stays.
pub open spec fn overwritten(buf: Seq<u8>, bytes: Seq<u8>) -> Seq<u8> {
    Seq::new(
        buf.len(),
        |i: int|
            if i < bytes.len() {
                bytes[i]
            } else {
                buf[i]
            },
    )
}

impl DecoderView {
    /// A decoder that has decoded nothing yet.
    pub open spec fn fresh(
        codec_ctx: usize,
        packet: usize,
        av_frame: usize,
        dst_frame: usize,
        output_format: PixelFormat,
        eagain: i32,
    ) -> DecoderView {
        DecoderView {
            codec_ctx,
            packet,
            av_frame,
            dst_frame,
            sws_ctx: 0,
            sws_src_fmt: AV_PIX_FMT_NONE,
            sws_made_for: None,
            output_format,
            dst_width: 0,
            dst_height: 0,
            dst_format: AV_PIX_FMT_NONE,
            dst_buf: Seq::empty(),
            eagain,
        }
    }

    /// The two are the same decoder, with the same FFmpeg objects and the same output format.
    pub open spec fn same_decoder(self, other: DecoderView) -> bool {
        &&& self.codec_ctx == other.codec_ctx
        &&& self.packet == other.packet
        &&& self.av_frame == other.av_frame
        &&& self.dst_frame == other.dst_frame
        &&& self.output_format == other.output_format
        &&& self.eagain == other.eagain
    }

    /// The FFmpeg name of the output format.
    pub open spec fn dst_fmt(self) -> AVPixelFormat {
        self.output_format.av_pix_fmt()
    }

    /// All objects of the decoder exist; a conversion context is known by what it was made for;
    /// the destination frame is in the output format, or as it was allocated.
    pub open spec fn objects_exist(self) -> bool {
        &&& self.codec_ctx != 0
        &&& self.packet != 0
        &&& self.av_frame != 0
        &&& self.dst_frame != 0
        &&& self.sws_ctx != 0 <==> self.sws_made_for is Some
        &&& self.dst_format == self.dst_fmt() || {
            &&& self.dst_format == AV_PIX_FMT_NONE
            &&& self.dst_width == 0
            &&& self.dst_height == 0
            &&& self.dst_buf.len() == 0
        }
        &&& is_eagain(self.eagain)
    }

    /// What the decoder remembers of its conversion context is what the context was made for.
    pub open spec fn cache_is_true(self) -> bool {
        self.sws_ctx != 0 && self.dst_format == self.dst_fmt() ==> self.sws_made_for == Some(
            SwsParams {
                src_width: self.dst_width,
                src_height: self.dst_height,
                src_format: self.sws_src_fmt,
                dst_width: self.dst_width,
                dst_height: self.dst_height,
                dst_format: self.dst_fmt(),
                flags: SWS_BILINEAR,
            },
        )
    }

    /// The invariant of a decoder between two operations.
    pub open spec fn wf(self) -> bool {
        self.objects_exist() && self.cache_is_true()
    }

    /// Whether a conversion of the picture needs a new context: there is none, or the
    /// dimensions or formats changed.
    pub open spec fn needs_new_sws(self, picture: Picture) -> bool {
        ||| self.sws_ctx == 0
        ||| self.sws_src_fmt != picture.src_fmt
        ||| self.dst_width != picture.width
        ||| self.dst_height != picture.height
        ||| self.dst_format != self.dst_fmt()
    }

    /// The decoder without its conversion context.
    pub open spec fn without_sws(self) -> DecoderView {
        DecoderView { sws_ctx: 0, sws_made_for: None, ..self }
    }

    /// The decoder with a context that converts the picture.
    pub open spec fn with_sws(self, sws_ctx: usize, picture: Picture) -> DecoderView {
        DecoderView {
            sws_ctx,
            sws_src_fmt: picture.src_fmt,
            sws_made_for: Some(picture.conversion(self.dst_fmt())),
            ..self
        }
    }

    /// Whether the buffer and the geometry kept with it do not do for the picture.
    pub open spec fn needs_new_buf(self, needed: int, picture: Picture) -> bool {
        ||| self.dst_buf.len() < needed
        ||| self.dst_width != picture.width
        ||| self.dst_height != picture.height
    }

    /// The decoder with a buffer for the picture, which takes `needed` bytes.
    pub open spec fn with_dst_buf(self, needed: nat, picture: Picture) -> DecoderView {
        if self.needs_new_buf(needed as int, picture) {
            DecoderView {
                dst_buf: resized(self.dst_buf, needed),
                dst_width: picture.width,
                dst_height: picture.height,
                dst_format: self.dst_fmt(),
                ..self
            }
        } else {
            self
        }
    }

    /// The decoder with `pixels` written over its buffer.
    pub open spec fn with_pixels(self, pixels: Seq<u8>) -> DecoderView {
        DecoderView { dst_buf: overwritten(self.dst_buf, pixels), ..self }
    }
}

impl View for Decoder {
    type V = DecoderView;

    closed spec fn view(&self) -> DecoderView {
        DecoderView {
            codec_ctx: self.codec_ctx,
            packet: self.packet,
            av_frame: self.av_frame,
            dst_frame: self.dst_frame,
            sws_ctx: self.sws_ctx,
            sws_src_fmt: self.sws_src_fmt,
            sws_made_for: self.sws_made_for@,
            output_format: self.output_format,
            dst_width: self.dst_width,
            dst_height: self.dst_height,
            dst_format: self.dst_format,
            dst_buf: self.dst_buf@,
            eagain: self.eagain,
        }
    }
}

impl Decoder {
    /// Begins to create and open a software decoder for the codec.
    ///
    /// A `thread_count` of 0 lets FFmpeg choose by the number of CPU cores.
    pub fn new(codec: Codec, output_format: PixelFormat, thread_count: i32) -> (setup:
        DecoderSetup)
        ensures
            setup.codec == codec,
            setup.output_format == output_format,
            setup.thread_count == thread_count,
            is_eagain(setup.eagain),
            setup.phase == SetupPhase::FindDecoder,
            setup.wf(),
    {
        DecoderSetup {
            codec,
            output_format,
            thread_count,
            eagain: eagain(),
            phase: SetupPhase::FindDecoder,
        }
    }

    /// The decoder made of objects that have just been allocated.
    pub(crate) fn open(
        codec_ctx: usize,
        packet: usize,
        av_frame: usize,
        dst_frame: usize,
        output_format: PixelFormat,
        eagain: i32,
    ) -> (decoder: Decoder)
        ensures
            decoder@ == DecoderView::fresh(
                codec_ctx,
                packet,
                av_frame,
                dst_frame,
                output_format,
                eagain,
            ),
    {
        Decoder {
            codec_ctx,
            packet,
            av_frame,
            dst_frame,
            sws_ctx: 0,
            sws_src_fmt: AV_PIX_FMT_NONE,
            sws_made_for: Ghost(None),
            output_format,
            dst_width: 0,
            dst_height: 0,
            dst_format: AV_PIX_FMT_NONE,
            dst_buf: Vec::new(),
            eagain,
        }
    }

    /// Begins to send a compressed packet.
    ///
    /// `None` signals the end of the stream: the decoder then delivers what it still holds.
    pub fn send_packet<'a>(self, data: Option<&'a [u8]>, pts: i64) -> (sending: Sending<'a>)
        requires
            self@.wf(),
        ensures
            sending.decoder() == self@,
            sending.phase() == (match data {
                None => SendPhase::Drain,
                Some(bytes) => SendPhase::Fill { data: bytes, pts },
            }),
            sending.wf(),
    {
        let phase = match data {
            None => SendPhase::Drain,
            Some(bytes) => SendPhase::Fill { data: bytes, pts },
        };
        Sending::start(self, phase)
    }

    /// Begins to receive a decoded frame.
    pub fn receive_frame(self) -> (receiving: Receiving)
        requires
            self@.wf(),
        ensures
            receiving.decoder() == self@,
            receiving.phase() == ReceivePhase::Unref,
            receiving.wf(),
    {
        Receiving::start(self)
    }

    /// The call that resets the decoder to its state after opening, as is needed after seeking.
    pub fn flush(&self) -> (call: FfmpegCall<'static>)
        ensures
            call == (FfmpegCall::FlushBuffers { codec_ctx: self@.codec_ctx }),
            call == flush_call(self@),
    {
        FfmpegCall::FlushBuffers { codec_ctx: self.codec_ctx }
    }

    /// Gives the decoder up: the calls that free what it owns, in the order to make them.
    pub fn drop(self) -> (calls: Vec<FfmpegCall<'static>>)
        ensures
            calls@ == drop_calls(self@),
    {
        let mut calls: Vec<FfmpegCall<'static>> = Vec::new();
        if self.sws_ctx != 0 {
            calls.push(FfmpegCall::FreeSws { sws_ctx: self.sws_ctx });
        }
        calls.push(FfmpegCall::FreeFrame { frame: self.dst_frame });
        calls.push(FfmpegCall::FreeFrame { frame: self.av_frame });
        calls.push(FfmpegCall::FreePacket { packet: self.packet });
        calls.push(FfmpegCall::FreeContext { codec_ctx: self.codec_ctx });
        assert(calls@ =~= drop_calls(self@));
        calls
    }

    pub(crate) fn codec_ctx(&self) -> (codec_ctx: usize)
        ensures
            codec_ctx == self@.codec_ctx,
    {
        self.codec_ctx
    }

    pub(crate) fn packet(&self) -> (packet: usize)
        ensures
            packet == self@.packet,
    {
        self.packet
    }

    pub(crate) fn av_frame(&self) -> (av_frame: usize)
        ensures
            av_frame == self@.av_frame,
    {
        self.av_frame
    }

    pub(crate) fn dst_frame(&self) -> (dst_frame: usize)
        ensures
            dst_frame == self@.dst_frame,
    {
        self.dst_frame
    }

    pub(crate) fn sws_ctx(&self) -> (sws_ctx: usize)
        ensures
            sws_ctx == self@.sws_ctx,
    {
        self.sws_ctx
    }

    pub(crate) fn output_format(&self) -> (format: PixelFormat)
        ensures
            format == self@.output_format,
    {
        self.output_format
    }

    pub(crate) fn eagain(&self) -> (code: i32)
        ensures
            code == self@.eagain,
    {
        self.eagain
    }

    pub(crate) fn dst_len(&self) -> (len: usize)
        ensures
            len == self@.dst_buf.len(),
    {
        self.dst_buf.len()
    }

    /// The memory behind the planes of converted frames.
    pub(crate) fn dst_buf_mut(&mut self) -> (buf: &mut [u8])
        ensures
            buf@ == old(self)@.dst_buf,
            final(self)@ == (DecoderView { dst_buf: final(buf)@, ..old(self)@ }),
    {
        self.dst_buf.as_mut_slice()
    }

    /// Whether the conversion context has to be made anew for the picture.
    pub(crate) fn ensure_sws_ctx(&self, picture: &Picture) -> (needs_new: bool)
        ensures
            needs_new == self@.needs_new_sws(*picture),
    {
        if self.sws_ctx == 0 {
            true
        } else {
            self.sws_src_fmt != picture.src_fmt || self.dst_width != picture.width
                || self.dst_height != picture.height || self.dst_format
                != self.output_format.as_av_pix_fmt()
        }
    }

    /// Forgets the conversion context, which has been freed.
    pub(crate) fn clear_sws_ctx(&mut self)
        ensures
            final(self)@ == old(self)@.without_sws(),
    {
        self.sws_ctx = 0;
        self.sws_made_for = Ghost(None);
    }

    /// Takes over a context made for the conversion of the picture.
    pub(crate) fn set_sws_ctx(&mut self, sws_ctx: usize, picture: &Picture)
        ensures
            final(self)@ == old(self)@.with_sws(sws_ctx, *picture),
    {
        self.sws_ctx = sws_ctx;
        self.sws_src_fmt = picture.src_fmt;
        self.sws_made_for = Ghost(Some(picture.conversion(self.output_format.av_pix_fmt())));
    }

    /// Makes the buffer `needed` bytes long, unless it is long enough and made for the
    /// picture's size already.
    pub(crate) fn ensure_dst_buf(&mut self, needed: usize, picture: &Picture)
        ensures
            final(self)@ == old(self)@.with_dst_buf(needed as nat, *picture),
    {
        if self.dst_buf.len() < needed || self.dst_width != picture.width || self.dst_height
            != picture.height {
            let ghost before = self.dst_buf@;
            self.dst_buf.resize(needed, 0u8);
            proof {
                if needed > before.len() {
                    assert forall|i: int| 0 <= i < before.len() implies self.dst_buf@[i]
                        == before[i] by {
                        assert(self.dst_buf@.subrange(0, before.len() as int)[i] == before[i]);
                    }
                }
                assert(self.dst_buf@ =~= resized(before, needed as nat));
            }
            self.dst_width = picture.width;
            self.dst_height = picture.height;
            self.dst_format = self.output_format.as_av_pix_fmt();
        }
    }
}

/// The call that resets a decoder.
pub open spec fn flush_call(d: DecoderView) -> FfmpegCall<'static> {
    FfmpegCall::FlushBuffers { codec_ctx: d.codec_ctx }
}

/// The calls that free everything that a decoder owns.
pub open spec fn drop_calls(d: DecoderView) -> Seq<FfmpegCall<'static>> {
    let rest = seq![
        FfmpegCall::FreeFrame { frame: d.dst_frame },
        FfmpegCall::FreeFrame { frame: d.av_frame },
        FfmpegCall::FreePacket { packet: d.packet },
        FfmpegCall::FreeContext { codec_ctx: d.codec_ctx },
    ];
    if d.sws_ctx != 0 {
        seq![FfmpegCall::FreeSws { sws_ctx: d.sws_ctx }] + rest
    } else {
        rest
    }
}

} // verus!
