//! FFmpeg's side of the conversation: its constants and error codes, the calls that the
//! decoder asks for and the replies that it gets back.
//!
//! An FFmpeg object is known here by its address, as a `usize`; 0 is the null pointer.
use crate::decoder::Codec;
use vstd::prelude::*;

verus! {

/// FFmpeg's pixel format identifiers.
pub type AVPixelFormat = i32;

/// No pixel format.
pub const AV_PIX_FMT_NONE: AVPixelFormat = -1;

/// Planar YUV 4:2:0.
pub const AV_PIX_FMT_YUV420P: AVPixelFormat = 0;

/// Semi-planar YUV 4:2:0, with the U and V samples interleaved.
pub const AV_PIX_FMT_NV12: AVPixelFormat = 23;

/// Decode more than one frame at once.
pub const FF_THREAD_FRAME: i32 = 1;

/// Bilinear scaling.
pub const SWS_BILINEAR: i32 = 2;

/// The tag `'E', 'O', 'F', ' '`, read as a little-endian number.
pub const EOF_TAG: i32 = 0x2046_4F45;

/// The values that `EAGAIN` takes over the platforms that libc knows.
pub open spec fn is_eagain(code: i32) -> bool {
    code == 6 || code == 11 || code == 35 || code == 36 || code == 1073741859 || code
        == -2147483637
}

/// The constant `libc::EAGAIN`. It differs from platform to platform: libc defines it as 11
/// for Linux, Android, Windows and most others, 35 for Apple's systems and the BSDs, 6 for
/// WASI and Emscripten, 36 for HelenOS, 1073741859 for the Hurd and -2147483637 for Haiku.
/// What is claimed is that it is one of these.
#[verifier::external_body]
pub(crate) fn eagain() -> (code: i32)
    ensures
        is_eagain(code),
{
    libc::EAGAIN
}

/// FFmpeg's code for the POSIX error `e`: its negation.
#[allow(non_snake_case)]
pub fn AVERROR(e: i32) -> (code: i32)
    requires
        e != i32::MIN,
    ensures
        code == -e,
{
    -e
}

/// FFmpeg's code for the end of a stream: the negated tag `'E', 'O', 'F', ' '`.
pub fn averror_eof() -> (code: i32)
    ensures
        code == -(0x45 + 0x4F * 0x100 + 0x46 * 0x1_0000 + 0x20 * 0x100_0000),
        code == -EOF_TAG,
{
    let tag: i32 = 0x45i32 | (0x4Fi32 << 8) | (0x46i32 << 16) | (0x20i32 << 24);
    assert(0x45i32 | (0x4Fi32 << 8) | (0x46i32 << 16) | (0x20i32 << 24) == 0x2046_4F45i32)
        by (bit_vector);
    -tag
}

/// FFmpeg's name for the codec.
pub open spec fn ffmpeg_codec(codec: Codec) -> &'static str {
    match codec {
        Codec::Vp9 => "vp9",
        Codec::Av1 => "av1",
    }
}

/// FFmpeg's name for the codec, by which it describes `AV_CODEC_ID_VP9` and `AV_CODEC_ID_AV1`.
pub fn decoder_name(codec: Codec) -> (name: &'static str)
    ensures
        name == ffmpeg_codec(codec),
        name@ == (match codec {
            Codec::Vp9 => "vp9"@,
            Codec::Av1 => "av1"@,
        }),
{
    match codec {
        Codec::Vp9 => "vp9",
        Codec::Av1 => "av1",
    }
}

/// What a conversion context of libswscale is made for.
#[derive(Debug, Clone, Copy, PartialEq, Eq)]
pub struct SwsParams {
    pub src_width: i32,
    pub src_height: i32,
    pub src_format: AVPixelFormat,
    pub dst_width: i32,
    pub dst_height: i32,
    pub dst_format: AVPixelFormat,
    pub flags: i32,
}

/// The fields of an `AVFrame` that decoding looks at.
#[derive(Debug, Clone, Copy, PartialEq, Eq)]
pub struct AvFrame {
    pub format: AVPixelFormat,
    pub width: i32,
    pub height: i32,
    pub pts: i64,
    /// Addresses of the first three planes.
    pub data: [usize; 3],
    /// Bytes per row of the first three planes.
    pub linesize: [i32; 3],
}

/// A call that FFmpeg is to carry out next.
#[derive(Debug, Clone, Copy, PartialEq, Eq)]
pub enum FfmpegCall<'a> {
    /// `avcodec_find_decoder` for the codec of that name.
    FindDecoder { name: &'static str },
    /// `avcodec_alloc_context3`.
    AllocContext { av_codec: usize },
    /// Set `thread_count` and `thread_type` of a context that is not open yet.
    ConfigureThreads { codec_ctx: usize, thread_count: i32, thread_type: i32 },
    /// `avcodec_open2`, without options.
    OpenCodec { codec_ctx: usize, av_codec: usize },
    /// `avcodec_free_context`.
    FreeContext { codec_ctx: usize },
    /// `av_packet_alloc`.
    AllocPacket,
    /// `av_packet_free`.
    FreePacket { packet: usize },
    /// `av_frame_alloc`.
    AllocFrame,
    /// `av_frame_free`.
    FreeFrame { frame: usize },
    /// Point the packet at the bytes and set its size and time stamps.
    FillPacket { packet: usize, data: &'a [u8], size: i32, pts: i64, dts: i64 },
    /// `avcodec_send_packet`; the null packet starts draining.
    SendPacket { codec_ctx: usize, packet: usize },
    /// Set the packet's data pointer to null and its size to 0.
    ClearPacket { packet: usize },
    /// `av_frame_unref`.
    UnrefFrame { frame: usize },
    /// `avcodec_receive_frame`.
    ReceiveFrame { codec_ctx: usize, frame: usize },
    /// Read the fields of a frame.
    ReadFrame { frame: usize },
    /// `sws_freeContext`.
    FreeSws { sws_ctx: usize },
    /// `sws_getContext`, without filters or parameters.
    GetSws { params: SwsParams },
    /// `av_image_get_buffer_size`.
    ImageBufferSize { format: AVPixelFormat, width: i32, height: i32, align: i32 },
    /// `av_image_fill_arrays` of the frame's planes over the decoder's own buffer, which is
    /// `len` bytes long.
    ImageFillArrays {
        frame: usize,
        len: usize,
        format: AVPixelFormat,
        width: i32,
        height: i32,
        align: i32,
    },
    /// `sws_scale` of `rows` rows, from row `first_row` on, of one frame into another.
    Scale { sws_ctx: usize, src_frame: usize, first_row: i32, rows: i32, dst_frame: usize },
    /// `avcodec_flush_buffers`.
    FlushBuffers { codec_ctx: usize },
}

/// What comes back from a call.
#[derive(Debug, Clone, Copy, PartialEq, Eq)]
pub enum Reply {
    /// Nothing.
    Done,
    /// An address.
    Pointer(usize),
    /// A return code.
    Code(i32),
    /// A frame's fields.
    Frame(AvFrame),
}

impl<'a> FfmpegCall<'a> {
    /// Whether a reply is of the kind that this call brings.
    pub open spec fn answered_by(self, reply: Reply) -> bool {
        match self {
            FfmpegCall::FindDecoder { .. }
            | FfmpegCall::AllocContext { .. }
            | FfmpegCall::AllocPacket
            | FfmpegCall::AllocFrame
            | FfmpegCall::GetSws { .. } => reply is Pointer,
            FfmpegCall::OpenCodec { .. }
            | FfmpegCall::SendPacket { .. }
            | FfmpegCall::ReceiveFrame { .. }
            | FfmpegCall::ImageBufferSize { .. }
            | FfmpegCall::ImageFillArrays { .. }
            | FfmpegCall::Scale { .. } => reply is Code,
            FfmpegCall::ReadFrame { .. } => reply is Frame,
            _ => reply is Done,
        }
    }

    /// Tests whether a reply is of the kind that this call brings.
    pub fn accepts(&self, reply: &Reply) -> (fits: bool)
        ensures
            fits == self.answered_by(*reply),
    {
        match self {
            FfmpegCall::FindDecoder { .. }
            | FfmpegCall::AllocContext { .. }
            | FfmpegCall::AllocPacket
            | FfmpegCall::AllocFrame
            | FfmpegCall::GetSws { .. } => matches!(reply, Reply::Pointer(_)),
            FfmpegCall::OpenCodec { .. }
            | FfmpegCall::SendPacket { .. }
            | FfmpegCall::ReceiveFrame { .. }
            | FfmpegCall::ImageBufferSize { .. }
            | FfmpegCall::ImageFillArrays { .. }
            | FfmpegCall::Scale { .. } => matches!(reply, Reply::Code(_)),
            FfmpegCall::ReadFrame { .. } => matches!(reply, Reply::Frame(_)),
            _ => matches!(reply, Reply::Done),
        }
    }
}

/// The two codecs have names of their own.
pub proof fn codec_names_are_distinct(a: Codec, b: Codec)
    ensures
        ffmpeg_codec(a)@ == ffmpeg_codec(b)@ <==> a == b,
{
    reveal_strlit("vp9");
    reveal_strlit("av1");
    assert("vp9"@[0] != "av1"@[0]);
}

/// The code for "try again" and the code for the end of a stream never coincide.
pub proof fn again_is_not_eof(e: i32)
    requires
        is_eagain(e),
    ensures
        -e != -EOF_TAG,
        e != i32::MIN,
        e != 0,
{
}

} // verus!
