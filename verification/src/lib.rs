//! Software decoding of VP9 and AV1 video on top of FFmpeg, for embedders that need the same
//! behaviour on every platform.
//!
//! The library decides; it calls FFmpeg nowhere. An operation names the FFmpeg call to carry out
//! next and takes the reply to it, and so on until it is finished.
pub mod api;
pub mod decode_runs;
pub mod decode_test;
pub mod decoder;
pub mod ffi;
pub mod guarantees;
pub mod info;
pub mod ivf;
pub mod paths;
pub mod stream;
pub mod text;

pub use crate::api::{
    moyu_video_decoder_create, moyu_video_decoder_create_finish, moyu_video_decoder_destroy,
    moyu_video_decoder_flush, moyu_video_decoder_receive_frame,
    moyu_video_decoder_receive_frame_finish, moyu_video_decoder_send_packet,
    moyu_video_decoder_send_packet_finish, MoyuVideoCodec, MoyuVideoDecoder,
    MoyuVideoDecoderConfig, MoyuVideoFrame, MoyuVideoPixelFormat, MoyuVideoResult,
};
pub use crate::info::moyu_video_get_ffmpeg_info;
