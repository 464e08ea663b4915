//! What the operations are for, written out number by number and field by field.
//!
//! The laws here speak of what goes in and what comes out: of the numbers of the C interface and of
//! FFmpeg, of the fields of FFmpeg's frames, and of the bytes of a packet.
use crate::api::{
    payload, public_frame, receive_answer, requested_setup, send_answer, MoyuVideoCodec, MoyuVideoDecoderConfig,
    MoyuVideoPixelFormat, MoyuVideoResult,
};
use crate::decoder::receive::{
    frame_outcome, frames_in_the_output_format_are_not_copied, receive_call, receive_calls,
    receive_error, receive_run, ReceiveNext, ReceivePhase, ReceiveReplies,
};
use crate::decoder::send::{drain_outcome, packet_outcome, send_calls, send_run, SendNext, SendPhase};
use crate::decoder::setup::{
    creation_calls, creation_outcome, setup_calls, setup_run, DecoderSetup, SetupNext, SetupPhase,
    SetupReplies,
};
use crate::decoder::{
    drop_calls, flush_call, picture_in, DecoderError, DecoderView, Frame, PixelFormat,
};
use crate::ffi::{is_eagain, FfmpegCall, Reply, SwsParams};
use vstd::prelude::*;

verus! {

/// The numbers of the C interface.
pub proof fn numbers_of_the_c_interface(
    codec: MoyuVideoCodec,
    format: MoyuVideoPixelFormat,
    result: MoyuVideoResult,
)
    ensures
        codec.number() == 0 <==> codec is Vp9,
        codec.number() == 1 <==> codec is Av1,
        format.number() == 0 <==> format is I420,
        format.number() == 1 <==> format is Nv12,
        result.number() == 0 <==> result is Success,
        result.number() == -1 <==> result is Error,
        result.number() == -2 <==> result is Again,
        result.number() == -3 <==> result is Eof,
        result.number() == -4 <==> result is InvalidArgument,
{
}

/// A decoder is created for what was configured. Where the codec is number 0, FFmpeg's decoder `vp9`
/// is looked up, and where it is number 1, `av1`; what was found is what is opened, on a context
/// of its own, with the thread count that was configured and frame threading set before that. The
/// decoder's output is FFmpeg's format 0 where the format is number 0, and 23 where it is number
/// 1.
pub proof fn decoders_are_as_configured(
    config: MoyuVideoDecoderConfig,
    eagain: i32,
    replies: SetupReplies,
)
    ensures
        ({
            let setup = requested_setup(config, eagain);
            let calls = setup_calls(setup, replies);
            &&& calls.len() > 0
            &&& calls[0] == setup.next_call()
            &&& calls[0] matches FfmpegCall::FindDecoder { name } && {
                &&& config.codec.number() == 0 ==> name@ == seq!['v', 'p', '9']
                &&& config.codec.number() == 1 ==> name@ == seq!['a', 'v', '1']
            }
            &&& forall|i: int|
                0 <= i < calls.len() ==> {
                    &&& (#[trigger] calls[i]) matches FfmpegCall::AllocContext { av_codec }
                        ==> av_codec == replies.av_codec
                    &&& calls[i] matches FfmpegCall::OpenCodec { codec_ctx, av_codec } ==> {
                        &&& av_codec == replies.av_codec
                        &&& codec_ctx == replies.codec_ctx
                        &&& i >= 1
                        &&& calls[i - 1] matches FfmpegCall::ConfigureThreads {
                            codec_ctx: configured,
                            thread_count,
                            thread_type,
                        } && configured == replies.codec_ctx && thread_count == config.thread_count
                            && thread_type == 1
                    }
                }
            &&& setup_run(setup, replies) matches SetupNext::Ready(d) ==> {
                &&& calls.len() == 7
                &&& calls[3] is OpenCodec
                &&& d.eagain == eagain
                &&& config.output_format.number() == 0 ==> d.dst_fmt() == 0
                &&& config.output_format.number() == 1 ==> d.dst_fmt() == 23
            }
        }),
{
    let setup = requested_setup(config, eagain);
    creation_calls(setup, replies);
    creation_outcome(setup, replies);
    reveal_strlit("vp9");
    reveal_strlit("av1");
    let name = setup_calls(setup, replies)[0]->name;
    if config.codec is Vp9 {
        assert(name@ =~= seq!['v', 'p', '9']);
    } else {
        assert(name@ =~= seq!['a', 'v', '1']);
    }
}

/// A decoder that has just been created has the objects that FFmpeg allocated for it, and the output
/// format that was asked for; it has no conversion context and an empty buffer.
pub proof fn new_decoders(setup: DecoderSetup, replies: SetupReplies)
    requires
        setup.phase == SetupPhase::FindDecoder,
    ensures
        setup_run(setup, replies) matches SetupNext::Ready(d) ==> {
            &&& d.codec_ctx == replies.codec_ctx
            &&& d.packet == replies.packet
            &&& d.av_frame == replies.av_frame
            &&& d.dst_frame == replies.dst_frame
            &&& d.codec_ctx != 0 && d.packet != 0 && d.av_frame != 0 && d.dst_frame != 0
            &&& d.output_format == setup.output_format
            &&& d.eagain == setup.eagain
            &&& d.sws_ctx == 0
            &&& d.sws_made_for is None
            &&& d.dst_width == 0 && d.dst_height == 0 && d.dst_format == -1
            &&& d.dst_buf.len() == 0
        },
        setup_run(setup, replies) is Ready <==> {
            &&& replies.av_codec != 0
            &&& replies.codec_ctx != 0
            &&& replies.opened >= 0
            &&& replies.packet != 0
            &&& replies.av_frame != 0
            &&& replies.dst_frame != 0
        },
{
    creation_outcome(setup, replies);
}

/// The packet that is asked for is sent whole: all `size` bytes of the data, and no others. It is
/// the end of the stream if and only if there is no data or the size is not positive.
pub proof fn packets_are_whole(data: Option<&[u8]>, size: i32)
    requires
        data matches Some(bytes) ==> size <= bytes@.len(),
    ensures
        payload(data, size) is None <==> data is None || size <= 0,
        payload(data, size) matches Some(packet) ==> {
            &&& packet.len() == size
            &&& forall|i: int| 0 <= i < size ==> #[trigger] packet[i] == data->0@[i]
        },
{
}

/// What goes to FFmpeg for a packet: the packet with all its bytes, their number and the time stamp
/// twice, to the decoder's own context, and then a packet without bytes. What comes of it is told
/// by FFmpeg's code alone.
pub proof fn packets_reach_ffmpeg<'a>(d: DecoderView, data: &'a [u8], pts: i64, ret: i32)
    requires
        data@.len() <= i32::MAX,
    ensures
        ({
            let calls = send_calls(d, SendPhase::Fill { data, pts }, ret);
            &&& calls.len() == 3
            &&& calls[0] matches FfmpegCall::FillPacket {
                packet,
                data: sent,
                size,
                pts: presented,
                dts,
            } && packet == d.packet && sent@ == data@ && size == data@.len() && presented == pts
                && dts == pts
            &&& calls[1] matches FfmpegCall::SendPacket { codec_ctx, packet } && codec_ctx
                == d.codec_ctx && packet == d.packet
            &&& calls[2] matches FfmpegCall::ClearPacket { packet } && packet == d.packet
        }),
        send_run(d, SendPhase::Fill { data, pts }, ret) matches SendNext::Finished(after, outcome)
            && {
            &&& after == d
            &&& outcome is Ok <==> ret >= 0
            &&& outcome == Err::<(), DecoderError>(DecoderError::Again) <==> ret < 0 && ret
                == -d.eagain
            &&& ret < 0 && ret != -d.eagain ==> outcome == Err::<(), DecoderError>(
                DecoderError::FfmpegError(ret),
            )
        },
{
    packet_outcome(d, data, pts, ret);
}

/// What goes to FFmpeg for the end of the stream: the null packet, and nothing else. It is an error
/// only if FFmpeg's code is negative and not the one for the end of the stream, which is -541478725.
pub proof fn the_end_reaches_ffmpeg(d: DecoderView, ret: i32)
    ensures
        ({
            let calls = send_calls(d, SendPhase::Drain, ret);
            &&& calls.len() == 1
            &&& calls[0] matches FfmpegCall::SendPacket { codec_ctx, packet } && codec_ctx
                == d.codec_ctx && packet == 0
        }),
        send_run(d, SendPhase::Drain, ret) matches SendNext::Finished(after, outcome) && {
            &&& after == d
            &&& outcome is Ok <==> ret >= 0 || ret == -541478725
            &&& outcome is Err ==> outcome == Err::<(), DecoderError>(
                DecoderError::FfmpegError(ret),
            )
        },
{
    drain_outcome(d, ret);
}

/// Every outcome has its number in the C interface: success is 0, a full or waiting codec is -2, the
/// end of the stream is -3 where a frame was asked for, and anything else is -1.
pub proof fn outcomes_have_their_numbers(
    sent: Result<(), DecoderError>,
    received: Result<Frame, DecoderError>,
)
    ensures
        send_answer(sent).number() == (if sent is Ok {
            0int
        } else if sent->Err_0 is Again {
            -2int
        } else {
            -1int
        }),
        receive_answer(received).number() == (if received is Ok {
            0int
        } else if received->Err_0 is Again {
            -2int
        } else if received->Err_0 is Eof {
            -3int
        } else {
            -1int
        }),
{
}

/// Which code of FFmpeg brings which error, where a frame is asked for: the platform's "try again",
/// the end of the stream, -541478725, and any other negative code, which is passed on. Each leaves
/// the decoder as it was, and has FFmpeg let the last frame go and look for the next, no more.
pub proof fn codes_bring_errors(d: DecoderView, replies: ReceiveReplies)
    requires
        is_eagain(d.eagain),
        replies.size >= 0,
    ensures
        ({
            let received = replies.received;
            let run = receive_run(d, ReceivePhase::Unref, replies);
            let calls = receive_calls(d, ReceivePhase::Unref, replies);
            &&& received == -d.eagain ==> run == ReceiveNext::Finished(d, Err(DecoderError::Again))
            &&& received == -541478725 ==> run == ReceiveNext::Finished(d, Err(DecoderError::Eof))
            &&& received < 0 && received != -d.eagain && received != -541478725 ==> run
                == ReceiveNext::Finished(d, Err(DecoderError::FfmpegError(received)))
            &&& received < 0 || received == -d.eagain ==> {
                &&& calls.len() == 2
                &&& calls[0] == (FfmpegCall::UnrefFrame { frame: d.av_frame })
                &&& calls[1] == (FfmpegCall::ReceiveFrame {
                    codec_ctx: d.codec_ctx,
                    frame: d.av_frame,
                })
            }
            &&& received >= 0 && received != -d.eagain ==> (run matches ReceiveNext::Finished(
                _,
                outcome,
            ) && (outcome matches Err(error) ==> error == DecoderError::AllocationFailed))
        }),
{
    frame_outcome(d, replies);
    reveal_with_fuel(receive_calls, 3);
}

/// A frame shows the picture that FFmpeg decoded. Its planes and their strides are those of FFmpeg's
/// frame that holds the picture in the output format: the decoded frame where it is in that format
/// already, and the converted one otherwise. It has as many as the format has, three for I420 and
/// two for NV12, and null for the third of NV12. Its size and its time stamp are those of the
/// decoded frame.
pub proof fn frames_show_the_decoded_picture(d: DecoderView, replies: ReceiveReplies)
    requires
        replies.size >= 0,
    ensures
        receive_run(d, ReceivePhase::Unref, replies) matches ReceiveNext::Finished(_, Ok(frame))
            ==> {
            let number = if d.output_format is I420 {
                0i32
            } else {
                23i32
            };
            let source = if replies.decoded.format == number {
                replies.decoded
            } else {
                replies.converted
            };
            let shown = public_frame(frame);
            &&& shown.planes[0] == source.data[0]
            &&& shown.planes[1] == source.data[1]
            &&& d.output_format is I420 ==> shown.planes[2] == source.data[2]
            &&& d.output_format is Nv12 ==> shown.planes[2] == 0
            &&& shown.strides[0] == source.linesize[0]
            &&& shown.strides[1] == source.linesize[1]
            &&& d.output_format is I420 ==> shown.strides[2] == source.linesize[2]
            &&& d.output_format is Nv12 ==> shown.strides[2] == 0
            &&& shown.width == replies.decoded.width
            &&& shown.height == replies.decoded.height
            &&& shown.pts == replies.decoded.pts
            &&& d.output_format is I420 <==> shown.format is I420
            &&& frame.planes == shown.planes
            &&& frame.strides == shown.strides
            &&& frame.width == shown.width
            &&& frame.height == shown.height
            &&& frame.pts == shown.pts
            &&& frame.format == d.output_format
        },
{
    frame_outcome(d, replies);
}

/// The calls with which a conversion goes on once the context is there.
spec fn calls_with_context(d: DecoderView, replies: ReceiveReplies) -> Seq<FfmpegCall<'static>> {
    let picture = picture_in(replies.decoded);
    let needed = replies.size as usize;
    let filled = d.with_dst_buf(replies.size as nat, picture);
    seq![
        receive_call(d, ReceivePhase::Measure { picture }),
        receive_call(filled, ReceivePhase::Fill { picture, needed }),
        receive_call(filled, ReceivePhase::Scale { picture, needed }),
        receive_call(filled, ReceivePhase::ReadPlanes { picture, needed }),
    ]
}

proof fn calls_with_context_come(d: DecoderView, replies: ReceiveReplies)
    requires
        replies.size >= 0,
    ensures
        receive_calls(
            d,
            ReceivePhase::Measure { picture: picture_in(replies.decoded) },
            replies,
        ) == calls_with_context(d, replies),
{
    let picture = picture_in(replies.decoded);
    let needed = replies.size as usize;
    let filled = d.with_dst_buf(replies.size as nat, picture);
    let converted = filled.with_pixels(replies.pixels);
    let read = ReceivePhase::ReadPlanes { picture, needed };
    let scale = ReceivePhase::Scale { picture, needed };
    let fill = ReceivePhase::Fill { picture, needed };
    assert(receive_calls(converted, read, replies) =~= seq![receive_call(filled, read)]);
    assert(receive_calls(filled, scale, replies) =~= seq![
        receive_call(filled, scale),
        receive_call(filled, read),
    ]);
    assert(receive_calls(filled, fill, replies) =~= seq![
        receive_call(filled, fill),
        receive_call(filled, scale),
        receive_call(filled, read),
    ]);
    assert(receive_calls(d, ReceivePhase::Measure { picture }, replies) =~= calls_with_context(
        d,
        replies,
    ));
}

/// The calls with which a conversion begins.
spec fn calls_for_context(d: DecoderView, replies: ReceiveReplies) -> Seq<FfmpegCall<'static>> {
    let picture = picture_in(replies.decoded);
    let get = receive_call(d, ReceivePhase::MakeSws { picture });
    if !d.needs_new_sws(picture) {
        seq![]
    } else if d.sws_ctx != 0 {
        seq![receive_call(d, ReceivePhase::FreeSws { picture }), get]
    } else {
        seq![get]
    }
}

/// The decoder when the context is there.
spec fn with_context(d: DecoderView, replies: ReceiveReplies) -> DecoderView {
    let picture = picture_in(replies.decoded);
    if d.needs_new_sws(picture) {
        d.with_sws(replies.sws_ctx, picture)
    } else {
        d
    }
}

/// The calls of a receiving that converts, one after the other.
proof fn calls_of_a_conversion(d: DecoderView, replies: ReceiveReplies)
    requires
        replies.size >= 0,
        receive_error(replies.received, d.eagain) is None,
        replies.decoded.format != d.dst_fmt(),
    ensures
        receive_calls(d, ReceivePhase::Unref, replies) == seq![
            receive_call(d, ReceivePhase::Unref),
            receive_call(d, ReceivePhase::Receive),
            receive_call(d, ReceivePhase::Inspect),
        ] + calls_for_context(d, replies) + (if d.needs_new_sws(picture_in(replies.decoded))
            && replies.sws_ctx == 0 {
            seq![]
        } else {
            calls_with_context(with_context(d, replies), replies)
        }),
{
    let picture = picture_in(replies.decoded);
    let kept = with_context(d, replies);
    let free = ReceivePhase::FreeSws { picture };
    let make = ReceivePhase::MakeSws { picture };
    let begin = seq![
        receive_call(d, ReceivePhase::Unref),
        receive_call(d, ReceivePhase::Receive),
        receive_call(d, ReceivePhase::Inspect),
    ];
    let rest = if d.needs_new_sws(picture) && replies.sws_ctx == 0 {
        seq![]
    } else {
        calls_with_context(kept, replies)
    };
    calls_with_context_come(kept, replies);
    let converting = calls_for_context(d, replies) + rest;
    if d.needs_new_sws(picture) {
        let bare = d.without_sws();
        assert(bare.with_sws(replies.sws_ctx, picture) == kept);
        assert(receive_call(bare, make) == receive_call(d, make));
        let made = seq![receive_call(d, make)] + rest;
        if d.sws_ctx != 0 {
            assert(receive_calls(bare, make, replies) =~= made);
            assert(receive_calls(d, free, replies) =~= converting);
        } else {
            assert(receive_calls(d, make, replies) =~= converting);
        }
    } else {
        assert(converting =~= rest);
    }
    assert(receive_calls(d, ReceivePhase::Inspect, replies) =~= seq![
        receive_call(d, ReceivePhase::Inspect),
    ] + converting);
    assert(receive_calls(d, ReceivePhase::Receive, replies) =~= seq![
        receive_call(d, ReceivePhase::Receive),
        receive_call(d, ReceivePhase::Inspect),
    ] + converting);
    assert(receive_calls(d, ReceivePhase::Unref, replies) =~= begin + converting);
    assert(begin + converting =~= begin + calls_for_context(d, replies) + rest);
}

/// Which frames are copied: those that FFmpeg decodes into another format than number 0 for I420 or
/// 23 for NV12, and only those. The others are read from the decoded frame and from no other.
pub proof fn only_other_formats_are_converted(d: DecoderView, replies: ReceiveReplies)
    requires
        receive_run(d, ReceivePhase::Unref, replies) matches ReceiveNext::Finished(_, Ok(_)),
        is_eagain(d.eagain),
        replies.size >= 0,
    ensures
        ({
            let calls = receive_calls(d, ReceivePhase::Unref, replies);
            let number = if d.output_format is I420 {
                0i32
            } else {
                23i32
            };
            &&& replies.decoded.format == number <==> calls.len() == 3
            &&& calls.len() >= 3
            &&& calls[0] == (FfmpegCall::UnrefFrame { frame: d.av_frame })
            &&& calls[1] == (FfmpegCall::ReceiveFrame { codec_ctx: d.codec_ctx, frame: d.av_frame })
            &&& calls[2] == (FfmpegCall::ReadFrame { frame: d.av_frame })
            &&& replies.decoded.format != number ==> calls.last() == (FfmpegCall::ReadFrame {
                frame: d.dst_frame,
            })
        }),
{
    frame_outcome(d, replies);
    if replies.decoded.format == d.dst_fmt() {
        frames_in_the_output_format_are_not_copied(d, replies);
    } else {
        calls_of_a_conversion(d, replies);
    }
}

/// A conversion goes from the decoded frame's own format and size to the output format in the same
/// size, with bilinear scaling, which is number 2. A context that is made is asked for with exactly
/// these parameters, after the one before was freed, and is the one that converts; a context that
/// is kept was made for these parameters. Either way the picture is laid out in a buffer that is
/// large enough, in the output format and in its size, and converted from its first row to its
/// last, from the decoded frame into the other; and the decoder keeps the context with the
/// parameters that it was made for.
pub proof fn conversions_fit_the_picture(d: DecoderView, replies: ReceiveReplies)
    requires
        d.wf(),
        replies.size >= 0,
        replies.received >= 0,
        replies.received != -d.eagain,
        replies.decoded.format != (if d.output_format is I420 {
            0int
        } else {
            23int
        }),
    ensures
        ({
            let number = if d.output_format is I420 {
                0i32
            } else {
                23i32
            };
            let decoded = replies.decoded;
            let wanted = SwsParams {
                src_width: decoded.width,
                src_height: decoded.height,
                src_format: decoded.format,
                dst_width: decoded.width,
                dst_height: decoded.height,
                dst_format: number,
                flags: 2,
            };
            let calls = receive_calls(d, ReceivePhase::Unref, replies);
            let made = calls.contains(FfmpegCall::GetSws { params: wanted });
            let start = if !made {
                3int
            } else if d.sws_ctx != 0 {
                5int
            } else {
                4int
            };
            // Contexts are asked for with the wanted parameters, or not at all.
            &&& forall|i: int|
                0 <= i < calls.len() ==> ((#[trigger] calls[i]) matches FfmpegCall::GetSws { params }
                    ==> params == wanted && i == start - 1)
            &&& forall|i: int|
                0 <= i < calls.len() ==> ((#[trigger] calls[i]) matches FfmpegCall::FreeSws {
                    sws_ctx,
                } ==> sws_ctx == d.sws_ctx && made && i == 3)
            &&& made && d.sws_ctx != 0 ==> calls[3] == (FfmpegCall::FreeSws { sws_ctx: d.sws_ctx })
            &&& !made ==> d.sws_ctx != 0 && d.sws_made_for == Some(wanted)
            &&& receive_run(d, ReceivePhase::Unref, replies) matches ReceiveNext::Finished(
                after,
                outcome,
            ) && {
                &&& outcome is Ok <==> !made || replies.sws_ctx != 0
                &&& outcome is Err ==> calls.len() == start && after.sws_ctx == 0
                    && after.sws_made_for is None
                &&& outcome is Ok ==> {
                    &&& after.sws_ctx == if made {
                        replies.sws_ctx
                    } else {
                        d.sws_ctx
                    }
                    &&& after.sws_made_for == Some(wanted)
                    &&& after.dst_buf.len() >= replies.size
                    &&& calls.len() == start + 4
                    &&& calls[start] == (FfmpegCall::ImageBufferSize {
                        format: number,
                        width: decoded.width,
                        height: decoded.height,
                        align: 1,
                    })
                    &&& calls[start + 1] matches FfmpegCall::ImageFillArrays {
                        frame,
                        len,
                        format,
                        width,
                        height,
                        align,
                    } && frame == d.dst_frame && len == after.dst_buf.len() as usize && format
                        == number && width == decoded.width && height == decoded.height && align
                        == 1
                    &&& calls[start + 2] == (FfmpegCall::Scale {
                        sws_ctx: after.sws_ctx,
                        src_frame: d.av_frame,
                        first_row: 0,
                        rows: decoded.height,
                        dst_frame: d.dst_frame,
                    })
                    &&& calls[start + 3] == (FfmpegCall::ReadFrame { frame: d.dst_frame })
                }
            }
        }),
{
    frame_outcome(d, replies);
    calls_of_a_conversion(d, replies);
    let picture = picture_in(replies.decoded);
    let calls = receive_calls(d, ReceivePhase::Unref, replies);
    let get = receive_call(d, ReceivePhase::MakeSws { picture });
    let renewed = d.needs_new_sws(picture);
    if renewed {
        let at = if d.sws_ctx != 0 {
            4int
        } else {
            3int
        };
        assert(calls[at] == get);
        assert(calls.contains(get));
    } else {
        assert forall|i: int| 0 <= i < calls.len() implies (#[trigger] calls[i]) !is GetSws by {}
    }
}

/// The buffer after a conversion. Where it was made for a picture of that size and is long enough,
/// it keeps its length, and otherwise it is as long as FFmpeg asked for. It holds what FFmpeg wrote,
/// and beyond that what it held before, or zeros where it has grown.
pub proof fn buffers_after_a_conversion(d: DecoderView, replies: ReceiveReplies)
    requires
        replies.size >= 0,
        replies.received >= 0,
        replies.received != -d.eagain,
        replies.decoded.format != (if d.output_format is I420 {
            0int
        } else {
            23int
        }),
    ensures
        receive_run(d, ReceivePhase::Unref, replies) matches ReceiveNext::Finished(after, Ok(_))
            ==> {
            let fits = d.dst_width == replies.decoded.width && d.dst_height
                == replies.decoded.height && d.dst_buf.len() >= replies.size;
            &&& after.dst_buf.len() == if fits {
                d.dst_buf.len() as int
            } else {
                replies.size as int
            }
            &&& after.dst_width == replies.decoded.width
            &&& after.dst_height == replies.decoded.height
            &&& forall|i: int|
                0 <= i < after.dst_buf.len() ==> #[trigger] after.dst_buf[i] == if i
                    < replies.pixels.len() {
                    replies.pixels[i]
                } else if i < d.dst_buf.len() {
                    d.dst_buf[i]
                } else {
                    0u8
                }
        },
{
    frame_outcome(d, replies);
}

/// Giving a decoder up frees the conversion context first, if there is one, then both frames and the
/// packet, and the codec's context last; each of them, and nothing else.
pub proof fn giving_up_frees_everything(d: DecoderView)
    ensures
        ({
            let calls = drop_calls(d);
            let n = calls.len() as int;
            &&& n == if d.sws_ctx == 0 {
                4int
            } else {
                5int
            }
            &&& d.sws_ctx != 0 ==> calls[0] == (FfmpegCall::FreeSws { sws_ctx: d.sws_ctx })
            &&& calls[n - 4] == (FfmpegCall::FreeFrame { frame: d.dst_frame })
            &&& calls[n - 3] == (FfmpegCall::FreeFrame { frame: d.av_frame })
            &&& calls[n - 2] == (FfmpegCall::FreePacket { packet: d.packet })
            &&& calls[n - 1] == (FfmpegCall::FreeContext { codec_ctx: d.codec_ctx })
        }),
{
}

/// Flushing is a reset of the decoder's own codec context.
pub proof fn flushing_resets_the_codec(d: DecoderView)
    ensures
        flush_call(d) matches FfmpegCall::FlushBuffers { codec_ctx } && codec_ctx == d.codec_ctx,
{
}

/// What kind of reply a call brings: an address where it looks something up or makes something, a
/// code where FFmpeg's function returns one that says how it went, the fields where a frame is
/// read, and nothing otherwise.
pub proof fn calls_have_their_replies(call: FfmpegCall<'_>, reply: Reply)
    ensures
        call is FindDecoder ==> (call.answered_by(reply) <==> reply is Pointer),
        call is AllocContext ==> (call.answered_by(reply) <==> reply is Pointer),
        call is AllocPacket ==> (call.answered_by(reply) <==> reply is Pointer),
        call is AllocFrame ==> (call.answered_by(reply) <==> reply is Pointer),
        call is GetSws ==> (call.answered_by(reply) <==> reply is Pointer),
        call is OpenCodec ==> (call.answered_by(reply) <==> reply is Code),
        call is SendPacket ==> (call.answered_by(reply) <==> reply is Code),
        call is ReceiveFrame ==> (call.answered_by(reply) <==> reply is Code),
        call is ImageBufferSize ==> (call.answered_by(reply) <==> reply is Code),
        call is ImageFillArrays ==> (call.answered_by(reply) <==> reply is Code),
        call is Scale ==> (call.answered_by(reply) <==> reply is Code),
        call is ReadFrame ==> (call.answered_by(reply) <==> reply is Frame),
        call is ConfigureThreads ==> (call.answered_by(reply) <==> reply is Done),
        call is FreeContext ==> (call.answered_by(reply) <==> reply is Done),
        call is FreePacket ==> (call.answered_by(reply) <==> reply is Done),
        call is FreeFrame ==> (call.answered_by(reply) <==> reply is Done),
        call is FillPacket ==> (call.answered_by(reply) <==> reply is Done),
        call is ClearPacket ==> (call.answered_by(reply) <==> reply is Done),
        call is UnrefFrame ==> (call.answered_by(reply) <==> reply is Done),
        call is FreeSws ==> (call.answered_by(reply) <==> reply is Done),
        call is FlushBuffers ==> (call.answered_by(reply) <==> reply is Done),
{
}

/// The decoder's own formats are FFmpeg's numbers 0 and 23, each as it was chosen.
pub proof fn formats_of_ffmpeg(format: PixelFormat, chosen: MoyuVideoPixelFormat)
    ensures
        format is I420 ==> format.av_pix_fmt() == 0,
        format is Nv12 ==> format.av_pix_fmt() == 23,
        chosen.number() == 0 ==> chosen.pixel_format().av_pix_fmt() == 0,
        chosen.number() == 1 ==> chosen.pixel_format().av_pix_fmt() == 23,
{
}

} // verus!
