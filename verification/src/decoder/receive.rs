//! Receiving a frame.
use crate::decoder::{
    frame_from, frame_over, picture_in, Decoder, DecoderError, DecoderView, Frame, Picture,
    PixelFormat,
};
use crate::ffi::{averror_eof, AvFrame, FfmpegCall, Reply, AVERROR, EOF_TAG};
use vstd::prelude::*;

verus! {

/// How far a receiving has come.
#[derive(Debug, Clone, Copy, PartialEq, Eq)]
pub enum ReceivePhase {
    /// The last decoded frame is to be let go.
    Unref,
    /// The next frame is to be asked for.
    Receive,
    /// The decoded frame is to be looked at.
    Inspect,
    /// The conversion context does not fit the picture, and is to be freed.
    FreeSws { picture: Picture },
    /// A conversion context for the picture is to be made.
    MakeSws { picture: Picture },
    /// The size of the converted picture is to be asked for.
    Measure { picture: Picture },
    /// The planes are to be laid out in the buffer; the picture takes `needed` bytes.
    Fill { picture: Picture, needed: usize },
    /// The picture is to be converted.
    Scale { picture: Picture, needed: usize },
    /// The planes of the converted picture are to be looked at.
    ReadPlanes { picture: Picture, needed: usize },
}

/// A frame that is being received.
pub struct Receiving {
    decoder: Decoder,
    phase: ReceivePhase,
}

/// Where a receiving stands after a reply.
pub enum ReceiveProgress {
    /// There is a call to carry out.
    Pending(Receiving),
    /// The receiving is over.
    Finished(Decoder, Result<Frame, DecoderError>),
}

/// What a [`ReceiveProgress`] holds.
pub enum ReceiveNext {
    Pending(DecoderView, ReceivePhase),
    Finished(DecoderView, Result<Frame, DecoderError>),
}

impl View for ReceiveProgress {
    type V = ReceiveNext;

    open spec fn view(&self) -> ReceiveNext {
        match self {
            ReceiveProgress::Pending(receiving) => ReceiveNext::Pending(
                receiving.decoder(),
                receiving.phase(),
            ),
            ReceiveProgress::Finished(decoder, result) => ReceiveNext::Finished(decoder@, *result),
        }
    }
}

/// The error that FFmpeg's return code stands for when a frame was asked for.
pub open spec fn receive_error(ret: i32, eagain: i32) -> Option<DecoderError> {
    if ret == -eagain {
        Some(DecoderError::Again)
    } else if ret == -EOF_TAG {
        Some(DecoderError::Eof)
    } else if ret < 0 {
        Some(DecoderError::FfmpegError(ret))
    } else {
        None
    }
}

/// The call that a phase is about.
pub open spec fn receive_call(d: DecoderView, phase: ReceivePhase) -> FfmpegCall<'static> {
    match phase {
        ReceivePhase::Unref => FfmpegCall::UnrefFrame { frame: d.av_frame },
        ReceivePhase::Receive => FfmpegCall::ReceiveFrame {
            codec_ctx: d.codec_ctx,
            frame: d.av_frame,
        },
        ReceivePhase::Inspect => FfmpegCall::ReadFrame { frame: d.av_frame },
        ReceivePhase::FreeSws { .. } => FfmpegCall::FreeSws { sws_ctx: d.sws_ctx },
        ReceivePhase::MakeSws { picture } => FfmpegCall::GetSws {
            params: picture.conversion(d.dst_fmt()),
        },
        ReceivePhase::Measure { picture } => FfmpegCall::ImageBufferSize {
            format: d.dst_fmt(),
            width: picture.width,
            height: picture.height,
            align: 1,
        },
        ReceivePhase::Fill { picture, .. } => FfmpegCall::ImageFillArrays {
            frame: d.dst_frame,
            len: d.dst_buf.len() as usize,
            format: d.dst_fmt(),
            width: picture.width,
            height: picture.height,
            align: 1,
        },
        ReceivePhase::Scale { picture, .. } => FfmpegCall::Scale {
            sws_ctx: d.sws_ctx,
            src_frame: d.av_frame,
            first_row: 0,
            rows: picture.height,
            dst_frame: d.dst_frame,
        },
        ReceivePhase::ReadPlanes { .. } => FfmpegCall::ReadFrame { frame: d.dst_frame },
    }
}

/// The phase in which a picture that has to be converted goes on.
pub open spec fn conversion_start(d: DecoderView, picture: Picture) -> ReceivePhase {
    if !d.needs_new_sws(picture) {
        ReceivePhase::Measure { picture }
    } else if d.sws_ctx != 0 {
        ReceivePhase::FreeSws { picture }
    } else {
        ReceivePhase::MakeSws { picture }
    }
}

/// What becomes of a receiving when the call of its phase brings `reply`.
pub open spec fn receive_next(d: DecoderView, phase: ReceivePhase, reply: Reply) -> ReceiveNext {
    match phase {
        ReceivePhase::Unref => ReceiveNext::Pending(d, ReceivePhase::Receive),
        ReceivePhase::Receive => match receive_error(reply->Code_0, d.eagain) {
            Some(error) => ReceiveNext::Finished(d, Err(error)),
            None => ReceiveNext::Pending(d, ReceivePhase::Inspect),
        },
        ReceivePhase::Inspect => {
            let fields = reply->Frame_0;
            let picture = picture_in(fields);
            if picture.src_fmt == d.dst_fmt() {
                ReceiveNext::Finished(d, Ok(frame_over(fields, picture, d.output_format)))
            } else {
                ReceiveNext::Pending(d, conversion_start(d, picture))
            }
        },
        ReceivePhase::FreeSws { picture } => ReceiveNext::Pending(
            d.without_sws(),
            ReceivePhase::MakeSws { picture },
        ),
        ReceivePhase::MakeSws { picture } => if reply->Pointer_0 == 0 {
            ReceiveNext::Finished(d, Err(DecoderError::AllocationFailed))
        } else {
            ReceiveNext::Pending(
                d.with_sws(reply->Pointer_0, picture),
                ReceivePhase::Measure { picture },
            )
        },
        ReceivePhase::Measure { picture } => ReceiveNext::Pending(
            d.with_dst_buf(reply->Code_0 as nat, picture),
            ReceivePhase::Fill { picture, needed: reply->Code_0 as usize },
        ),
        ReceivePhase::Fill { picture, needed } => ReceiveNext::Pending(
            d,
            ReceivePhase::Scale { picture, needed },
        ),
        ReceivePhase::Scale { picture, needed } => ReceiveNext::Pending(
            d,
            ReceivePhase::ReadPlanes { picture, needed },
        ),
        ReceivePhase::ReadPlanes { picture, .. } => ReceiveNext::Finished(
            d,
            Ok(frame_over(reply->Frame_0, picture, d.output_format)),
        ),
    }
}

/// The conversion context converts the picture, and the picture needs converting.
pub open spec fn context_fits(d: DecoderView, picture: Picture) -> bool {
    &&& picture.src_fmt != d.dst_fmt()
    &&& d.sws_ctx != 0
    &&& d.sws_src_fmt == picture.src_fmt
    &&& d.sws_made_for == Some(picture.conversion(d.dst_fmt()))
}

/// The buffer holds the converted picture, and the geometry kept with it is the picture's.
pub open spec fn buffer_fits(d: DecoderView, picture: Picture, needed: usize) -> bool {
    &&& d.dst_buf.len() >= needed
    &&& d.dst_width == picture.width
    &&& d.dst_height == picture.height
}

/// The invariant of a receiving, phase by phase.
pub open spec fn receive_wf(d: DecoderView, phase: ReceivePhase) -> bool {
    &&& d.objects_exist()
    &&& match phase {
        ReceivePhase::Unref | ReceivePhase::Receive | ReceivePhase::Inspect => d.cache_is_true(),
        ReceivePhase::FreeSws { picture } => d.cache_is_true() && d.sws_ctx != 0 && picture.src_fmt
            != d.dst_fmt(),
        ReceivePhase::MakeSws { picture } => d.sws_ctx == 0 && picture.src_fmt != d.dst_fmt(),
        ReceivePhase::Measure { picture } => context_fits(d, picture),
        ReceivePhase::Fill { picture, needed }
        | ReceivePhase::Scale { picture, needed }
        | ReceivePhase::ReadPlanes { picture, needed } => context_fits(d, picture) && buffer_fits(
            d,
            picture,
            needed,
        ),
    }
}

impl Receiving {
    /// The decoder that the frame comes from.
    pub closed spec fn decoder(&self) -> DecoderView {
        self.decoder@
    }

    /// How far the receiving has come.
    pub closed spec fn phase(&self) -> ReceivePhase {
        self.phase
    }

    /// The invariant of a receiving.
    pub open spec fn wf(&self) -> bool {
        receive_wf(self.decoder(), self.phase())
    }

    pub(crate) fn start(decoder: Decoder) -> (receiving: Receiving)
        ensures
            receiving.decoder() == decoder@,
            receiving.phase() == ReceivePhase::Unref,
    {
        Receiving { decoder, phase: ReceivePhase::Unref }
    }

    /// The call to carry out next.
    pub fn call(&self) -> (call: FfmpegCall<'static>)
        ensures
            call == receive_call(self.decoder(), self.phase()),
    {
        let d = &self.decoder;
        match &self.phase {
            ReceivePhase::Unref => FfmpegCall::UnrefFrame { frame: d.av_frame() },
            ReceivePhase::Receive => FfmpegCall::ReceiveFrame {
                codec_ctx: d.codec_ctx(),
                frame: d.av_frame(),
            },
            ReceivePhase::Inspect => FfmpegCall::ReadFrame { frame: d.av_frame() },
            ReceivePhase::FreeSws { .. } => FfmpegCall::FreeSws { sws_ctx: d.sws_ctx() },
            ReceivePhase::MakeSws { picture } => FfmpegCall::GetSws {
                params: picture.sws_params(d.output_format().as_av_pix_fmt()),
            },
            ReceivePhase::Measure { picture } => FfmpegCall::ImageBufferSize {
                format: d.output_format().as_av_pix_fmt(),
                width: picture.width,
                height: picture.height,
                align: 1,
            },
            ReceivePhase::Fill { picture, .. } => self.setup_dst_frame_planes(picture),
            ReceivePhase::Scale { picture, .. } => FfmpegCall::Scale {
                sws_ctx: d.sws_ctx(),
                src_frame: d.av_frame(),
                first_row: 0,
                rows: picture.height,
                dst_frame: d.dst_frame(),
            },
            ReceivePhase::ReadPlanes { .. } => FfmpegCall::ReadFrame { frame: d.dst_frame() },
        }
    }

    /// The call that lays the planes of the converted picture out in the decoder's buffer.
    fn setup_dst_frame_planes(&self, picture: &Picture) -> (call: FfmpegCall<'static>)
        ensures
            call == (FfmpegCall::ImageFillArrays {
                frame: self.decoder().dst_frame,
                len: self.decoder().dst_buf.len() as usize,
                format: self.decoder().dst_fmt(),
                width: picture.width,
                height: picture.height,
                align: 1,
            }),
    {
        FfmpegCall::ImageFillArrays {
            frame: self.decoder.dst_frame(),
            len: self.decoder.dst_len(),
            format: self.decoder.output_format().as_av_pix_fmt(),
            width: picture.width,
            height: picture.height,
            align: 1,
        }
    }

    /// The decoder's own buffer, in which the planes of a converted picture lie. FFmpeg writes the
    /// picture here when it converts it, before its reply is taken.
    pub fn dst_buf_mut(&mut self) -> (buf: &mut [u8])
        ensures
            buf@ == old(self).decoder().dst_buf,
            final(self).decoder() == (DecoderView {
                dst_buf: final(buf)@,
                ..old(self).decoder()
            }),
            final(self).phase() == old(self).phase(),
            old(self).wf() && final(buf)@.len() == old(self).decoder().dst_buf.len()
                ==> final(self).wf(),
    {
        self.decoder.dst_buf_mut()
    }

    /// Takes the reply to the call.
    ///
    /// The size of a picture, when FFmpeg is asked for it, must not be negative.
    pub fn resume(self, reply: Reply) -> (progress: ReceiveProgress)
        requires
            self.wf(),
            receive_call(self.decoder(), self.phase()).answered_by(reply),
            self.phase() is Measure ==> reply->Code_0 >= 0,
        ensures
            progress@ == receive_next(self.decoder(), self.phase(), reply),
            progress matches ReceiveProgress::Pending(receiving) ==> receiving.wf(),
            progress matches ReceiveProgress::Finished(decoder, _) ==> decoder@.wf(),
    {
        let mut decoder = self.decoder;
        let phase = match self.phase {
            ReceivePhase::Unref => ReceivePhase::Receive,
            ReceivePhase::Receive => {
                let ret: i32 = match reply {
                    Reply::Code(c) => c,
                    _ => 0,
                };
                if ret == AVERROR(decoder.eagain()) {
                    return ReceiveProgress::Finished(decoder, Err(DecoderError::Again));
                }
                if ret == averror_eof() {
                    return ReceiveProgress::Finished(decoder, Err(DecoderError::Eof));
                }
                if ret < 0 {
                    return ReceiveProgress::Finished(decoder, Err(DecoderError::FfmpegError(ret)));
                }
                ReceivePhase::Inspect
            },
            ReceivePhase::Inspect => match reply {
                Reply::Frame(fields) => {
                    let picture = Picture {
                        src_fmt: fields.format,
                        width: fields.width,
                        height: fields.height,
                        pts: fields.pts,
                    };
                    let format = decoder.output_format();
                    if picture.src_fmt == format.as_av_pix_fmt() {
                        let frame = frame_from(&fields, &picture, format);
                        return ReceiveProgress::Finished(decoder, Ok(frame));
                    }
                    if !decoder.ensure_sws_ctx(&picture) {
                        ReceivePhase::Measure { picture }
                    } else if decoder.sws_ctx() != 0 {
                        ReceivePhase::FreeSws { picture }
                    } else {
                        ReceivePhase::MakeSws { picture }
                    }
                },
                _ => self.phase,
            },
            ReceivePhase::FreeSws { picture } => {
                decoder.clear_sws_ctx();
                ReceivePhase::MakeSws { picture }
            },
            ReceivePhase::MakeSws { picture } => {
                let sws_ctx: usize = match reply {
                    Reply::Pointer(p) => p,
                    _ => 0,
                };
                if sws_ctx == 0 {
                    return ReceiveProgress::Finished(decoder, Err(DecoderError::AllocationFailed));
                }
                decoder.set_sws_ctx(sws_ctx, &picture);
                ReceivePhase::Measure { picture }
            },
            ReceivePhase::Measure { picture } => {
                let needed: usize = match reply {
                    Reply::Code(c) => c as usize,
                    _ => 0,
                };
                decoder.ensure_dst_buf(needed, &picture);
                ReceivePhase::Fill { picture, needed }
            },
            ReceivePhase::Fill { picture, needed } => ReceivePhase::Scale { picture, needed },
            ReceivePhase::Scale { picture, needed } => ReceivePhase::ReadPlanes { picture, needed },
            ReceivePhase::ReadPlanes { picture, .. } => match reply {
                Reply::Frame(fields) => {
                    let frame = frame_from(&fields, &picture, decoder.output_format());
                    return ReceiveProgress::Finished(decoder, Ok(frame));
                },
                _ => self.phase,
            },
        };
        ReceiveProgress::Pending(Receiving { decoder, phase })
    }
}

/// What FFmpeg does and replies over a whole receiving.
pub struct ReceiveReplies {
    /// What `avcodec_receive_frame` returns.
    pub received: i32,
    /// The fields of the decoded frame.
    pub decoded: AvFrame,
    /// The conversion context that `sws_getContext` makes.
    pub sws_ctx: usize,
    /// What `av_image_get_buffer_size` returns.
    pub size: i32,
    /// What `av_image_fill_arrays` returns.
    pub filled: i32,
    /// What `sws_scale` writes over the decoder's buffer.
    pub pixels: Seq<u8>,
    /// What `sws_scale` returns.
    pub scaled: i32,
    /// The fields of the converted frame.
    pub converted: AvFrame,
}

impl ReceiveReplies {
    /// The reply to the call of a phase.
    pub open spec fn to(self, phase: ReceivePhase) -> Reply {
        match phase {
            ReceivePhase::Unref => Reply::Done,
            ReceivePhase::Receive => Reply::Code(self.received),
            ReceivePhase::Inspect => Reply::Frame(self.decoded),
            ReceivePhase::FreeSws { .. } => Reply::Done,
            ReceivePhase::MakeSws { .. } => Reply::Pointer(self.sws_ctx),
            ReceivePhase::Measure { .. } => Reply::Code(self.size),
            ReceivePhase::Fill { .. } => Reply::Code(self.filled),
            ReceivePhase::Scale { .. } => Reply::Code(self.scaled),
            ReceivePhase::ReadPlanes { .. } => Reply::Frame(self.converted),
        }
    }
}

/// How many calls a receiving makes at most from a phase on.
pub open spec fn receive_calls_left(phase: ReceivePhase) -> nat {
    match phase {
        ReceivePhase::Unref => 9,
        ReceivePhase::Receive => 8,
        ReceivePhase::Inspect => 7,
        ReceivePhase::FreeSws { .. } => 6,
        ReceivePhase::MakeSws { .. } => 5,
        ReceivePhase::Measure { .. } => 4,
        ReceivePhase::Fill { .. } => 3,
        ReceivePhase::Scale { .. } => 2,
        ReceivePhase::ReadPlanes { .. } => 1,
    }
}

/// The decoder when the call of a phase has been carried out: a conversion writes the picture to
/// the decoder's buffer, and no other call changes anything of the decoder's own.
pub open spec fn carried_out(
    d: DecoderView,
    phase: ReceivePhase,
    replies: ReceiveReplies,
) -> DecoderView {
    if phase is Scale {
        d.with_pixels(replies.pixels)
    } else {
        d
    }
}

/// The calls that a receiving makes that goes on with the given replies.
pub open spec fn receive_calls(d: DecoderView, phase: ReceivePhase, replies: ReceiveReplies) -> Seq<
    FfmpegCall<'static>,
>
    decreases receive_calls_left(phase),
{
    seq![receive_call(d, phase)] + match receive_next(
        carried_out(d, phase, replies),
        phase,
        replies.to(phase),
    ) {
        ReceiveNext::Pending(next, later) => receive_calls(next, later, replies),
        ReceiveNext::Finished(..) => seq![],
    }
}

/// Where a receiving ends that goes on with the given replies.
pub open spec fn receive_run(
    d: DecoderView,
    phase: ReceivePhase,
    replies: ReceiveReplies,
) -> ReceiveNext
    decreases receive_calls_left(phase),
{
    match receive_next(carried_out(d, phase, replies), phase, replies.to(phase)) {
        ReceiveNext::Pending(next, later) => receive_run(next, later, replies),
        ended => ended,
    }
}

/// A receiving that is run to its end, whatever FFmpeg replies, ends in one of these ways.
/// - FFmpeg has no frame: with the error that its code stands for. The decoder is left as it
///   was.
/// - The frame is in the output format already: with the frame as FFmpeg decoded it. The
///   decoder is left as it was.
/// - A conversion context is needed and cannot be had: with a failed allocation. The decoder is
///   left without a context.
/// - Otherwise: with the converted frame. The decoder keeps a context and a buffer that fit it,
///   with the picture as FFmpeg wrote it to the buffer.
pub proof fn frame_outcome(d: DecoderView, replies: ReceiveReplies)
    requires
        replies.size >= 0,
    ensures
        receive_run(d, ReceivePhase::Unref, replies) == {
            let picture = picture_in(replies.decoded);
            let kept = if d.needs_new_sws(picture) {
                d.with_sws(replies.sws_ctx, picture)
            } else {
                d
            };
            match receive_error(replies.received, d.eagain) {
                Some(error) => ReceiveNext::Finished(d, Err(error)),
                None => if picture.src_fmt == d.dst_fmt() {
                    ReceiveNext::Finished(
                        d,
                        Ok(frame_over(replies.decoded, picture, d.output_format)),
                    )
                } else if d.needs_new_sws(picture) && replies.sws_ctx == 0 {
                    ReceiveNext::Finished(
                        if d.sws_ctx != 0 {
                            d.without_sws()
                        } else {
                            d
                        },
                        Err(DecoderError::AllocationFailed),
                    )
                } else {
                    ReceiveNext::Finished(
                        kept.with_dst_buf(replies.size as nat, picture).with_pixels(replies.pixels),
                        Ok(frame_over(replies.converted, picture, d.output_format)),
                    )
                },
            }
        },
{
    reveal_with_fuel(receive_run, 10);
    let picture = picture_in(replies.decoded);
    assert(d.without_sws().with_sws(replies.sws_ctx, picture) == d.with_sws(
        replies.sws_ctx,
        picture,
    ));
}

/// A frame that FFmpeg decodes into the output format is handed out without a copy: no call
/// converts it.
pub proof fn frames_in_the_output_format_are_not_copied(d: DecoderView, replies: ReceiveReplies)
    requires
        receive_error(replies.received, d.eagain) is None,
        replies.decoded.format == d.dst_fmt(),
    ensures
        receive_calls(d, ReceivePhase::Unref, replies) == seq![
            FfmpegCall::UnrefFrame { frame: d.av_frame },
            FfmpegCall::ReceiveFrame { codec_ctx: d.codec_ctx, frame: d.av_frame },
            FfmpegCall::ReadFrame { frame: d.av_frame },
        ],
{
    reveal_with_fuel(receive_calls, 4);
    assert(receive_calls(d, ReceivePhase::Unref, replies) =~= seq![
        receive_call(d, ReceivePhase::Unref),
        receive_call(d, ReceivePhase::Receive),
        receive_call(d, ReceivePhase::Inspect),
    ]);
}

/// Once a frame has been converted, a frame of the same format and size is converted by the same
/// context, which is neither freed nor made anew; and where it takes no more bytes, nothing of the
/// decoder changes but the picture in its buffer. A picture of no size at all, for which no buffer is needed, is left out where
/// it is the first that the decoder converts: it is not remembered.
pub proof fn conversions_are_reused(d: DecoderView, first: ReceiveReplies, second: ReceiveReplies)
    requires
        d.wf(),
        first.size >= 0,
        second.size >= 0,
        receive_error(first.received, d.eagain) is None,
        receive_error(second.received, d.eagain) is None,
        first.decoded.format != d.dst_fmt(),
        d.needs_new_sws(picture_in(first.decoded)) ==> first.sws_ctx != 0,
        second.decoded.format == first.decoded.format,
        second.decoded.width == first.decoded.width,
        second.decoded.height == first.decoded.height,
        d.dst_format == d.dst_fmt() || first.size > 0 || first.decoded.width != 0
            || first.decoded.height != 0,
    ensures
        receive_run(d, ReceivePhase::Unref, first) matches ReceiveNext::Finished(after, _) && {
            let again = ReceivePhase::Unref;
            let picture = picture_in(second.decoded);
            &&& receive_calls(after, again, second) == seq![
                FfmpegCall::UnrefFrame { frame: d.av_frame },
                FfmpegCall::ReceiveFrame { codec_ctx: d.codec_ctx, frame: d.av_frame },
                FfmpegCall::ReadFrame { frame: d.av_frame },
                FfmpegCall::ImageBufferSize {
                    format: d.dst_fmt(),
                    width: picture.width,
                    height: picture.height,
                    align: 1,
                },
                FfmpegCall::ImageFillArrays {
                    frame: d.dst_frame,
                    len: after.with_dst_buf(second.size as nat, picture).dst_buf.len() as usize,
                    format: d.dst_fmt(),
                    width: picture.width,
                    height: picture.height,
                    align: 1,
                },
                FfmpegCall::Scale {
                    sws_ctx: after.sws_ctx,
                    src_frame: d.av_frame,
                    first_row: 0,
                    rows: picture.height,
                    dst_frame: d.dst_frame,
                },
                FfmpegCall::ReadFrame { frame: d.dst_frame },
            ]
            &&& second.size <= first.size ==> receive_run(after, again, second)
                == ReceiveNext::Finished(
                after.with_pixels(second.pixels),
                Ok(frame_over(second.converted, picture, d.output_format)),
            )
        },
{
    frame_outcome(d, first);
    let after = receive_run(d, ReceivePhase::Unref, first)->Finished_0;
    frame_outcome(after, second);
    reveal_with_fuel(receive_calls, 10);
    let picture = picture_in(second.decoded);
    let needed = second.size as usize;
    let filled = after.with_dst_buf(second.size as nat, picture);
    let converted = filled.with_pixels(second.pixels);
    assert(receive_calls(after, ReceivePhase::Unref, second) =~= seq![
        receive_call(after, ReceivePhase::Unref),
        receive_call(after, ReceivePhase::Receive),
        receive_call(after, ReceivePhase::Inspect),
        receive_call(after, ReceivePhase::Measure { picture }),
        receive_call(filled, ReceivePhase::Fill { picture, needed }),
        receive_call(filled, ReceivePhase::Scale { picture, needed }),
        receive_call(converted, ReceivePhase::ReadPlanes { picture, needed }),
    ]);
}

/// What FFmpeg writes of a converted picture is what the decoder's buffer holds when the frame is
/// handed out: all of it, where the picture is as large as FFmpeg said.
pub proof fn converted_pixels_are_kept(d: DecoderView, replies: ReceiveReplies)
    requires
        replies.size >= 0,
        replies.pixels.len() == replies.size,
        receive_error(replies.received, d.eagain) is None,
        replies.decoded.format != d.dst_fmt(),
        d.needs_new_sws(picture_in(replies.decoded)) ==> replies.sws_ctx != 0,
    ensures
        receive_run(d, ReceivePhase::Unref, replies) matches ReceiveNext::Finished(after, Ok(_))
            && after.dst_buf.len() >= replies.size && after.dst_buf.take(replies.size as int)
            == replies.pixels,
{
    frame_outcome(d, replies);
    let after = receive_run(d, ReceivePhase::Unref, replies)->Finished_0;
    assert(after.dst_buf.take(replies.size as int) =~= replies.pixels);
}

/// Every frame that is handed out is in the decoder's output format, and has null for the
/// planes that the format does not have.
pub proof fn frames_are_in_the_output_format(d: DecoderView, phase: ReceivePhase, reply: Reply)
    ensures
        receive_next(d, phase, reply) matches ReceiveNext::Finished(_, Ok(frame)) ==> {
            &&& frame.format == d.output_format
            &&& frame.format == PixelFormat::Nv12 ==> frame.planes[2] == 0 && frame.strides[2] == 0
        },
{
}

/// A receiving keeps its invariant from reply to reply, and leaves the decoder with its own. Only
/// the conversion context and the buffer with its geometry ever change.
pub proof fn receiving_keeps_its_invariant(d: DecoderView, phase: ReceivePhase, reply: Reply)
    requires
        receive_wf(d, phase),
        receive_call(d, phase).answered_by(reply),
        phase is Measure ==> reply->Code_0 >= 0,
    ensures
        match receive_next(d, phase, reply) {
            ReceiveNext::Pending(next, later) => receive_wf(next, later) && next.same_decoder(d),
            ReceiveNext::Finished(next, _) => next.wf() && next.same_decoder(d),
        },
{
}

/// A picture is converted by a context that was made for its format and size and for the output
/// format, and by no other; and into a buffer that has the size that FFmpeg asked for, or more.
pub proof fn conversions_are_sound(d: DecoderView, phase: ReceivePhase)
    requires
        receive_wf(d, phase),
    ensures
        phase matches ReceivePhase::Scale { picture, .. } ==> {
            &&& receive_call(d, phase) matches FfmpegCall::Scale { sws_ctx, .. } && sws_ctx
                == d.sws_ctx
            &&& d.sws_made_for == Some(picture.conversion(d.dst_fmt()))
        },
        phase matches ReceivePhase::Fill { needed, .. } ==> d.dst_buf.len() >= needed,
        phase matches ReceivePhase::Scale { needed, .. } ==> d.dst_buf.len() >= needed,
{
}

} // verus!
