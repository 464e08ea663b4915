//! Creating and opening a decoder.
use crate::decoder::{Codec, Decoder, DecoderError, DecoderView, PixelFormat};
use crate::ffi::{decoder_name, ffmpeg_codec, is_eagain, FfmpegCall, Reply, FF_THREAD_FRAME};
use vstd::prelude::*;

verus! {

/// How far the creation of a decoder has come, with the objects that exist by then.
#[derive(Debug, Clone, Copy, PartialEq, Eq)]
pub enum SetupPhase {
    FindDecoder,
    AllocContext { av_codec: usize },
    ConfigureThreads { av_codec: usize, codec_ctx: usize },
    OpenCodec { av_codec: usize, codec_ctx: usize },
    AllocPacket { codec_ctx: usize },
    AllocFrame { codec_ctx: usize, packet: usize },
    AllocDstFrame { codec_ctx: usize, packet: usize, av_frame: usize },
}

/// A decoder that is being created.
#[derive(Debug, Clone, Copy, PartialEq, Eq)]
pub struct DecoderSetup {
    pub codec: Codec,
    pub output_format: PixelFormat,
    pub thread_count: i32,
    /// The platform's `EAGAIN`.
    pub eagain: i32,
    pub phase: SetupPhase,
}

/// Where the creation of a decoder stands after a reply.
pub enum SetupProgress {
    /// There is a call to carry out.
    Pending(DecoderSetup),
    /// The decoder is open.
    Ready(Decoder),
    /// It cannot be had. What was allocated for it is still to be freed by `cleanup`, call by
    /// call.
    Failed { error: DecoderError, cleanup: Vec<FfmpegCall<'static>> },
}

/// What a [`SetupProgress`] holds.
#[verifier::ext_equal]
pub enum SetupNext {
    Pending(DecoderSetup),
    Ready(DecoderView),
    Failed(DecoderError, Seq<FfmpegCall<'static>>),
}

impl View for SetupProgress {
    type V = SetupNext;

    open spec fn view(&self) -> SetupNext {
        match self {
            SetupProgress::Pending(setup) => SetupNext::Pending(*setup),
            SetupProgress::Ready(decoder) => SetupNext::Ready(decoder@),
            SetupProgress::Failed { error, cleanup } => SetupNext::Failed(*error, cleanup@),
        }
    }
}

impl DecoderSetup {
    /// The objects that the phase names exist.
    pub open spec fn wf(self) -> bool {
        &&& is_eagain(self.eagain)
        &&& match self.phase {
            SetupPhase::FindDecoder => true,
            SetupPhase::AllocContext { av_codec } => av_codec != 0,
            SetupPhase::ConfigureThreads { av_codec, codec_ctx } => av_codec != 0 && codec_ctx != 0,
            SetupPhase::OpenCodec { av_codec, codec_ctx } => av_codec != 0 && codec_ctx != 0,
            SetupPhase::AllocPacket { codec_ctx } => codec_ctx != 0,
            SetupPhase::AllocFrame { codec_ctx, packet } => codec_ctx != 0 && packet != 0,
            SetupPhase::AllocDstFrame { codec_ctx, packet, av_frame } => codec_ctx != 0 && packet
                != 0 && av_frame != 0,
        }
    }

    /// The same creation in another phase.
    pub open spec fn at(self, phase: SetupPhase) -> DecoderSetup {
        DecoderSetup { phase, ..self }
    }

    /// The call that the phase is about.
    pub open spec fn next_call(self) -> FfmpegCall<'static> {
        match self.phase {
            SetupPhase::FindDecoder => FfmpegCall::FindDecoder {
                name: ffmpeg_codec(self.codec),
            },
            SetupPhase::AllocContext { av_codec } => FfmpegCall::AllocContext { av_codec },
            SetupPhase::ConfigureThreads { codec_ctx, .. } => FfmpegCall::ConfigureThreads {
                codec_ctx,
                thread_count: self.thread_count,
                thread_type: FF_THREAD_FRAME,
            },
            SetupPhase::OpenCodec { av_codec, codec_ctx } => FfmpegCall::OpenCodec {
                codec_ctx,
                av_codec,
            },
            SetupPhase::AllocPacket { .. } => FfmpegCall::AllocPacket,
            SetupPhase::AllocFrame { .. } => FfmpegCall::AllocFrame,
            SetupPhase::AllocDstFrame { .. } => FfmpegCall::AllocFrame,
        }
    }

    /// What becomes of the creation when the call of its phase brings `reply`.
    pub open spec fn after(self, reply: Reply) -> SetupNext {
        let pointer = reply->Pointer_0;
        match self.phase {
            SetupPhase::FindDecoder => if pointer == 0 {
                SetupNext::Failed(DecoderError::CodecNotFound, seq![])
            } else {
                SetupNext::Pending(self.at(SetupPhase::AllocContext { av_codec: pointer }))
            },
            SetupPhase::AllocContext { av_codec } => if pointer == 0 {
                SetupNext::Failed(DecoderError::AllocationFailed, seq![])
            } else {
                SetupNext::Pending(
                    self.at(SetupPhase::ConfigureThreads { av_codec, codec_ctx: pointer }),
                )
            },
            SetupPhase::ConfigureThreads { av_codec, codec_ctx } => SetupNext::Pending(
                self.at(SetupPhase::OpenCodec { av_codec, codec_ctx }),
            ),
            SetupPhase::OpenCodec { codec_ctx, .. } => if reply->Code_0 < 0 {
                SetupNext::Failed(
                    DecoderError::FfmpegError(reply->Code_0),
                    seq![FfmpegCall::FreeContext { codec_ctx }],
                )
            } else {
                SetupNext::Pending(self.at(SetupPhase::AllocPacket { codec_ctx }))
            },
            SetupPhase::AllocPacket { codec_ctx } => if pointer == 0 {
                SetupNext::Failed(
                    DecoderError::AllocationFailed,
                    seq![FfmpegCall::FreeContext { codec_ctx }],
                )
            } else {
                SetupNext::Pending(self.at(SetupPhase::AllocFrame { codec_ctx, packet: pointer }))
            },
            SetupPhase::AllocFrame { codec_ctx, packet } => if pointer == 0 {
                SetupNext::Failed(
                    DecoderError::AllocationFailed,
                    seq![
                        FfmpegCall::FreePacket { packet },
                        FfmpegCall::FreeContext { codec_ctx },
                    ],
                )
            } else {
                SetupNext::Pending(
                    self.at(SetupPhase::AllocDstFrame { codec_ctx, packet, av_frame: pointer }),
                )
            },
            SetupPhase::AllocDstFrame { codec_ctx, packet, av_frame } => if pointer == 0 {
                SetupNext::Failed(
                    DecoderError::AllocationFailed,
                    seq![
                        FfmpegCall::FreeFrame { frame: av_frame },
                        FfmpegCall::FreePacket { packet },
                        FfmpegCall::FreeContext { codec_ctx },
                    ],
                )
            } else {
                SetupNext::Ready(
                    DecoderView::fresh(
                        codec_ctx,
                        packet,
                        av_frame,
                        pointer,
                        self.output_format,
                        self.eagain,
                    ),
                )
            },
        }
    }

    /// The call to carry out next.
    pub fn call(&self) -> (call: FfmpegCall<'static>)
        ensures
            call == self.next_call(),
    {
        match self.phase {
            SetupPhase::FindDecoder => FfmpegCall::FindDecoder {
                name: decoder_name(self.codec),
            },
            SetupPhase::AllocContext { av_codec } => FfmpegCall::AllocContext { av_codec },
            SetupPhase::ConfigureThreads { codec_ctx, .. } => FfmpegCall::ConfigureThreads {
                codec_ctx,
                thread_count: self.thread_count,
                thread_type: FF_THREAD_FRAME,
            },
            SetupPhase::OpenCodec { av_codec, codec_ctx } => FfmpegCall::OpenCodec {
                codec_ctx,
                av_codec,
            },
            SetupPhase::AllocPacket { .. } => FfmpegCall::AllocPacket,
            SetupPhase::AllocFrame { .. } => FfmpegCall::AllocFrame,
            SetupPhase::AllocDstFrame { .. } => FfmpegCall::AllocFrame,
        }
    }

    /// Takes the reply to the call.
    pub fn resume(self, reply: Reply) -> (progress: SetupProgress)
        requires
            self.wf(),
            self.next_call().answered_by(reply),
        ensures
            progress@ == self.after(reply),
            progress matches SetupProgress::Pending(setup) ==> setup.wf(),
            progress matches SetupProgress::Ready(decoder) ==> decoder@.wf(),
    {
        let pointer: usize = match reply {
            Reply::Pointer(p) => p,
            _ => 0,
        };
        let code: i32 = match reply {
            Reply::Code(c) => c,
            _ => 0,
        };
        let mut next = self;
        let mut cleanup: Vec<FfmpegCall<'static>> = Vec::new();
        let error = DecoderError::AllocationFailed;
        match self.phase {
            SetupPhase::FindDecoder => {
                if pointer == 0 {
                    return SetupProgress::Failed { error: DecoderError::CodecNotFound, cleanup };
                }
                next.phase = SetupPhase::AllocContext { av_codec: pointer };
            },
            SetupPhase::AllocContext { av_codec } => {
                if pointer == 0 {
                    return SetupProgress::Failed { error, cleanup };
                }
                next.phase = SetupPhase::ConfigureThreads { av_codec, codec_ctx: pointer };
            },
            SetupPhase::ConfigureThreads { av_codec, codec_ctx } => {
                next.phase = SetupPhase::OpenCodec { av_codec, codec_ctx };
            },
            SetupPhase::OpenCodec { codec_ctx, .. } => {
                if code < 0 {
                    cleanup.push(FfmpegCall::FreeContext { codec_ctx });
                    return SetupProgress::Failed {
                        error: DecoderError::FfmpegError(code),
                        cleanup,
                    };
                }
                next.phase = SetupPhase::AllocPacket { codec_ctx };
            },
            SetupPhase::AllocPacket { codec_ctx } => {
                if pointer == 0 {
                    cleanup.push(FfmpegCall::FreeContext { codec_ctx });
                    return SetupProgress::Failed { error, cleanup };
                }
                next.phase = SetupPhase::AllocFrame { codec_ctx, packet: pointer };
            },
            SetupPhase::AllocFrame { codec_ctx, packet } => {
                if pointer == 0 {
                    cleanup.push(FfmpegCall::FreePacket { packet });
                    cleanup.push(FfmpegCall::FreeContext { codec_ctx });
                    return SetupProgress::Failed { error, cleanup };
                }
                next.phase = SetupPhase::AllocDstFrame { codec_ctx, packet, av_frame: pointer };
            },
            SetupPhase::AllocDstFrame { codec_ctx, packet, av_frame } => {
                if pointer == 0 {
                    cleanup.push(FfmpegCall::FreeFrame { frame: av_frame });
                    cleanup.push(FfmpegCall::FreePacket { packet });
                    cleanup.push(FfmpegCall::FreeContext { codec_ctx });
                    return SetupProgress::Failed { error, cleanup };
                }
                return SetupProgress::Ready(
                    Decoder::open(
                        codec_ctx,
                        packet,
                        av_frame,
                        pointer,
                        self.output_format,
                        self.eagain,
                    ),
                );
            },
        }
        SetupProgress::Pending(next)
    }
}

/// FFmpeg's replies over a whole creation, call by call.
pub struct SetupReplies {
    pub av_codec: usize,
    pub codec_ctx: usize,
    pub opened: i32,
    pub packet: usize,
    pub av_frame: usize,
    pub dst_frame: usize,
}

impl SetupReplies {
    /// The reply to the call of a phase.
    pub open spec fn to(self, phase: SetupPhase) -> Reply {
        match phase {
            SetupPhase::FindDecoder => Reply::Pointer(self.av_codec),
            SetupPhase::AllocContext { .. } => Reply::Pointer(self.codec_ctx),
            SetupPhase::ConfigureThreads { .. } => Reply::Done,
            SetupPhase::OpenCodec { .. } => Reply::Code(self.opened),
            SetupPhase::AllocPacket { .. } => Reply::Pointer(self.packet),
            SetupPhase::AllocFrame { .. } => Reply::Pointer(self.av_frame),
            SetupPhase::AllocDstFrame { .. } => Reply::Pointer(self.dst_frame),
        }
    }
}

/// How many calls a creation makes at most from a phase on.
pub open spec fn setup_calls_left(phase: SetupPhase) -> nat {
    match phase {
        SetupPhase::FindDecoder => 7,
        SetupPhase::AllocContext { .. } => 6,
        SetupPhase::ConfigureThreads { .. } => 5,
        SetupPhase::OpenCodec { .. } => 4,
        SetupPhase::AllocPacket { .. } => 3,
        SetupPhase::AllocFrame { .. } => 2,
        SetupPhase::AllocDstFrame { .. } => 1,
    }
}

/// Where a creation ends that goes on with the given replies.
pub open spec fn setup_run(setup: DecoderSetup, replies: SetupReplies) -> SetupNext
    decreases setup_calls_left(setup.phase),
{
    match setup.after(replies.to(setup.phase)) {
        SetupNext::Pending(next) => setup_run(next, replies),
        ended => ended,
    }
}

/// The calls that a creation makes that goes on with the given replies.
pub open spec fn setup_calls(setup: DecoderSetup, replies: SetupReplies) -> Seq<
    FfmpegCall<'static>,
>
    decreases setup_calls_left(setup.phase),
{
    seq![setup.next_call()] + match setup.after(replies.to(setup.phase)) {
        SetupNext::Pending(next) => setup_calls(next, replies),
        _ => seq![],
    }
}

/// A creation that succeeds looks FFmpeg's decoder for the codec up, and opens that decoder on a
/// context that has the thread count as it was asked for, and decodes frame by frame. One that
/// fails makes the same calls, up to the one that goes wrong.
pub proof fn creation_calls(setup: DecoderSetup, replies: SetupReplies)
    requires
        setup.phase == SetupPhase::FindDecoder,
    ensures
        ({
            let all = seq![
                FfmpegCall::FindDecoder { name: ffmpeg_codec(setup.codec) },
                FfmpegCall::AllocContext { av_codec: replies.av_codec },
                FfmpegCall::ConfigureThreads {
                    codec_ctx: replies.codec_ctx,
                    thread_count: setup.thread_count,
                    thread_type: FF_THREAD_FRAME,
                },
                FfmpegCall::OpenCodec { codec_ctx: replies.codec_ctx, av_codec: replies.av_codec },
                FfmpegCall::AllocPacket,
                FfmpegCall::AllocFrame,
                FfmpegCall::AllocFrame,
            ];
            setup_calls(setup, replies) == all.take(
                if replies.av_codec == 0 {
                    1
                } else if replies.codec_ctx == 0 {
                    2
                } else if replies.opened < 0 {
                    4
                } else if replies.packet == 0 {
                    5
                } else if replies.av_frame == 0 {
                    6
                } else {
                    7
                },
            )
        }),
{
    reveal_with_fuel(setup_calls, 8);
    let all = seq![
        FfmpegCall::FindDecoder { name: ffmpeg_codec(setup.codec) },
        FfmpegCall::AllocContext { av_codec: replies.av_codec },
        FfmpegCall::ConfigureThreads {
            codec_ctx: replies.codec_ctx,
            thread_count: setup.thread_count,
            thread_type: FF_THREAD_FRAME,
        },
        FfmpegCall::OpenCodec { codec_ctx: replies.codec_ctx, av_codec: replies.av_codec },
        FfmpegCall::AllocPacket,
        FfmpegCall::AllocFrame,
        FfmpegCall::AllocFrame,
    ];
    let calls = setup_calls(setup, replies);
    assert(calls =~= all.take(calls.len() as int));
}

/// A creation that is run to its end, whatever FFmpeg replies, opens a decoder if and only if
/// the codec is found, every allocation succeeds and the codec opens. Otherwise it fails with
/// the error of the first call that went wrong, and frees what was allocated until then in the
/// reverse order of its allocation.
pub proof fn creation_outcome(setup: DecoderSetup, replies: SetupReplies)
    requires
        setup.phase == SetupPhase::FindDecoder,
    ensures
        setup_run(setup, replies) == (if replies.av_codec == 0 {
            SetupNext::Failed(DecoderError::CodecNotFound, seq![])
        } else if replies.codec_ctx == 0 {
            SetupNext::Failed(DecoderError::AllocationFailed, seq![])
        } else if replies.opened < 0 {
            SetupNext::Failed(
                DecoderError::FfmpegError(replies.opened),
                seq![FfmpegCall::FreeContext { codec_ctx: replies.codec_ctx }],
            )
        } else if replies.packet == 0 {
            SetupNext::Failed(
                DecoderError::AllocationFailed,
                seq![FfmpegCall::FreeContext { codec_ctx: replies.codec_ctx }],
            )
        } else if replies.av_frame == 0 {
            SetupNext::Failed(
                DecoderError::AllocationFailed,
                seq![
                    FfmpegCall::FreePacket { packet: replies.packet },
                    FfmpegCall::FreeContext { codec_ctx: replies.codec_ctx },
                ],
            )
        } else if replies.dst_frame == 0 {
            SetupNext::Failed(
                DecoderError::AllocationFailed,
                seq![
                    FfmpegCall::FreeFrame { frame: replies.av_frame },
                    FfmpegCall::FreePacket { packet: replies.packet },
                    FfmpegCall::FreeContext { codec_ctx: replies.codec_ctx },
                ],
            )
        } else {
            SetupNext::Ready(
                DecoderView::fresh(
                    replies.codec_ctx,
                    replies.packet,
                    replies.av_frame,
                    replies.dst_frame,
                    setup.output_format,
                    setup.eagain,
                ),
            )
        }),
{
    reveal_with_fuel(setup_run, 8);
}

} // verus!
