//! Sending a packet.
use crate::decoder::{Decoder, DecoderError, DecoderView};
use crate::ffi::{averror_eof, FfmpegCall, Reply, AVERROR, EOF_TAG};
use vstd::prelude::*;

verus! {

/// How far a sending has come.
#[derive(Debug, Clone, Copy, PartialEq, Eq)]
pub enum SendPhase<'a> {
    /// The end of the stream is to be signalled, by the null packet.
    Drain,
    /// The packet is to be filled in.
    Fill { data: &'a [u8], pts: i64 },
    /// The packet is to be sent.
    Send,
    /// The packet was sent, which returned `ret`, and is to be cleared, so that it does not go
    /// on pointing at the caller's bytes.
    Clear { ret: i32 },
}

/// A packet that is being sent.
pub struct Sending<'a> {
    decoder: Decoder,
    phase: SendPhase<'a>,
}

/// Where a sending stands after a reply.
pub enum SendProgress<'a> {
    /// There is a call to carry out.
    Pending(Sending<'a>),
    /// The sending is over.
    Finished(Decoder, Result<(), DecoderError>),
}

/// What a [`SendProgress`] holds.
pub enum SendNext<'a> {
    Pending(DecoderView, SendPhase<'a>),
    Finished(DecoderView, Result<(), DecoderError>),
}

impl<'a> View for SendProgress<'a> {
    type V = SendNext<'a>;

    open spec fn view(&self) -> SendNext<'a> {
        match self {
            SendProgress::Pending(sending) => SendNext::Pending(sending.decoder(), sending.phase()),
            SendProgress::Finished(decoder, result) => SendNext::Finished(decoder@, *result),
        }
    }
}

/// What signalling the end of the stream amounts to, by FFmpeg's return code. That the end was
/// signalled before is no error.
pub open spec fn drain_result(ret: i32) -> Result<(), DecoderError> {
    if ret < 0 && ret != -EOF_TAG {
        Err(DecoderError::FfmpegError(ret))
    } else {
        Ok(())
    }
}

/// What sending a packet amounts to, by FFmpeg's return code.
pub open spec fn send_result(ret: i32, eagain: i32) -> Result<(), DecoderError> {
    if ret >= 0 {
        Ok(())
    } else if ret == -eagain {
        Err(DecoderError::Again)
    } else {
        Err(DecoderError::FfmpegError(ret))
    }
}

/// The call that a phase is about.
pub open spec fn send_call<'a>(d: DecoderView, phase: SendPhase<'a>) -> FfmpegCall<'a> {
    match phase {
        SendPhase::Drain => FfmpegCall::SendPacket { codec_ctx: d.codec_ctx, packet: 0 },
        SendPhase::Fill { data, pts } => FfmpegCall::FillPacket {
            packet: d.packet,
            data,
            size: data.len() as i32,
            pts,
            dts: pts,
        },
        SendPhase::Send => FfmpegCall::SendPacket { codec_ctx: d.codec_ctx, packet: d.packet },
        SendPhase::Clear { .. } => FfmpegCall::ClearPacket { packet: d.packet },
    }
}

/// What becomes of a sending when the call of its phase brings `reply`.
pub open spec fn send_next<'a>(d: DecoderView, phase: SendPhase<'a>, reply: Reply) -> SendNext<'a> {
    match phase {
        SendPhase::Drain => SendNext::Finished(d, drain_result(reply->Code_0)),
        SendPhase::Fill { .. } => SendNext::Pending(d, SendPhase::Send),
        SendPhase::Send => SendNext::Pending(d, SendPhase::Clear { ret: reply->Code_0 }),
        SendPhase::Clear { ret } => SendNext::Finished(d, send_result(ret, d.eagain)),
    }
}

impl<'a> Sending<'a> {
    /// The decoder that the packet goes to.
    pub closed spec fn decoder(&self) -> DecoderView {
        self.decoder@
    }

    /// How far the sending has come.
    pub closed spec fn phase(&self) -> SendPhase<'a> {
        self.phase
    }

    /// The decoder is as it is between operations.
    pub open spec fn wf(&self) -> bool {
        self.decoder().wf()
    }

    pub(crate) fn start(decoder: Decoder, phase: SendPhase<'a>) -> (sending: Sending<'a>)
        ensures
            sending.decoder() == decoder@,
            sending.phase() == phase,
    {
        Sending { decoder, phase }
    }

    /// The call to carry out next.
    pub fn call(&self) -> (call: FfmpegCall<'a>)
        ensures
            call == send_call(self.decoder(), self.phase()),
    {
        match self.phase {
            SendPhase::Drain => FfmpegCall::SendPacket {
                codec_ctx: self.decoder.codec_ctx(),
                packet: 0,
            },
            SendPhase::Fill { data, pts } => FfmpegCall::FillPacket {
                packet: self.decoder.packet(),
                data,
                size: #[verifier::truncate] (data.len() as i32),
                pts,
                dts: pts,
            },
            SendPhase::Send => FfmpegCall::SendPacket {
                codec_ctx: self.decoder.codec_ctx(),
                packet: self.decoder.packet(),
            },
            SendPhase::Clear { .. } => FfmpegCall::ClearPacket { packet: self.decoder.packet() },
        }
    }

    /// Takes the reply to the call.
    pub fn resume(self, reply: Reply) -> (progress: SendProgress<'a>)
        requires
            self.wf(),
            send_call(self.decoder(), self.phase()).answered_by(reply),
        ensures
            progress@ == send_next(self.decoder(), self.phase(), reply),
            progress matches SendProgress::Pending(sending) ==> sending.wf(),
            progress matches SendProgress::Finished(decoder, _) ==> decoder@.wf(),
    {
        let code: i32 = match reply {
            Reply::Code(c) => c,
            _ => 0,
        };
        match self.phase {
            SendPhase::Drain => {
                if code < 0 && code != averror_eof() {
                    return SendProgress::Finished(
                        self.decoder,
                        Err(DecoderError::FfmpegError(code)),
                    );
                }
                SendProgress::Finished(self.decoder, Ok(()))
            },
            SendPhase::Fill { .. } => SendProgress::Pending(
                Sending { decoder: self.decoder, phase: SendPhase::Send },
            ),
            SendPhase::Send => SendProgress::Pending(
                Sending { decoder: self.decoder, phase: SendPhase::Clear { ret: code } },
            ),
            SendPhase::Clear { ret } => {
                if ret < 0 {
                    if ret == AVERROR(self.decoder.eagain()) {
                        return SendProgress::Finished(self.decoder, Err(DecoderError::Again));
                    }
                    return SendProgress::Finished(
                        self.decoder,
                        Err(DecoderError::FfmpegError(ret)),
                    );
                }
                SendProgress::Finished(self.decoder, Ok(()))
            },
        }
    }
}

/// How many calls a sending makes at most from a phase on.
pub open spec fn send_calls_left(phase: SendPhase<'_>) -> nat {
    match phase {
        SendPhase::Drain => 1,
        SendPhase::Fill { .. } => 3,
        SendPhase::Send => 2,
        SendPhase::Clear { .. } => 1,
    }
}

/// FFmpeg's reply to the call of a phase, where sending returns `ret`.
pub open spec fn send_reply(phase: SendPhase<'_>, ret: i32) -> Reply {
    match phase {
        SendPhase::Drain | SendPhase::Send => Reply::Code(ret),
        _ => Reply::Done,
    }
}

/// The calls that a sending makes, where sending returns `ret`.
pub open spec fn send_calls<'a>(d: DecoderView, phase: SendPhase<'a>, ret: i32) -> Seq<
    FfmpegCall<'a>,
>
    decreases send_calls_left(phase),
{
    seq![send_call(d, phase)] + match send_next(d, phase, send_reply(phase, ret)) {
        SendNext::Pending(next, later) => send_calls(next, later, ret),
        SendNext::Finished(..) => seq![],
    }
}

/// Where a sending ends, where sending returns `ret`.
pub open spec fn send_run<'a>(d: DecoderView, phase: SendPhase<'a>, ret: i32) -> SendNext<'a>
    decreases send_calls_left(phase),
{
    match send_next(d, phase, send_reply(phase, ret)) {
        SendNext::Pending(next, later) => send_run(next, later, ret),
        ended => ended,
    }
}

/// A packet goes to FFmpeg with its bytes, its length and its time stamp, which stands for the
/// time of presentation and of decoding alike. It is cleared whatever FFmpeg said of it, so
/// that it never goes on pointing at the caller's bytes. The decoder is left as it was.
pub proof fn packet_outcome<'a>(d: DecoderView, data: &'a [u8], pts: i64, ret: i32)
    ensures
        send_calls(d, SendPhase::Fill { data, pts }, ret) == seq![
            FfmpegCall::FillPacket {
                packet: d.packet,
                data,
                size: data.len() as i32,
                pts,
                dts: pts,
            },
            FfmpegCall::SendPacket { codec_ctx: d.codec_ctx, packet: d.packet },
            FfmpegCall::ClearPacket { packet: d.packet },
        ],
        data@.len() <= i32::MAX ==> data.len() as i32 == data@.len(),
        send_run(d, SendPhase::Fill { data, pts }, ret) == SendNext::<'a>::Finished(
            d,
            send_result(ret, d.eagain),
        ),
{
    reveal_with_fuel(send_calls, 4);
    reveal_with_fuel(send_run, 4);
    assert(send_calls(d, SendPhase::Fill { data, pts }, ret) =~= seq![
        send_call(d, SendPhase::Fill { data, pts }),
        send_call(d, SendPhase::Send),
        send_call(d, SendPhase::Clear { ret }),
    ]);
}

/// The end of the stream goes to FFmpeg as the null packet, and nothing else does. The decoder
/// is left as it was.
pub proof fn drain_outcome(d: DecoderView, ret: i32)
    ensures
        send_calls(d, SendPhase::Drain, ret) == seq![
            FfmpegCall::SendPacket { codec_ctx: d.codec_ctx, packet: 0 },
        ],
        send_run(d, SendPhase::Drain, ret) == SendNext::Finished(d, drain_result(ret)),
{
    reveal_with_fuel(send_calls, 2);
    reveal_with_fuel(send_run, 2);
    assert(send_calls(d, SendPhase::Drain, ret) =~= seq![send_call(d, SendPhase::Drain)]);
}

} // verus!
