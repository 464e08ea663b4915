//! Call after call on one decoder: frames until the end of the stream, and after a flush.
//!
//! What FFmpeg replies is its own affair. The laws here say what is answered where it replies as
//! its documentation promises.
use crate::api::{receive_answer, send_answer, MoyuVideoResult};
use crate::decoder::life::{configuration_stays, life, nothing_leaks, Activity, Move};
use crate::decoder::receive::{
    frame_outcome, receive_run, ReceiveNext, ReceivePhase, ReceiveReplies,
};
use crate::decoder::send::{drain_outcome, packet_outcome, send_run, SendNext, SendPhase};
use crate::decoder::setup::{DecoderSetup, SetupPhase};
use crate::decoder::{picture_in, DecoderError, DecoderView, Frame};
use crate::ffi::EOF_TAG;
use vstd::prelude::*;

verus! {

/// The decoder after frames have been asked for, once for each of `replies`.
pub open spec fn after_frames(d: DecoderView, replies: Seq<ReceiveReplies>) -> DecoderView
    decreases replies.len(),
{
    if replies.len() == 0 {
        d
    } else {
        match receive_run(
            after_frames(d, replies.drop_last()),
            ReceivePhase::Unref,
            replies.last(),
        ) {
            ReceiveNext::Pending(next, _) => next,
            ReceiveNext::Finished(next, _) => next,
        }
    }
}

/// What comes of the request with index `i`, when a frame is asked for once for each of `replies`.
pub open spec fn frame_outcome_at(d: DecoderView, replies: Seq<ReceiveReplies>, i: int) -> Result<
    Frame,
    DecoderError,
> {
    receive_run(after_frames(d, replies.take(i)), ReceivePhase::Unref, replies[i])->Finished_1
}

/// The sizes that FFmpeg gives are not negative.
pub open spec fn have_sizes(replies: Seq<ReceiveReplies>) -> bool {
    forall|i: int| 0 <= i < replies.len() ==> (#[trigger] replies[i]).size >= 0
}

/// FFmpeg does not ask for packets, nor does it fail: it has a frame, or is at the end.
pub open spec fn is_draining(replies: Seq<ReceiveReplies>, eagain: i32) -> bool {
    forall|i: int|
        0 <= i < replies.len() ==> {
            let received = (#[trigger] replies[i]).received;
            received == -EOF_TAG || received >= 0 && received != -eagain
        }
}

/// The replies from index `k` on are that the stream is at its end.
pub open spec fn is_over_from(replies: Seq<ReceiveReplies>, k: int) -> bool {
    forall|i: int| k <= i < replies.len() ==> (#[trigger] replies[i]).received == -EOF_TAG
}

/// Asking for frames keeps the decoder's objects and its format.
proof fn frames_keep_the_decoder(d: DecoderView, replies: Seq<ReceiveReplies>)
    requires
        have_sizes(replies),
    ensures
        after_frames(d, replies).same_decoder(d),
    decreases replies.len(),
{
    if replies.len() > 0 {
        let first = replies.drop_last();
        assert(have_sizes(first)) by {
            assert forall|i: int| 0 <= i < first.len() implies (#[trigger] first[i]).size >= 0 by {
                assert(first[i] == replies[i]);
            }
        }
        frames_keep_the_decoder(d, first);
        frame_outcome(after_frames(d, first), replies.last());
    }
}

/// The replies before an index are like all of them.
proof fn sizes_before(replies: Seq<ReceiveReplies>, i: int)
    requires
        have_sizes(replies),
        0 <= i <= replies.len(),
    ensures
        have_sizes(replies.take(i)),
{
    assert forall|j: int| 0 <= j < i implies (#[trigger] replies.take(i)[j]).size >= 0 by {
        assert(replies.take(i)[j] == replies[j]);
    }
}

/// One request more.
proof fn one_more_frame(d: DecoderView, replies: Seq<ReceiveReplies>, i: int)
    requires
        0 <= i < replies.len(),
    ensures
        after_frames(d, replies.take(i + 1)) == (match receive_run(
            after_frames(d, replies.take(i)),
            ReceivePhase::Unref,
            replies[i],
        ) {
            ReceiveNext::Pending(next, _) => next,
            ReceiveNext::Finished(next, _) => next,
        }),
{
    assert(replies.take(i + 1).drop_last() =~= replies.take(i));
}

/// From the end of the stream on the decoder stays as it is.
proof fn ended_decoders_stay(d: DecoderView, replies: Seq<ReceiveReplies>, k: int, i: int)
    requires
        have_sizes(replies),
        is_draining(replies, d.eagain),
        d.eagain != EOF_TAG,
        is_over_from(replies, k),
        0 <= k <= i <= replies.len(),
    ensures
        after_frames(d, replies.take(i)) == after_frames(d, replies.take(k)),
    decreases i,
{
    if k < i {
        ended_decoders_stay(d, replies, k, i - 1);
        one_more_frame(d, replies, i - 1);
        sizes_before(replies, i - 1);
        frames_keep_the_decoder(d, replies.take(i - 1));
        assert(replies[i - 1].received == -EOF_TAG);
        frame_outcome(after_frames(d, replies.take(i - 1)), replies[i - 1]);
    }
}

/// Once the end of the stream has been signalled, and while FFmpeg delivers what it still holds, no
/// request for a frame is answered with a request for more packets. Each one is answered with the
/// end of the stream where FFmpeg has reached it, and then leaves the decoder as it was; and with
/// success otherwise, unless no conversion context can be had that is needed. Where FFmpeg is at
/// the end from some request on, that is the answer to it and to every further one, and the
/// decoder stays as it is.
pub proof fn draining_answers(d: DecoderView, ret: i32, replies: Seq<ReceiveReplies>)
    requires
        d.wf(),
        ret >= 0 || ret == -EOF_TAG,
        have_sizes(replies),
        is_draining(replies, d.eagain),
    ensures
        send_run(d, SendPhase::Drain, ret) == SendNext::Finished(d, Ok(())),
        forall|i: int|
            0 <= i < replies.len() ==> {
                let before = after_frames(d, replies.take(i));
                let answer = receive_answer(#[trigger] frame_outcome_at(d, replies, i));
                let needs_sws = replies[i].decoded.format != d.dst_fmt() && before.needs_new_sws(
                    picture_in(replies[i].decoded),
                );
                &&& answer != MoyuVideoResult::Again
                &&& answer == (if replies[i].received == -EOF_TAG {
                    MoyuVideoResult::Eof
                } else if needs_sws && replies[i].sws_ctx == 0 {
                    MoyuVideoResult::Error
                } else {
                    MoyuVideoResult::Success
                })
                &&& replies[i].received == -EOF_TAG ==> after_frames(d, replies.take(i + 1))
                    == before
            },
        forall|k: int, i: int|
            0 <= k <= i < replies.len() && is_over_from(replies, k) ==> {
                &&& receive_answer(#[trigger] frame_outcome_at(d, replies, i))
                    == MoyuVideoResult::Eof
                &&& after_frames(d, replies.take(i + 1)) == #[trigger] after_frames(
                    d,
                    replies.take(k),
                )
            },
{
    drain_outcome(d, ret);
    assert forall|i: int| 0 <= i < replies.len() implies {
        let before = after_frames(d, replies.take(i));
        let answer = receive_answer(#[trigger] frame_outcome_at(d, replies, i));
        let needs_sws = replies[i].decoded.format != d.dst_fmt() && before.needs_new_sws(
            picture_in(replies[i].decoded),
        );
        &&& answer != MoyuVideoResult::Again
        &&& answer == (if replies[i].received == -EOF_TAG {
            MoyuVideoResult::Eof
        } else if needs_sws && replies[i].sws_ctx == 0 {
            MoyuVideoResult::Error
        } else {
            MoyuVideoResult::Success
        })
        &&& replies[i].received == -EOF_TAG ==> after_frames(d, replies.take(i + 1)) == before
    } by {
        sizes_before(replies, i);
        frames_keep_the_decoder(d, replies.take(i));
        one_more_frame(d, replies, i);
        frame_outcome(after_frames(d, replies.take(i)), replies[i]);
    }
    assert forall|k: int, i: int|
        0 <= k <= i < replies.len() && is_over_from(replies, k) implies {
        &&& receive_answer(#[trigger] frame_outcome_at(d, replies, i)) == MoyuVideoResult::Eof
        &&& after_frames(d, replies.take(i + 1)) == #[trigger] after_frames(d, replies.take(k))
    } by {
        assert(replies[i].received == -EOF_TAG);
        ended_decoders_stay(d, replies, k, i + 1);
    }
}

/// To signal the end of the stream again is harmless: where FFmpeg says that it knows, the answer is
/// success, and every later request for a frame comes out as it would have without.
pub proof fn a_second_end_changes_nothing(d: DecoderView, replies: Seq<ReceiveReplies>, i: int)
    requires
        0 <= i < replies.len(),
    ensures
        send_run(d, SendPhase::Drain, (-EOF_TAG) as i32) matches SendNext::Finished(again, outcome)
            && {
            &&& send_answer(outcome) == MoyuVideoResult::Success
            &&& again == d
            &&& frame_outcome_at(again, replies, i) == frame_outcome_at(d, replies, i)
        },
{
    drain_outcome(d, (-EOF_TAG) as i32);
}

/// Flushing, whatever happened before, the end of the stream included. FFmpeg is asked to reset
/// itself, and the decoder goes on with its objects and its output format; a second flush changes
/// nothing more. Where FFmpeg then wants packets first, a request for a frame is answered with
/// that, and not with the end of the stream; and where it takes a packet, that is answered with
/// success. Both leave the decoder as it was.
pub proof fn flush_answers<'a>(
    setup: DecoderSetup,
    moves: Seq<Move<'a>>,
    replies: ReceiveReplies,
    data: &'a [u8],
    pts: i64,
    ret: i32,
)
    requires
        setup.wf(),
        setup.phase == SetupPhase::FindDecoder,
        life(setup, moves).lawful,
        life(setup, moves).activity is Idle,
        replies.size >= 0,
    ensures
        life(setup, moves.push(Move::Flush)).lawful,
        life(setup, moves.push(Move::Flush)).activity == life(setup, moves).activity,
        life(setup, moves.push(Move::Flush).push(Move::Flush)) == life(
            setup,
            moves.push(Move::Flush),
        ),
        life(setup, moves.push(Move::Flush)).activity matches Activity::Idle(d) && {
            &&& d.wf()
            &&& d.output_format == setup.output_format
            &&& replies.received == -d.eagain ==> receive_run(d, ReceivePhase::Unref, replies)
                == ReceiveNext::Finished(d, Err(DecoderError::Again)) && receive_answer(
                Err(DecoderError::Again),
            ) == MoyuVideoResult::Again
            &&& ret >= 0 ==> send_run(d, SendPhase::Fill { data, pts }, ret)
                == SendNext::<'a>::Finished(d, Ok(())) && send_answer(Ok(()))
                == MoyuVideoResult::Success
        },
{
    let flushed = moves.push(Move::Flush);
    let again = flushed.push(Move::Flush);
    assert(flushed.drop_last() =~= moves);
    assert(again.drop_last() =~= flushed);
    nothing_leaks(setup, moves);
    configuration_stays(setup, moves);
    let now = life(setup, flushed);
    let then = life(setup, again);
    assert(now.allocated =~= then.allocated);
    assert(now.freed =~= then.freed);
    if let Activity::Idle(d) = life(setup, moves).activity {
        frame_outcome(d, replies);
        packet_outcome(d, data, pts, ret);
    }
}

/// FFmpeg decodes alike: the same codes and the same pictures, request by request.
pub open spec fn decode_alike(a: Seq<ReceiveReplies>, b: Seq<ReceiveReplies>) -> bool {
    &&& a.len() == b.len()
    &&& forall|i: int|
        0 <= i < a.len() ==> (#[trigger] a[i]).received == b[i].received && picture_in(a[i].decoded)
            == picture_in(b[i].decoded)
}

/// Whenever a conversion context is needed, it can be had.
pub open spec fn have_contexts(d: DecoderView, replies: Seq<ReceiveReplies>) -> bool {
    forall|i: int|
        0 <= i < replies.len() && after_frames(d, replies.take(i)).needs_new_sws(
            picture_in((#[trigger] replies[i]).decoded),
        ) ==> replies[i].sws_ctx != 0
}

/// Two decoders with the same output format, whatever their objects are and whatever they converted
/// before, answer request after request alike, and give frames of the same size, format and time
/// stamp, where FFmpeg decodes alike for both and no allocation fails.
pub proof fn equal_streams_give_equal_frames(
    d1: DecoderView,
    replies1: Seq<ReceiveReplies>,
    d2: DecoderView,
    replies2: Seq<ReceiveReplies>,
)
    requires
        d1.output_format == d2.output_format,
        d1.eagain == d2.eagain,
        decode_alike(replies1, replies2),
        have_sizes(replies1),
        have_sizes(replies2),
        have_contexts(d1, replies1),
        have_contexts(d2, replies2),
    ensures
        forall|i: int|
            0 <= i < replies1.len() ==> match (
                #[trigger] frame_outcome_at(d1, replies1, i),
                frame_outcome_at(d2, replies2, i),
            ) {
                (Ok(frame1), Ok(frame2)) => {
                    &&& frame1.width == frame2.width
                    &&& frame1.height == frame2.height
                    &&& frame1.format == frame2.format
                    &&& frame1.pts == frame2.pts
                },
                (Err(error1), Err(error2)) => error1 == error2,
                _ => false,
            },
{
    assert forall|i: int| 0 <= i < replies1.len() implies match (
        #[trigger] frame_outcome_at(d1, replies1, i),
        frame_outcome_at(d2, replies2, i),
    ) {
        (Ok(frame1), Ok(frame2)) => {
            &&& frame1.width == frame2.width
            &&& frame1.height == frame2.height
            &&& frame1.format == frame2.format
            &&& frame1.pts == frame2.pts
        },
        (Err(error1), Err(error2)) => error1 == error2,
        _ => false,
    } by {
        sizes_before(replies1, i);
        sizes_before(replies2, i);
        frames_keep_the_decoder(d1, replies1.take(i));
        frames_keep_the_decoder(d2, replies2.take(i));
        assert(replies1[i].received == replies2[i].received);
        assert(replies2[i].size >= 0);
        frame_outcome(after_frames(d1, replies1.take(i)), replies1[i]);
        frame_outcome(after_frames(d2, replies2.take(i)), replies2[i]);
    }
}

} // verus!
