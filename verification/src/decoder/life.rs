//! The whole life of a decoder, from its creation until it is gone.
use crate::decoder::receive::{
    receive_call, receive_next, receive_wf, receiving_keeps_its_invariant, ReceiveNext,
    ReceivePhase,
};
use crate::decoder::resources::{
    allocated, drop_frees_what_is_owned, freed, freed_by_all, owned, owned_by_setup,
    receiving_keeps_the_books, sending_keeps_the_books, setup_keeps_the_books, Resource,
};
use crate::decoder::send::{send_call, send_next, SendNext, SendPhase};
use crate::decoder::setup::{DecoderSetup, SetupNext, SetupPhase};
use crate::decoder::{drop_calls, DecoderView};
use crate::ffi::{FfmpegCall, Reply};
use vstd::multiset::Multiset;
use vstd::prelude::*;

verus! {

/// What a decoder is busy with.
pub enum Activity<'a> {
    /// It is being created.
    Creating(DecoderSetup),
    /// It waits for the next operation.
    Idle(DecoderView),
    /// It is being sent a packet.
    Sending(DecoderView, SendPhase<'a>),
    /// It is receiving a frame.
    Receiving(DecoderView, ReceivePhase),
    /// Its creation failed, or it has been given up.
    Gone,
}

/// What can happen to a decoder.
pub enum Move<'a> {
    /// FFmpeg replies to the call that it was asked for.
    Reply(Reply),
    /// FFmpeg writes a picture that it converts to the decoder's buffer.
    Write(Seq<u8>),
    /// A packet, or the end of the stream, is to be sent.
    Send(Option<&'a [u8]>, i64),
    /// A frame is to be received.
    Receive,
    /// The decoder is flushed.
    Flush,
    /// The decoder is given up.
    Drop,
}

impl<'a> Activity<'a> {
    /// The invariants of the decoder and of what it is busy with.
    pub open spec fn wf(self) -> bool {
        match self {
            Activity::Creating(setup) => setup.wf(),
            Activity::Idle(d) => d.wf(),
            Activity::Sending(d, _) => d.wf(),
            Activity::Receiving(d, phase) => receive_wf(d, phase),
            Activity::Gone => true,
        }
    }

    /// The FFmpeg objects that are alive.
    pub open spec fn owns(self) -> Multiset<Resource> {
        match self {
            Activity::Creating(setup) => owned_by_setup(setup),
            Activity::Idle(d) => owned(d),
            Activity::Sending(d, _) => owned(d),
            Activity::Receiving(d, _) => owned(d),
            Activity::Gone => Multiset::empty(),
        }
    }

    /// The call that FFmpeg is asked for, if any.
    pub open spec fn call(self) -> Option<FfmpegCall<'a>> {
        match self {
            Activity::Creating(setup) => Some(setup.next_call()),
            Activity::Sending(d, phase) => Some(send_call(d, phase)),
            Activity::Receiving(d, phase) => Some(receive_call(d, phase)),
            _ => None,
        }
    }

    /// A reply comes to the call that was asked for, and the size of a picture is not negative;
    /// FFmpeg writes to the decoder's buffer only while it converts; the rest happens to an idle
    /// decoder.
    pub open spec fn admits(self, m: Move<'a>) -> bool {
        match m {
            Move::Reply(reply) => {
                &&& self.call() matches Some(call) && call.answered_by(reply)
                &&& self matches Activity::Receiving(_, phase) ==> (phase is Measure
                    ==> reply->Code_0 >= 0)
            },
            Move::Write(_) => self matches Activity::Receiving(_, phase) && phase is Scale,
            _ => self is Idle,
        }
    }

    /// What the decoder is busy with after a move.
    pub open spec fn after(self, m: Move<'a>) -> Activity<'a> {
        match (self, m) {
            (Activity::Creating(setup), Move::Reply(reply)) => match setup.after(reply) {
                SetupNext::Pending(next) => Activity::Creating(next),
                SetupNext::Ready(d) => Activity::Idle(d),
                SetupNext::Failed(..) => Activity::Gone,
            },
            (Activity::Sending(d, phase), Move::Reply(reply)) => match send_next(d, phase, reply) {
                SendNext::Pending(next, later) => Activity::Sending(next, later),
                SendNext::Finished(next, _) => Activity::Idle(next),
            },
            (Activity::Receiving(d, phase), Move::Reply(reply)) => match receive_next(
                d,
                phase,
                reply,
            ) {
                ReceiveNext::Pending(next, later) => Activity::Receiving(next, later),
                ReceiveNext::Finished(next, _) => Activity::Idle(next),
            },
            (Activity::Receiving(d, phase), Move::Write(pixels)) => Activity::Receiving(
                d.with_pixels(pixels),
                phase,
            ),
            (Activity::Idle(d), Move::Send(None, _)) => Activity::Sending(d, SendPhase::Drain),
            (Activity::Idle(d), Move::Send(Some(data), pts)) => Activity::Sending(
                d,
                SendPhase::Fill { data, pts },
            ),
            (Activity::Idle(d), Move::Receive) => Activity::Receiving(d, ReceivePhase::Unref),
            (Activity::Idle(_), Move::Drop) => Activity::Gone,
            _ => self,
        }
    }

    /// What a move allocates.
    pub open spec fn allocates(self, m: Move<'a>) -> Multiset<Resource> {
        match (self.call(), m) {
            (Some(call), Move::Reply(reply)) => allocated(call, reply),
            _ => Multiset::empty(),
        }
    }

    /// What a move frees: by the call that was asked for, by the cleanup after a failed
    /// creation, or by giving the decoder up.
    pub open spec fn frees(self, m: Move<'a>) -> Multiset<Resource> {
        match (self, m) {
            (Activity::Creating(setup), Move::Reply(reply)) => match setup.after(reply) {
                SetupNext::Failed(_, cleanup) => freed_by_all(cleanup),
                _ => Multiset::empty(),
            },
            (Activity::Idle(d), Move::Drop) => freed_by_all(drop_calls(d)),
            (_, Move::Reply(_)) => match self.call() {
                Some(call) => freed(call),
                None => Multiset::empty(),
            },
            _ => Multiset::empty(),
        }
    }
}

/// What has come of a decoder after some moves.
pub struct Life<'a> {
    pub activity: Activity<'a>,
    /// Whether every move was admitted when it came.
    pub lawful: bool,
    /// All that was allocated so far.
    pub allocated: Multiset<Resource>,
    /// All that was freed so far.
    pub freed: Multiset<Resource>,
}

/// The life of a decoder from the beginning of its creation on.
pub open spec fn life<'a>(setup: DecoderSetup, moves: Seq<Move<'a>>) -> Life<'a>
    decreases moves.len(),
{
    if moves.len() == 0 {
        Life {
            activity: Activity::Creating(setup),
            lawful: true,
            allocated: Multiset::empty(),
            freed: Multiset::empty(),
        }
    } else {
        let past = life(setup, moves.drop_last());
        let m = moves.last();
        Life {
            activity: past.activity.after(m),
            lawful: past.lawful && past.activity.admits(m),
            allocated: past.allocated.add(past.activity.allocates(m)),
            freed: past.freed.add(past.activity.frees(m)),
        }
    }
}

/// A move keeps the invariants, and changes what is alive by what it allocates and frees.
pub proof fn moves_keep_the_books<'a>(activity: Activity<'a>, m: Move<'a>)
    requires
        activity.wf(),
        activity.admits(m),
    ensures
        activity.after(m).wf(),
        activity.after(m).owns().add(activity.frees(m)) == activity.owns().add(
            activity.allocates(m),
        ),
{
    match (activity, m) {
        (Activity::Creating(setup), Move::Reply(reply)) => {
            setup_keeps_the_books(setup, reply);
        },
        (Activity::Sending(d, phase), Move::Reply(reply)) => {
            sending_keeps_the_books(d, phase, reply);
        },
        (Activity::Receiving(d, phase), Move::Reply(reply)) => {
            receiving_keeps_its_invariant(d, phase, reply);
            receiving_keeps_the_books(d, phase, reply);
        },
        (Activity::Idle(d), Move::Drop) => {
            drop_frees_what_is_owned(d);
        },
        _ => {},
    }
    assert(activity.after(m).owns().add(activity.frees(m)) =~= activity.owns().add(
        activity.allocates(m),
    ));
}

/// Whatever happens in the life of a decoder, and whatever FFmpeg replies, what is alive is what
/// was allocated and not yet freed: nothing is lost and nothing is freed that is not alive. Once
/// the decoder is gone, all that was ever allocated for it has been freed, each object once.
pub proof fn nothing_leaks<'a>(setup: DecoderSetup, moves: Seq<Move<'a>>)
    requires
        setup.wf(),
        setup.phase == SetupPhase::FindDecoder,
        life(setup, moves).lawful,
    ensures
        life(setup, moves).activity.wf(),
        life(setup, moves).allocated == life(setup, moves).freed.add(
            life(setup, moves).activity.owns(),
        ),
        life(setup, moves).activity is Gone ==> life(setup, moves).freed == life(
            setup,
            moves,
        ).allocated,
    decreases moves.len(),
{
    let now = life(setup, moves);
    if moves.len() > 0 {
        let past = life(setup, moves.drop_last());
        nothing_leaks(setup, moves.drop_last());
        moves_keep_the_books(past.activity, moves.last());
        let kept = past.activity.owns();
        let gained = past.activity.allocates(moves.last());
        let lost = past.activity.frees(moves.last());
        assert(now.activity.owns().add(lost) == kept.add(gained));
        assert forall|r: Resource| #![auto]
            now.allocated.count(r) == now.freed.add(now.activity.owns()).count(r) by {
            assert(now.activity.owns().add(lost).count(r) == kept.add(gained).count(r));
            assert(past.allocated.count(r) == past.freed.add(kept).count(r));
        }
    }
    assert(now.allocated =~= now.freed.add(now.activity.owns()));
    if now.activity is Gone {
        assert(now.freed.add(now.activity.owns()) =~= now.freed);
    }
}

/// What stays the same in a decoder from the beginning of its creation on: the output format that
/// was asked for, and the platform's code for "try again".
pub proof fn configuration_stays<'a>(setup: DecoderSetup, moves: Seq<Move<'a>>)
    requires
        setup.wf(),
        setup.phase == SetupPhase::FindDecoder,
        life(setup, moves).lawful,
    ensures
        match life(setup, moves).activity {
            Activity::Creating(now) => now == setup.at(now.phase),
            Activity::Idle(d) | Activity::Sending(d, _) | Activity::Receiving(d, _) => {
                &&& d.output_format == setup.output_format
                &&& d.eagain == setup.eagain
            },
            Activity::Gone => true,
        },
    decreases moves.len(),
{
    if moves.len() > 0 {
        configuration_stays(setup, moves.drop_last());
        nothing_leaks(setup, moves.drop_last());
        let past = life(setup, moves.drop_last());
        match (past.activity, moves.last()) {
            (Activity::Receiving(d, phase), Move::Reply(reply)) => {
                receiving_keeps_its_invariant(d, phase, reply);
            },
            _ => {},
        }
    }
}

/// Flushing asks FFmpeg to reset itself, and leaves what the decoder itself holds as it is,
/// however often it is done: it goes on with the same objects, format and buffer.
pub proof fn flushing_keeps_the_decoder<'a>(d: DecoderView)
    ensures
        Activity::<'a>::Idle(d).admits(Move::Flush),
        Activity::<'a>::Idle(d).after(Move::Flush) == Activity::<'a>::Idle(d),
        Activity::<'a>::Idle(d).allocates(Move::Flush) == Multiset::<Resource>::empty(),
        Activity::<'a>::Idle(d).frees(Move::Flush) == Multiset::<Resource>::empty(),
{
}

/// Whether a call can change or give back the memory in which the planes of a frame lie that
/// was handed out.
pub open spec fn touches_frame_memory(call: FfmpegCall<'_>) -> bool {
    match call {
        FfmpegCall::UnrefFrame { .. }
        | FfmpegCall::ReceiveFrame { .. }
        | FfmpegCall::FreeFrame { .. }
        | FfmpegCall::ImageFillArrays { .. }
        | FfmpegCall::Scale { .. }
        | FfmpegCall::FlushBuffers { .. }
        | FfmpegCall::FreeContext { .. } => true,
        _ => false,
    }
}

/// The planes of a frame outlive the sending of packets: no call of a sending touches them, and
/// the decoder's own buffer stays as it is.
pub proof fn sending_leaves_frames_alone<'a>(d: DecoderView, phase: SendPhase<'a>, reply: Reply)
    ensures
        !touches_frame_memory(send_call(d, phase)),
        match send_next(d, phase, reply) {
            SendNext::Pending(next, _) => next == d,
            SendNext::Finished(next, _) => next == d,
        },
{
}

} // verus!
