//! Who owns which FFmpeg object.
//!
//! Every object that FFmpeg hands out is owned by the decoder, or by its creation, until it is
//! freed: each step gains what its call allocates and loses what its call frees, and nothing
//! else. So nothing is leaked and nothing is freed twice.
use crate::decoder::receive::{
    receive_call, receive_next, receive_wf, ReceiveNext, ReceivePhase,
};
use crate::decoder::send::{send_call, send_next, SendNext, SendPhase};
use crate::decoder::setup::{DecoderSetup, SetupNext, SetupPhase};
use crate::decoder::{drop_calls, DecoderView};
use crate::ffi::{FfmpegCall, Reply};
use vstd::multiset::Multiset;
use vstd::prelude::*;

verus! {

/// An FFmpeg object that somebody has to free, by its address.
pub enum Resource {
    Context(usize),
    Packet(usize),
    Frame(usize),
    Sws(usize),
}

/// One object, or nothing where the address is null.
pub open spec fn unless_null(address: usize, resource: Resource) -> Multiset<Resource> {
    if address == 0 {
        Multiset::empty()
    } else {
        Multiset::singleton(resource)
    }
}

/// What a call allocates when it brings `reply`.
pub open spec fn allocated(call: FfmpegCall<'_>, reply: Reply) -> Multiset<Resource> {
    let address = reply->Pointer_0;
    match call {
        FfmpegCall::AllocContext { .. } => unless_null(address, Resource::Context(address)),
        FfmpegCall::AllocPacket => unless_null(address, Resource::Packet(address)),
        FfmpegCall::AllocFrame => unless_null(address, Resource::Frame(address)),
        FfmpegCall::GetSws { .. } => unless_null(address, Resource::Sws(address)),
        _ => Multiset::empty(),
    }
}

/// What a call frees.
pub open spec fn freed(call: FfmpegCall<'_>) -> Multiset<Resource> {
    match call {
        FfmpegCall::FreeContext { codec_ctx } => Multiset::singleton(Resource::Context(codec_ctx)),
        FfmpegCall::FreePacket { packet } => Multiset::singleton(Resource::Packet(packet)),
        FfmpegCall::FreeFrame { frame } => Multiset::singleton(Resource::Frame(frame)),
        FfmpegCall::FreeSws { sws_ctx } => Multiset::singleton(Resource::Sws(sws_ctx)),
        _ => Multiset::empty(),
    }
}

/// What several calls free between them.
pub open spec fn freed_by_all(calls: Seq<FfmpegCall<'_>>) -> Multiset<Resource>
    decreases calls.len(),
{
    if calls.len() == 0 {
        Multiset::empty()
    } else {
        freed_by_all(calls.drop_last()).add(freed(calls.last()))
    }
}

/// What a decoder owns.
pub open spec fn owned(d: DecoderView) -> Multiset<Resource> {
    unless_null(d.codec_ctx, Resource::Context(d.codec_ctx)).add(
        unless_null(d.packet, Resource::Packet(d.packet)),
    ).add(unless_null(d.av_frame, Resource::Frame(d.av_frame))).add(
        unless_null(d.dst_frame, Resource::Frame(d.dst_frame)),
    ).add(unless_null(d.sws_ctx, Resource::Sws(d.sws_ctx)))
}

/// What the creation of a decoder owns.
pub open spec fn owned_by_setup(setup: DecoderSetup) -> Multiset<Resource> {
    match setup.phase {
        SetupPhase::FindDecoder | SetupPhase::AllocContext { .. } => Multiset::empty(),
        SetupPhase::ConfigureThreads { codec_ctx, .. }
        | SetupPhase::OpenCodec { codec_ctx, .. }
        | SetupPhase::AllocPacket { codec_ctx } => Multiset::singleton(
            Resource::Context(codec_ctx),
        ),
        SetupPhase::AllocFrame { codec_ctx, packet } => Multiset::singleton(
            Resource::Context(codec_ctx),
        ).add(Multiset::singleton(Resource::Packet(packet))),
        SetupPhase::AllocDstFrame { codec_ctx, packet, av_frame } => Multiset::singleton(
            Resource::Context(codec_ctx),
        ).add(Multiset::singleton(Resource::Packet(packet))).add(
            Multiset::singleton(Resource::Frame(av_frame)),
        ),
    }
}

/// Each step of the creation of a decoder keeps the books: what was owned and what the call
/// allocated is owned by the creation that goes on, or by the decoder that is ready, or it is
/// freed, each object once, by the cleanup that comes with a failure.
pub proof fn setup_keeps_the_books(setup: DecoderSetup, reply: Reply)
    requires
        setup.wf(),
        setup.next_call().answered_by(reply),
    ensures
        freed(setup.next_call()) == Multiset::<Resource>::empty(),
        match setup.after(reply) {
            SetupNext::Pending(next) => owned_by_setup(next) == owned_by_setup(setup).add(
                allocated(setup.next_call(), reply),
            ),
            SetupNext::Ready(d) => owned(d) == owned_by_setup(setup).add(
                allocated(setup.next_call(), reply),
            ),
            SetupNext::Failed(_, cleanup) => freed_by_all(cleanup) == owned_by_setup(setup).add(
                allocated(setup.next_call(), reply),
            ),
        },
{
    let gained = allocated(setup.next_call(), reply);
    match setup.after(reply) {
        SetupNext::Pending(next) => {
            assert(owned_by_setup(next) =~= owned_by_setup(setup).add(gained));
        },
        SetupNext::Ready(d) => {
            assert(owned(d) =~= owned_by_setup(setup).add(gained));
        },
        SetupNext::Failed(_, cleanup) => {
            reveal_with_fuel(freed_by_all, 5);
            assert(freed_by_all(cleanup) =~= owned_by_setup(setup).add(gained));
        },
    }
}

/// Sending a packet neither allocates nor frees anything.
pub proof fn sending_keeps_the_books(d: DecoderView, phase: SendPhase<'_>, reply: Reply)
    requires
        send_call(d, phase).answered_by(reply),
    ensures
        allocated(send_call(d, phase), reply) == Multiset::<Resource>::empty(),
        freed(send_call(d, phase)) == Multiset::<Resource>::empty(),
        match send_next(d, phase, reply) {
            SendNext::Pending(next, _) => owned(next) == owned(d),
            SendNext::Finished(next, _) => owned(next) == owned(d),
        },
{
}

/// Each step of receiving a frame keeps the books: a step frees only what the decoder owns, and
/// afterwards the decoder owns what it owned before, without what the call freed and with what
/// it allocated.
pub proof fn receiving_keeps_the_books(d: DecoderView, phase: ReceivePhase, reply: Reply)
    requires
        receive_wf(d, phase),
        receive_call(d, phase).answered_by(reply),
    ensures
        freed(receive_call(d, phase)).subset_of(owned(d)),
        match receive_next(d, phase, reply) {
            ReceiveNext::Pending(next, _) | ReceiveNext::Finished(next, _) => owned(next) == owned(
                d,
            ).sub(freed(receive_call(d, phase))).add(allocated(receive_call(d, phase), reply)),
        },
{
    let lost = freed(receive_call(d, phase));
    let gained = allocated(receive_call(d, phase), reply);
    let next = match receive_next(d, phase, reply) {
        ReceiveNext::Pending(next, _) => next,
        ReceiveNext::Finished(next, _) => next,
    };
    assert(owned(next) =~= owned(d).sub(lost).add(gained));
}

/// Giving a decoder up frees exactly what it owns.
pub proof fn drop_frees_what_is_owned(d: DecoderView)
    requires
        d.objects_exist(),
    ensures
        freed_by_all(drop_calls(d)) == owned(d),
{
    reveal_with_fuel(freed_by_all, 6);
    assert(freed_by_all(drop_calls(d)) =~= owned(d));
}

} // verus!
