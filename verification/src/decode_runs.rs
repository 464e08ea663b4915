//! What a whole trial run does, from the creation of the decoder until it is destroyed.
use crate::api::{
    MoyuVideoCodec, MoyuVideoDecoderConfig, MoyuVideoFrame, MoyuVideoPixelFormat, MoyuVideoResult,
};
use crate::decode_test::{
    frame_fault, shows_something, DecodeTest, TestAction, TestEvent, TestPhase, TestProgress,
    FRAMES_WANTED,
};
use vstd::prelude::*;

verus! {

/// What has come of a run after some events.
pub struct Trial<'a> {
    pub progress: TestProgress<'a>,
    /// Whether every event came while the run was going on, and of its action.
    pub lawful: bool,
    /// The actions taken so far, one for each event.
    pub actions: Seq<TestAction<'a>>,
}

/// A run over the packets, with what came of its actions, one after the other.
pub open spec fn trial<'a, 'b>(
    packets: &'a Vec<Vec<u8>>,
    codec: MoyuVideoCodec,
    events: Seq<TestEvent<'b>>,
) -> Trial<'a>
    decreases events.len(),
{
    if events.len() == 0 {
        Trial {
            progress: TestProgress::Pending(DecodeTest::start(packets, codec)),
            lawful: true,
            actions: seq![],
        }
    } else {
        let past = trial(packets, codec, events.drop_last());
        match past.progress {
            TestProgress::Pending(test) => Trial {
                progress: test.after(events.last()),
                lawful: past.lawful && test.awaits(events.last()),
                actions: past.actions.push(test.next_action()),
            },
            _ => Trial { lawful: false, ..past },
        }
    }
}

/// The creation of a decoder for the codec, with I420 output and one thread.
pub open spec fn creation<'a>(codec: MoyuVideoCodec) -> TestAction<'a> {
    TestAction::Create {
        config: MoyuVideoDecoderConfig {
            codec,
            output_format: MoyuVideoPixelFormat::I420,
            thread_count: 1,
        },
    }
}

/// The first `count` packets, sent to the decoder in their order, with their indices as time
/// stamps.
pub open spec fn sendings<'a>(packets: &'a Vec<Vec<u8>>, handle: usize, count: nat) -> Seq<
    TestAction<'a>,
> {
    Seq::new(
        count,
        |i: int|
            TestAction::Send {
                handle,
                data: &packets@[i],
                size: packets@[i].len() as i32,
                pts: i as i64,
            },
    )
}

/// Those of the actions that send a packet.
pub open spec fn sent<'a>(actions: Seq<TestAction<'a>>) -> Seq<TestAction<'a>>
    decreases actions.len(),
{
    if actions.len() == 0 {
        seq![]
    } else if actions.last() is Send {
        sent(actions.drop_last()).push(actions.last())
    } else {
        sent(actions.drop_last())
    }
}

/// The frame that the event brings, if any.
pub open spec fn frame_in(event: TestEvent<'_>) -> Option<MoyuVideoFrame> {
    match event {
        TestEvent::Received { result: MoyuVideoResult::Success, frame } => Some(frame),
        _ => None,
    }
}

/// How many frames came out.
pub open spec fn frames_in(events: Seq<TestEvent<'_>>) -> nat
    decreases events.len(),
{
    if events.len() == 0 {
        0
    } else if frame_in(events.last()) is Some {
        frames_in(events.drop_last()) + 1
    } else {
        frames_in(events.drop_last())
    }
}

/// The action is not a creation, and is on the decoder of that handle, if on any.
pub open spec fn is_on(action: TestAction<'_>, handle: usize) -> bool {
    match action {
        TestAction::Create { .. } => false,
        TestAction::Send { handle: h, .. } => h == handle,
        TestAction::Receive { handle: h } => h == handle,
        TestAction::ReadPlane { .. } => true,
        TestAction::Flush { handle: h } => h == handle,
        TestAction::Destroy { handle: h } => h == handle,
    }
}

/// The reading of the Y plane of a frame.
pub open spec fn reading<'a>(frame: MoyuVideoFrame) -> TestAction<'a> {
    TestAction::ReadPlane {
        address: frame.planes[0],
        len: (frame.strides[0] * frame.height) as usize,
    }
}

/// The event brings a whole Y plane of the frame, and there is something to be seen in it.
pub open spec fn shows(event: TestEvent<'_>, frame: MoyuVideoFrame) -> bool {
    &&& event matches TestEvent::Plane { bytes }
    &&& bytes@.len() == frame.strides[0] * frame.height
    &&& shows_something(bytes@)
}

/// The event is one upon which a run stops: the last of the frames that it wants, the end of the
/// stream, or the want of a packet after the last one.
pub open spec fn is_enough(event: TestEvent<'_>, frames: nat, packets_sent: nat, packets: nat) -> bool {
    ||| event is Plane && frames == 3
    ||| event matches TestEvent::Received { result, .. } && result == MoyuVideoResult::Eof
    ||| event matches TestEvent::Received { result, .. } && result == MoyuVideoResult::Again
        && packets_sent == packets
}

/// How many packets have been sent in a phase that tells.
spec fn packets_sent(phase: TestPhase) -> Option<nat> {
    match phase {
        TestPhase::Create => Some(0),
        TestPhase::Send { index } => Some(index as nat),
        TestPhase::Receive { index } | TestPhase::ReadPlane { index, .. } => Some(
            (index + 1) as nat,
        ),
        TestPhase::Flush | TestPhase::Destroy => None,
    }
}

/// The frame that came with event `i` is without fault, and its plane was looked at next, or is
/// about to be.
spec fn is_looked_over<'a, 'b>(
    test: DecodeTest<'a>,
    actions: Seq<TestAction<'a>>,
    events: Seq<TestEvent<'b>>,
    i: int,
) -> bool {
    frame_in(events[i]) matches Some(frame) ==> {
        &&& frame_fault(frame) is None
        &&& if i + 1 < events.len() {
            actions[i + 1] == reading::<'a>(frame) && shows(events[i + 1], frame)
        } else {
            test.phase is ReadPlane && test.next_action() == reading::<'a>(frame)
        }
    }
}

/// What holds of a run that is going on.
spec fn is_in_order<'a, 'b>(
    packets: &'a Vec<Vec<u8>>,
    codec: MoyuVideoCodec,
    test: DecodeTest<'a>,
    actions: Seq<TestAction<'a>>,
    events: Seq<TestEvent<'b>>,
) -> bool {
    let n = events.len() as int;
    let count = sent(actions).len();
    &&& test.wf()
    &&& test.packets == packets
    &&& test.codec == codec
    &&& actions.len() == n
    &&& n == 0 <==> test.phase == TestPhase::Create
    &&& n > 0 ==> actions[0] == creation::<'a>(codec) && events[0] == (TestEvent::Created {
        result: MoyuVideoResult::Success,
        handle: test.handle,
    })
    &&& forall|i: int| 1 <= i < n ==> is_on(#[trigger] actions[i], test.handle)
    &&& forall|i: int| 0 <= i < n ==> (#[trigger] actions[i]) !is Destroy
    &&& forall|i: int|
        0 <= i < n && (#[trigger] actions[i]) is Flush ==> test.phase == TestPhase::Destroy && i == n
            - 1
    &&& test.phase == TestPhase::Destroy ==> n >= 2 && actions[n - 1] is Flush
    &&& sent(actions) == sendings(packets, test.handle, count)
    &&& count <= packets@.len()
    &&& packets_sent(test.phase) matches Some(known) ==> count == known
    &&& test.phase is Flush || test.phase is Destroy ==> count >= 1
    &&& forall|i: int|
        0 <= i < n ==> ((#[trigger] events[i]) matches TestEvent::Sent { result } ==> result
            == MoyuVideoResult::Success)
    &&& forall|i: int| 0 <= i < n ==> #[trigger] is_looked_over(test, actions, events, i)
    &&& forall|i: int|
        0 <= i < n && (#[trigger] events[i]) is Received && !(test.phase is Flush && i == n - 1) && !(
        test.phase is Destroy && i == n - 2) ==> events[i]->Received_result
            == MoyuVideoResult::Success || events[i]->Received_result == MoyuVideoResult::Again
    &&& frames_in(events) == test.frames_decoded
    &&& test.phase == TestPhase::Flush ==> n >= 1 && is_enough(
        events[n - 1],
        frames_in(events),
        count,
        packets@.len(),
    )
    &&& test.phase == TestPhase::Destroy ==> n >= 2 && is_enough(
        events[n - 2],
        frames_in(events),
        count,
        packets@.len(),
    )
}

proof fn one_more_event<'a, 'b>(
    packets: &'a Vec<Vec<u8>>,
    codec: MoyuVideoCodec,
    test: DecodeTest<'a>,
    actions: Seq<TestAction<'a>>,
    events: Seq<TestEvent<'b>>,
    event: TestEvent<'b>,
)
    requires
        is_in_order(packets, codec, test, actions, events),
        test.awaits(event),
        test.after(event) is Pending,
    ensures
        is_in_order(
            packets,
            codec,
            test.after(event)->Pending_0,
            actions.push(test.next_action()),
            events.push(event),
        ),
{
    let next = test.after(event)->Pending_0;
    let done = actions.push(test.next_action());
    let seen = events.push(event);
    let n = events.len() as int;
    assert(packets.len() == packets@.len());
    assert(done.drop_last() =~= actions);
    assert(seen.drop_last() =~= events);
    assert(sent(done) =~= sendings(packets, next.handle, sent(done).len()));
    assert forall|i: int| 0 <= i < n + 1 implies #[trigger] is_looked_over(next, done, seen, i) by {
        if i < n {
            assert(is_looked_over(test, actions, events, i));
        }
    }
}

/// A run that is going on is in order.
proof fn runs_are_in_order<'a, 'b>(
    packets: &'a Vec<Vec<u8>>,
    codec: MoyuVideoCodec,
    events: Seq<TestEvent<'b>>,
)
    requires
        packets@.len() > 0,
        trial(packets, codec, events).lawful,
        trial(packets, codec, events).progress is Pending,
    ensures
        is_in_order(
            packets,
            codec,
            trial(packets, codec, events).progress->Pending_0,
            trial(packets, codec, events).actions,
            events,
        ),
    decreases events.len(),
{
    if events.len() > 0 {
        runs_are_in_order(packets, codec, events.drop_last());
        let past = trial(packets, codec, events.drop_last());
        one_more_event(
            packets,
            codec,
            past.progress->Pending_0,
            past.actions,
            events.drop_last(),
            events.last(),
        );
        assert(events.drop_last().push(events.last()) =~= events);
    } else {
        assert(sent(Seq::<TestAction<'a>>::empty()) =~= sendings(packets, 0, 0));
    }
}

/// A run that passes has gone like this.
/// - It created one decoder, first of all, and did everything on that.
/// - It sent a beginning of the packets in their order, at least one of them, and each was taken.
/// - It looked over every frame that came out, and each was without fault and showed something.
/// - It stopped at the third frame, at the end of the stream, or when the packets had run out.
/// - It flushed and then destroyed the decoder, last of all.
pub proof fn passed_runs<'a, 'b>(
    packets: &'a Vec<Vec<u8>>,
    codec: MoyuVideoCodec,
    events: Seq<TestEvent<'b>>,
)
    requires
        packets@.len() > 0,
        trial(packets, codec, events).lawful,
        trial(packets, codec, events).progress is Passed,
    ensures
        ({
            let frames = trial(packets, codec, events).progress->Passed_0;
            let actions = trial(packets, codec, events).actions;
            let n = events.len() as int;
            let handle = events[0]->handle;
            let count = sent(actions).len();
            &&& n >= 3
            &&& actions.len() == n
            &&& actions[0] == creation::<'a>(codec)
            &&& events[0] matches TestEvent::Created { result, .. } && result
                == MoyuVideoResult::Success && handle != 0
            &&& forall|i: int| 1 <= i < n ==> is_on(#[trigger] actions[i], handle)
            &&& 1 <= count <= packets@.len()
            &&& sent(actions) == sendings(packets, handle, count)
            &&& forall|i: int|
                0 <= i < n ==> ((#[trigger] events[i]) matches TestEvent::Sent { result }
                    ==> result == MoyuVideoResult::Success)
            &&& forall|i: int|
                0 <= i < n ==> (frame_in(#[trigger] events[i]) matches Some(frame) ==> {
                    &&& frame_fault(frame) is None
                    &&& i + 1 < n
                    &&& actions[i + 1] == reading::<'a>(frame)
                    &&& shows(events[i + 1], frame)
                })
            &&& forall|i: int|
                0 <= i < n - 3 && (#[trigger] events[i]) is Received ==> events[i]->Received_result
                    == MoyuVideoResult::Success || events[i]->Received_result
                    == MoyuVideoResult::Again
            &&& frames_in(events) == frames
            &&& 1 <= frames <= 3
            &&& is_enough(events[n - 3], frames as nat, count, packets@.len())
            &&& actions[n - 2] == (TestAction::Flush { handle })
            &&& actions[n - 1] == (TestAction::Destroy { handle })
            &&& forall|i: int|
                0 <= i < n - 2 ==> (#[trigger] actions[i]) !is Flush && actions[i] !is Destroy
        }),
{
    let before = events.drop_last();
    let past = trial(packets, codec, before);
    let actions = trial(packets, codec, events).actions;
    runs_are_in_order(packets, codec, before);
    let test = past.progress->Pending_0;
    assert(test.phase == TestPhase::Destroy);
    assert(actions.drop_last() =~= past.actions);
    assert(events =~= before.push(events.last()));
    assert forall|i: int| 0 <= i < events.len() implies (frame_in(#[trigger] events[i]) matches Some(
        frame,
    ) ==> {
        &&& frame_fault(frame) is None
        &&& i + 1 < events.len()
        &&& actions[i + 1] == reading::<'a>(frame)
        &&& shows(events[i + 1], frame)
    }) by {
        if i < before.len() {
            assert(is_looked_over(test, past.actions, before, i));
        }
    }
    assert(is_on(past.actions[before.len() - 1], test.handle));
}

} // verus!
