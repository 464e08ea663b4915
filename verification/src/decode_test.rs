//! A trial run of the library: packets go in, and the frames that come out are looked at.
//!
//! The run names the action to take next (`action`) and takes what came of it (`resume`).
use crate::api::{
    MoyuVideoCodec, MoyuVideoDecoderConfig, MoyuVideoFrame, MoyuVideoPixelFormat, MoyuVideoResult,
};
use vstd::prelude::*;

verus! {

/// After so many frames a run is content.
pub const FRAMES_WANTED: u32 = 3;

/// Why a run fails.
#[derive(Debug, Clone, Copy, PartialEq, Eq, Structural)]
pub enum TestFailure {
    /// There are no packets.
    NoPackets,
    /// No decoder was created.
    CreateFailed(MoyuVideoResult),
    /// The decoder's handle is null.
    NullHandle,
    /// The packet of that index was not taken.
    SendFailed(usize, MoyuVideoResult),
    /// Asking for a frame brought a result that it should not.
    UnexpectedResult(MoyuVideoResult),
    /// The frame's width is not positive.
    BadWidth,
    /// The frame's height is not positive.
    BadHeight,
    /// The Y plane is null.
    NullPlane,
    /// A row of the Y plane is shorter than the frame is wide.
    ShortStride,
    /// The size of the Y plane is out of range.
    PlaneTooLarge,
    /// The Y plane holds nothing but zeros.
    BlankPlane,
    /// Not one frame came out.
    NothingDecoded,
}

/// How far a run has come.
#[derive(Debug, Clone, Copy, PartialEq, Eq)]
pub enum TestPhase {
    Create,
    Send { index: usize },
    Receive { index: usize },
    ReadPlane { index: usize, address: usize, len: usize },
    Flush,
    Destroy,
}

/// What is to be done next.
#[derive(Debug, Clone, Copy, PartialEq, Eq)]
pub enum TestAction<'a> {
    /// Create a decoder.
    Create { config: MoyuVideoDecoderConfig },
    /// Send a packet to the decoder.
    Send { handle: usize, data: &'a Vec<u8>, size: i32, pts: i64 },
    /// Ask the decoder for a frame.
    Receive { handle: usize },
    /// Read so many bytes at the address.
    ReadPlane { address: usize, len: usize },
    /// Flush the decoder.
    Flush { handle: usize },
    /// Destroy the decoder.
    Destroy { handle: usize },
}

/// What came of an action.
#[derive(Debug, Clone, Copy, PartialEq, Eq)]
pub enum TestEvent<'b> {
    Created { result: MoyuVideoResult, handle: usize },
    Sent { result: MoyuVideoResult },
    Received { result: MoyuVideoResult, frame: MoyuVideoFrame },
    Plane { bytes: &'b [u8] },
    Flushed,
    Destroyed,
}

/// A run that is going on.
#[derive(Debug, Clone, Copy)]
pub struct DecodeTest<'a> {
    pub packets: &'a Vec<Vec<u8>>,
    pub codec: MoyuVideoCodec,
    /// The decoder's handle; 0 until it is created.
    pub handle: usize,
    pub frames_decoded: u32,
    pub phase: TestPhase,
}

/// Where a run stands after an event.
#[derive(Debug, Clone, Copy)]
pub enum TestProgress<'a> {
    /// There is an action to take.
    Pending(DecodeTest<'a>),
    /// All is well, after so many frames.
    Passed(u32),
    Failed(TestFailure),
}

/// The first thing that is wrong with a frame, as far as its descriptor shows.
pub open spec fn frame_fault(frame: MoyuVideoFrame) -> Option<TestFailure> {
    if frame.width <= 0 {
        Some(TestFailure::BadWidth)
    } else if frame.height <= 0 {
        Some(TestFailure::BadHeight)
    } else if frame.planes[0] == 0 {
        Some(TestFailure::NullPlane)
    } else if frame.strides[0] < frame.width {
        Some(TestFailure::ShortStride)
    } else if frame.strides[0] * frame.height > i32::MAX {
        Some(TestFailure::PlaneTooLarge)
    } else {
        None
    }
}

/// Looks a frame over, and says how many bytes its Y plane has.
pub fn check_frame(frame: &MoyuVideoFrame) -> (checked: Result<usize, TestFailure>)
    ensures
        match frame_fault(*frame) {
            Some(fault) => checked == Err::<usize, TestFailure>(fault),
            None => checked matches Ok(len) && len == frame.strides[0] * frame.height,
        },
{
    if frame.width <= 0 {
        return Err(TestFailure::BadWidth);
    }
    if frame.height <= 0 {
        return Err(TestFailure::BadHeight);
    }
    if frame.planes[0] == 0 {
        return Err(TestFailure::NullPlane);
    }
    if frame.strides[0] < frame.width {
        return Err(TestFailure::ShortStride);
    }
    proof {
        let stride = frame.strides[0] as int;
        let height = frame.height as int;
        assert(0 < stride * height <= 0x7FFF_FFFF * 0x7FFF_FFFF) by (nonlinear_arith)
            requires
                0 < stride <= 0x7FFF_FFFF,
                0 < height <= 0x7FFF_FFFF,
        ;
    }
    let len: i64 = frame.strides[0] as i64 * frame.height as i64;
    if len > i32::MAX as i64 {
        return Err(TestFailure::PlaneTooLarge);
    }
    Ok(len as usize)
}

/// Some byte of the plane is not zero.
pub open spec fn shows_something(bytes: Seq<u8>) -> bool {
    exists|i: int| 0 <= i < bytes.len() && bytes[i] != 0
}

/// Tests whether some byte is not zero.
pub fn has_nonzero(bytes: &[u8]) -> (found: bool)
    ensures
        found == shows_something(bytes@),
{
    let mut i: usize = 0;
    while i < bytes.len()
        invariant
            i <= bytes@.len(),
            forall|j: int| 0 <= j < i ==> bytes@[j] == 0,
        decreases bytes@.len() - i,
    {
        if bytes[i] != 0 {
            return true;
        }
        i = i + 1;
    }
    false
}

/// Begins a run over the packets of a video.
pub fn run_decode_test<'a>(packets: &'a Vec<Vec<u8>>, codec: MoyuVideoCodec) -> (run: Result<
    DecodeTest<'a>,
    TestFailure,
>)
    ensures
        run == (if packets@.len() == 0 {
            Err::<DecodeTest<'a>, TestFailure>(TestFailure::NoPackets)
        } else {
            Ok(DecodeTest::start(packets, codec))
        }),
        run matches Ok(test) ==> test.wf(),
{
    if packets.len() == 0 {
        return Err(TestFailure::NoPackets);
    }
    Ok(DecodeTest { packets, codec, handle: 0, frames_decoded: 0, phase: TestPhase::Create })
}

impl<'a> DecodeTest<'a> {
    /// A run that has not done anything yet.
    pub open spec fn start(packets: &'a Vec<Vec<u8>>, codec: MoyuVideoCodec) -> DecodeTest<'a> {
        DecodeTest { packets, codec, handle: 0, frames_decoded: 0, phase: TestPhase::Create }
    }

    /// The packet that the phase is about exists, as does the decoder once it is created, and
    /// frames are counted as far as it takes.
    pub open spec fn wf(self) -> bool {
        &&& self.packets@.len() > 0
        &&& self.phase != TestPhase::Create ==> self.handle != 0
        &&& match self.phase {
            TestPhase::Create => self.frames_decoded == 0,
            TestPhase::Send { index } | TestPhase::Receive { index } => index < self.packets@.len()
                && self.frames_decoded < FRAMES_WANTED,
            TestPhase::ReadPlane { index, .. } => index < self.packets@.len() && 1
                <= self.frames_decoded <= FRAMES_WANTED,
            TestPhase::Flush | TestPhase::Destroy => 1 <= self.frames_decoded <= FRAMES_WANTED,
        }
    }

    /// The same run in another phase.
    pub open spec fn at(self, phase: TestPhase) -> DecodeTest<'a> {
        DecodeTest { phase, ..self }
    }

    /// The action that the phase is about.
    pub open spec fn next_action(self) -> TestAction<'a> {
        match self.phase {
            TestPhase::Create => TestAction::Create {
                config: MoyuVideoDecoderConfig {
                    codec: self.codec,
                    output_format: MoyuVideoPixelFormat::I420,
                    thread_count: 1,
                },
            },
            TestPhase::Send { index } => TestAction::Send {
                handle: self.handle,
                data: &self.packets@[index as int],
                size: self.packets@[index as int].len() as i32,
                pts: index as i64,
            },
            TestPhase::Receive { .. } => TestAction::Receive { handle: self.handle },
            TestPhase::ReadPlane { address, len, .. } => TestAction::ReadPlane { address, len },
            TestPhase::Flush => TestAction::Flush { handle: self.handle },
            TestPhase::Destroy => TestAction::Destroy { handle: self.handle },
        }
    }

    /// The event is what can come of the action of the phase: as many bytes of a plane as were
    /// asked for.
    pub open spec fn awaits(self, event: TestEvent<'_>) -> bool {
        match self.phase {
            TestPhase::Create => event is Created,
            TestPhase::Send { .. } => event is Sent,
            TestPhase::Receive { .. } => event is Received,
            TestPhase::ReadPlane { len, .. } => event matches TestEvent::Plane { bytes }
                && bytes@.len() == len,
            TestPhase::Flush => event is Flushed,
            TestPhase::Destroy => event is Destroyed,
        }
    }

    /// The run has seen enough, or there is nothing more to see.
    pub open spec fn wound_up(self) -> TestProgress<'a> {
        if self.frames_decoded >= 1 {
            TestProgress::Pending(self.at(TestPhase::Flush))
        } else {
            TestProgress::Failed(TestFailure::NothingDecoded)
        }
    }

    /// What becomes of the run by an event.
    pub open spec fn after(self, event: TestEvent<'_>) -> TestProgress<'a> {
        match (self.phase, event) {
            (TestPhase::Create, TestEvent::Created { result, handle }) => if result
                != MoyuVideoResult::Success {
                TestProgress::Failed(TestFailure::CreateFailed(result))
            } else if handle == 0 {
                TestProgress::Failed(TestFailure::NullHandle)
            } else {
                TestProgress::Pending(
                    DecodeTest { handle, phase: TestPhase::Send { index: 0 }, ..self },
                )
            },
            (TestPhase::Send { index }, TestEvent::Sent { result }) => if result
                != MoyuVideoResult::Success {
                TestProgress::Failed(TestFailure::SendFailed(index, result))
            } else {
                TestProgress::Pending(self.at(TestPhase::Receive { index }))
            },
            (TestPhase::Receive { index }, TestEvent::Received { result, frame }) => match result {
                MoyuVideoResult::Success => match frame_fault(frame) {
                    Some(fault) => TestProgress::Failed(fault),
                    None => TestProgress::Pending(
                        DecodeTest {
                            frames_decoded: (self.frames_decoded + 1) as u32,
                            phase: TestPhase::ReadPlane {
                                index,
                                address: frame.planes[0],
                                len: (frame.strides[0] * frame.height) as usize,
                            },
                            ..self
                        },
                    ),
                },
                MoyuVideoResult::Again => if index + 1 < self.packets@.len() {
                    TestProgress::Pending(self.at(TestPhase::Send { index: (index + 1) as usize }))
                } else {
                    self.wound_up()
                },
                MoyuVideoResult::Eof => self.wound_up(),
                _ => TestProgress::Failed(TestFailure::UnexpectedResult(result)),
            },
            (TestPhase::ReadPlane { index, .. }, TestEvent::Plane { bytes }) =>
            if !shows_something(bytes@) {
                TestProgress::Failed(TestFailure::BlankPlane)
            } else if self.frames_decoded >= FRAMES_WANTED {
                self.wound_up()
            } else {
                TestProgress::Pending(self.at(TestPhase::Receive { index }))
            },
            (TestPhase::Flush, _) => TestProgress::Pending(self.at(TestPhase::Destroy)),
            (TestPhase::Destroy, _) => TestProgress::Passed(self.frames_decoded),
            _ => TestProgress::Pending(self),
        }
    }

    /// The action to take next.
    pub fn action(&self) -> (action: TestAction<'a>)
        requires
            self.wf(),
        ensures
            action == self.next_action(),
    {
        match self.phase {
            TestPhase::Create => TestAction::Create {
                config: MoyuVideoDecoderConfig {
                    codec: self.codec,
                    output_format: MoyuVideoPixelFormat::I420,
                    thread_count: 1,
                },
            },
            TestPhase::Send { index } => {
                let data = &self.packets[index];
                TestAction::Send {
                    handle: self.handle,
                    data,
                    size: #[verifier::truncate] (data.len() as i32),
                    pts: #[verifier::truncate] (index as i64),
                }
            },
            TestPhase::Receive { .. } => TestAction::Receive { handle: self.handle },
            TestPhase::ReadPlane { address, len, .. } => TestAction::ReadPlane { address, len },
            TestPhase::Flush => TestAction::Flush { handle: self.handle },
            TestPhase::Destroy => TestAction::Destroy { handle: self.handle },
        }
    }

    /// Flushes the decoder if a frame came out, and fails otherwise.
    fn wind_up(self) -> (progress: TestProgress<'a>)
        ensures
            progress == self.wound_up(),
    {
        if self.frames_decoded >= 1 {
            TestProgress::Pending(
                DecodeTest {
                    packets: self.packets,
                    codec: self.codec,
                    handle: self.handle,
                    frames_decoded: self.frames_decoded,
                    phase: TestPhase::Flush,
                },
            )
        } else {
            TestProgress::Failed(TestFailure::NothingDecoded)
        }
    }

    /// Takes what came of the action.
    pub fn resume(self, event: TestEvent<'_>) -> (progress: TestProgress<'a>)
        requires
            self.wf(),
            self.awaits(event),
        ensures
            progress == self.after(event),
            progress matches TestProgress::Pending(test) ==> test.wf(),
    {
        let mut next = self;
        match (self.phase, event) {
            (TestPhase::Create, TestEvent::Created { result, handle }) => {
                if result != MoyuVideoResult::Success {
                    return TestProgress::Failed(TestFailure::CreateFailed(result));
                }
                if handle == 0 {
                    return TestProgress::Failed(TestFailure::NullHandle);
                }
                next.handle = handle;
                next.phase = TestPhase::Send { index: 0 };
            },
            (TestPhase::Send { index }, TestEvent::Sent { result }) => {
                if result != MoyuVideoResult::Success {
                    return TestProgress::Failed(TestFailure::SendFailed(index, result));
                }
                next.phase = TestPhase::Receive { index };
            },
            (TestPhase::Receive { index }, TestEvent::Received { result, frame }) => {
                match result {
                    MoyuVideoResult::Success => match check_frame(&frame) {
                        Ok(len) => {
                            next.frames_decoded = self.frames_decoded + 1;
                            next.phase = TestPhase::ReadPlane {
                                index,
                                address: frame.planes[0],
                                len,
                            };
                        },
                        Err(fault) => {
                            return TestProgress::Failed(fault);
                        },
                    },
                    MoyuVideoResult::Again => {
                        if self.packets.len() - index <= 1 {
                            return self.wind_up();
                        }
                        next.phase = TestPhase::Send { index: index + 1 };
                    },
                    MoyuVideoResult::Eof => {
                        return self.wind_up();
                    },
                    _ => {
                        return TestProgress::Failed(TestFailure::UnexpectedResult(result));
                    },
                }
            },
            (TestPhase::ReadPlane { index, .. }, TestEvent::Plane { bytes }) => {
                if !has_nonzero(bytes) {
                    return TestProgress::Failed(TestFailure::BlankPlane);
                }
                if self.frames_decoded >= FRAMES_WANTED {
                    return self.wind_up();
                }
                next.phase = TestPhase::Receive { index };
            },
            (TestPhase::Flush, _) => {
                next.phase = TestPhase::Destroy;
            },
            (TestPhase::Destroy, _) => {
                return TestProgress::Passed(self.frames_decoded);
            },
            _ => {},
        }
        TestProgress::Pending(next)
    }
}

/// A bound on the actions that a run still takes.
pub open spec fn actions_left(test: DecodeTest<'_>) -> int {
    let packets = test.packets@.len() as int;
    let frames = FRAMES_WANTED - test.frames_decoded;
    match test.phase {
        TestPhase::Create => 4 * packets + 3 * frames + 3,
        TestPhase::Send { index } => 4 * (packets - index) + 3 * frames + 2,
        TestPhase::Receive { index } => 4 * (packets - index) + 3 * frames + 1,
        TestPhase::ReadPlane { index, .. } => 4 * (packets - index) + 3 * frames + 2,
        TestPhase::Flush => 2,
        TestPhase::Destroy => 1,
    }
}

/// Every run comes to an end, whatever the library does: each event leaves fewer actions to
/// take.
pub proof fn runs_end(test: DecodeTest<'_>, event: TestEvent<'_>)
    requires
        test.wf(),
        test.awaits(event),
    ensures
        actions_left(test) > 0,
        test.after(event) matches TestProgress::Pending(next) ==> next.wf() && 0 < actions_left(next)
            < actions_left(test),
{
    assert(test.packets.len() == test.packets@.len());
}

/// A run that passes has seen at least one frame, and no more than it wanted; it has flushed and
/// destroyed the decoder.
pub proof fn passing_takes_a_frame(test: DecodeTest<'_>, event: TestEvent<'_>)
    requires
        test.wf(),
        test.awaits(event),
    ensures
        test.after(event) matches TestProgress::Passed(frames) ==> {
            &&& 1 <= frames <= FRAMES_WANTED
            &&& test.phase == TestPhase::Destroy
        },
        test.phase == TestPhase::Destroy ==> test.after(event) is Passed,
        test.after(event) matches TestProgress::Pending(next) && next.phase == TestPhase::Destroy
            ==> test.phase == TestPhase::Flush,
{
}

/// What a frame has to be like: wide and high, with a Y plane whose rows are no shorter than the frame
/// is wide, and of a size that a 32-bit number can tell. The first of these that does not hold is
/// what is wrong with it.
pub proof fn frames_without_fault(frame: MoyuVideoFrame)
    ensures
        frame_fault(frame) is None <==> {
            &&& frame.width > 0
            &&& frame.height > 0
            &&& frame.planes[0] != 0
            &&& frame.strides[0] >= frame.width
            &&& frame.strides[0] * frame.height < 0x8000_0000
        },
        frame_fault(frame) == Some(TestFailure::BadWidth) <==> frame.width <= 0,
        frame_fault(frame) == Some(TestFailure::BadHeight) <==> frame.width > 0 && frame.height
            <= 0,
        frame_fault(frame) == Some(TestFailure::NullPlane) <==> frame.width > 0 && frame.height > 0
            && frame.planes[0] == 0,
        frame_fault(frame) == Some(TestFailure::ShortStride) <==> frame.width > 0 && frame.height
            > 0 && frame.planes[0] != 0 && frame.strides[0] < frame.width,
        frame_fault(frame) == Some(TestFailure::PlaneTooLarge) <==> frame.width > 0 && frame.height
            > 0 && frame.planes[0] != 0 && frame.strides[0] >= frame.width && frame.strides[0]
            * frame.height >= 0x8000_0000,
{
}

/// A plane shows nothing if and only if all its bytes are zero; and it shows something as soon as one
/// of its parts does.
pub proof fn blank_planes(bytes: Seq<u8>, more: Seq<u8>)
    ensures
        !shows_something(bytes) <==> forall|i: int| 0 <= i < bytes.len() ==> bytes[i] == 0u8,
        shows_something(bytes + more) <==> shows_something(bytes) || shows_something(more),
{
    let all = bytes + more;
    if shows_something(bytes) {
        let i = choose|i: int| 0 <= i < bytes.len() && bytes[i] != 0;
        assert(all[i] != 0);
    }
    if shows_something(more) {
        let i = choose|i: int| 0 <= i < more.len() && more[i] != 0;
        assert(all[bytes.len() + i] != 0);
    }
    if shows_something(all) {
        let i = choose|i: int| 0 <= i < all.len() && all[i] != 0;
        if i < bytes.len() {
            assert(bytes[i] != 0);
        } else {
            assert(more[i - bytes.len()] != 0);
        }
    }
}

/// Why a run fails: because of what the event says, and for nothing else.
pub proof fn runs_fail_for_a_reason(test: DecodeTest<'_>, event: TestEvent<'_>)
    requires
        test.wf(),
        test.awaits(event),
    ensures
        test.after(event) is Failed <==> match event {
            TestEvent::Created { result, handle } => result.number() != 0 || handle == 0,
            TestEvent::Sent { result } => result.number() != 0,
            TestEvent::Received { result, frame } => {
                ||| result.number() == 0 && frame_fault(frame) is Some
                ||| result.number() == -2 && test.phase->Receive_index + 1 == test.packets@.len()
                    && test.frames_decoded == 0
                ||| result.number() == -3 && test.frames_decoded == 0
                ||| result.number() == -1
                ||| result.number() == -4
            },
            TestEvent::Plane { bytes } => forall|i: int| 0 <= i < bytes@.len() ==> bytes@[i] == 0u8,
            _ => false,
        },
        test.after(event) matches TestProgress::Failed(failure) ==> match event {
            TestEvent::Created { result, .. } => failure == if result.number() != 0 {
                TestFailure::CreateFailed(result)
            } else {
                TestFailure::NullHandle
            },
            TestEvent::Sent { result } => failure == TestFailure::SendFailed(
                test.phase->Send_index,
                result,
            ),
            TestEvent::Received { result, frame } => if result.number() == 0 {
                frame_fault(frame) == Some(failure)
            } else if result.number() == -2 || result.number() == -3 {
                failure == TestFailure::NothingDecoded
            } else {
                failure == TestFailure::UnexpectedResult(result)
            },
            TestEvent::Plane { .. } => failure == TestFailure::BlankPlane,
            _ => false,
        },
{
    assert(test.packets.len() == test.packets@.len());
    if let TestEvent::Plane { bytes } = event {
        blank_planes(bytes@, seq![]);
    }
}

/// What a run does next, event by event, unless it fails. The decoder that was created is sent the
/// first packet; a packet that was taken is followed by a request for a frame; a frame is followed
/// by a look at its Y plane, all of it, and that by the next request, until there are three; a
/// want of packets is followed by the next packet, as long as there is one. Then the decoder is
/// flushed, and then destroyed, and that is that.
pub proof fn events_have_their_actions<'a>(test: DecodeTest<'a>, event: TestEvent<'_>)
    requires
        test.wf(),
        test.awaits(event),
        test.after(event) !is Failed,
    ensures
        test.after(event) matches TestProgress::Passed(frames) ==> event is Destroyed && frames
            == test.frames_decoded,
        test.after(event) matches TestProgress::Pending(next) ==> {
            let action = next.next_action();
            &&& next.packets == test.packets
            &&& next.codec == test.codec
            &&& next.handle == if event is Created {
                event->handle
            } else {
                test.handle
            }
            &&& next.frames_decoded == test.frames_decoded + if event is Received
                && event->Received_result.number() == 0 {
                1int
            } else {
                0int
            }
            &&& match event {
                TestEvent::Created { handle, .. } => is_sending(action, handle, test.packets, 0),
                TestEvent::Sent { .. } => action == (TestAction::Receive { handle: test.handle }),
                TestEvent::Received { result, frame } => if result.number() == 0 {
                    action matches TestAction::ReadPlane { address, len } && address
                        == frame.planes[0] && len == frame.strides[0] * frame.height
                } else if result.number() == -2 && test.phase->Receive_index + 1
                    < test.packets@.len() {
                    is_sending(action, test.handle, test.packets, test.phase->Receive_index + 1)
                } else {
                    action == (TestAction::Flush { handle: test.handle })
                },
                TestEvent::Plane { .. } => action == if test.frames_decoded < 3 {
                    TestAction::Receive { handle: test.handle }
                } else {
                    TestAction::Flush { handle: test.handle }
                },
                TestEvent::Flushed => action == (TestAction::Destroy { handle: test.handle }),
                TestEvent::Destroyed => false,
            }
        },
{
    assert(test.packets.len() == test.packets@.len());
    if let TestEvent::Received { result, frame } = event {
        if result is Success {
            let stride = frame.strides[0] as int;
            let height = frame.height as int;
            assert(0 < stride * height) by (nonlinear_arith)
                requires
                    0 < stride,
                    0 < height,
            ;
        }
    }
}

/// The action sends the packet of index `i`, all of it, with its index as time stamp.
pub open spec fn is_sending(
    action: TestAction<'_>,
    handle: usize,
    packets: &Vec<Vec<u8>>,
    i: int,
) -> bool {
    &&& action matches TestAction::Send { handle: to, data, size, pts }
    &&& to == handle
    &&& data@ == packets@[i]@
    &&& data@.len() <= i32::MAX ==> size == packets@[i]@.len()
    &&& i <= i64::MAX ==> pts == i
}

/// The first thing that a run does is to create a decoder for its codec, with I420 output and one
/// thread.
pub proof fn runs_begin_with_a_decoder<'a>(packets: &'a Vec<Vec<u8>>, codec: MoyuVideoCodec)
    ensures
        DecodeTest::start(packets, codec).next_action() matches TestAction::Create { config }
            && config.codec == codec && config.output_format.number() == 0 && config.thread_count
            == 1,
        DecodeTest::start(packets, codec).frames_decoded == 0,
        DecodeTest::start(packets, codec).packets == packets,
{
}

} // verus!
