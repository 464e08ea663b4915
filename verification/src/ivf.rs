//! The IVF container: a file header of 32 bytes, then frame after frame, each with a header of
//! 12 bytes: its size, as a little-endian number of four bytes, and eight bytes of time stamp.
use crate::text::{from_utf8_lossy, readable_text};
use vstd::prelude::*;
use vstd::slice::slice_subrange;
use vstd::slice::slice_to_vec;

verus! {

/// Length of the file header.
pub const IVF_HEADER_LEN: usize = 32;

/// Length of a frame's header.
pub const IVF_FRAME_HEADER_LEN: usize = 12;

/// Why a file is not an IVF file.
#[derive(Debug, Clone, Copy, PartialEq, Eq, Structural)]
pub enum IvfError {
    /// It is shorter than the file header.
    TooShort,
    /// It does not begin with the signature `DKIF`.
    NotIvf,
}

/// What the file header says of the video.
#[derive(Debug, PartialEq, Eq)]
pub struct IvfHeader {
    /// The codec's four-character code.
    pub fourcc: String,
    pub width: u16,
    pub height: u16,
}

/// The number that two bytes stand for, the low one first.
pub open spec fn le16(data: Seq<u8>, at: int) -> int {
    data[at] + 0x100 * data[at + 1]
}

/// The number that four bytes stand for, the low one first.
pub open spec fn le32(data: Seq<u8>, at: int) -> int {
    data[at] + 0x100 * data[at + 1] + 0x1_0000 * data[at + 2] + 0x100_0000 * data[at + 3]
}

/// The signature `DKIF`.
pub open spec fn signature() -> Seq<u8> {
    seq![0x44u8, 0x4Bu8, 0x49u8, 0x46u8]
}

/// A whole file header with the right signature.
pub open spec fn is_ivf(data: Seq<u8>) -> bool {
    &&& data.len() >= IVF_HEADER_LEN
    &&& data.subrange(0, 4) == signature()
}

/// The bytes of the codec's four-character code in a file header.
pub open spec fn header_fourcc(data: Seq<u8>) -> Seq<u8> {
    data.subrange(8, 12)
}

/// The width of the video in a file header.
pub open spec fn header_width(data: Seq<u8>) -> int {
    le16(data, 12)
}

/// The height of the video in a file header.
pub open spec fn header_height(data: Seq<u8>) -> int {
    le16(data, 14)
}

/// Where the frame ends whose header is at `pos`.
pub open spec fn frame_end(data: Seq<u8>, pos: int) -> int {
    pos + IVF_FRAME_HEADER_LEN + le32(data, pos)
}

/// A whole frame is at `pos`, with its header.
pub open spec fn has_frame(data: Seq<u8>, pos: int) -> bool {
    &&& pos + IVF_FRAME_HEADER_LEN <= data.len()
    &&& frame_end(data, pos) <= data.len()
}

/// The frames from `pos` on, up to the first one that is not whole.
pub open spec fn frames_from(data: Seq<u8>, pos: int) -> Seq<Seq<u8>>
    decreases data.len() - pos,
{
    if has_frame(data, pos) {
        seq![data.subrange(pos + IVF_FRAME_HEADER_LEN, frame_end(data, pos))] + frames_from(
            data,
            frame_end(data, pos),
        )
    } else {
        seq![]
    }
}

/// The frames of a file.
pub open spec fn ivf_frames(data: Seq<u8>) -> Seq<Seq<u8>> {
    frames_from(data, IVF_HEADER_LEN as int)
}

/// Tests whether the file has a whole header with the right signature.
pub fn check_ivf(data: &[u8]) -> (result: Result<(), IvfError>)
    ensures
        result is Ok <==> is_ivf(data@),
        result == Err::<(), IvfError>(IvfError::TooShort) <==> data@.len() < IVF_HEADER_LEN,
        result == Err::<(), IvfError>(IvfError::NotIvf) <==> data@.len() >= IVF_HEADER_LEN
            && data@.subrange(0, 4) != signature(),
{
    if data.len() < IVF_HEADER_LEN {
        return Err(IvfError::TooShort);
    }
    let ghost begin = data@.subrange(0, 4);
    assert(begin[0] == data@[0] && begin[1] == data@[1] && begin[2] == data@[2] && begin[3]
        == data@[3]);
    if data[0] == 0x44 && data[1] == 0x4B && data[2] == 0x49 && data[3] == 0x46 {
        assert(begin =~= signature());
        Ok(())
    } else {
        assert(signature()[0] == 0x44 && signature()[1] == 0x4B && signature()[2] == 0x49
            && signature()[3] == 0x46);
        Err(IvfError::NotIvf)
    }
}

/// The number that the two bytes at `at` stand for.
fn read_le16(data: &[u8], at: usize) -> (n: u16)
    requires
        at + 2 <= data@.len(),
    ensures
        n == le16(data@, at as int),
{
    data[at] as u16 + 0x100 * (data[at + 1] as u16)
}

/// The number that the four bytes at `at` stand for.
fn read_le32(data: &[u8], at: usize) -> (n: u32)
    requires
        at + 4 <= data@.len(),
    ensures
        n == le32(data@, at as int),
{
    data[at] as u32 + 0x100 * (data[at + 1] as u32) + 0x1_0000 * (data[at + 2] as u32) + 0x100_0000
        * (data[at + 3] as u32)
}

/// What the file header says of the video.
pub fn read_ivf_header(data: &[u8]) -> (header: IvfHeader)
    requires
        is_ivf(data@),
    ensures
        header.fourcc@ == readable_text(data@.subrange(8, 12)),
        header.width == le16(data@, 12),
        header.height == le16(data@, 14),
        header.fourcc@ == readable_text(header_fourcc(data@)),
        header.width == header_width(data@),
        header.height == header_height(data@),
{
    IvfHeader {
        fourcc: from_utf8_lossy(slice_subrange(data, 8, 12)),
        width: read_le16(data, 12),
        height: read_le16(data, 14),
    }
}

/// The frames of an IVF file, as raw bytes. Reading ends at the first frame that is cut off.
pub fn read_ivf_frames(data: &[u8]) -> (frames: Vec<Vec<u8>>)
    requires
        is_ivf(data@),
    ensures
        frames@.len() == ivf_frames(data@).len(),
        forall|i: int| 0 <= i < frames@.len() ==> (#[trigger] frames@[i])@ == ivf_frames(data@)[i],
{
    let mut frames: Vec<Vec<u8>> = Vec::new();
    let mut pos: usize = IVF_HEADER_LEN;
    while data.len() - pos >= IVF_FRAME_HEADER_LEN
        invariant_except_break
            IVF_HEADER_LEN <= pos <= data@.len(),
            frames@.len() + frames_from(data@, pos as int).len() == ivf_frames(data@).len(),
            forall|i: int|
                0 <= i < frames@.len() ==> (#[trigger] frames@[i])@ == ivf_frames(data@)[i],
            forall|i: int|
                0 <= i < frames_from(data@, pos as int).len() ==> #[trigger] frames_from(
                    data@,
                    pos as int,
                )[i] == ivf_frames(data@)[frames@.len() + i],
        ensures
            frames@.len() == ivf_frames(data@).len(),
            forall|i: int|
                0 <= i < frames@.len() ==> (#[trigger] frames@[i])@ == ivf_frames(data@)[i],
        decreases data@.len() - pos,
    {
        let frame_size: u32 = read_le32(data, pos);
        let frame_start: usize = pos + IVF_FRAME_HEADER_LEN;
        if frame_size as u64 > (data.len() - frame_start) as u64 {
            break;
        }
        let frame_end: usize = frame_start + frame_size as usize;
        let ghost left = frames_from(data@, pos as int);
        proof {
            assert(left[0] == data@.subrange(frame_start as int, frame_end as int));
            assert(left.len() == 1 + frames_from(data@, frame_end as int).len());
            assert forall|i: int| 0 <= i < frames_from(data@, frame_end as int).len() implies
                #[trigger] frames_from(data@, frame_end as int)[i] == left[i + 1] by {}
        }
        frames.push(slice_to_vec(slice_subrange(data, frame_start, frame_end)));
        pos = frame_end;
    }
    frames
}

/// The four bytes that stand for a number, the low one first.
pub open spec fn le32_bytes(n: int) -> Seq<u8> {
    seq![
        (n % 0x100) as u8,
        (n / 0x100 % 0x100) as u8,
        (n / 0x1_0000 % 0x100) as u8,
        (n / 0x100_0000 % 0x100) as u8,
    ]
}

/// A frame as it is written to a file, behind its header.
pub open spec fn frame_record(stamp: Seq<u8>, frame: Seq<u8>) -> Seq<u8> {
    le32_bytes(frame.len() as int) + stamp + frame
}

/// Frames as they are written to a file, one after the other.
pub open spec fn frame_records(stamps: Seq<Seq<u8>>, frames: Seq<Seq<u8>>) -> Seq<u8>
    decreases frames.len(),
{
    if frames.len() == 0 {
        seq![]
    } else {
        frame_record(stamps[0], frames[0]) + frame_records(stamps.drop_first(), frames.drop_first())
    }
}

/// Bytes that do not hold a whole frame: they end within the header of 12 bytes, or before the frame
/// of which the first four bytes give the size.
pub open spec fn is_cut_off(rest: Seq<u8>) -> bool {
    ||| rest.len() < 12
    ||| rest.len() < 12 + rest[0] + rest[1] * 0x100 + rest[2] * 0x1_0000 + rest[3] * 0x100_0000
}

/// Reading goes on in the same way wherever the bytes stand.
proof fn frame_at_offset(before: Seq<u8>, data: Seq<u8>)
    ensures
        has_frame(before + data, before.len() as int) == has_frame(data, 0),
        has_frame(data, 0) ==> frame_end(before + data, before.len() as int) == before.len()
            + frame_end(data, 0),
{
    if data.len() >= IVF_FRAME_HEADER_LEN {
        let all = before + data;
        let at = before.len() as int;
        assert(all[at] == data[0] && all[at + 1] == data[1] && all[at + 2] == data[2] && all[at + 3]
            == data[3]);
    }
}

/// A record is read back as its frame.
proof fn record_is_read_back(stamp: Seq<u8>, frame: Seq<u8>, behind: Seq<u8>)
    requires
        stamp.len() == 8,
        frame.len() < 0x1_0000_0000,
    ensures
        ({
            let data = frame_record(stamp, frame) + behind;
            &&& has_frame(data, 0)
            &&& frame_end(data, 0) == frame_record(stamp, frame).len()
            &&& data.subrange(IVF_FRAME_HEADER_LEN as int, frame_end(data, 0)) == frame
        }),
{
    let data = frame_record(stamp, frame) + behind;
    let n = frame.len() as int;
    let bytes = le32_bytes(n);
    assert(data[0] == bytes[0] && data[1] == bytes[1] && data[2] == bytes[2] && data[3]
        == bytes[3]);
    assert(n == n % 0x100 + 0x100 * (n / 0x100 % 0x100) + 0x1_0000 * (n / 0x1_0000 % 0x100)
        + 0x100_0000 * (n / 0x100_0000 % 0x100)) by (nonlinear_arith)
        requires
            0 <= n < 0x1_0000_0000,
    ;
    assert(data.subrange(IVF_FRAME_HEADER_LEN as int, frame_end(data, 0)) =~= frame);
}

/// Frames are read back behind anything.
proof fn records_are_read_back(
    before: Seq<u8>,
    stamps: Seq<Seq<u8>>,
    frames: Seq<Seq<u8>>,
    rest: Seq<u8>,
)
    requires
        stamps.len() == frames.len(),
        forall|i: int| 0 <= i < stamps.len() ==> (#[trigger] stamps[i]).len() == 8,
        forall|i: int| 0 <= i < frames.len() ==> (#[trigger] frames[i]).len() < 0x1_0000_0000,
        is_cut_off(rest),
    ensures
        frames_from(before + frame_records(stamps, frames) + rest, before.len() as int) == frames,
    decreases frames.len(),
{
    let data = before + frame_records(stamps, frames) + rest;
    let at = before.len() as int;
    if frames.len() == 0 {
        assert(data =~= before + rest);
        frame_at_offset(before, rest);
        assert(frames_from(data, at) =~= frames);
    } else {
        let record = frame_record(stamps[0], frames[0]);
        let later = frame_records(stamps.drop_first(), frames.drop_first());
        assert(data =~= before + (record + (later + rest)));
        frame_at_offset(before, record + (later + rest));
        record_is_read_back(stamps[0], frames[0], later + rest);
        let next = at + record.len();
        assert(frame_end(data, at) == next);
        assert(data.subrange(at + IVF_FRAME_HEADER_LEN, next) =~= (record + (later
            + rest)).subrange(IVF_FRAME_HEADER_LEN as int, record.len() as int));
        assert(data =~= (before + record) + later + rest);
        records_are_read_back(before + record, stamps.drop_first(), frames.drop_first(), rest);
        assert(frames_from(data, at) =~= frames);
    }
}

/// What is written to an IVF file is read back: behind the header, the frames that were written
/// come out, each with its own bytes and in their order, whatever their time stamps are and
/// whatever piece of a further frame the file ends with.
pub proof fn written_frames_are_read_back(
    header: Seq<u8>,
    stamps: Seq<Seq<u8>>,
    frames: Seq<Seq<u8>>,
    rest: Seq<u8>,
)
    requires
        is_ivf(header),
        header.len() == 32,
        stamps.len() == frames.len(),
        forall|i: int| 0 <= i < stamps.len() ==> (#[trigger] stamps[i]).len() == 8,
        forall|i: int| 0 <= i < frames.len() ==> (#[trigger] frames[i]).len() < 0x1_0000_0000,
        is_cut_off(rest),
    ensures
        is_ivf(header + frame_records(stamps, frames) + rest),
        ivf_frames(header + frame_records(stamps, frames) + rest) == frames,
{
    records_are_read_back(header, stamps, frames, rest);
    assert((header + frame_records(stamps, frames) + rest).subrange(0, 4) =~= header.subrange(
        0,
        4,
    ));
}

/// The frames in a file that has been cut off are among those of the whole file.
proof fn frames_from_cut_file(data: Seq<u8>, len: int, pos: int)
    requires
        0 <= pos,
        0 <= len <= data.len(),
    ensures
        frames_from(data.take(len), pos).is_prefix_of(frames_from(data, pos)),
    decreases data.len() - pos,
{
    let cut = data.take(len);
    if has_frame(cut, pos) {
        let end = frame_end(cut, pos);
        assert(le32(cut, pos) == le32(data, pos));
        assert(has_frame(data, pos));
        assert(cut.subrange(pos + IVF_FRAME_HEADER_LEN, end) =~= data.subrange(
            pos + IVF_FRAME_HEADER_LEN,
            end,
        ));
        frames_from_cut_file(data, len, end);
        let some = frames_from(cut, end);
        let all = frames_from(data, end);
        assert(all.take(some.len() as int) == some);
        assert(frames_from(cut, pos) =~= frames_from(data, pos).take(some.len() + 1int));
    } else {
        assert(frames_from(cut, pos) =~= frames_from(data, pos).take(0));
    }
}

/// Cutting a file off loses the frames that are cut, and changes none of those before: what is
/// read is the beginning of what would have been read.
pub proof fn cut_files_keep_their_first_frames(data: Seq<u8>, len: int)
    requires
        is_ivf(data),
        IVF_HEADER_LEN <= len <= data.len(),
    ensures
        is_ivf(data.take(len)),
        ivf_frames(data.take(len)).is_prefix_of(ivf_frames(data)),
{
    frames_from_cut_file(data, len, IVF_HEADER_LEN as int);
    assert(data.take(len).subrange(0, 4) =~= data.subrange(0, 4));
}

/// A file is an IVF file if and only if it has the 32 bytes of a header and begins with `D`, `K`, `I`
/// and `F`.
pub proof fn ivf_files_begin_with_their_signature(data: Seq<u8>)
    ensures
        is_ivf(data) <==> {
            &&& data.len() >= 32
            &&& data[0] as int == 'D' as int
            &&& data[1] as int == 'K' as int
            &&& data[2] as int == 'I' as int
            &&& data[3] as int == 'F' as int
        },
{
    if data.len() >= 32 {
        let begin = data.subrange(0, 4);
        assert(begin[0] == data[0] && begin[1] == data[1] && begin[2] == data[2] && begin[3]
            == data[3]);
        assert(signature()[0] == 0x44 && signature()[1] == 0x4B && signature()[2] == 0x49
            && signature()[3] == 0x46);
        if data[0] == 0x44 && data[1] == 0x4B && data[2] == 0x49 && data[3] == 0x46 {
            assert(begin =~= signature());
        }
    }
}

/// The two bytes that stand for a number, the low one first.
pub open spec fn le16_bytes(n: u16) -> Seq<u8> {
    seq![(n % 0x100) as u8, (n / 0x100) as u8]
}

/// What is written to a file header is read back: behind the signature and four bytes more come the
/// codec's code, the width and the height.
pub proof fn written_headers_are_read_back(
    version: Seq<u8>,
    fourcc: Seq<u8>,
    width: u16,
    height: u16,
    rest: Seq<u8>,
)
    requires
        version.len() == 4,
        fourcc.len() == 4,
        rest.len() >= 16,
    ensures
        ({
            let data = seq![0x44u8, 0x4Bu8, 0x49u8, 0x46u8] + version + fourcc + le16_bytes(width)
                + le16_bytes(height) + rest;
            &&& is_ivf(data)
            &&& header_fourcc(data) == fourcc
            &&& header_width(data) == width
            &&& header_height(data) == height
        }),
{
    let data = seq![0x44u8, 0x4Bu8, 0x49u8, 0x46u8] + version + fourcc + le16_bytes(width)
        + le16_bytes(height) + rest;
    ivf_files_begin_with_their_signature(data);
    assert(header_fourcc(data) =~= fourcc);
    assert(data[12] == le16_bytes(width)[0] && data[13] == le16_bytes(width)[1]);
    assert(data[14] == le16_bytes(height)[0] && data[15] == le16_bytes(height)[1]);
}

} // verus!
