use moyu_video::ivf::{check_ivf, read_ivf_frames, read_ivf_header, IvfError};

fn header() -> Vec<u8> {
    let mut data = b"DKIF".to_vec();
    data.extend_from_slice(&[0, 0, 32, 0]);
    data.extend_from_slice(b"VP90");
    data.extend_from_slice(&[0x40, 0x01, 0xF0, 0x00]);
    data.extend_from_slice(&[0u8; 16]);
    data
}

fn add_frame(data: &mut Vec<u8>, stamp: u64, frame: &[u8]) {
    data.extend_from_slice(&(frame.len() as u32).to_le_bytes());
    data.extend_from_slice(&stamp.to_le_bytes());
    data.extend_from_slice(frame);
}

#[test]
fn short_files_are_refused() {
    assert_eq!(check_ivf(&[]), Err(IvfError::TooShort));
    assert_eq!(check_ivf(&header()[..31]), Err(IvfError::TooShort));
    assert_eq!(check_ivf(&header()), Ok(()));
}

#[test]
fn other_files_are_refused() {
    for at in 0..4 {
        let mut data = header();
        data[at] = b'x';
        assert_eq!(check_ivf(&data), Err(IvfError::NotIvf));
    }
}

#[test]
fn the_header_is_read() {
    let header = read_ivf_header(&header());
    assert_eq!(header.fourcc, "VP90");
    assert_eq!(header.width, 320);
    assert_eq!(header.height, 240);
}

#[test]
fn codes_that_are_no_text_are_replaced() {
    let mut data = header();
    data[9] = 0xFF;
    assert_eq!(read_ivf_header(&data).fourcc, "V\u{FFFD}90");
}

#[test]
fn a_file_without_frames() {
    assert!(read_ivf_frames(&header()).is_empty());
}

#[test]
fn what_is_written_is_read_back() {
    let long = vec![7u8; 300];
    let mut data = header();
    add_frame(&mut data, 0, &[1, 2, 3]);
    add_frame(&mut data, u64::MAX, &[]);
    add_frame(&mut data, 2, &long);
    assert_eq!(read_ivf_frames(&data), vec![vec![1, 2, 3], vec![], long]);
}

#[test]
fn cut_files_lose_only_what_is_cut() {
    let mut data = header();
    add_frame(&mut data, 0, &[1, 2, 3]);
    let whole = data.len();
    add_frame(&mut data, 1, &[4, 5]);
    for len in whole..data.len() {
        assert_eq!(read_ivf_frames(&data[..len]), vec![vec![1, 2, 3]]);
    }
    assert_eq!(read_ivf_frames(&data), vec![vec![1, 2, 3], vec![4, 5]]);
}

#[test]
fn huge_sizes_end_the_reading() {
    let mut data = header();
    add_frame(&mut data, 0, &[1]);
    data.extend_from_slice(&[0xFF; 40]);
    assert_eq!(read_ivf_frames(&data), vec![vec![1]]);
}
