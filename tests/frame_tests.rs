use ssh_probe::frame::{decode_seq, Frame, LINE_TERMINATOR};

#[test]
fn frame_round_trip() {
    for &p in &[1u64, 2, 7, 256, 1000] {
        for &s in &[0u64, 1, 255, 256, 0x0102_0304_0506_0708, u64::MAX] {
            let mut f = Frame::new(p);
            f.set_seq(s);
            let bytes = f.as_slice();
            assert_eq!(bytes.len() as u64, 8 + p);
            assert_eq!(f.len() as u64, 8 + p);
            assert_eq!(decode_seq(bytes), Some(s));
            assert_eq!(*bytes.last().unwrap(), LINE_TERMINATOR);
            assert_eq!(f.seq(), s);
        }
    }
}

#[test]
fn frame_layout() {
    let mut f = Frame::new(4);
    assert_eq!(f.as_slice(), &[0, 0, 0, 0, 0, 0, 0, 0, 8, 9, 10, 10]);
    f.set_seq(0x0102_0304_0506_0708);
    assert_eq!(f.as_slice(), &[1, 2, 3, 4, 5, 6, 7, 8, 8, 9, 10, 10]);
}

#[test]
fn frame_filler_wraps_at_256() {
    let f = Frame::new(300);
    let bytes = f.as_slice();
    assert_eq!(bytes[255], 255);
    assert_eq!(bytes[256], 0);
    assert_eq!(bytes[300], 44);
    assert_eq!(bytes[307], b'\n');
}

#[test]
fn decode_seq_of_short_input() {
    assert_eq!(decode_seq(&[1, 2, 3, 4, 5, 6, 7]), None);
    assert_eq!(decode_seq(&[0, 0, 0, 0, 0, 0, 1, 0]), Some(256));
}
