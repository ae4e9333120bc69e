use crustysynth::cursor::ByteCursor;
use crustysynth::vlq::{read_vlq, read_vlq_unchecked, VlqError};

/// The encodings of the format's reference table:
/// 00          => 00000000
/// 40          => 00000040
/// 7F          => 0000007F
/// 81 00       => 00000080
/// C0 00       => 00002000
/// FF 7F       => 00003FFF
/// 81 80 00    => 00004000
/// C0 80 00    => 00100000
/// FF FF 7F    => 001FFFFF
/// 81 80 80 00 => 00200000
/// C0 80 80 00 => 08000000
/// FF FF FF 7F => 0FFFFFFF
#[test]
fn vlq_test_read_vlq() {
    assert_eq!(read_vlq(&mut ByteCursor::new(vec![0x00])).unwrap(), 0);
    assert_eq!(read_vlq(&mut ByteCursor::new(vec![0x40])).unwrap(), 0x40);
    assert_eq!(read_vlq(&mut ByteCursor::new(vec![0x7f])).unwrap(), 0x7f);
    assert_eq!(read_vlq(&mut ByteCursor::new(vec![0x81, 0x00])).unwrap(), 0x80);
    assert_eq!(read_vlq(&mut ByteCursor::new(vec![0xc0, 0x00])).unwrap(), 0x2000);
    assert_eq!(read_vlq(&mut ByteCursor::new(vec![0xff, 0x7f])).unwrap(), 0x3fff);
    assert_eq!(
        read_vlq(&mut ByteCursor::new(vec![0x81, 0x80, 0x00])).unwrap(),
        0x4000
    );
    assert_eq!(
        read_vlq(&mut ByteCursor::new(vec![0xC0, 0x80, 0x00])).unwrap(),
        0x100000
    );
    assert_eq!(
        read_vlq(&mut ByteCursor::new(vec![0xFF, 0xFF, 0x7F])).unwrap(),
        0x1fffff
    );
    assert_eq!(
        read_vlq(&mut ByteCursor::new(vec![0x81, 0x80, 0x80, 0x00])).unwrap(),
        0x200000
    );
    assert_eq!(
        read_vlq(&mut ByteCursor::new(vec![0xC0, 0x80, 0x80, 0x00])).unwrap(),
        0x8000000
    );
    assert_eq!(
        read_vlq(&mut ByteCursor::new(vec![0xFF, 0xFF, 0xFF, 0x7F])).unwrap(),
        0xFFFFFFF
    );
}

#[test]
fn mod_test_read_vlq() {
    assert_eq!(read_vlq(&mut ByteCursor::new(vec![0x00])).unwrap(), 0);
    assert_eq!(read_vlq(&mut ByteCursor::new(vec![0x40])).unwrap(), 0x40);
    assert_eq!(read_vlq(&mut ByteCursor::new(vec![0x7f])).unwrap(), 0x7f);
    assert_eq!(read_vlq(&mut ByteCursor::new(vec![0x81, 0x00])).unwrap(), 0x80);
    assert_eq!(read_vlq(&mut ByteCursor::new(vec![0xc0, 0x00])).unwrap(), 0x2000);
    assert_eq!(read_vlq(&mut ByteCursor::new(vec![0xff, 0x7f])).unwrap(), 0x3fff);
    assert_eq!(
        read_vlq(&mut ByteCursor::new(vec![0x81, 0x80, 0x00])).unwrap(),
        0x4000
    );
    assert_eq!(
        read_vlq(&mut ByteCursor::new(vec![0xC0, 0x80, 0x00])).unwrap(),
        0x100000
    );
    assert_eq!(
        read_vlq(&mut ByteCursor::new(vec![0xFF, 0xFF, 0x7F])).unwrap(),
        0x1fffff
    );
    assert_eq!(
        read_vlq(&mut ByteCursor::new(vec![0x81, 0x80, 0x80, 0x00])).unwrap(),
        0x200000
    );
    assert_eq!(
        read_vlq(&mut ByteCursor::new(vec![0xC0, 0x80, 0x80, 0x00])).unwrap(),
        0x8000000
    );
    assert_eq!(
        read_vlq(&mut ByteCursor::new(vec![0xFF, 0xFF, 0xFF, 0x7F])).unwrap(),
        0xFFFFFFF
    );
}

#[test]
fn test_read_vlq_toolarge() {
    assert!(read_vlq(&mut ByteCursor::new(vec![0xFF, 0xFF, 0xFF, 0xFF, 0x7F])).is_err());
}

#[test]
fn test_read_vlq_uncheckoed() {
    assert_eq!(read_vlq_unchecked(&mut ByteCursor::new(vec![0x00])).unwrap(), 0);
    assert_eq!(read_vlq_unchecked(&mut ByteCursor::new(vec![0x40])).unwrap(), 0x40);
    assert_eq!(read_vlq_unchecked(&mut ByteCursor::new(vec![0x7f])).unwrap(), 0x7f);
    assert_eq!(
        read_vlq_unchecked(&mut ByteCursor::new(vec![0x81, 0x00])).unwrap(),
        0x80
    );
    assert_eq!(
        read_vlq_unchecked(&mut ByteCursor::new(vec![0xc0, 0x00])).unwrap(),
        0x2000
    );
    assert_eq!(
        read_vlq_unchecked(&mut ByteCursor::new(vec![0xff, 0x7f])).unwrap(),
        0x3fff
    );
    assert_eq!(
        read_vlq_unchecked(&mut ByteCursor::new(vec![0x81, 0x80, 0x00])).unwrap(),
        0x4000
    );
    assert_eq!(
        read_vlq_unchecked(&mut ByteCursor::new(vec![0xC0, 0x80, 0x00])).unwrap(),
        0x100000
    );
    assert_eq!(
        read_vlq_unchecked(&mut ByteCursor::new(vec![0xFF, 0xFF, 0x7F])).unwrap(),
        0x1fffff
    );
    assert_eq!(
        read_vlq_unchecked(&mut ByteCursor::new(vec![0x81, 0x80, 0x80, 0x00])).unwrap(),
        0x200000
    );
    assert_eq!(
        read_vlq_unchecked(&mut ByteCursor::new(vec![0xC0, 0x80, 0x80, 0x00])).unwrap(),
        0x8000000
    );
    assert_eq!(
        read_vlq_unchecked(&mut ByteCursor::new(vec![0xFF, 0xFF, 0xFF, 0x7F])).unwrap(),
        0xFFFFFFF
    );
    assert_eq!(
        read_vlq_unchecked(&mut ByteCursor::new(vec![0xFF, 0xFF, 0xFF, 0x7F])).unwrap(),
        0xFFFFFFF
    );
    assert_eq!(
        read_vlq_unchecked(&mut ByteCursor::new(vec![0xFF, 0xFF, 0xFF, 0xFF, 0x7F])).unwrap(),
        0x7FFFFFFFF
    );
}

#[test]
fn test_read_vlq_exhausted_stream() {
    assert_eq!(
        read_vlq(&mut ByteCursor::new(vec![])),
        Err(VlqError::IOError)
    );
    assert_eq!(
        read_vlq(&mut ByteCursor::new(vec![0x81, 0x80])),
        Err(VlqError::IOError)
    );
    assert_eq!(
        read_vlq_unchecked(&mut ByteCursor::new(vec![0x81])),
        Err(VlqError::IOError)
    );
}

#[test]
fn test_vlq_cursor_advances_past_value() {
    let mut cursor = ByteCursor::new(vec![0x81, 0x00, 0x42]);
    assert_eq!(read_vlq(&mut cursor).unwrap(), 0x80);
    assert_eq!(cursor.read_byte(), Some(0x42));
    assert_eq!(cursor.read_byte(), None);
}
