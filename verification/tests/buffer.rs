use mcutie::buffer::WriteError;
use mcutie::{Buffer, Error, Payload};

#[test]
fn new_buffer_is_empty() {
    let b: Buffer<8> = Buffer::new();
    assert_eq!(b.len(), 0);
    assert_eq!(b.available(), 8);
    assert_eq!(b.as_bytes(), &[] as &[u8]);
    let d: Buffer<8> = Buffer::default();
    assert_eq!(d.len(), 0);
}

#[test]
fn write_reads_back() {
    let mut b: Buffer<8> = Buffer::new();
    assert_eq!(b.write(&[1, 2, 3]), Ok(3));
    assert_eq!(b.write(&[4]), Ok(1));
    assert_eq!(b.as_bytes(), &[1, 2, 3, 4]);
    assert_eq!(b.len(), 4);
    assert_eq!(b.available(), 4);
}

#[test]
fn write_is_partial_when_short_of_room() {
    let mut b: Buffer<4> = Buffer::new();
    assert_eq!(b.write(&[1, 2, 3]), Ok(3));
    assert_eq!(b.write(&[4, 5, 6]), Ok(1));
    assert_eq!(b.as_bytes(), &[1, 2, 3, 4]);
    assert_eq!(b.write(&[7]), Err(WriteError::Full));
    assert_eq!(b.write(&[]), Ok(0));
    assert_eq!(b.as_bytes(), &[1, 2, 3, 4]);
}

#[test]
fn write_all_keeps_what_fits() {
    let mut b: Buffer<4> = Buffer::new();
    assert_eq!(b.write_all(&[1, 2]), Ok(()));
    assert_eq!(b.write_all(&[3, 4, 5]), Err(WriteError::Full));
    assert_eq!(b.as_bytes(), &[1, 2, 3, 4]);
}

#[test]
fn write_str_appends_utf8() {
    let mut b: Buffer<8> = Buffer::new();
    assert_eq!(b.write_str("on"), Ok(()));
    assert_eq!(b.write_str("é"), Ok(()));
    assert_eq!(b.as_bytes(), "oné".as_bytes());
}

#[test]
fn reset_discards_everything() {
    let mut b: Buffer<4> = Buffer::new();
    b.write_all(&[9, 9, 9]).unwrap();
    b.reset();
    assert_eq!(b.len(), 0);
    assert_eq!(b.available(), 4);
    assert_eq!(b.write(&[1]), Ok(1));
    assert_eq!(b.as_bytes(), &[1]);
}

#[test]
fn from_copies_or_refuses() {
    let b = Buffer::<4>::from(&[1, 2, 3]).ok().unwrap();
    assert_eq!(b.as_bytes(), &[1, 2, 3]);
    let full = Buffer::<3>::from(&[1, 2, 3]).ok().unwrap();
    assert_eq!(full.available(), 0);
    assert!(matches!(Buffer::<2>::from(&[1, 2, 3]), Err(Error::TooLarge)));
}

#[test]
fn payload_holds_2048_bytes() {
    let data = [7u8; 2048];
    let p = Payload::from(&data).ok().unwrap();
    assert_eq!(p.len(), 2048);
    let too_big = [7u8; 2049];
    assert!(matches!(Payload::from(&too_big), Err(Error::TooLarge)));
}
