use binrw::io::{Cursor, IoError, SeekFrom};

#[test]
fn seek_from_each_origin() {
    let mut c = Cursor::new(vec![1, 2, 3, 4, 5]);
    assert_eq!(c.position(), 0);
    assert_eq!(c.seek(SeekFrom::Start(3)), Ok(3));
    assert_eq!(c.seek(SeekFrom::Current(-2)), Ok(1));
    assert_eq!(c.seek(SeekFrom::Current(2)), Ok(3));
    assert_eq!(c.seek(SeekFrom::End(-1)), Ok(4));
    assert_eq!(c.seek(SeekFrom::End(10)), Ok(15));
    assert_eq!(c.position(), 15);
    assert_eq!(c.remaining(), 0);
    c.set_position(2);
    assert_eq!(c.remaining(), 3);
    assert_eq!(c.get_ref(), &vec![1, 2, 3, 4, 5]);
    assert_eq!(c.into_inner(), vec![1, 2, 3, 4, 5]);
}

#[test]
fn seek_that_leads_nowhere_moves_nothing() {
    let mut c = Cursor::new(vec![1, 2, 3]);
    c.set_position(2);
    assert_eq!(c.seek(SeekFrom::Current(-3)), Err(IoError::InvalidSeek));
    assert_eq!(c.position(), 2);
    assert_eq!(c.seek(SeekFrom::End(-4)), Err(IoError::InvalidSeek));
    assert_eq!(c.seek(SeekFrom::Current(i64::MIN)), Err(IoError::InvalidSeek));
    assert_eq!(c.position(), 2);
    c.set_position(u64::MAX);
    assert_eq!(c.seek(SeekFrom::Current(1)), Err(IoError::InvalidSeek));
    assert_eq!(c.seek(SeekFrom::Current(0)), Ok(u64::MAX));
    assert_eq!(c.seek(SeekFrom::Current(i64::MIN)), Ok(u64::MAX - (1 << 63)));
}

#[test]
fn read_exact_takes_what_it_is_asked_for() {
    let mut c = Cursor::new(vec![1, 2, 3, 4, 5]);
    assert_eq!(c.read_exact(2), Ok(vec![1, 2]));
    assert_eq!(c.position(), 2);
    assert_eq!(c.read_exact(4), Err(IoError::UnexpectedEof));
    assert_eq!(c.position(), 2);
    assert_eq!(c.read_exact(3), Ok(vec![3, 4, 5]));
    assert_eq!(c.read_exact(0), Ok(vec![]));
    assert_eq!(c.read_exact(1), Err(IoError::UnexpectedEof));
    c.set_position(100);
    assert_eq!(c.read_exact(0), Ok(vec![]));
    assert_eq!(c.read_exact(1), Err(IoError::UnexpectedEof));
    assert_eq!(c.position(), 100);
}

#[test]
fn read_unsigned_in_both_orders() {
    let mut c = Cursor::new(vec![0x12, 0x34, 0x56, 0x78]);
    assert_eq!(c.read_unsigned(3, true), Ok(0x123456));
    assert_eq!(c.position(), 3);
    assert_eq!(c.read_unsigned(2, true), Err(IoError::UnexpectedEof));
    assert_eq!(c.position(), 3);
    c.set_position(1);
    assert_eq!(c.read_unsigned(3, false), Ok(0x785634));
    assert_eq!(c.read_unsigned(0, false), Ok(0));
}
