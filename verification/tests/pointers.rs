use binrw::file_ptr::place;
use binrw::io::{Cursor, IoError, SeekFrom};
use binrw::options::{FileOffset, OptionValue};
use binrw::{
    AbsFilePtr, AbsFilePtr32, AbsPlacement, BinRead, BinReaderExt, BinResult, Endian, Error,
    IntoSeekFrom, ReadOptions, RelFilePtr, RelFilePtr8, RelPlacement,
};

fn big() -> ReadOptions {
    ReadOptions::default().insert(OptionValue::Endian(Endian::Big))
}

#[test]
fn pointer_round_trip() {
    let mut reader = Cursor::new(b"\0\0\0\x08\0\0\0\0\xff".to_vec());
    let test: AbsFilePtr<u32, u8> = reader.read_be().unwrap();
    assert_eq!(test.ptr, 8);
    assert_eq!(*test.deref(), 0xFF);
    assert_eq!(test.get(), Some(&0xFF));
    assert_eq!(reader.position(), 4);
    assert_eq!(test.into_inner(), 0xFF);
}

#[test]
fn phase_one_reads_the_offset_only() {
    let mut reader = Cursor::new(b"\0\0\0\x08\0\0\0\0\xff".to_vec());
    let mut test = AbsFilePtr32::<u8>::read_options(&mut reader, &big(), &()).unwrap();
    assert_eq!(test.ptr, 8);
    assert_eq!(test.get(), None);
    assert_eq!(reader.position(), 4);
    reader.set_position(6);
    test.after_parse(&mut reader, &big(), &()).unwrap();
    assert_eq!(reader.position(), 6);
    assert_eq!(test.get(), Some(&0xFF));
    *test.deref_mut() = 3;
    assert_eq!(*test.deref(), 3);
    assert_eq!(test.ptr, 8);
}

#[test]
fn pointer_parse_hands_the_value_over() {
    let mut reader = Cursor::new(b"\x03\0\0\x12\x34".to_vec());
    let value: u16 = AbsFilePtr::<u8, u16>::parse(&mut reader, &big(), &()).unwrap();
    assert_eq!(value, 0x1234);
    assert_eq!(reader.position(), 1);
}

#[test]
fn relative_pointer_counts_from_the_base_offset() {
    let options = big().insert(OptionValue::Offset(FileOffset(4)));
    let mut reader = Cursor::new(b"\x02\0\0\0\0\0\xAB\xCD".to_vec());
    let rel: RelFilePtr8<u8> = read_both(&mut reader, &options).unwrap();
    assert_eq!(rel.ptr, 2);
    assert_eq!(*rel.deref(), 0xAB);
    assert_eq!(reader.position(), 1);

    let mut reader = Cursor::new(b"\x02\0\xEE\0\0\0\xAB\xCD".to_vec());
    let abs: AbsFilePtr<u8, u8> = read_both(&mut reader, &options).unwrap();
    assert_eq!(*abs.deref(), 0xEE);

    let mut reader = Cursor::new(b"\xfe\0\xEE\0\0\0\xAB\xCD".to_vec());
    let back: RelFilePtr<i8, u8> = read_both(&mut reader, &options).unwrap();
    assert_eq!(back.ptr, -2);
    assert_eq!(*back.deref(), 0xEE);
    assert_eq!(RelFilePtr::<i8, u8>::parse(&mut Cursor::new(b"\xfe\0\xEE\0".to_vec()), &options, &()).unwrap(), 0xEE);
}

fn read_both<T: BinRead<Args = ()>>(reader: &mut Cursor, options: &ReadOptions) -> BinResult<T> {
    let mut v = T::read_options(reader, options, &())?;
    v.after_parse(reader, options, &())?;
    Ok(v)
}

#[test]
fn pointer_that_leads_nowhere() {
    let mut reader = Cursor::new(b"\xff\0".to_vec());
    let r: BinResult<AbsFilePtr<i8, u8>> = reader.read_be();
    assert!(matches!(r, Err(Error::Io(IoError::InvalidSeek))));

    let mut reader = Cursor::new(vec![0xff; 8]);
    let r: BinResult<AbsFilePtr<u64, u8>> = reader.read_be();
    assert!(matches!(r, Err(Error::Io(IoError::InvalidSeek))));

    let mut reader = Cursor::new(vec![0x7f, 0xff, 0xff, 0xff, 0xff, 0xff, 0xff, 0xff]);
    let r: BinResult<AbsFilePtr<u64, u8>> = reader.read_be();
    assert!(matches!(r, Err(Error::Io(IoError::UnexpectedEof))));

    let options = big().insert(OptionValue::Offset(FileOffset(u64::MAX)));
    let r: BinResult<RelFilePtr8<u8>> = read_both(&mut Cursor::new(vec![1, 0]), &options);
    assert!(matches!(r, Err(Error::Io(IoError::InvalidSeek))));

    let r: BinResult<AbsFilePtr<u8, u8>> = Cursor::new(vec![9, 0]).read_be();
    assert!(matches!(r, Err(Error::Io(IoError::UnexpectedEof))));
    let r: BinResult<AbsFilePtr<u16, u8>> = Cursor::new(vec![9]).read_be();
    assert!(matches!(r, Err(Error::Io(IoError::UnexpectedEof))));
}

#[test]
fn pointer_to_pointer() {
    let mut reader = Cursor::new(vec![2, 0, 4, 0, 0x2A]);
    let outer: AbsFilePtr<u8, AbsFilePtr<u8, u8>> = reader.read_be().unwrap();
    assert_eq!(outer.ptr, 2);
    assert_eq!(outer.deref().ptr, 4);
    assert_eq!(*outer.deref().deref(), 0x2A);
    assert_eq!(reader.position(), 1);
}

#[test]
fn placement_at_a_named_place() {
    let options = big().insert(OptionValue::Offset(FileOffset(2)));
    let mut reader = Cursor::new(vec![0, 1, 2, 3, 4, 5]);
    reader.set_position(1);

    let mut abs = AbsPlacement::<u16>::read_options(&mut reader, &options, &(3, ())).unwrap();
    assert_eq!(abs.get(), None);
    assert_eq!(reader.position(), 1);
    abs.after_parse(&mut reader, &options, &(3, ())).unwrap();
    assert_eq!(*abs.deref_impl(), 0x0304);
    assert_eq!(*abs.deref(), 0x0304);
    *abs.deref_mut_impl() = 7;
    assert_eq!(abs.into_inner(), 7);
    assert_eq!(reader.position(), 1);

    let mut rel = RelPlacement::<u16>::read_options(&mut reader, &options, &(2, ())).unwrap();
    assert_eq!(rel.get(), None);
    rel.after_parse(&mut reader, &options, &(2, ())).unwrap();
    assert_eq!(*rel.deref(), 0x0405);
    *rel.deref_mut() = 0x0406;
    assert_eq!(rel.into_inner(), 0x0406);
    assert_eq!(reader.position(), 1);

    assert_eq!(AbsPlacement::<u8>::parse(&mut reader, &options, &(5, ())).unwrap(), 5);
    assert_eq!(reader.position(), 1);
    assert!(matches!(
        AbsPlacement::<u8>::parse(&mut reader, &options, &(6, ())),
        Err(Error::Io(IoError::UnexpectedEof))
    ));
    let mut far = RelPlacement::<u8>::unread();
    assert!(matches!(
        far.after_parse(&mut reader, &options, &(u64::MAX, ())),
        Err(Error::Io(IoError::InvalidSeek))
    ));
    assert_eq!(AbsPlacement::<u8>::unread().get(), None);
}

#[test]
fn place_comes_back() {
    let mut reader = Cursor::new(vec![0, 1, 2, 3]);
    reader.set_position(3);
    let v: u8 = place(&mut reader, &big(), 1, &()).unwrap();
    assert_eq!(v, 1);
    assert_eq!(reader.position(), 3);
}

#[test]
fn offsets_as_seeks() {
    assert_eq!(5u8.into_seek_from(), Some(SeekFrom::Current(5)));
    assert_eq!((-5i8).into_seek_from(), Some(SeekFrom::Current(-5)));
    assert_eq!(0xffffu16.into_seek_from(), Some(SeekFrom::Current(0xffff)));
    assert_eq!(i16::MIN.into_seek_from(), Some(SeekFrom::Current(-32768)));
    assert_eq!(u32::MAX.into_seek_from(), Some(SeekFrom::Current(0xffff_ffff)));
    assert_eq!(i32::MIN.into_seek_from(), Some(SeekFrom::Current(-0x8000_0000)));
    assert_eq!(i64::MIN.into_seek_from(), Some(SeekFrom::Current(i64::MIN)));
    assert_eq!((i64::MAX as u64).into_seek_from(), Some(SeekFrom::Current(i64::MAX)));
    assert_eq!((i64::MAX as u64 + 1).into_seek_from(), None);
    assert_eq!((i64::MAX as u128).into_seek_from(), Some(SeekFrom::Current(i64::MAX)));
    assert_eq!(u128::MAX.into_seek_from(), None);
    assert_eq!((i64::MIN as i128).into_seek_from(), Some(SeekFrom::Current(i64::MIN)));
    assert_eq!((i64::MIN as i128 - 1).into_seek_from(), None);
    assert_eq!((i64::MAX as i128 + 1).into_seek_from(), None);
}

#[test]
fn failed_phase_two_leaves_the_stream_where_it_stood() {
    let mut reader = Cursor::new(vec![9, 0, 1]);
    let mut pointer = AbsFilePtr::<u8, u16>::read_options(&mut reader, &big(), &()).unwrap();
    reader.set_position(2);
    let r = pointer.after_parse(&mut reader, &big(), &());
    assert!(matches!(r, Err(Error::Io(IoError::UnexpectedEof))));
    assert_eq!(reader.position(), 2);
    assert_eq!(pointer.get(), None);

    let mut pointer = AbsFilePtr::<i8, u16>::read_options(&mut Cursor::new(vec![0x80]), &big(), &()).unwrap();
    let r = pointer.after_parse(&mut reader, &big(), &());
    assert!(matches!(r, Err(Error::Io(IoError::InvalidSeek))));
    assert_eq!(reader.position(), 2);

    let r: BinResult<u16> = place(&mut reader, &big(), 2, &());
    assert!(matches!(r, Err(Error::Io(IoError::UnexpectedEof))));
    assert_eq!(reader.position(), 2);

    let mut reader = Cursor::new(vec![9, 0, 1]);
    let r = AbsFilePtr::<u8, u16>::parse(&mut reader, &big(), &());
    assert!(matches!(r, Err(Error::Io(IoError::UnexpectedEof))));
    assert_eq!(reader.position(), 1);
    reader.set_position(0);
    let r: BinResult<AbsFilePtr<u8, u16>> = reader.read_be();
    assert!(r.is_err());
    assert_eq!(reader.position(), 1);
}

#[test]
fn failed_phase_two_leaves_the_slot_empty() {
    let mut reader = Cursor::new(vec![0, 0, 0, 8]);
    reader.set_position(4);
    let mut placement = AbsPlacement::<u8>::unread();
    let r = placement.after_parse(&mut reader, &big(), &(8u64, ()));
    assert!(matches!(r, Err(Error::Io(_))));
    assert_eq!(placement.get(), None);
    assert_eq!(reader.position(), 4);

    let mut placement = RelPlacement::<u8>::unread();
    let r = placement.after_parse(&mut reader, &big(), &(8u64, ()));
    assert!(matches!(r, Err(Error::Io(_))));
    assert_eq!(placement.get(), None);
    assert_eq!(reader.position(), 4);

    reader.set_position(3);
    let mut pointer = AbsFilePtr::<u8, u8>::read_options(&mut reader, &big(), &()).unwrap();
    let r = pointer.after_parse(&mut reader, &big(), &());
    assert!(matches!(r, Err(Error::Io(_))));
    assert_eq!(pointer.get(), None);
    assert_eq!(pointer.ptr(), 8);
    assert_eq!(reader.position(), 4);

    reader.set_position(3);
    let mut pointer = RelFilePtr::<u8, u8>::read_options(&mut reader, &big(), &()).unwrap();
    let r = pointer.after_parse(&mut reader, &big(), &());
    assert!(matches!(r, Err(Error::Io(_))));
    assert_eq!(pointer.get(), None);
    assert_eq!(pointer.ptr(), 8);
    assert_eq!(reader.position(), 4);
}
