use binrw::helpers::{read_bytes, Counted, Punctuated};
use binrw::io::{Cursor, IoError};
use binrw::options::OptionValue;
use binrw::helpers::counted::{read_run, resolve_run};
use binrw::{AbsFilePtr, BinRead, BinReaderExt, BinResult, Endian, Error, ReadOptions};

fn big() -> ReadOptions {
    ReadOptions::default().insert(OptionValue::Endian(Endian::Big))
}

#[test]
fn counted_reads_as_many_as_it_is_told() {
    let mut x = Cursor::new(b"\0\x03\0\x02\0\x01\0\0".to_vec());
    let mut y = Counted::<u16>::read_options(&mut x, &big(), &(3, ())).unwrap();
    assert_eq!(*y.deref(), vec![3, 2, 1]);
    assert_eq!(x.position(), 6);
    y.deref_mut().push(9);
    assert_eq!(y.into_values(), vec![3, 2, 1, 9]);

    let none = Counted::<u16>::read_options(&mut x, &big(), &(0, ())).unwrap();
    assert_eq!(none.into_values(), Vec::<u16>::new());
    assert_eq!(x.position(), 6);
}

#[test]
fn counted_fails_on_the_first_item_that_fails() {
    let mut x = Cursor::new(b"\0\x03\0\x02\0".to_vec());
    let r = Counted::<u16>::read_options(&mut x, &big(), &(3, ()));
    assert!(matches!(r, Err(Error::Io(IoError::UnexpectedEof))));
}

#[test]
fn counted_follows_the_pointers_of_its_items() {
    let mut x = Cursor::new(vec![3, 4, 0, 0x0A, 0x0B]);
    let mut y = Counted::<AbsFilePtr<u8, u8>>::read_options(&mut x, &big(), &(2, ())).unwrap();
    assert_eq!(x.position(), 2);
    assert_eq!(y.deref()[0].get(), None);
    y.after_parse(&mut x, &big(), &(2, ())).unwrap();
    assert_eq!(x.position(), 2);
    let items = y.into_values();
    assert_eq!(*items[0].deref(), 0x0A);
    assert_eq!(*items[1].deref(), 0x0B);

    let mut x = Cursor::new(vec![2, 9, 0x0A]);
    let mut y = Counted::<AbsFilePtr<u8, u8>>::read_options(&mut x, &big(), &(2, ())).unwrap();
    let r = y.after_parse(&mut x, &big(), &(7, ()));
    assert!(matches!(r, Err(Error::Io(IoError::UnexpectedEof))));
    assert_eq!(x.position(), 2);
    assert_eq!(y.deref().len(), 2);
    assert_eq!(y.deref()[0].get(), Some(&0x0A));
    assert_eq!(y.deref()[1].get(), None);

    let mut x = Cursor::new(vec![2, 9, 0x0A]);
    let mut y = Vec::<AbsFilePtr<u8, u8>>::read_options(&mut x, &big(), &(2, ())).unwrap();
    let r = y.after_parse(&mut x, &big(), &(2, ()));
    assert!(matches!(r, Err(Error::Io(IoError::UnexpectedEof))));
    assert_eq!(y.len(), 2);
}

#[test]
fn punctuated_separated() {
    let mut x = Cursor::new(b"\0\x03\0\0\x02\x01\0\x01\xff".to_vec());
    let mut y = Punctuated::<u16, u8>::separated(&mut x, &big(), &(3, ())).unwrap();
    assert_eq!(*y.deref(), vec![3, 2, 1]);
    assert_eq!(y.seperators, vec![0, 1]);
    assert_eq!(y.separator_values(), &vec![0, 1]);
    assert_eq!(x.position(), 8);
    y.deref_mut()[0] = 5;
    assert_eq!(y.into_values(), vec![5, 2, 1]);
}

#[test]
fn punctuated_separated_trailing() {
    let mut x = Cursor::new(b"\0\x03\0\0\x02\x01\0\x01\xff".to_vec());
    let y = Punctuated::<u16, u8>::separated_trailing(&mut x, &big(), &(3, ())).unwrap();
    assert_eq!(*y.deref(), vec![3, 2, 1]);
    assert_eq!(y.seperators, vec![0, 1, 0xff]);
    assert_eq!(x.position(), 9);
}

#[test]
fn punctuated_counts() {
    for count in 0..5usize {
        let bytes = vec![7u8; 32];
        let y = Punctuated::<u8, u8>::separated(&mut Cursor::new(bytes.clone()), &big(), &(count, ()))
            .unwrap();
        assert_eq!(y.deref().len(), count);
        assert_eq!(y.seperators.len(), count.saturating_sub(1));
        let y = Punctuated::<u8, u8>::separated_trailing(&mut Cursor::new(bytes), &big(), &(count, ()))
            .unwrap();
        assert_eq!(y.deref().len(), count);
        assert_eq!(y.seperators.len(), count);
    }
}

#[test]
fn punctuated_fails_when_the_stream_runs_out() {
    let seven = b"\0\x03\0\0\x02\x01\0".to_vec();
    let r = Punctuated::<u16, u8>::separated(&mut Cursor::new(seven.clone()), &big(), &(3, ()));
    assert!(matches!(r, Err(Error::Io(IoError::UnexpectedEof))));
    let eight = b"\0\x03\0\0\x02\x01\0\x01".to_vec();
    let r = Punctuated::<u16, u8>::separated_trailing(&mut Cursor::new(eight), &big(), &(3, ()));
    assert!(matches!(r, Err(Error::Io(IoError::UnexpectedEof))));
    let five = b"\0\x03\0\0\x02".to_vec();
    let r = Punctuated::<u16, u8>::separated(&mut Cursor::new(five), &big(), &(3, ()));
    assert!(matches!(r, Err(Error::Io(IoError::UnexpectedEof))));
    let r = Punctuated::<u16, u8>::separated(&mut Cursor::new(seven), &big(), &(2, ()));
    assert_eq!(r.unwrap().into_values(), vec![3, 2]);
}

#[test]
fn bytes_in_one_go() {
    let mut x = Cursor::new(b"\0\x01\x02\x03\x04".to_vec());
    let data = read_bytes(&mut x, &big(), &(5,)).unwrap();
    assert_eq!(data, &[0, 1, 2, 3, 4]);
    assert_eq!(x.position(), 5);
    x.set_position(1);
    let r = read_bytes(&mut x, &big(), &(5,));
    assert!(matches!(r, Err(Error::Io(IoError::UnexpectedEof))));
    assert_eq!(x.position(), 1);
    assert_eq!(read_bytes(&mut x, &big(), &(0,)).unwrap(), Vec::<u8>::new());
}

#[test]
fn vector_with_a_count() {
    let mut x = Cursor::new(b"\0\x01\0\x12\xff".to_vec());
    let mut y = Vec::<u16>::read_options(&mut x, &big(), &(2, ())).unwrap();
    assert_eq!(y, vec![0x1, 0x12]);
    assert_eq!(x.position(), 4);
    y.after_parse(&mut x, &big(), &(2, ())).unwrap();
    assert_eq!(y, vec![0x1, 0x12]);
    let r = Vec::<u16>::read_options(&mut x, &big(), &(1, ()));
    assert!(matches!(r, Err(Error::Io(IoError::UnexpectedEof))));
}

#[test]
fn runs_of_items() {
    let mut x = Cursor::new(vec![2, 3, 0x0A, 0x0B]);
    let mut items: Vec<AbsFilePtr<u8, u8>> = read_run(&mut x, &big(), &(), 2).unwrap();
    assert_eq!(items.len(), 2);
    assert_eq!(x.position(), 2);
    resolve_run(&mut items, &mut x, &big(), &()).unwrap();
    assert_eq!(x.position(), 2);
    assert_eq!(*items[0].deref(), 0x0A);
    assert_eq!(*items[1].deref(), 0x0B);
}

#[test]
fn arrays_of_every_length() {
    let mut x = Cursor::new(b"\0\x03\0\x02\0\x01".to_vec());
    let a: [u16; 3] = x.read_be().unwrap();
    assert_eq!(a, [3, 2, 1]);
    assert_eq!(x.position(), 6);
    let none: [u16; 0] = x.read_be().unwrap();
    assert_eq!(none, []);
    let short: BinResult<[u16; 1]> = x.read_be();
    assert!(matches!(short, Err(Error::Io(IoError::UnexpectedEof))));
    let long: [u8; 40] = Cursor::new((0..40).collect()).read_le().unwrap();
    assert_eq!(long[39], 39);

    let mut x = Cursor::new(vec![2, 3, 0x0A, 0x0B]);
    let pointers: [AbsFilePtr<u8, u8>; 2] = x.read_be().unwrap();
    assert_eq!(*pointers[0].deref(), 0x0A);
    assert_eq!(*pointers[1].deref(), 0x0B);
    assert_eq!(x.position(), 2);
    let nested: [[u8; 2]; 2] = Cursor::new(vec![1, 2, 3, 4]).read_be().unwrap();
    assert_eq!(nested, [[1, 2], [3, 4]]);
}
