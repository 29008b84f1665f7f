use binrw::io::Cursor;
use binrw::options::OptionValue;
use binrw::{BinRead, BinResult, Endian, Error, ReadOptions};

#[derive(Debug, PartialEq)]
struct EndianTest {
    bom: Endian,
    test: u16,
}

fn read_endian_test(reader: &mut Cursor, options: &ReadOptions) -> BinResult<EndianTest> {
    let bom = Endian::parse_bom(reader, options, &())?;
    let options = options.insert(OptionValue::Endian(bom));
    let test = u16::read_options(reader, &options, &())?;
    Ok(EndianTest { bom, test })
}

#[test]
fn test_set_opts() {
    let native = ReadOptions::default();
    let test: EndianTest =
        read_endian_test(&mut Cursor::new(b"\xFF\xFE\x01\x05".to_vec()), &native).unwrap();
    assert_eq!(test, EndianTest { bom: Endian::Little, test: 0x0501 });

    read_endian_test(&mut Cursor::new(b"\xFE\xFE\x01\x05".to_vec()), &native).unwrap_err();
}

#[test]
fn byte_order_mark_reaches_forward_only() {
    let before = ReadOptions::default().insert(OptionValue::Endian(Endian::Little));
    let mut reader = Cursor::new(b"\x01\x05\xFE\xFF\x01\x05\x01\x05".to_vec());
    let first = u16::read_options(&mut reader, &before, &()).unwrap();
    let record = read_endian_test(&mut reader, &before).unwrap();
    let sibling = u16::read_options(&mut reader, &before, &()).unwrap();
    assert_eq!(first, 0x0501);
    assert_eq!(record, EndianTest { bom: Endian::Big, test: 0x0105 });
    assert_eq!(sibling, 0x0501);
    assert_eq!(before.endian, Endian::Little);
}

#[test]
fn bad_byte_order_mark() {
    let mut reader = Cursor::new(b"\0\xFE\xFE\x01".to_vec());
    reader.set_position(1);
    match Endian::parse_bom(&mut reader, &ReadOptions::default(), &()) {
        Err(Error::BadMagic { pos, found }) => {
            assert_eq!(pos, 1);
            assert_eq!(found, vec![0xFE, 0xFE]);
        }
        _ => panic!("wrong result"),
    }
    let mut reader = Cursor::new(b"\xFE".to_vec());
    assert!(matches!(
        Endian::parse_bom(&mut reader, &ReadOptions::default(), &()),
        Err(Error::Io(binrw::io::IoError::UnexpectedEof))
    ));
    assert_eq!(Endian::from_be_bom(0xFEFF), Some(Endian::Big));
    assert_eq!(Endian::from_be_bom(0xFFFE), Some(Endian::Little));
    assert_eq!(Endian::from_be_bom(0xFEFE), None);
    assert_eq!(Endian::from_le_bom(0xFEFF), Some(Endian::Little));
    assert_eq!(Endian::from_le_bom(0xFFFE), Some(Endian::Big));
    assert_eq!(Endian::from_le_bom(0), None);
    assert_eq!(Endian::Big.name(), "Big");
    assert_eq!(Endian::Little.name(), "Little");
    assert_eq!(Endian::Native.name(), "Native");
}

#[test]
fn byte_order_mark_does_not_ask_the_context() {
    let little = ReadOptions::default().insert(OptionValue::Endian(Endian::Little));
    let big = ReadOptions::default().insert(OptionValue::Endian(Endian::Big));
    for bytes in [
        b"\xFE\xFF\x01".to_vec(),
        b"\xFF\xFE\x01".to_vec(),
        b"\xFE\xFE\x01".to_vec(),
        b"\xFE".to_vec(),
        b"".to_vec(),
    ] {
        let mut one = Cursor::new(bytes.clone());
        let mut other = Cursor::new(bytes.clone());
        let a = Endian::parse_bom(&mut one, &little, &());
        let b = Endian::parse_bom(&mut other, &big, &());
        assert_eq!(format!("{:?}", a), format!("{:?}", b));
        assert_eq!(one.position(), other.position());
        let expected = if bytes.len() >= 2 { 2 } else { 0 };
        assert_eq!(one.position(), expected);
    }
}
