use binrw::codec::{decode_unsigned, to_signed};
use binrw::io::{Cursor, IoError};
use binrw::options::OptionValue;
use binrw::{BinRead, BinReadExt, BinReaderExt, BinResult, Endian, Error, ReadOptions};
use std::marker::PhantomData;

fn options(endian: Endian) -> ReadOptions {
    ReadOptions::default().insert(OptionValue::Endian(endian))
}

fn read<T: BinRead<Args = ()>>(bytes: &[u8], endian: Endian) -> BinResult<T> {
    T::read_options(&mut Cursor::new(bytes.to_vec()), &options(endian), &())
}

#[test]
fn reads_u16_in_both_orders() {
    let mut reader = Cursor::new(vec![0x00, 0x0A]);
    let val: u16 = reader.read_be().unwrap();
    assert_eq!(val, 10);
    let mut reader = Cursor::new(vec![0x00, 0x0A]);
    let val: u16 = reader.read_type(Endian::Little).unwrap();
    assert_eq!(val, 0x0A00);
}

#[test]
fn reads_one_after_the_other() {
    let mut reader = Cursor::new(b"\x07\0\0\0\xCC\0\0\x05".to_vec());
    let x: u32 = reader.read_le().unwrap();
    let y: u16 = reader.read_type(Endian::Little).unwrap();
    let z = reader.read_be::<u16>().unwrap();

    assert_eq!((x, y, z), (7u32, 0xCCu16, 5u16));
    assert_eq!(reader.position(), 8);
}

#[test]
fn round_trip_u8() {
    for x in [0u8, 1, 0x7f, 0x80, 0xff] {
        assert_eq!(read::<u8>(&x.to_be_bytes(), Endian::Big).unwrap(), x);
        assert_eq!(read::<u8>(&x.to_le_bytes(), Endian::Little).unwrap(), x);
    }
}

#[test]
fn round_trip_u16() {
    for x in [0u16, 1, 0x0102, 0x8000, u16::MAX] {
        assert_eq!(read::<u16>(&x.to_be_bytes(), Endian::Big).unwrap(), x);
        assert_eq!(read::<u16>(&x.to_le_bytes(), Endian::Little).unwrap(), x);
    }
    assert_eq!(read::<u16>(&[0x01, 0x02], Endian::Big).unwrap(), 0x0102);
    assert_eq!(read::<u16>(&[0x01, 0x02], Endian::Little).unwrap(), 0x0201);
}

#[test]
fn round_trip_u32() {
    for x in [0u32, 1, 0x01020304, 0x80000000, u32::MAX] {
        assert_eq!(read::<u32>(&x.to_be_bytes(), Endian::Big).unwrap(), x);
        assert_eq!(read::<u32>(&x.to_le_bytes(), Endian::Little).unwrap(), x);
    }
    assert_eq!(read::<u32>(&[1, 2, 3, 4], Endian::Big).unwrap(), 0x01020304);
    assert_eq!(read::<u32>(&[1, 2, 3, 4], Endian::Little).unwrap(), 0x04030201);
}

#[test]
fn round_trip_u64() {
    for x in [0u64, 1, 0x0102030405060708, 1 << 63, u64::MAX] {
        assert_eq!(read::<u64>(&x.to_be_bytes(), Endian::Big).unwrap(), x);
        assert_eq!(read::<u64>(&x.to_le_bytes(), Endian::Little).unwrap(), x);
    }
}

#[test]
fn round_trip_u128() {
    for x in [0u128, 1, 0x0102030405060708090a0b0c0d0e0f10, 1 << 127, u128::MAX] {
        assert_eq!(read::<u128>(&x.to_be_bytes(), Endian::Big).unwrap(), x);
        assert_eq!(read::<u128>(&x.to_le_bytes(), Endian::Little).unwrap(), x);
    }
}

#[test]
fn round_trip_i8() {
    for x in [0i8, 1, -1, i8::MIN, i8::MAX] {
        assert_eq!(read::<i8>(&x.to_be_bytes(), Endian::Big).unwrap(), x);
        assert_eq!(read::<i8>(&x.to_le_bytes(), Endian::Little).unwrap(), x);
    }
    assert_eq!(read::<i8>(&[0xff], Endian::Big).unwrap(), -1);
}

#[test]
fn round_trip_i16() {
    for x in [0i16, 1, -1, -2, 0x0102, i16::MIN, i16::MAX] {
        assert_eq!(read::<i16>(&x.to_be_bytes(), Endian::Big).unwrap(), x);
        assert_eq!(read::<i16>(&x.to_le_bytes(), Endian::Little).unwrap(), x);
    }
    assert_eq!(read::<i16>(&[0xff, 0xfe], Endian::Big).unwrap(), -2);
    assert_eq!(read::<i16>(&[0xff, 0xfe], Endian::Little).unwrap(), -257);
}

#[test]
fn round_trip_i32() {
    for x in [0i32, 1, -1, 0x01020304, i32::MIN, i32::MAX] {
        assert_eq!(read::<i32>(&x.to_be_bytes(), Endian::Big).unwrap(), x);
        assert_eq!(read::<i32>(&x.to_le_bytes(), Endian::Little).unwrap(), x);
    }
}

#[test]
fn round_trip_i64() {
    for x in [0i64, 1, -1, 0x0102030405060708, i64::MIN, i64::MAX] {
        assert_eq!(read::<i64>(&x.to_be_bytes(), Endian::Big).unwrap(), x);
        assert_eq!(read::<i64>(&x.to_le_bytes(), Endian::Little).unwrap(), x);
    }
}

#[test]
fn round_trip_i128() {
    for x in [0i128, 1, -1, 0x0102030405060708090a0b0c0d0e0f10, i128::MIN, i128::MAX] {
        assert_eq!(read::<i128>(&x.to_be_bytes(), Endian::Big).unwrap(), x);
        assert_eq!(read::<i128>(&x.to_le_bytes(), Endian::Little).unwrap(), x);
    }
}

#[test]
fn native_order() {
    for x in [0u32, 1, 0x01020304, u32::MAX] {
        assert_eq!(read::<u32>(&x.to_ne_bytes(), Endian::Native).unwrap(), x);
        assert_eq!(
            u32::read(&mut Cursor::new(x.to_ne_bytes().to_vec())).unwrap(),
            x
        );
        assert_eq!(
            u32::read_args(&mut Cursor::new(x.to_ne_bytes().to_vec()), &()).unwrap(),
            x
        );
        let got: u32 = Cursor::new(x.to_ne_bytes().to_vec()).read_ne().unwrap();
        assert_eq!(got, x);
    }
}

#[test]
fn codec_on_bytes() {
    assert_eq!(decode_unsigned(&[], true), 0);
    assert_eq!(decode_unsigned(&[0x12], false), 0x12);
    assert_eq!(decode_unsigned(&[0x12, 0x34, 0x56], true), 0x123456);
    assert_eq!(decode_unsigned(&[0x12, 0x34, 0x56], false), 0x563412);
    assert_eq!(decode_unsigned(&[0xff; 16], true), u128::MAX);
    assert_eq!(to_signed(0xff, 1), -1);
    assert_eq!(to_signed(0x7f, 1), 127);
    assert_eq!(to_signed(0x80, 1), -128);
    assert_eq!(to_signed(0xff, 2), 255);
    assert_eq!(to_signed(0x8000, 2), -32768);
    assert_eq!(to_signed(u128::MAX, 16), -1);
    assert_eq!(to_signed(1 << 127, 16), i128::MIN);
    assert_eq!(to_signed((1 << 127) - 1, 16), i128::MAX);
    assert_eq!(to_signed(0xff_ffff, 3), -1);
}

#[test]
fn character_is_one_byte() {
    assert_eq!(read::<char>(b"A", Endian::Big).unwrap(), 'A');
    assert_eq!(read::<char>(&[0xe9], Endian::Little).unwrap(), '\u{e9}');
    let mut reader = Cursor::new(b"AB".to_vec());
    let c: char = reader.read_be().unwrap();
    assert_eq!(c, 'A');
    assert_eq!(reader.position(), 1);
}

#[test]
fn short_stream_fails_and_reads_nothing() {
    let mut reader = Cursor::new(vec![1, 2, 3]);
    let r = u32::read_options(&mut reader, &options(Endian::Big), &());
    assert!(matches!(r, Err(Error::Io(IoError::UnexpectedEof))));
    assert_eq!(reader.position(), 0);
    assert!(matches!(read::<u8>(&[], Endian::Big), Err(Error::Io(IoError::UnexpectedEof))));
    assert!(matches!(read::<i128>(&[0; 15], Endian::Little), Err(Error::Io(_))));
    assert!(matches!(read::<char>(&[], Endian::Little), Err(Error::Io(_))));
}

#[test]
fn types_that_pass_the_read_on() {
    let mut reader = Cursor::new(vec![0, 1, 0, 2, 3]);
    let unit: () = reader.read_be().unwrap();
    assert_eq!(unit, ());
    let _marker: PhantomData<u64> = reader.read_be().unwrap();
    assert_eq!(reader.position(), 0);
    let boxed: Box<u16> = reader.read_be().unwrap();
    assert_eq!(*boxed, 1);
    let pair: (u16, u8) = reader.read_be().unwrap();
    assert_eq!(pair, (2, 3));
    assert_eq!(reader.position(), 5);
    let failed: BinResult<(u8, u8)> = Cursor::new(vec![1]).read_be();
    assert!(matches!(failed, Err(Error::Io(IoError::UnexpectedEof))));
    let one: (u8,) = Cursor::new(vec![1]).read_be().unwrap();
    assert_eq!(one, (1,));
    let eight: (u8, u16, u8, u8, i8, u8, u8, u32) =
        Cursor::new(vec![1, 0, 2, 3, 4, 0xff, 6, 7, 0, 0, 0, 8]).read_be().unwrap();
    assert_eq!(eight, (1, 2, 3, 4, -1, 6, 7, 8));
}

#[test]
fn tuples_of_many_members() {
    let nine: (u8, u8, u8, u8, u8, u8, u8, u8, u16) =
        Cursor::new(vec![1, 2, 3, 4, 5, 6, 7, 8, 0, 9]).read_be().unwrap();
    assert_eq!(nine, (1, 2, 3, 4, 5, 6, 7, 8, 9));

    let mut reader = Cursor::new((1..=33).collect());
    let all: (
        u8, u8, u8, u8, u8, u8, u8, u8, u8, u8, u8, u8, u8, u8, u8, u8,
        u8, u8, u8, u8, u8, u8, u8, u8, u8, u8, u8, u8, u8, u8, u8, u16,
    ) = reader.read_be().unwrap();
    assert_eq!(all.0, 1);
    assert_eq!(all.15, 16);
    assert_eq!(all.30, 31);
    assert_eq!(all.31, 0x2021);
    assert_eq!(reader.position(), 33);

    let mut reader = Cursor::new((1..=32).collect());
    let short: BinResult<(
        u8, u8, u8, u8, u8, u8, u8, u8, u8, u8, u8, u8, u8, u8, u8, u8,
        u8, u8, u8, u8, u8, u8, u8, u8, u8, u8, u8, u8, u8, u8, u8, u16,
    )> = reader.read_be();
    assert!(matches!(short, Err(Error::Io(IoError::UnexpectedEof))));
}
