use binrw::io::Cursor;
use binrw::options::OptionValue;
use binrw::variant::{read_magic, read_variants, ErrorPolicy};
use binrw::{BinRead, BinResult, Endian, Error, ReadOptions};

fn big() -> ReadOptions {
    ReadOptions::default().insert(OptionValue::Endian(Endian::Big))
}

#[derive(Debug, Eq, PartialEq)]
enum CalcTemp {
    Zero { b: u8 },
}

fn read_calc_temp(reader: &mut Cursor) -> BinResult<CalcTemp> {
    let options = ReadOptions::default();
    read_variants(reader, ErrorPolicy::default(), &["Zero"], |_, reader| {
        read_calc_temp_zero(reader, &options)
    })
}

fn read_calc_temp_zero(reader: &mut Cursor, options: &ReadOptions) -> BinResult<CalcTemp> {
    read_magic(reader, options, 1, 0)?;
    let a = u8::read_options(reader, options, &())?;
    Ok(CalcTemp::Zero { b: a })
}

#[test]
fn enum_calc_temp_field() {
    let result = read_calc_temp(&mut Cursor::new(b"\0\x04".to_vec())).unwrap();
    assert_eq!(result, CalcTemp::Zero { b: 4 });
}

#[derive(Debug, Eq, PartialEq)]
enum Endianness {
    OneBig,
    TwoLittle { a: u16 },
}

fn read_endianness(reader: &mut Cursor) -> BinResult<Endianness> {
    let options = big();
    let little = options.insert(OptionValue::Endian(Endian::Little));
    read_variants(
        reader,
        ErrorPolicy::default(),
        &["OneBig", "TwoLittle"],
        |index, reader| match index {
            0 => read_magic(reader, &options, 2, 1).map(|()| Endianness::OneBig),
            _ => read_two_little(reader, &little),
        },
    )
}

fn read_two_little(reader: &mut Cursor, options: &ReadOptions) -> BinResult<Endianness> {
    read_magic(reader, options, 2, 2)?;
    let a = u16::read_options(reader, options, &())?;
    Ok(Endianness::TwoLittle { a })
}

#[test]
fn enum_endianness() {
    assert_eq!(
        read_endianness(&mut Cursor::new(b"\0\x01".to_vec())).unwrap(),
        Endianness::OneBig
    );
    let error = read_endianness(&mut Cursor::new(b"\x01\0".to_vec())).expect_err("accepted bad data");
    assert!(matches!(error, Error::EnumErrors { .. }));
    assert_eq!(
        read_endianness(&mut Cursor::new(b"\x02\0\x03\0".to_vec())).unwrap(),
        Endianness::TwoLittle { a: 3 }
    );
    let error =
        read_endianness(&mut Cursor::new(b"\0\x02\x03\0".to_vec())).expect_err("accepted bad data");
    assert!(matches!(error, Error::EnumErrors { .. }));
}

#[derive(Debug)]
#[allow(dead_code)]
enum OneOrTwo {
    One { a: u16 },
    Two { a: u16 },
}

fn read_one_or_two(reader: &mut Cursor, policy: ErrorPolicy) -> BinResult<OneOrTwo> {
    let options = big();
    read_variants(reader, policy, &["One", "Two"], |index, reader| match index {
        0 => read_after_magic(reader, &options, 0).map(|a| OneOrTwo::One { a }),
        _ => read_after_magic(reader, &options, 1).map(|a| OneOrTwo::Two { a }),
    })
}

fn read_after_magic(reader: &mut Cursor, options: &ReadOptions, magic: u128) -> BinResult<u16> {
    read_magic(reader, options, 2, magic)?;
    u16::read_options(reader, options, &())
}

#[test]
fn enum_return_all_errors() {
    let error = read_one_or_two(&mut Cursor::new("\0\x01".as_bytes().to_vec()), ErrorPolicy::CollectAll)
        .expect_err("accepted bad data");
    match error {
        Error::EnumErrors { pos, variant_errors } => {
            assert_eq!(pos, 0);
            assert_eq!(variant_errors.len(), 2);
            assert_eq!(variant_errors[0].0, "One");
            assert!(matches!(variant_errors[0].1, Error::BadMagic { .. }));
            assert_eq!(variant_errors[1].0, "Two");
            assert!(matches!(variant_errors[1].1, Error::Io(..)));
        }
        _ => panic!("wrong error type"),
    }
}

#[test]
fn enum_return_unexpected_error() {
    let error =
        read_one_or_two(&mut Cursor::new("\0\x01".as_bytes().to_vec()), ErrorPolicy::ReducedDetail)
            .expect_err("accepted bad data");
    assert!(matches!(error, Error::NoVariantMatch { .. }));
}

#[derive(Debug, Eq, PartialEq)]
enum Mixed {
    Zero,
    Two { a: u16, b: u16 },
}

fn read_mixed(reader: &mut Cursor) -> BinResult<Mixed> {
    let options = big();
    read_variants(reader, ErrorPolicy::default(), &["Zero", "Two"], |index, reader| match index {
        0 => read_magic(reader, &options, 1, 0).map(|()| Mixed::Zero),
        _ => read_mixed_two(reader, &options),
    })
}

fn read_mixed_two(reader: &mut Cursor, options: &ReadOptions) -> BinResult<Mixed> {
    read_magic(reader, options, 1, 2)?;
    let a = u16::read_options(reader, options, &())?;
    let b = u16::read_options(reader, options, &())?;
    Ok(Mixed::Two { a, b })
}

#[test]
fn mixed_enum() {
    assert!(matches!(
        read_mixed(&mut Cursor::new(b"\0".to_vec())).unwrap(),
        Mixed::Zero
    ));
    let error = read_mixed(&mut Cursor::new(b"\x01".to_vec())).expect_err("accepted bad data");
    assert!(matches!(error, Error::EnumErrors { .. }));
    let result = read_mixed(&mut Cursor::new(b"\x02\0\x03\0\x04".to_vec())).unwrap();
    assert_eq!(result, Mixed::Two { a: 3, b: 4 });
}

#[test]
fn mixed_enum_lists_the_candidates_in_order() {
    let mut reader = Cursor::new(b"\x01\0\0\0\0".to_vec());
    let error = read_mixed(&mut reader).expect_err("accepted bad data");
    assert_eq!(reader.position(), 0);
    match error {
        Error::EnumErrors { pos, variant_errors } => {
            assert_eq!(pos, 0);
            assert_eq!(variant_errors.len(), 2);
            assert_eq!(variant_errors[0].0, "Zero");
            assert_eq!(variant_errors[1].0, "Two");
            for (_, e) in variant_errors.iter() {
                match e {
                    Error::BadMagic { pos, found } => {
                        assert_eq!(*pos, 0);
                        assert_eq!(found, &vec![1u8]);
                    }
                    _ => panic!("wrong error type"),
                }
            }
        }
        _ => panic!("wrong error type"),
    }
}

#[test]
fn mixed_enum_commits_to_the_first_that_reads() {
    let mut reader = Cursor::new(b"\x02\0\x03\0\x04\xff".to_vec());
    assert_eq!(read_mixed(&mut reader).unwrap(), Mixed::Two { a: 3, b: 4 });
    assert_eq!(reader.position(), 5);
    let mut reader = Cursor::new(b"\0\x02".to_vec());
    assert_eq!(read_mixed(&mut reader).unwrap(), Mixed::Zero);
    assert_eq!(reader.position(), 1);
    let mut reader = Cursor::new(b"\x02\0\x03\0".to_vec());
    match read_mixed(&mut reader) {
        Err(Error::EnumErrors { pos, variant_errors }) => {
            assert_eq!(pos, 0);
            assert!(matches!(variant_errors[0].1, Error::BadMagic { pos: 0, .. }));
            assert!(matches!(variant_errors[1].1, Error::Io(_)));
        }
        _ => panic!("wrong result"),
    }
    assert_eq!(reader.position(), 0);
}
