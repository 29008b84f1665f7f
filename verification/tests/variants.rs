use binrw::io::{Cursor, IoError};
use binrw::options::OptionValue;
use binrw::variant::{
    check, read_magic, read_magic_bytes, read_variants, same_bytes, ErrorPolicy, VariantAttempts,
};
use binrw::{Endian, Error, ReadOptions};

fn options(endian: Endian) -> ReadOptions {
    ReadOptions::default().insert(OptionValue::Endian(endian))
}

#[test]
fn magic_number() {
    let mut reader = Cursor::new(vec![0x12, 0x34, 0x56]);
    read_magic(&mut reader, &options(Endian::Big), 2, 0x1234).unwrap();
    assert_eq!(reader.position(), 2);
    reader.set_position(0);
    read_magic(&mut reader, &options(Endian::Little), 2, 0x3412).unwrap();
    reader.set_position(1);
    match read_magic(&mut reader, &options(Endian::Big), 2, 0x1234) {
        Err(Error::BadMagic { pos, found }) => {
            assert_eq!(pos, 1);
            assert_eq!(found, vec![0x34, 0x56]);
        }
        _ => panic!("wrong result"),
    }
    assert_eq!(reader.position(), 3);
    reader.set_position(2);
    assert!(matches!(
        read_magic(&mut reader, &options(Endian::Big), 2, 0x56),
        Err(Error::Io(IoError::UnexpectedEof))
    ));
    assert_eq!(reader.position(), 2);
}

#[test]
fn magic_bytes() {
    let mut reader = Cursor::new(b"DOG\x02".to_vec());
    read_magic_bytes(&mut reader, b"DOG").unwrap();
    assert_eq!(reader.position(), 3);
    reader.set_position(0);
    match read_magic_bytes(&mut reader, b"DOT") {
        Err(Error::BadMagic { pos, found }) => {
            assert_eq!(pos, 0);
            assert_eq!(found, b"DOG".to_vec());
        }
        _ => panic!("wrong result"),
    }
    reader.set_position(2);
    assert!(matches!(
        read_magic_bytes(&mut reader, b"G\x02\x03"),
        Err(Error::Io(IoError::UnexpectedEof))
    ));
    read_magic_bytes(&mut reader, b"").unwrap();
    assert!(same_bytes(b"ab", b"ab"));
    assert!(!same_bytes(b"ab", b"ac"));
    assert!(!same_bytes(b"ab", b"abc"));
    assert!(same_bytes(b"", b""));
}

#[test]
fn attempts_keep_the_order_and_restore_the_stream() {
    let mut reader = Cursor::new(vec![1, 2, 3, 4]);
    reader.set_position(1);
    let mut attempts = VariantAttempts::begin(&reader, ErrorPolicy::CollectAll);
    assert_eq!(attempts.start(), 1);
    assert_eq!(attempts.rejected_count(), 0);
    reader.set_position(3);
    attempts.reject(&mut reader, "A", Error::Io(IoError::UnexpectedEof));
    assert_eq!(reader.position(), 1);
    reader.set_position(4);
    attempts.reject(&mut reader, "B", Error::NoVariantMatch { pos: 2 });
    assert_eq!(reader.position(), 1);
    assert_eq!(attempts.rejected_count(), 2);
    match attempts.fail() {
        Error::EnumErrors { pos, variant_errors } => {
            assert_eq!(pos, 1);
            assert_eq!(variant_errors.len(), 2);
            assert_eq!(variant_errors[0].0, "A");
            assert!(matches!(variant_errors[0].1, Error::Io(IoError::UnexpectedEof)));
            assert_eq!(variant_errors[1].0, "B");
            assert!(matches!(variant_errors[1].1, Error::NoVariantMatch { pos: 2 }));
        }
        _ => panic!("wrong error type"),
    }
}

#[test]
fn attempt_by_attempt() {
    let options = options(Endian::Big);
    let mut reader = Cursor::new(vec![0, 7, 9]);
    reader.set_position(1);
    let mut attempts = VariantAttempts::begin(&reader, ErrorPolicy::CollectAll);
    let first: Option<u8> = attempts.attempt(&mut reader, "Seven", |r| {
        read_magic(r, &options, 2, 0x0708)?;
        Ok(7)
    });
    assert_eq!(first, None);
    assert_eq!(reader.position(), 1);
    assert_eq!(attempts.rejected_count(), 1);
    reader.set_position(0);
    let second: Option<u8> = attempts.attempt(&mut reader, "Nine", |r| {
        read_magic(r, &options, 2, 0x0709)?;
        Ok(9)
    });
    assert_eq!(second, Some(9));
    assert_eq!(reader.position(), 3);
    assert_eq!(attempts.rejected_count(), 1);
}

#[test]
fn no_candidates_at_all() {
    let mut reader = Cursor::new(vec![1]);
    let r: Result<u8, Error> = read_variants(&mut reader, ErrorPolicy::CollectAll, &[], |_, _| Ok(0));
    assert!(matches!(r, Err(Error::EnumErrors { pos: 0, variant_errors }) if variant_errors.is_empty()));
    let r: Result<u8, Error> = read_variants(&mut reader, ErrorPolicy::ReducedDetail, &[], |_, _| Ok(0));
    assert!(matches!(r, Err(Error::NoVariantMatch { pos: 0 })));
}

#[test]
fn catch_all_candidate_comes_last() {
    let options = options(Endian::Big);
    let mut reader = Cursor::new(vec![5, 6]);
    let r: Result<u8, Error> = read_variants(
        &mut reader,
        ErrorPolicy::CollectAll,
        &["Tagged", "Rest"],
        |index, r| match index {
            0 => read_magic(r, &options, 1, 4).map(|()| 1),
            _ => Ok(0),
        },
    );
    assert_eq!(r.unwrap(), 0);
    assert_eq!(reader.position(), 0);
}

#[test]
fn the_two_policies() {
    for policy in [ErrorPolicy::CollectAll, ErrorPolicy::ReducedDetail] {
        let mut reader = Cursor::new(vec![1, 2, 3, 4]);
        reader.set_position(2);
        let mut attempts = VariantAttempts::begin(&reader, policy);
        attempts.reject(&mut reader, "A", Error::Io(IoError::UnexpectedEof));
        attempts.reject(&mut reader, "B", Error::Io(IoError::InvalidSeek));
        attempts.reject(&mut reader, "C", Error::Io(IoError::UnexpectedEof));
        let error = attempts.fail();
        assert_eq!(error.pos(), Some(2));
        match (policy, error) {
            (ErrorPolicy::CollectAll, Error::EnumErrors { variant_errors, .. }) => {
                let names: Vec<&str> = variant_errors.iter().map(|(n, _)| *n).collect();
                assert_eq!(names, vec!["A", "B", "C"]);
            }
            (ErrorPolicy::ReducedDetail, Error::NoVariantMatch { pos }) => assert_eq!(pos, 2),
            _ => panic!("wrong error type"),
        }
    }
    assert_eq!(ErrorPolicy::default(), ErrorPolicy::CollectAll);
    let empty = VariantAttempts::begin(&Cursor::new(vec![]), ErrorPolicy::CollectAll).fail();
    assert!(matches!(empty, Error::EnumErrors { pos: 0, variant_errors } if variant_errors.is_empty()));
}

#[test]
fn checks_and_positions() {
    assert!(check(true, 3, "fine").is_ok());
    match check(false, 3, "name.len() != 0") {
        Err(Error::AssertFail { pos, message }) => {
            assert_eq!(pos, 3);
            assert_eq!(message, "name.len() != 0");
        }
        _ => panic!("wrong result"),
    }
    assert_eq!(Error::Io(IoError::UnexpectedEof).pos(), None);
    assert_eq!(Error::BadMagic { pos: 1, found: vec![] }.pos(), Some(1));
    assert_eq!(Error::AssertFail { pos: 2, message: String::new() }.pos(), Some(2));
    assert_eq!(Error::Custom { pos: 3, err: String::from("x") }.pos(), Some(3));
    assert_eq!(Error::NoVariantMatch { pos: 4 }.pos(), Some(4));
    assert_eq!(Error::EnumErrors { pos: 5, variant_errors: vec![] }.pos(), Some(5));
}
