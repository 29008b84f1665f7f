use binrw::io::Cursor;
use binrw::options::OptionValue;
use binrw::{AbsFilePtr8, BinRead, BinReadExt, BinReaderExt, BinResult, Endian, ReadOptions};

#[test]
#[allow(non_snake_case)]
fn BinReaderExt_calls_after_parse() {
    let test: AbsFilePtr8<u8> = Cursor::new(vec![0x01, 0xFF]).read_be().unwrap();

    assert_eq!(*test.deref(), 0xFF);
}

struct Try<BR>(Option<BR>);

fn read_try(reader: &mut Cursor, options: &ReadOptions) -> BinResult<Try<AbsFilePtr8<u8>>> {
    let mut value = Try(AbsFilePtr8::<u8>::read_options(reader, options, &()).ok());
    if let Some(inner) = value.0.as_mut() {
        inner.after_parse(reader, options, &())?;
    }
    Ok(value)
}

#[test]
fn try_calls_after_parse() {
    let options = ReadOptions::default().insert(OptionValue::Endian(Endian::Big));
    let test: Try<AbsFilePtr8<u8>> = read_try(&mut Cursor::new(vec![0x01, 0xFF]), &options).unwrap();

    assert_eq!(*test.0.unwrap().deref(), 0xFF)
}

#[test]
fn read_runs_both_phases() {
    let mut reader = Cursor::new(vec![0x01, 0xFF]);
    let pointer = AbsFilePtr8::<u8>::read(&mut reader).unwrap();
    assert_eq!(*pointer.deref(), 0xFF);
    assert_eq!(pointer.ptr(), 1);
    assert_eq!(reader.position(), 1);

    let mut reader = Cursor::new(vec![0x01, 0xFF]);
    let pointer = AbsFilePtr8::<u8>::read_args(&mut reader, &()).unwrap();
    assert_eq!(*pointer.deref(), 0xFF);
    assert_eq!(reader.position(), 1);

    let mut reader = Cursor::new(vec![0x05, 0xFF]);
    assert!(AbsFilePtr8::<u8>::read(&mut reader).is_err());
    assert_eq!(reader.position(), 1);
}
