use binrw::helpers::read_bytes;
use binrw::io::Cursor;
use binrw::options::OptionValue;
use binrw::{BinRead, BinResult, Endian, ReadOptions};

#[derive(Default, Debug, PartialEq)]
struct Test {
    y: Vec<u8>,
}

fn read_test(reader: &mut Cursor, options: &ReadOptions) -> BinResult<Test> {
    let len = u32::read_options(reader, options, &())?;
    let y = Vec::<u8>::read_options(reader, options, &(len as usize, ()))?;
    Ok(Test { y })
}

#[test]
fn test_temps() {
    let mut x = Cursor::new(b"\0\0\0\x05ABCDE".to_vec());
    let options = ReadOptions::default().insert(OptionValue::Endian(Endian::Big));

    let y: Test = read_test(&mut x, &options).unwrap();

    assert_eq!(
        y,
        Test {
            y: Vec::from(&b"ABCDE"[..])
        }
    );
}

#[test]
fn length_prefixed_bytes() {
    let mut x = Cursor::new(b"\0\0\0\x05ABCDEF".to_vec());
    let options = ReadOptions::default().insert(OptionValue::Endian(Endian::Big));
    let len = u32::read_options(&mut x, &options, &()).unwrap();
    let data = read_bytes(&mut x, &options, &(len as usize,)).unwrap();
    assert_eq!(data, b"ABCDE".to_vec());
    assert_eq!(x.position(), 9);
}
