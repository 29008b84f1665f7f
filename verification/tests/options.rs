use binrw::options::{
    DontOutputTemplate, FileOffset, OptionKey, OptionValue, VariableName, VecCount,
};
use binrw::endian::is_little_reading;
use binrw::{Endian, ReadOptions, ReadOptionsExt};

#[test]
fn read_existing() {
    let mut test = ReadOptions::default();
    for val in [Endian::Big, Endian::Little, Endian::Native].iter() {
        test.endian = *val;

        assert_eq!(OptionValue::Endian(*val), test.get(OptionKey::Endian).unwrap());
    }

    for val in [Some(0), None, Some(0xff), Some(1337)].iter() {
        test.count = *val;

        assert_eq!(
            val.map(VecCount).map(OptionValue::Count),
            test.get(OptionKey::Count)
        );
    }

    for val in [0, 0xff, 1337].iter() {
        test.offset = *val;

        assert_eq!(
            Some(OptionValue::Offset(FileOffset(*val))),
            test.get(OptionKey::Offset)
        );
    }
}

#[test]
fn write_existing() {
    let mut test = ReadOptions::default();
    for val in [Endian::Big, Endian::Little, Endian::Native].iter() {
        test.insert_mut(OptionValue::Endian(*val));

        assert_eq!(*val, test.endian);
    }

    assert_eq!(test.count, None);

    for val in [0, 0xff, 1337].iter() {
        test.insert_mut(OptionValue::Count(VecCount(*val)));

        assert_eq!(Some(*val), test.count);
    }

    for val in [0, 0xff, 1337].iter() {
        test.insert_mut(OptionValue::Offset(FileOffset(*val)));

        assert_eq!(*val, test.offset);
    }
}

#[test]
fn default_context() {
    let options = ReadOptions::default();
    assert_eq!(options.endian(), Endian::Native);
    assert_eq!(options.offset(), 0);
    assert_eq!(options.count, None);
    assert_eq!(options.count(), None);
    assert_eq!(options.insert(OptionValue::Count(VecCount(3))).count(), Some(3));
    assert!(!options.dont_output_to_template());
    assert_eq!(options.variable_name(), None);
    assert_eq!(options.get(OptionKey::Ext(7)), None);
    assert_eq!(Endian::default(), Endian::Native);
    assert_eq!(FileOffset::default(), FileOffset(0));
    assert_eq!(DontOutputTemplate::default(), DontOutputTemplate(false));
    assert_eq!(VariableName::default(), VariableName(None));
}

#[test]
fn native_order_is_that_of_the_machine() {
    let options = ReadOptions::default();
    assert_eq!(options.big_endian(), u16::from_ne_bytes([0, 1]) == 1);
    assert!(options.insert(OptionValue::Endian(Endian::Big)).big_endian());
    assert!(!options.insert(OptionValue::Endian(Endian::Little)).big_endian());
}

#[test]
fn insert_leaves_the_parent_as_it_was() {
    let parent = ReadOptions::default().insert(OptionValue::Offset(FileOffset(16)));
    let child = parent.insert(OptionValue::Endian(Endian::Big));
    let grandchild = child.insert(OptionValue::Ext(3, 99));

    assert_eq!(parent.endian(), Endian::Native);
    assert_eq!(parent.get(OptionKey::Ext(3)), None);
    assert_eq!(child.endian(), Endian::Big);
    assert_eq!(child.offset(), 16);
    assert_eq!(child.get(OptionKey::Ext(3)), None);
    assert_eq!(grandchild.endian(), Endian::Big);
    assert_eq!(grandchild.offset(), 16);
    assert_eq!(grandchild.get(OptionKey::Ext(3)), Some(OptionValue::Ext(3, 99)));
}

#[test]
fn remove_leaves_the_parent_as_it_was() {
    let parent = ReadOptions::default()
        .insert(OptionValue::Ext(1, 10))
        .insert(OptionValue::Ext(2, 20));
    let child = parent.remove(OptionKey::Ext(1));

    assert!(parent.contains(OptionKey::Ext(1)));
    assert!(!child.contains(OptionKey::Ext(1)));
    assert_eq!(child.get(OptionKey::Ext(2)), Some(OptionValue::Ext(2, 20)));
}

#[test]
fn open_slot() {
    let mut options = ReadOptions::default();
    assert!(!options.contains(OptionKey::Ext(5)));
    assert!(!options.remove_mut(OptionKey::Ext(5)));

    options.insert_mut(OptionValue::Ext(5, 1));
    options.insert_mut(OptionValue::Ext(6, 2));
    options.insert_mut(OptionValue::Ext(5, 3));
    assert!(options.contains(OptionKey::Ext(5)));
    assert_eq!(options.get(OptionKey::Ext(5)), Some(OptionValue::Ext(5, 3)));
    assert_eq!(options.get(OptionKey::Ext(6)), Some(OptionValue::Ext(6, 2)));

    assert!(options.remove_mut(OptionKey::Ext(5)));
    assert_eq!(options.get(OptionKey::Ext(5)), None);
    assert!(!options.remove_mut(OptionKey::Ext(5)));
    assert_eq!(options.get(OptionKey::Ext(6)), Some(OptionValue::Ext(6, 2)));

    let copy = options.clone();
    options.insert_mut(OptionValue::Ext(6, 7));
    assert_eq!(copy.get(OptionKey::Ext(6)), Some(OptionValue::Ext(6, 2)));
}

#[test]
fn built_in_kinds() {
    let mut options = ReadOptions::default();
    assert!(options.contains(OptionKey::Endian));
    assert!(!options.contains(OptionKey::Count));
    assert!(!options.contains(OptionKey::Offset));
    assert!(!options.contains(OptionKey::DontOutputTemplate));
    assert!(!options.contains(OptionKey::VariableName));

    options.insert_mut(OptionValue::Count(VecCount(0)));
    options.insert_mut(OptionValue::Offset(FileOffset::from(4)));
    options.insert_mut(OptionValue::DontOutputTemplate(DontOutputTemplate(true)));
    options.insert_mut(OptionValue::VariableName(VariableName(Some("x"))));
    assert!(options.contains(OptionKey::Count));
    assert!(options.contains(OptionKey::Offset));
    assert!(options.contains(OptionKey::DontOutputTemplate));
    assert!(options.contains(OptionKey::VariableName));
    assert_eq!(
        options.get(OptionKey::DontOutputTemplate),
        Some(OptionValue::DontOutputTemplate(DontOutputTemplate(true)))
    );
    assert_eq!(
        options.get(OptionKey::VariableName),
        Some(OptionValue::VariableName(VariableName(Some("x"))))
    );
    assert_eq!(OptionValue::Count(VecCount(0)).key(), OptionKey::Count);
    assert_eq!(OptionValue::Ext(9, 1).key(), OptionKey::Ext(9));

    assert!(options.remove_mut(OptionKey::Endian));
    assert!(options.remove_mut(OptionKey::Count));
    assert!(options.remove_mut(OptionKey::Offset));
    assert!(options.remove_mut(OptionKey::DontOutputTemplate));
    assert!(options.remove_mut(OptionKey::VariableName));
    assert_eq!(options.endian(), Endian::Native);
    assert_eq!(options.count, None);
    assert_eq!(options.offset(), 0);
    assert!(!options.dont_output_to_template());
    assert_eq!(options.variable_name(), None);
    assert!(options.contains(OptionKey::Endian));
    assert_eq!(
        options.get(OptionKey::Offset),
        Some(OptionValue::Offset(FileOffset(0)))
    );
}

#[test]
fn little_reading_of_two_bytes() {
    assert!(is_little_reading([1, 0], 1));
    assert!(!is_little_reading([1, 0], 256));
    assert!(is_little_reading([0x12, 0x34], 0x3412));
    assert!(!is_little_reading([0x12, 0x34], 0x1234));
    assert!(is_little_reading([0xff, 0xff], 0xffff));
    assert!(!is_little_reading([0, 0], 1));
    assert_eq!(
        ReadOptions::default().big_endian(),
        !is_little_reading([1, 0], u16::from_ne_bytes([1, 0]))
    );
}
