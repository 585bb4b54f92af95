use rs_class::typing::{
    ArchSize, ArrayDataType, BooleanDataType, ConversionError, DataType, DataTypeEnum, Endianness,
    FloatDataType, FloatPrecision, IntSize, IntegerDataType, PointerDataType, StrDataType,
    StructDataType, StructEntry,
};

#[test]
fn test_boolean_zero() {
    let dt = BooleanDataType::default().with_size(4);
    let data = [0; 4];

    assert_eq!(dt.get_size(), 4);
    let val = dt.bytes_to_string(&data).unwrap();
    assert_eq!(val, "false");
}

#[test]
fn test_boolean_not_zero() {
    let dt = BooleanDataType::default().with_size(4);
    let mut data = [0; 4];
    data[2] = 5;

    assert_eq!(dt.get_size(), 4);
    let val = dt.bytes_to_string(&data).unwrap();
    assert_eq!(val, "true");
}

#[test]
fn u8() -> Result<(), ()> {
    let dt = IntegerDataType::default()
        .with_size(IntSize::Integer8)
        .with_signed(false)
        .with_hex(false)
        .with_endianness(Endianness::Big);

    let data = [50; 1];

    assert_eq!(dt.get_size(), 1);
    assert_eq!(dt.bytes_to_string(&data).expect("Should succeed"), "50");
    Ok(())
}

#[test]
fn h32() -> Result<(), ()> {
    let dt = IntegerDataType::default()
        .with_size(IntSize::Integer32)
        .with_signed(true)
        .with_hex(true)
        .with_endianness(Endianness::Little);

    let data = [0xEF, 0xBE, 0xAD, 0xDE];

    assert_eq!(dt.get_size(), 4);
    assert_eq!(
        dt.bytes_to_string(&data).expect("Should succeed"),
        "0xDEADBEEF"
    );
    Ok(())
}

#[test]
fn i32_minus_one() -> Result<(), ()> {
    let dt = IntegerDataType::default()
        .with_size(IntSize::Integer32)
        .with_signed(true)
        .with_hex(false)
        .with_endianness(Endianness::Little);

    let data = [0xFF, 0xFF, 0xFF, 0xFF];

    assert_eq!(dt.get_size(), 4);
    assert_eq!(dt.bytes_to_string(&data).expect("Should succeed"), "-1");
    Ok(())
}

#[test]
fn double() -> Result<(), ()> {
    let dt = FloatDataType::default()
        .with_precision(FloatPrecision::Simple)
        .with_endianness(Endianness::Big);

    let data = [0x3f, 0x80, 0x00, 0x00];
    assert_eq!(dt.get_size(), 4);
    assert_eq!(dt.bytes_to_string(&data).expect("Should succeed"), "1.000");
    Ok(())
}

fn integer(size: IntSize, signed: bool, hex: bool, endianness: Endianness) -> IntegerDataType {
    IntegerDataType::default()
        .with_size(size)
        .with_signed(signed)
        .with_hex(hex)
        .with_endianness(endianness)
}

#[test]
fn integer_defaults() {
    let dt = IntegerDataType::default();
    assert_eq!(dt.get_size(), 4);
    assert_eq!(dt.get_name(), "Integer");
    assert_eq!(dt.bytes_to_string(&[0xEF, 0xBE, 0xAD, 0xDE]).unwrap(), "3735928559");
}

#[test]
fn integer_every_width_decodes() {
    let widths = [
        (IntSize::Integer8, 1usize),
        (IntSize::Integer16, 2),
        (IntSize::Integer32, 4),
        (IntSize::Integer64, 8),
    ];
    for (size, width) in widths {
        for signed in [false, true] {
            for hex in [false, true] {
                for endianness in [Endianness::Little, Endianness::Big] {
                    let dt = integer(size, signed, hex, endianness);
                    assert_eq!(dt.get_size(), width);
                    for fill in [0x00u8, 0x7F, 0x80, 0xFF] {
                        let data = vec![fill; width];
                        assert!(dt.bytes_to_string(&data).is_ok());
                    }
                }
            }
        }
    }
}

#[test]
fn integer_byte_order() {
    let data = [0x01, 0x02, 0x03, 0x04];
    let le = integer(IntSize::Integer32, false, false, Endianness::Little);
    let be = integer(IntSize::Integer32, false, false, Endianness::Big);
    assert_eq!(le.bytes_to_string(&data).unwrap(), "67305985");
    assert_eq!(be.bytes_to_string(&data).unwrap(), "16909060");
    let le16 = integer(IntSize::Integer16, false, true, Endianness::Little);
    let be16 = integer(IntSize::Integer16, false, true, Endianness::Big);
    assert_eq!(le16.bytes_to_string(&[0x34, 0x12]).unwrap(), "0x1234");
    assert_eq!(be16.bytes_to_string(&[0x34, 0x12]).unwrap(), "0x3412");
}

#[test]
fn integer_sign_extension_at_each_width() {
    let s8 = integer(IntSize::Integer8, true, false, Endianness::Little);
    assert_eq!(s8.bytes_to_string(&[0x80]).unwrap(), "-128");
    assert_eq!(s8.bytes_to_string(&[0x7F]).unwrap(), "127");
    assert_eq!(s8.bytes_to_string(&[0xFF]).unwrap(), "-1");
    let s16 = integer(IntSize::Integer16, true, false, Endianness::Big);
    assert_eq!(s16.bytes_to_string(&[0x80, 0x00]).unwrap(), "-32768");
    assert_eq!(s16.bytes_to_string(&[0xFF, 0xFE]).unwrap(), "-2");
    let s32 = integer(IntSize::Integer32, true, false, Endianness::Big);
    assert_eq!(s32.bytes_to_string(&[0x80, 0, 0, 0]).unwrap(), "-2147483648");
    assert_eq!(s32.bytes_to_string(&[0x7F, 0xFF, 0xFF, 0xFF]).unwrap(), "2147483647");
    let s64 = integer(IntSize::Integer64, true, false, Endianness::Little);
    assert_eq!(s64.bytes_to_string(&[0xFF; 8]).unwrap(), "-1");
    assert_eq!(
        s64.bytes_to_string(&[0, 0, 0, 0, 0, 0, 0, 0x80]).unwrap(),
        "-9223372036854775808"
    );
    assert_eq!(
        s64.bytes_to_string(&[0xFF, 0xFF, 0xFF, 0xFF, 0xFF, 0xFF, 0xFF, 0x7F]).unwrap(),
        "9223372036854775807"
    );
}

#[test]
fn integer_unsigned_and_hex_extremes() {
    let u64le = integer(IntSize::Integer64, false, false, Endianness::Little);
    assert_eq!(u64le.bytes_to_string(&[0xFF; 8]).unwrap(), "18446744073709551615");
    assert_eq!(u64le.bytes_to_string(&[0; 8]).unwrap(), "0");
    let h64 = integer(IntSize::Integer64, true, true, Endianness::Big);
    assert_eq!(h64.bytes_to_string(&[0xFF; 8]).unwrap(), "0xFFFFFFFFFFFFFFFF");
    assert_eq!(h64.bytes_to_string(&[0; 8]).unwrap(), "0x0");
    assert_eq!(
        h64.bytes_to_string(&[0, 0, 0, 0, 0xDE, 0xAD, 0xBE, 0xEF]).unwrap(),
        "0xDEADBEEF"
    );
    let h8 = integer(IntSize::Integer8, false, true, Endianness::Little);
    assert_eq!(h8.bytes_to_string(&[0x0A]).unwrap(), "0xA");
}

#[test]
fn integer_matches_standard_formatting() {
    let values: [u64; 9] = [
        0,
        9,
        10,
        255,
        4096,
        0x8000_0000,
        0xDEAD_BEEF_0123_4567,
        u64::MAX - 1,
        1_000_000_007,
    ];
    let dec = integer(IntSize::Integer64, false, false, Endianness::Little);
    let sig = integer(IntSize::Integer64, true, false, Endianness::Little);
    let hex = integer(IntSize::Integer64, false, true, Endianness::Little);
    for v in values {
        let data = v.to_le_bytes();
        assert_eq!(dec.bytes_to_string(&data).unwrap(), format!("{}", v));
        assert_eq!(sig.bytes_to_string(&data).unwrap(), format!("{}", v as i64));
        assert_eq!(hex.bytes_to_string(&data).unwrap(), format!("{:#X}", v));
    }
}

#[test]
fn integer_toggles() {
    let mut dt = IntegerDataType::default();
    dt.toggle_hex();
    assert_eq!(dt.bytes_to_string(&[0x10, 0, 0, 0]).unwrap(), "0x10");
    dt.toggle_hex();
    dt.toggle_endianness();
    assert_eq!(dt.bytes_to_string(&[0, 0, 0, 0x10]).unwrap(), "16");
    dt.toggle_signed();
    assert_eq!(dt.bytes_to_string(&[0xFF, 0xFF, 0xFF, 0xFE]).unwrap(), "-2");
    dt.toggle_signed();
    assert_eq!(dt.bytes_to_string(&[0xFF, 0xFF, 0xFF, 0xFE]).unwrap(), "4294967294");
    dt.set_size(IntSize::Integer16);
    dt.set_endianness(Endianness::Little);
    dt.set_signed(true);
    dt.set_hex(false);
    assert_eq!(dt.bytes_to_string(&[0xFE, 0xFF]).unwrap(), "-2");
}

#[test]
fn int_size_conversions() {
    assert_eq!(usize::from(IntSize::Integer8), 1);
    assert_eq!(usize::from(IntSize::Integer16), 2);
    assert_eq!(usize::from(IntSize::Integer32), 4);
    assert_eq!(usize::from(IntSize::Integer64), 8);
    assert_eq!(IntSize::try_from(1usize), Ok(IntSize::Integer8));
    assert_eq!(IntSize::try_from(2usize), Ok(IntSize::Integer16));
    assert_eq!(IntSize::try_from(4usize), Ok(IntSize::Integer32));
    assert_eq!(IntSize::try_from(8usize), Ok(IntSize::Integer64));
    for bad in [0usize, 3, 5, 6, 7, 9, 16] {
        assert_eq!(
            IntSize::try_from(bad),
            Err("That size is not valid, can only be powers of 2 between 1 and 8.")
        );
    }
    assert_eq!(IntSize::default(), IntSize::Integer32);
}

#[test]
fn size_error_for_every_variant() {
    let all: Vec<DataTypeEnum> = vec![
        IntegerDataType::default().into(),
        BooleanDataType::default().with_size(2).into(),
        FloatDataType::default().into(),
        StrDataType::default().with_size(3).into(),
        StructDataType::default().into(),
        PointerDataType::new(IntegerDataType::default().into(), ArchSize::Arch32).into(),
        ArrayDataType::new(IntegerDataType::default().into(), 2).unwrap().into(),
    ];
    for dt in all.iter() {
        let size = dt.get_size();
        let longer = vec![0u8; size + 1];
        assert_eq!(dt.bytes_to_string(&longer), Err(ConversionError::SizeError));
        if size > 0 {
            let shorter = vec![0u8; size - 1];
            assert_eq!(dt.bytes_to_string(&shorter), Err(ConversionError::SizeError));
        }
    }
}

#[test]
fn size_and_name_are_stable() {
    let dt: DataTypeEnum = PointerDataType::new(
        ArrayDataType::new(FloatDataType::default().into(), 3).unwrap().into(),
        ArchSize::Arch64,
    )
    .into();
    assert_eq!(dt.get_size(), dt.get_size());
    assert_eq!(dt.get_name(), dt.get_name());
    assert_eq!(dt.get_size(), 8);
    assert_eq!(dt.get_name(), "Pointer to Array of Float");
}

#[test]
fn boolean_defaults_and_widths() {
    let dt = BooleanDataType::default();
    assert_eq!(dt.get_size(), 1);
    assert_eq!(dt.get_name(), "Boolean");
    assert_eq!(dt.bytes_to_string(&[1]).unwrap(), "true");
    assert_eq!(dt.bytes_to_string(&[0]).unwrap(), "false");
    assert_eq!(dt.bytes_to_string(&[0, 0]), Err(ConversionError::SizeError));
    let mut wide = dt.clone().with_size(8);
    assert_eq!(wide.bytes_to_string(&[0, 0, 0, 0, 0, 0, 0, 0x80]).unwrap(), "true");
    wide.set_size(0);
    assert_eq!(wide.get_size(), 0);
    assert_eq!(wide.bytes_to_string(&[]).unwrap(), "false");
}

#[test]
fn float_single_and_double() {
    let single = FloatDataType::default();
    assert_eq!(single.get_size(), 4);
    assert_eq!(single.get_name(), "Float");
    assert_eq!(single.bytes_to_string(&1.5f32.to_le_bytes()).unwrap(), "1.500");
    assert_eq!(single.bytes_to_string(&(-0.25f32).to_le_bytes()).unwrap(), "-0.250");
    let big = FloatDataType::default().with_endianness(Endianness::Big);
    assert_eq!(big.bytes_to_string(&1.5f32.to_be_bytes()).unwrap(), "1.500");
    assert_eq!(big.bytes_to_string(&[0x40, 0x49, 0x0F, 0xDB]).unwrap(), "3.142");
    let double = FloatDataType::default().with_precision(FloatPrecision::Double);
    assert_eq!(double.get_size(), 8);
    assert_eq!(double.bytes_to_string(&2.0005f64.to_le_bytes()).unwrap(), "2.001");
    assert_eq!(double.bytes_to_string(&1234.5678f64.to_le_bytes()).unwrap(), "1234.568");
    let double_be = double.clone().with_endianness(Endianness::Big);
    assert_eq!(double_be.bytes_to_string(&(-1.0f64).to_be_bytes()).unwrap(), "-1.000");
    assert_eq!(double.bytes_to_string(&[0; 4]), Err(ConversionError::SizeError));
    assert_eq!(single.bytes_to_string(&[0; 8]), Err(ConversionError::SizeError));
}

#[test]
fn float_toggles() {
    let mut dt = FloatDataType::default();
    dt.toggle_precision();
    assert_eq!(dt.get_size(), 8);
    dt.toggle_precision();
    assert_eq!(dt.get_size(), 4);
    dt.toggle_endianness();
    assert_eq!(dt.bytes_to_string(&[0x3F, 0x80, 0, 0]).unwrap(), "1.000");
    dt.toggle_endianness();
    assert_eq!(dt.bytes_to_string(&[0, 0, 0x80, 0x3F]).unwrap(), "1.000");
    dt.set_precision(FloatPrecision::Double);
    dt.set_endianness(Endianness::Big);
    assert_eq!(
        dt.bytes_to_string(&[0x3F, 0xF0, 0, 0, 0, 0, 0, 0]).unwrap(),
        "1.000"
    );
    assert_eq!(FloatPrecision::Simple.toggle(), FloatPrecision::Double);
    assert_eq!(FloatPrecision::Double.toggle(), FloatPrecision::Simple);
    assert_eq!(FloatPrecision::default(), FloatPrecision::Simple);
}

#[test]
fn string_until_terminator() {
    let dt = StrDataType::default().with_size(8);
    assert_eq!(dt.get_size(), 8);
    assert_eq!(dt.get_name(), "Null terminated string");
    assert_eq!(dt.bytes_to_string(b"hello\0zz").unwrap(), "hello");
    assert_eq!(dt.bytes_to_string(b"\0abcdefg").unwrap(), "");
    assert_eq!(dt.bytes_to_string(b"abcdefg\0").unwrap(), "abcdefg");
    assert_eq!(dt.bytes_to_string(b"ab\0cd\0ef").unwrap(), "ab");
    assert_eq!(
        dt.bytes_to_string(b"abcdefgh"),
        Err(ConversionError::CStrUntilNullError)
    );
    assert_eq!(dt.bytes_to_string(b"abc\0"), Err(ConversionError::SizeError));
}

#[test]
fn string_lossy_and_utf8() {
    let dt = StrDataType::default().with_size(6);
    assert_eq!(dt.bytes_to_string(&[0xC3, 0xA9, b't', 0xC3, 0xA9, 0]).unwrap(), "été");
    assert_eq!(
        dt.bytes_to_string(&[b'a', 0xFF, b'b', 0, 0, 0]).unwrap(),
        "a\u{FFFD}b"
    );
    let mut empty = StrDataType::default();
    assert_eq!(empty.get_size(), 0);
    assert_eq!(empty.bytes_to_string(&[]), Err(ConversionError::CStrUntilNullError));
    empty.set_size(1);
    assert_eq!(empty.bytes_to_string(&[0]).unwrap(), "");
}

#[test]
fn pointer_size_name_and_decode() {
    let narrow = PointerDataType::new(IntegerDataType::default().into(), ArchSize::Arch32);
    let wide = PointerDataType::new(BooleanDataType::default().into(), ArchSize::Arch64);
    assert_eq!(narrow.get_size(), 4);
    assert_eq!(wide.get_size(), 8);
    assert_eq!(narrow.get_name(), "Pointer to Integer");
    assert_eq!(wide.get_name(), "Pointer to Boolean");
    assert_eq!(narrow.bytes_to_string(&[0; 4]), Err(ConversionError::NotConvertibleError));
    assert_eq!(wide.bytes_to_string(&[0; 8]), Err(ConversionError::NotConvertibleError));
    assert_eq!(wide.bytes_to_string(&[0; 4]), Err(ConversionError::SizeError));
    let nested = PointerDataType::new(narrow.clone().into(), ArchSize::Arch32);
    assert_eq!(nested.get_name(), "Pointer to Pointer to Integer");
    assert_eq!(ArchSize::Arch32.get_size(), 4);
    assert_eq!(ArchSize::Arch64.get_size(), 8);
    assert_eq!(ArchSize::default(), ArchSize::Arch32);
}

#[test]
fn array_size_is_element_size_times_count() {
    for count in [0usize, 1, 2, 7, 1000] {
        let a = ArrayDataType::new(
            IntegerDataType::default().with_size(IntSize::Integer16).into(),
            count,
        )
        .unwrap();
        assert_eq!(a.get_size(), 2 * count);
        assert_eq!(a.get_name(), "Array of Integer");
    }
    let inner = ArrayDataType::new(FloatDataType::default().into(), 3).unwrap();
    let outer = ArrayDataType::new(inner.into(), 5).unwrap();
    assert_eq!(outer.get_size(), 60);
    assert_eq!(outer.get_name(), "Array of Array of Float");
    let empty = ArrayDataType::new(StrDataType::default().with_size(9).into(), 0).unwrap();
    assert_eq!(empty.get_size(), 0);
    assert_eq!(empty.bytes_to_string(&[]), Err(ConversionError::NotConvertibleError));
    assert_eq!(empty.bytes_to_string(&[0]), Err(ConversionError::SizeError));
}

#[test]
fn array_too_large_is_refused() {
    let huge = ArrayDataType::new(
        IntegerDataType::default().with_size(IntSize::Integer64).into(),
        usize::MAX,
    );
    assert!(huge.is_none());
    let fits = ArrayDataType::new(BooleanDataType::default().into(), usize::MAX);
    assert_eq!(fits.unwrap().get_size(), usize::MAX);
    let zero_wide = ArrayDataType::new(BooleanDataType::default().with_size(0).into(), usize::MAX);
    assert_eq!(zero_wide.unwrap().get_size(), 0);
}

fn entry(name: &str, dt: DataTypeEnum) -> StructEntry {
    StructEntry::new(name.to_string(), dt)
}

#[test]
fn struct_append_offsets() {
    let mut s = StructDataType::default();
    assert_eq!(s.get_name(), "STRUCT");
    assert_eq!(s.get_size(), 0);
    s.push_entry(entry("a", IntegerDataType::default().into()));
    s.push_entry(entry("b", BooleanDataType::default().into()));
    s.push_entry(entry(
        "c",
        IntegerDataType::default().with_size(IntSize::Integer64).into(),
    ));
    let offsets: Vec<usize> = s.get_entries().iter().map(|e| e.get_offset()).collect();
    let sizes: Vec<usize> = s.get_entries().iter().map(|e| e.get_size()).collect();
    assert_eq!(offsets, vec![0, 4, 5]);
    assert_eq!(sizes, vec![4, 1, 8]);
    assert_eq!(s.get_size(), 13);
    assert_eq!(s.bytes_to_string(&[0; 13]), Err(ConversionError::NotConvertibleError));
    assert_eq!(s.bytes_to_string(&[0; 12]), Err(ConversionError::SizeError));
}

#[test]
fn struct_new_lays_entries_out() {
    let s = StructDataType::new(
        "Player".to_string(),
        vec![
            entry("health", FloatDataType::default().into()),
            entry("name", StrDataType::default().with_size(16).into()),
            entry("alive", BooleanDataType::default().into()),
        ],
    );
    assert_eq!(s.get_name(), "Player");
    let entries = s.get_entries();
    assert_eq!(entries.len(), 3);
    assert_eq!(entries[0].get_name(), "health");
    assert_eq!(entries[1].get_name(), "name");
    assert_eq!(entries[2].get_name(), "alive");
    assert_eq!(entries[0].get_offset(), 0);
    assert_eq!(entries[1].get_offset(), 4);
    assert_eq!(entries[2].get_offset(), 20);
    assert_eq!(s.get_size(), 21);
    let none = StructDataType::new("Empty".to_string(), Vec::new());
    assert_eq!(none.get_size(), 0);
    assert!(none.get_entries().is_empty());
}

#[test]
fn struct_insert_moves_later_entries() {
    let mut s = StructDataType::default();
    s.push_entry(entry("a", IntegerDataType::default().into()));
    s.push_entry(entry("c", IntegerDataType::default().with_size(IntSize::Integer64).into()));
    s.insert_entry(1, entry("b", BooleanDataType::default().with_size(2).into()));
    let names: Vec<String> = s.get_entries().iter().map(|e| e.get_name().clone()).collect();
    let offsets: Vec<usize> = s.get_entries().iter().map(|e| e.get_offset()).collect();
    assert_eq!(names, vec!["a", "b", "c"]);
    assert_eq!(offsets, vec![0, 4, 6]);
    assert_eq!(s.get_size(), 14);
    s.insert_entry(0, entry("first", BooleanDataType::default().into()));
    s.insert_entry(4, entry("last", BooleanDataType::default().into()));
    let offsets: Vec<usize> = s.get_entries().iter().map(|e| e.get_offset()).collect();
    assert_eq!(offsets, vec![0, 1, 5, 7, 15]);
    assert_eq!(s.get_size(), 16);
}

#[test]
fn struct_entry_accessors() {
    let mut e = entry("field", IntegerDataType::default().into());
    assert_eq!(e.get_name(), "field");
    assert_eq!(e.get_size(), 4);
    assert_eq!(e.get_offset(), 0);
    assert_eq!(e.get_datatype().get_name(), "Integer");
    e.set_name("renamed".to_string());
    assert_eq!(e.get_name(), "renamed");
    e.set_dataype(FloatDataType::default().with_precision(FloatPrecision::Double).into());
    assert_eq!(e.get_size(), 8);
    assert_eq!(e.get_datatype().get_name(), "Float");
    assert_eq!(e.get_name(), "renamed");
    assert_eq!(e.get_offset(), 0);
}

#[test]
fn struct_nests_by_value_and_by_pointer() {
    let mut inner = StructDataType::new("Vec2".to_string(), Vec::new());
    inner.push_entry(entry("x", FloatDataType::default().into()));
    inner.push_entry(entry("y", FloatDataType::default().into()));
    let mut outer = StructDataType::new("Body".to_string(), Vec::new());
    outer.push_entry(entry("pos", inner.clone().into()));
    outer.push_entry(entry(
        "next",
        PointerDataType::new(inner.into(), ArchSize::Arch64).into(),
    ));
    outer.push_entry(entry(
        "tags",
        ArrayDataType::new(IntegerDataType::default().with_size(IntSize::Integer8).into(), 3)
            .unwrap()
            .into(),
    ));
    let offsets: Vec<usize> = outer.get_entries().iter().map(|e| e.get_offset()).collect();
    assert_eq!(offsets, vec![0, 8, 16]);
    assert_eq!(outer.get_size(), 19);
    assert_eq!(outer.get_entries()[0].get_datatype().get_name(), "Vec2");
    assert_eq!(outer.get_entries()[1].get_datatype().get_name(), "Pointer to Vec2");
    let copy = outer.clone();
    assert_eq!(copy.get_size(), 19);
    assert_eq!(copy.get_name(), "Body");
    assert_eq!(copy.get_entries()[2].get_offset(), 16);
}

#[test]
fn struct_entries_decode_one_by_one() {
    let mut s = StructDataType::default();
    s.push_entry(entry("id", IntegerDataType::default().with_hex(true).into()));
    s.push_entry(entry("on", BooleanDataType::default().into()));
    s.push_entry(entry("tag", StrDataType::default().with_size(4).into()));
    let memory = [0x34, 0x12, 0, 0, 1, b'o', b'k', 0, 0];
    assert_eq!(memory.len(), s.get_size());
    let shown: Vec<String> = s
        .get_entries()
        .iter()
        .map(|e| {
            let from = e.get_offset();
            e.get_datatype()
                .bytes_to_string(&memory[from..from + e.get_size()])
                .unwrap()
        })
        .collect();
    assert_eq!(shown, vec!["0x1234", "true", "ok"]);
}

#[test]
fn enum_dispatch_matches_the_variant() {
    let dt: DataTypeEnum = IntegerDataType::default().with_signed(true).into();
    assert_eq!(dt.get_size(), 4);
    assert_eq!(dt.get_name(), "Integer");
    assert_eq!(dt.bytes_to_string(&[0xFE, 0xFF, 0xFF, 0xFF]).unwrap(), "-2");
    let dt: DataTypeEnum = BooleanDataType::default().into();
    assert_eq!(dt.bytes_to_string(&[9]).unwrap(), "true");
    let dt: DataTypeEnum = FloatDataType::default().into();
    assert_eq!(dt.bytes_to_string(&0.5f32.to_le_bytes()).unwrap(), "0.500");
    let dt: DataTypeEnum = StrDataType::default().with_size(3).into();
    assert_eq!(dt.bytes_to_string(b"hi\0").unwrap(), "hi");
    let copy = dt.clone();
    assert_eq!(copy.get_size(), 3);
    assert_eq!(copy.get_name(), "Null terminated string");
}

#[test]
fn conversion_error_messages() {
    assert_eq!(
        ConversionError::SizeError.message(),
        "Provided size does not match with the size of the datatype."
    );
    assert_eq!(
        ConversionError::CStrUntilNullError.message(),
        "The data does not contain a null terminating byte."
    );
    assert_eq!(
        ConversionError::NotConvertibleError.message(),
        "This datatype cannot be converted to string."
    );
}

#[test]
fn endianness_toggle_and_default() {
    assert_eq!(Endianness::Little.toggle(), Endianness::Big);
    assert_eq!(Endianness::Big.toggle(), Endianness::Little);
    assert_eq!(Endianness::default(), Endianness::Little);
}
