use ethercat_coe::codec::{byte_cnt, value_from_slice, value_to_bytes};
use ethercat_coe::error::Error;
use ethercat_coe::types::{DataType, Value};

#[test]
fn bool_from_raw_slice() {
    assert_eq!(
        value_from_slice(DataType::Bool, &[0], 0).unwrap(),
        Value::Bool(false)
    );
    assert_eq!(
        value_from_slice(DataType::Bool, &[1], 0).unwrap(),
        Value::Bool(true)
    );
    assert_eq!(
        value_from_slice(DataType::Bool, &[0b_1111_1111], 0).unwrap(),
        Value::Bool(true)
    );
    assert_eq!(
        value_from_slice(DataType::Bool, &[0b_1111_1011], 2).unwrap(),
        Value::Bool(false)
    );
    assert_eq!(
        value_from_slice(DataType::Bool, &[0b_1000_0000], 7).unwrap(),
        Value::Bool(true)
    );
    assert_eq!(
        value_from_slice(DataType::Bool, &[0b_1000_0000], 0).unwrap(),
        Value::Bool(false)
    );
    assert_eq!(
        value_from_slice(DataType::Bool, &[0b_0010_0000], 5).unwrap(),
        Value::Bool(true)
    );
}

#[test]
fn byte_counts() {
    assert_eq!(byte_cnt(0), 0);
    assert_eq!(byte_cnt(1), 1);
    assert_eq!(byte_cnt(8), 1);
    assert_eq!(byte_cnt(9), 2);
    assert_eq!(byte_cnt(16), 2);
    assert_eq!(byte_cnt(32), 4);
    assert_eq!(byte_cnt(33), 5);
}

#[test]
fn scalar_encodings_are_little_endian() {
    assert_eq!(value_to_bytes(Value::U16(0x1234)).unwrap(), vec![0x34, 0x12]);
    assert_eq!(
        value_to_bytes(Value::U32(0xDEAD_BEEF)).unwrap(),
        vec![0xEF, 0xBE, 0xAD, 0xDE]
    );
    assert_eq!(
        value_to_bytes(Value::U64(0x0102_0304_0506_0708)).unwrap(),
        vec![8, 7, 6, 5, 4, 3, 2, 1]
    );
    assert_eq!(value_to_bytes(Value::I16(-2)).unwrap(), vec![0xFE, 0xFF]);
    assert_eq!(value_to_bytes(Value::I8(-1)).unwrap(), vec![0xFF]);
    assert_eq!(value_to_bytes(Value::Byte(0x42)).unwrap(), vec![0x42]);
    assert_eq!(value_to_bytes(Value::Bool(true)).unwrap(), vec![1]);
    assert_eq!(value_to_bytes(Value::Bool(false)).unwrap(), vec![0]);
    assert_eq!(
        value_to_bytes(Value::F32(7.7f32.to_bits())).unwrap(),
        7.7f32.to_le_bytes().to_vec()
    );
    assert_eq!(
        value_to_bytes(Value::F64(7.7f64.to_bits())).unwrap(),
        7.7f64.to_le_bytes().to_vec()
    );
    assert_eq!(
        value_to_bytes(Value::Raw(vec![1, 2, 3])).unwrap(),
        vec![1, 2, 3]
    );
}

#[test]
fn scalar_round_trips() {
    let cases: Vec<(DataType, Value)> = vec![
        (DataType::Bool, Value::Bool(true)),
        (DataType::Bool, Value::Bool(false)),
        (DataType::Byte, Value::Byte(0xA5)),
        (DataType::I8, Value::I8(-128)),
        (DataType::I16, Value::I16(-30000)),
        (DataType::I32, Value::I32(-2_000_000_000)),
        (DataType::I64, Value::I64(i64::MIN)),
        (DataType::U8, Value::U8(255)),
        (DataType::U16, Value::U16(65535)),
        (DataType::U32, Value::U32(4_000_000_000)),
        (DataType::U64, Value::U64(u64::MAX)),
        (DataType::F32, Value::F32(7.7f32.to_bits())),
        (DataType::F64, Value::F64((-1.25e300f64).to_bits())),
        (DataType::Raw, Value::Raw(vec![9, 8, 7])),
    ];
    for (dt, v) in cases {
        let bytes = value_to_bytes(v.clone()).unwrap();
        assert_eq!(value_from_slice(dt, &bytes, 0).unwrap(), v);
    }
}

#[test]
fn string_decoding_is_lossy_never_fatal() {
    assert_eq!(
        value_from_slice(DataType::String, b"AB", 0).unwrap(),
        Value::String(String::from("AB"))
    );
    assert_eq!(
        value_from_slice(DataType::String, &[0x41, 0xFF, 0x42], 0).unwrap(),
        Value::String(String::from("A\u{FFFD}B"))
    );
}

#[test]
fn u8_array_decodes_to_contents() {
    assert_eq!(
        value_from_slice(DataType::U8Array, &[1, 2, 3], 0).unwrap(),
        Value::U8Array(vec![1, 2, 3])
    );
}

#[test]
fn empty_buffer_is_a_typed_error() {
    assert_eq!(
        value_from_slice(DataType::U8, &[], 0),
        Err(Error::ValueFromEmptyBuf)
    );
    assert_eq!(
        value_from_slice(DataType::I24, &[], 0),
        Err(Error::ValueFromEmptyBuf)
    );
}

#[test]
fn wrong_width_is_a_typed_error() {
    assert_eq!(
        value_from_slice(DataType::U16, &[1], 0),
        Err(Error::ValueConversion)
    );
    assert_eq!(
        value_from_slice(DataType::U16, &[1, 2, 3], 0),
        Err(Error::ValueConversion)
    );
    assert_eq!(
        value_from_slice(DataType::I64, &[0; 7], 0),
        Err(Error::ValueConversion)
    );
    assert_eq!(
        value_from_slice(DataType::F32, &[0; 3], 0),
        Err(Error::ValueConversion)
    );
}

#[test]
fn unsupported_data_types_are_refused() {
    assert_eq!(
        value_from_slice(DataType::I24, &[0, 0, 0], 0),
        Err(Error::UnsuportedDataType(DataType::I24))
    );
    assert_eq!(
        value_from_slice(DataType::Bit3, &[0], 0),
        Err(Error::UnsuportedDataType(DataType::Bit3))
    );
    assert_eq!(
        value_from_slice(DataType::TimeOfDay, &[0; 6], 0),
        Err(Error::UnsuportedDataType(DataType::TimeOfDay))
    );
}

#[test]
fn unsupported_values_are_refused_on_encode() {
    assert_eq!(
        value_to_bytes(Value::String(String::from("x"))),
        Err(Error::UnsuportedValue(Value::String(String::from("x"))))
    );
    assert_eq!(
        value_to_bytes(Value::U8Array(vec![1])),
        Err(Error::UnsuportedValue(Value::U8Array(vec![1])))
    );
    assert_eq!(
        value_to_bytes(Value::Bit5(true)),
        Err(Error::UnsuportedValue(Value::Bit5(true)))
    );
}
