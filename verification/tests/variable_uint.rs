use dash7_alp::codec::{ParseError, ParseValue};
use dash7_alp::variable_uint::VariableUint;

#[test]
fn test_new() {
    assert_eq!(VariableUint::new(0xFF_FF_FF_FF), Err(()));
    assert_eq!(VariableUint::new(0x01), Ok(VariableUint { value: 0x01 }));
}

#[test]
fn test_set() {
    let mut uint = VariableUint::new(0x01).unwrap();
    assert_eq!(uint.set(0x3F_FF_FF_FF), Ok(()));
    assert_eq!(uint.set(0x40_00_00_00), Err(()));
}

#[test]
fn variable_uint_test_is_valid() {
    assert_eq!(VariableUint::is_valid(0x3F_FF_FF_FF), Ok(()));
    assert_eq!(VariableUint::is_valid(0x40_00_00_00), Err(()));
}

#[test]
fn test_unsafe_size() {
    assert_eq!(VariableUint::unsafe_size(0x00), 1);
    assert_eq!(VariableUint::unsafe_size(0x3F), 1);
    assert_eq!(VariableUint::unsafe_size(0x3F_FF), 2);
    assert_eq!(VariableUint::unsafe_size(0x3F_FF_FF), 3);
    assert_eq!(VariableUint::unsafe_size(0x3F_FF_FF_FF), 4);
}

#[test]
fn variable_uint_test_size() {
    assert_eq!(VariableUint::size(0x00), Ok(1));
    assert_eq!(VariableUint::size(0x40_00_00_00), Err(()));
}

fn check_u32_serialize(n: u32, truth: &[u8]) {
    let mut encoded = vec![0u8; truth.len()];
    assert_eq!(VariableUint::u32_serialize(n, &mut encoded[..]), truth.len() as u8);
    assert_eq!(*truth, encoded[..]);
}

#[test]
fn test_u32_serialize() {
    check_u32_serialize(0x00, &[0]);
    check_u32_serialize(0x3F, &[0x3F]);
    check_u32_serialize(0x3F_FF, &[0x7F, 0xFF]);
    check_u32_serialize(0x3F_FF_FF, &[0xBF, 0xFF, 0xFF]);
    check_u32_serialize(0x3F_FF_FF_FF, &[0xFF, 0xFF, 0xFF, 0xFF]);
}

#[test]
fn test_serialize() {
    assert_eq!(
        VariableUint::new(0x3F_FF_FF).unwrap().serialize_to_vec(),
        vec![0xBF, 0xFF, 0xFF]
    );
}

#[test]
fn variable_uint_usize_is_valid() {
    assert_eq!(VariableUint::usize_is_valid(0x3F_FF_FF_FF), Ok(()));
    assert_eq!(VariableUint::usize_is_valid(0x40_00_00_00), Err(()));
}

#[test]
fn variable_uint_deserialize() {
    assert_eq!(
        VariableUint::u32_deserialize(&[0x7F, 0xFF]),
        Ok(ParseValue { value: 0x3FFF, data_read: 2 })
    );
    assert_eq!(VariableUint::u32_deserialize(&[]), Err(ParseError::MissingBytes(Some(1))));
    let back = VariableUint::deserialize(&[0xBF, 0xFF, 0xFF, 0x00]).unwrap();
    assert_eq!(back.value, VariableUint { value: 0x3F_FF_FF });
    assert_eq!(back.data_read, 3);
}

#[test]
fn variable_uint_serialize_roundtrip() {
    let v = VariableUint::new(0x1234).unwrap();
    let mut out = [0u8; 4];
    let size = v.serialize(&mut out);
    assert_eq!(size, v.serialized_size());
    assert_eq!(VariableUint::deserialize(&out[..size]).unwrap().value, v);
}
