use dash7_alp::decodable::WithByteSize;
use dash7_alp::varint::{Varint, MAX_SIZE};

#[test]
fn varint_test_is_valid() {
    assert!(Varint::new(0x3F_FF_FF_FF).is_ok());
    assert!(Varint::new(0x40_00_00_00).is_err());
}

#[test]
fn varint_test_size() {
    assert_eq!(Varint::new(0x00).unwrap().encoded_size(), 1);
    assert_eq!(Varint::new(0x3F).unwrap().encoded_size(), 1);
    assert_eq!(Varint::new(0x3F_FF).unwrap().encoded_size(), 2);
    assert_eq!(Varint::new(0x3F_FF_FF).unwrap().encoded_size(), 3);
    assert_eq!(Varint::new(0x3F_FF_FF_FF).unwrap().encoded_size(), 4);
}

fn check_encode(n: u32, truth: &[u8]) {
    let mut encoded = [0_u8; MAX_SIZE];
    let size = Varint::new(n).unwrap().encode_in(&mut encoded[..]).unwrap();
    assert_eq!(truth.len(), size);
    assert_eq!(*truth, encoded[..truth.len()]);
}

#[test]
fn test_encode() {
    check_encode(0x00, &[0]);
    check_encode(0x3F, &[0x3F]);
    check_encode(0x3F_FF, &[0x7F, 0xFF]);
    check_encode(0x3F_FF_FF, &[0xBF, 0xFF, 0xFF]);
    check_encode(0x3F_FF_FF_FF, &[0xFF, 0xFF, 0xFF, 0xFF]);
}

fn check_decode(data: &[u8], value: u32, size: usize) {
    let WithByteSize { item: ret, byte_size: decode_size } = Varint::decode(data).unwrap();
    assert_eq!(decode_size, size);
    assert_eq!(ret, Varint::new(value).unwrap());

    let WithByteSize { item: decoder, byte_size: expected_size } =
        Varint::start_decoding(data).unwrap();
    let part_size = decoder.encoded_size().unwrap();
    assert_eq!(expected_size, size);
    assert_eq!(part_size, size);
    assert_eq!(decoder.encoded_size_unchecked(), size);
}

#[test]
fn test_decode() {
    check_decode(&[0], 0x00, 1);
    check_decode(&[0x3F], 0x3F, 1);
    check_decode(&[0x7F, 0xFF], 0x3F_FF, 2);
    check_decode(&[0xBF, 0xFF, 0xFF], 0x3F_FF_FF, 3);
    check_decode(&[0xFF, 0xFF, 0xFF, 0xFF], 0x3F_FF_FF_FF, 4);

    check_decode(&[0x00], 0, 1);
    check_decode(&[0x40, 0x00], 0, 2);
    check_decode(&[0x80, 0x00, 0x00], 0, 3);
    check_decode(&[0xC0, 0x00, 0x00, 0x00], 0, 4);
}

#[test]
fn varint_too_short_input_is_refused() {
    assert!(Varint::decode(&[]).is_err());
    assert!(Varint::decode(&[0x40]).is_err());
    assert!(Varint::decode(&[0x80, 0x00]).is_err());
    assert!(Varint::decode(&[0xC0, 0x00, 0x00]).is_err());
}

#[test]
fn varint_roundtrip_on_boundaries() {
    for n in [0u32, 0x3F, 0x40, 0x3FFF, 0x4000, 0x3F_FFFF, 0x40_0000, 0x3FFF_FFFF] {
        let v = Varint::new(n).unwrap();
        let mut out = [0u8; 8];
        let size = v.encode_in(&mut out).unwrap();
        let back = Varint::decode(&out).unwrap();
        assert_eq!(back.byte_size, size);
        assert_eq!(back.item.u32(), n);
    }
}

#[test]
fn varint_encode_in_too_small_buffer() {
    let v = Varint::new(0x3FFF).unwrap();
    let mut out = [0u8; 1];
    assert_eq!(v.encode_in(&mut out), Err(2));
    assert_eq!(out, [0u8]);
}

#[test]
fn varint_fixed_arrays() {
    assert_eq!(Varint::encode_as_u8(0x3F), [0x3F]);
    assert_eq!(Varint::encode_as_u16(0x3FFF), [0x3F, 0xFF]);
    assert_eq!(Varint::encode_as_u24(0x3F_FFFF), [0x3F, 0xFF, 0xFF]);
    assert_eq!(Varint::encode_as_u32(0x3FFF_FFFF), [0x3F, 0xFF, 0xFF, 0xFF]);
}

#[test]
fn varint_set_value_in_place() {
    let mut data = [0x7F, 0xFF];
    let mut decoder = Varint::start_decoding_mut(&mut data).unwrap().item;
    assert!(decoder.set_value(&Varint::new(3).unwrap()).is_err());
    decoder.set_value(&Varint::new(0x1234).unwrap()).unwrap();
    assert_eq!(decoder.complete_decoding().item.u32(), 0x1234);
}
