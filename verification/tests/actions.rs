use dash7_alp::decodable::WithByteSize;
use dash7_alp::define::EncodableDataRef;
use dash7_alp::v1_2::action::defines::FileId;
use dash7_alp::v1_2::action::nop::NopRef;
use dash7_alp::v1_2::action::read_file_data::{self, ReadFileDataRef};
use dash7_alp::v1_2::action::read_file_properties::ReadFilePropertiesRef;
use dash7_alp::v1_2::action::write_file_data::WriteFileDataRef;
use dash7_alp::varint::Varint;

fn check_nop(op: NopRef, data: &[u8]) {
    let mut encoded = [0_u8; 1];
    let size = op.encode_in(&mut encoded).unwrap();
    assert_eq!(size, data.len());
    assert_eq!(&encoded, data);

    assert_eq!(&op.encode_to_array(), data);

    let WithByteSize { item: ret, byte_size } = NopRef::decode(data).unwrap();
    assert_eq!(byte_size, data.len());
    assert_eq!(ret, op);

    let decoder = NopRef::start_decoding(data).unwrap().item;
    assert_eq!(decoder.encoded_size_unchecked(), size);
    assert_eq!(decoder.encoded_size().unwrap(), size);
    assert_eq!(op, NopRef { group: decoder.group(), response: decoder.response() });

    let WithByteSize { item: mut decoder_mut, byte_size: expected_size } =
        NopRef::start_decoding_mut(&mut encoded).unwrap();
    assert_eq!(expected_size, size);

    assert_eq!(decoder_mut.group(), op.group);
    let new_group = !op.group;
    assert!(new_group != op.group);
    decoder_mut.set_group(new_group);
    assert_eq!(decoder_mut.group(), new_group);

    assert_eq!(decoder_mut.response(), op.response);
    let new_response = !op.response;
    assert!(new_response != op.response);
    decoder_mut.set_response(new_response);
    assert_eq!(decoder_mut.response(), new_response);
}

#[test]
fn nop_known() {
    check_nop(NopRef { group: false, response: true }, &[0x40]);
    check_nop(NopRef { group: true, response: false }, &[0x80]);
    check_nop(NopRef { group: true, response: true }, &[0xC0]);
    check_nop(NopRef { group: false, response: false }, &[0x00]);
}

#[test]
fn nop_consistence() {
    let op = NopRef { group: true, response: false };

    let data = op.encode_to_array();
    let WithByteSize { item: ret, byte_size } = NopRef::decode(&data).unwrap();
    assert_eq!(byte_size, data.len());
    assert_eq!(ret, op);

    let WithByteSize { item: ret, byte_size } = NopRef::decode(&data).unwrap();
    assert_eq!(byte_size, data.len());
    assert_eq!(ret.encode_to_array(), data);
}

#[test]
fn nop_empty_input_is_refused() {
    assert!(NopRef::decode(&[]).is_err());
    let mut out: [u8; 0] = [];
    assert_eq!(NopRef::new(true, true).encode_in(&mut out), Err(1));
}

fn check_read_file_properties(op: ReadFilePropertiesRef, data: &[u8]) {
    let mut encoded = [0_u8; 2];
    let size = op.encode_in(&mut encoded).unwrap();
    assert_eq!(size, data.len());
    assert_eq!(&encoded, data);

    assert_eq!(&op.encode_to_array(), data);

    let WithByteSize { item: ret, byte_size: size } = ReadFilePropertiesRef::decode(data).unwrap();
    assert_eq!(size, data.len());
    assert_eq!(ret, op);

    let decoder = ReadFilePropertiesRef::start_decoding(data).unwrap().item;
    assert_eq!(size, decoder.encoded_size_unchecked());
    assert_eq!(size, decoder.encoded_size().unwrap());
    assert_eq!(
        op,
        ReadFilePropertiesRef {
            group: decoder.group(),
            response: decoder.response(),
            file_id: decoder.file_id(),
        }
    );
}

#[test]
fn read_file_properties_known() {
    check_read_file_properties(
        ReadFilePropertiesRef { group: false, response: true, file_id: FileId::new(0) },
        &[0x42, 0x00],
    );
    check_read_file_properties(
        ReadFilePropertiesRef { group: true, response: false, file_id: FileId::new(1) },
        &[0x82, 0x01],
    );
    check_read_file_properties(
        ReadFilePropertiesRef { group: true, response: true, file_id: FileId::new(2) },
        &[0xC2, 0x02],
    );
    check_read_file_properties(
        ReadFilePropertiesRef { group: false, response: false, file_id: FileId::new(0xFF) },
        &[0x02, 0xFF],
    );
}

#[test]
fn read_file_properties_consistence() {
    let op = ReadFilePropertiesRef { group: true, response: false, file_id: FileId::new(42) };

    let data = op.encode_to_array();
    let WithByteSize { item: ret, byte_size: size } = ReadFilePropertiesRef::decode(&data).unwrap();
    assert_eq!(size, data.len());
    assert_eq!(ret, op);

    let WithByteSize { item: ret, byte_size: size } = ReadFilePropertiesRef::decode(&data).unwrap();
    assert_eq!(size, data.len());
    assert_eq!(ret.encode_to_array(), data);
}

fn next_varint(original: Varint) -> Varint {
    Varint::new(if original.encoded_size() == 1 {
        (original.u32() == 0) as u32
    } else {
        original.u32() ^ 0x3F
    })
    .unwrap()
}

fn check_read_file_data(op: ReadFileDataRef, data: &[u8]) {
    let mut encoded = [0_u8; 2 + 8];
    let size = op.encode_in(&mut encoded).unwrap();
    assert_eq!(size, data.len());
    assert_eq!(&encoded[..size], data);

    let WithByteSize { item: ret, byte_size: size } = ReadFileDataRef::decode(data).unwrap();
    assert_eq!(size, data.len());
    assert_eq!(ret, op);

    let WithByteSize { item: decoder, byte_size: expected_size } =
        ReadFileDataRef::start_decoding(data).unwrap();
    assert_eq!(expected_size, size);
    assert_eq!(decoder.encoded_size_unchecked(), size);
    assert_eq!(decoder.encoded_size().unwrap(), size);
    assert_eq!(
        op,
        ReadFileDataRef {
            group: decoder.group(),
            response: decoder.response(),
            file_id: decoder.file_id(),
            offset: decoder.offset().complete_decoding().item,
            length: decoder.length().complete_decoding().item,
        }
    );

    let WithByteSize { item: mut decoder_mut, byte_size: expected_size } =
        ReadFileDataRef::start_decoding_mut(&mut encoded).unwrap();
    assert_eq!(expected_size, size);

    assert_eq!(decoder_mut.group(), op.group);
    let new_group = !op.group;
    decoder_mut.set_group(new_group);
    assert_eq!(decoder_mut.group(), new_group);

    assert_eq!(decoder_mut.response(), op.response);
    let new_response = !op.response;
    decoder_mut.set_response(new_response);
    assert_eq!(decoder_mut.response(), new_response);

    assert_eq!(decoder_mut.file_id(), op.file_id);
    let new_file_id = FileId(!op.file_id.u8());
    assert!(new_file_id != op.file_id);
    decoder_mut.set_file_id(new_file_id);
    assert_eq!(decoder_mut.file_id(), new_file_id);

    {
        let original = op.offset;
        let mut decoder_mut = decoder_mut.offset_mut();
        assert_eq!(decoder_mut.complete_decoding().item.u32(), original.u32());
        let new_value = next_varint(original);
        assert!(new_value != original);
        decoder_mut.set_value(&new_value).unwrap();
        assert_eq!(decoder_mut.complete_decoding().item, new_value);
    }

    {
        let original = op.length;
        let mut decoder_mut = decoder_mut.length_mut();
        assert_eq!(decoder_mut.complete_decoding().item.u32(), original.u32());
        let new_value = next_varint(original);
        assert!(new_value != original);
        decoder_mut.set_value(&new_value).unwrap();
        assert_eq!(decoder_mut.complete_decoding().item, new_value);
    }
}

#[test]
fn read_file_data_known() {
    check_read_file_data(
        ReadFileDataRef {
            group: false,
            response: true,
            file_id: FileId::new(0),
            offset: Varint::new(0).unwrap(),
            length: Varint::new(0x3F_FF_FF_FF).unwrap(),
        },
        &[0x41, 0x00, 0x00, 0xFF, 0xFF, 0xFF, 0xFF],
    );
    check_read_file_data(
        ReadFileDataRef {
            group: true,
            response: false,
            file_id: FileId::new(1),
            offset: Varint::new(0x3F_FF).unwrap(),
            length: Varint::new(0x3F_FF_FF).unwrap(),
        },
        &[0x81, 0x01, 0x7F, 0xFF, 0xBF, 0xFF, 0xFF],
    );
    check_read_file_data(
        ReadFileDataRef {
            group: true,
            response: true,
            file_id: FileId::new(0x80),
            offset: Varint::new(0).unwrap(),
            length: Varint::new(0).unwrap(),
        },
        &[0xC1, 0x80, 0x00, 0x00],
    );
    check_read_file_data(
        ReadFileDataRef {
            group: false,
            response: false,
            file_id: FileId::new(0xFF),
            offset: Varint::new(0x3F_FF_FF_FF).unwrap(),
            length: Varint::new(0x3F_FF_FF_FF).unwrap(),
        },
        &[0x01, 0xFF, 0xFF, 0xFF, 0xFF, 0xFF, 0xFF, 0xFF, 0xFF, 0xFF],
    );
}

#[test]
fn read_file_data_consistence() {
    let op = ReadFileDataRef {
        group: true,
        response: false,
        file_id: FileId::new(0x80),
        offset: Varint::new(89).unwrap(),
        length: Varint::new(0xFF_FF_FF).unwrap(),
    };

    let mut encoded = [0_u8; read_file_data::MAX_SIZE];
    let size_encoded = op.encode_in(&mut encoded).unwrap();
    let WithByteSize { item: ret, byte_size: size_decoded } =
        ReadFileDataRef::decode(&encoded).unwrap();
    assert_eq!(size_encoded, size_decoded);
    assert_eq!(ret, op);

    let mut encoded2 = [0_u8; read_file_data::MAX_SIZE];
    let size_encoded2 = op.encode_in(&mut encoded2).unwrap();
    assert_eq!(size_encoded, size_encoded2);
    assert_eq!(encoded2[..size_encoded2], encoded[..size_encoded]);
}

#[test]
fn read_file_data_truncated_is_refused() {
    let data = [0x81, 0x01, 0x7F, 0xFF, 0xBF, 0xFF, 0xFF];
    for i in 0..data.len() {
        assert!(ReadFileDataRef::decode(&data[..i]).is_err());
    }
}

fn check_write_file_data(op: WriteFileDataRef, data: &[u8]) {
    let mut encoded = [0_u8; 2 + 8];
    let size = op.encode_in(&mut encoded).unwrap();
    assert_eq!(size, data.len());
    assert_eq!(&encoded[..size], data);

    let WithByteSize { item: ret, byte_size: size } = WriteFileDataRef::decode(data).unwrap();
    assert_eq!(size, data.len());
    assert_eq!(ret, op);

    let WithByteSize { item: decoder, byte_size: expected_size } =
        WriteFileDataRef::start_decoding(data).unwrap();
    assert_eq!(expected_size, size);
    assert_eq!(decoder.encoded_size_unchecked(), size);
    assert_eq!(decoder.encoded_size().unwrap(), size);
    assert_eq!(op.data.len(), decoder.length().complete_decoding().item.u32() as usize);
    assert_eq!(
        op,
        WriteFileDataRef {
            group: decoder.group(),
            response: decoder.response(),
            file_id: decoder.file_id(),
            offset: decoder.offset().complete_decoding().item,
            data: EncodableDataRef::new_unchecked(decoder.data()),
        }
    );

    let WithByteSize { item: mut decoder_mut, byte_size: expected_size } =
        WriteFileDataRef::start_decoding_mut(&mut encoded).unwrap();
    assert_eq!(expected_size, size);

    assert_eq!(decoder_mut.group(), op.group);
    let new_group = !op.group;
    decoder_mut.set_group(new_group);
    assert_eq!(decoder_mut.group(), new_group);

    assert_eq!(decoder_mut.response(), op.response);
    let new_response = !op.response;
    decoder_mut.set_response(new_response);
    assert_eq!(decoder_mut.response(), new_response);

    assert_eq!(decoder_mut.file_id(), op.file_id);
    let new_file_id = FileId(!op.file_id.u8());
    decoder_mut.set_file_id(new_file_id);
    assert_eq!(decoder_mut.file_id(), new_file_id);

    {
        let original = op.offset;
        let mut offset = decoder_mut.offset_mut();
        assert_eq!(offset.complete_decoding().item.u32(), original.u32());
        let new_value = next_varint(original);
        assert!(new_value != original);
        offset.set_value(&new_value).unwrap();
        assert_eq!(offset.complete_decoding().item, new_value);
    }

    if !op.data.is_empty() {
        let original = &op.data;
        let mut new_data = vec![0_u8; original.len()];
        let data_mut = decoder_mut.data_mut();
        for (i, b) in original.data().iter().enumerate() {
            new_data[i] = !b;
            data_mut[i] = new_data[i];
        }
        assert!(&new_data[..] != original.data());
        assert_eq!(decoder_mut.data(), &new_data[..]);
    }
}

#[test]
fn write_file_data_known() {
    check_write_file_data(
        WriteFileDataRef {
            group: false,
            response: true,
            file_id: FileId::new(0),
            offset: Varint::new(0).unwrap(),
            data: EncodableDataRef::new(&[0, 1, 2]).unwrap(),
        },
        &[0x44, 0x00, 0x00, 0x03, 0x00, 0x01, 0x02],
    );
    check_write_file_data(
        WriteFileDataRef {
            group: true,
            response: false,
            file_id: FileId::new(1),
            offset: Varint::new(0x3F_FF).unwrap(),
            data: EncodableDataRef::new(&[]).unwrap(),
        },
        &[0x84, 0x01, 0x7F, 0xFF, 0x00],
    );
    check_write_file_data(
        WriteFileDataRef {
            group: true,
            response: true,
            file_id: FileId::new(0x80),
            offset: Varint::new(0).unwrap(),
            data: EncodableDataRef::new(&[0x44]).unwrap(),
        },
        &[0xC4, 0x80, 0x00, 0x01, 0x44],
    );
    check_write_file_data(
        WriteFileDataRef {
            group: false,
            response: false,
            file_id: FileId::new(0xFF),
            offset: Varint::new(0x3F_FF_FF_FF).unwrap(),
            data: EncodableDataRef::new(&[0xFF, 0xFE]).unwrap(),
        },
        &[0x04, 0xFF, 0xFF, 0xFF, 0xFF, 0xFF, 0x02, 0xFF, 0xFE],
    );
}

#[test]
fn write_file_data_consistence() {
    const TOT_SIZE: usize = 2 + 2 + 3;
    let op = WriteFileDataRef {
        group: true,
        response: false,
        file_id: FileId::new(0x80),
        offset: Varint::new(89).unwrap(),
        data: EncodableDataRef::new(&[0xFF, 0xFE]).unwrap(),
    };

    let mut encoded = [0_u8; TOT_SIZE];
    let size_encoded = op.encode_in(&mut encoded).unwrap();
    let WithByteSize { item: ret, byte_size: size_decoded } =
        WriteFileDataRef::decode(&encoded).unwrap();
    assert_eq!(size_encoded, size_decoded);
    assert_eq!(ret, op);

    let mut encoded2 = [0_u8; TOT_SIZE];
    let size_encoded2 = op.encode_in(&mut encoded2).unwrap();
    assert_eq!(size_encoded, size_encoded2);
    assert_eq!(encoded2[..size_encoded2], encoded[..size_encoded]);
}

#[test]
fn write_file_data_payload_cut_is_refused() {
    assert!(WriteFileDataRef::decode(&[0x44, 0x00, 0x00, 0x03, 0x00, 0x01]).is_err());
    let mut small = [0u8; 6];
    let op = WriteFileDataRef::new(
        FileId::new(0),
        Varint::new(0).unwrap(),
        EncodableDataRef::new(&[0, 1, 2]).unwrap(),
    );
    assert_eq!(op.encode_in(&mut small), Err(7));
}
