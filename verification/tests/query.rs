use dash7_alp::decodable::WithByteSize;
use dash7_alp::define::{EncodableDataRef, FileId, MaskedRangeRef, MaskedValueRef};
use dash7_alp::v1_2::action::query::action_query::{ActionQueryRef, DecodedActionQueryRef};
use dash7_alp::v1_2::action::query::comparison_with_range::{ComparisonWithRangeRef, Range};
use dash7_alp::v1_2::action::query::comparison_with_value::ComparisonWithValueRef;
use dash7_alp::v1_2::action::query::define::{
    QueryCode, QueryComparisonType, QueryRangeComparisonType,
};
use dash7_alp::v1_2::action::query::{DecodedQueryRef, QueryRef, ValidEncodedQueryMut};
use dash7_alp::v1_2::error::{
    QueryRangeSetError, QueryRangeSetLooselyError, QueryRangeSizeError, QuerySizeError,
    UnsupportedQueryCode,
};
use dash7_alp::varint::Varint;

fn check_value(op: ComparisonWithValueRef, data: &[u8]) {
    let mut encoded = [0_u8; 64];
    let size = op.encode_in(&mut encoded).unwrap();
    assert_eq!(size, data.len());
    assert_eq!(&encoded[..size], data);

    let WithByteSize { item: ret, byte_size: size } = ComparisonWithValueRef::decode(data).unwrap();
    assert_eq!(size, data.len());
    assert_eq!(ret, op);

    let WithByteSize { item: decoder, byte_size: expected_size } =
        ComparisonWithValueRef::start_decoding(data).unwrap();
    assert_eq!(ret.compare_value.mask().is_some(), decoder.mask_flag());
    assert_eq!(
        ret.compare_value.len(),
        decoder.compare_length().complete_decoding().item.u32() as usize
    );
    assert_eq!(ret.compare_value.mask(), decoder.mask());
    assert_eq!(ret.compare_value.value().data(), decoder.value().data());
    assert_eq!(expected_size, size);
    assert_eq!(decoder.size_unchecked(), size);
    assert_eq!(decoder.encoded_size().unwrap(), size);
    assert_eq!(
        op,
        ComparisonWithValueRef {
            signed_data: decoder.signed_data(),
            comparison_type: decoder.comparison_type(),
            compare_value: decoder.compare_value(),
            file_id: decoder.file_id(),
            offset: decoder.offset().complete_decoding().item,
        }
    );
}

#[test]
fn comparison_with_value_known() {
    check_value(
        ComparisonWithValueRef {
            signed_data: true,
            comparison_type: QueryComparisonType::Equal,
            compare_value: MaskedValueRef::new(
                EncodableDataRef::new(&[0x00, 0x01, 0x02]).unwrap(),
                None,
            )
            .unwrap(),
            file_id: FileId::new(0x42),
            offset: Varint::new(0x40_00).unwrap(),
        },
        &[0x40 | 0x08 | 0x01, 0x03, 0x00, 0x01, 0x02, 0x42, 0x80, 0x40, 0x00],
    );
    check_value(
        ComparisonWithValueRef {
            signed_data: false,
            comparison_type: QueryComparisonType::GreaterThan,
            compare_value: MaskedValueRef::new(
                EncodableDataRef::new(&[0x0A, 0x0B, 0x0C, 0x0D]).unwrap(),
                Some(&[0x00, 0xFF, 0x0F, 0xFF]),
            )
            .unwrap(),
            file_id: FileId::new(0x88),
            offset: Varint::new(0xFF).unwrap(),
        },
        &[
            0x40 | 0x10 | 0x04,
            0x04,
            0x00,
            0xFF,
            0x0F,
            0xFF,
            0x0A,
            0x0B,
            0x0C,
            0x0D,
            0x88,
            0x40,
            0xFF,
        ],
    );
}

#[test]
fn comparison_with_value_consistence() {
    const TOT_SIZE: usize = 1 + 1 + 3 + 3 + 1 + 3;
    let op = ComparisonWithValueRef {
        signed_data: true,
        comparison_type: QueryComparisonType::GreaterThanOrEqual,
        compare_value: MaskedValueRef::new(
            EncodableDataRef::new(&[0x00, 0x43, 0x02]).unwrap(),
            Some(&[0x44, 0x88, 0x11]),
        )
        .unwrap(),
        file_id: FileId::new(0xFF),
        offset: Varint::new(0x3F_FF_00).unwrap(),
    };

    let mut encoded = [0_u8; TOT_SIZE];
    let size_encoded = op.encode_in(&mut encoded).unwrap();
    let WithByteSize { item: ret, byte_size: size_decoded } =
        ComparisonWithValueRef::decode(&encoded).unwrap();
    assert_eq!(size_encoded, size_decoded);
    assert_eq!(ret, op);

    let mut encoded2 = [0_u8; TOT_SIZE];
    let size_encoded2 = op.encode_in(&mut encoded2).unwrap();
    assert_eq!(size_encoded, size_encoded2);
    assert_eq!(encoded2[..size_encoded2], encoded[..size_encoded]);
}

fn check_range(op: ComparisonWithRangeRef, data: &[u8]) {
    let mut encoded = [0_u8; 64];
    let size = op.encode_in(&mut encoded).unwrap();
    assert_eq!(size, data.len());
    assert_eq!(&encoded[..size], data);

    let WithByteSize { item: ret, byte_size: size } = ComparisonWithRangeRef::decode(data).unwrap();
    assert_eq!(size, data.len());
    assert_eq!(ret, op);

    let WithByteSize { item: decoder, byte_size: expected_size } =
        ComparisonWithRangeRef::start_decoding(data).unwrap();
    assert_eq!(ret.range.bitmap().is_some(), decoder.mask_flag());
    assert_eq!(ret.range.boundaries_size(), decoder.compare_length().complete_decoding().item.u32());
    assert_eq!(
        Range {
            compare_length: ret.range.compare_length(),
            start: ret.range.start(),
            end: ret.range.end()
        },
        decoder.range_boundaries()
    );
    assert_eq!(ret.range, decoder.range().unwrap());
    assert_eq!(expected_size, size);
    assert_eq!(decoder.encoded_size().unwrap(), size);
    assert_eq!(
        op,
        ComparisonWithRangeRef {
            signed_data: decoder.signed_data(),
            comparison_type: decoder.comparison_type(),
            range: decoder.range().unwrap(),
            file_id: decoder.range_with_file_offset().ok().unwrap().file_offset.file_id(),
            offset: decoder
                .range_with_file_offset()
                .ok()
                .unwrap()
                .file_offset
                .offset()
                .complete_decoding()
                .item,
        }
    );
}

#[test]
fn comparison_with_range_known() {
    check_range(
        ComparisonWithRangeRef {
            signed_data: true,
            comparison_type: QueryRangeComparisonType::InRange,
            range: MaskedRangeRef::new(1, 0, 5, Some(&[0x11])).unwrap(),
            file_id: FileId::new(0x42),
            offset: Varint::new(0x40_00).unwrap(),
        },
        &[0x80 | 0x18 | 0x01, 0x01, 0x00, 0x05, 0x11, 0x42, 0x80, 0x40, 0x00],
    );
    check_range(
        ComparisonWithRangeRef {
            signed_data: false,
            comparison_type: QueryRangeComparisonType::NotInRange,
            range: MaskedRangeRef::new(1, 50, 66, Some(&[0x33, 0x22])).unwrap(),
            file_id: FileId::new(0x88),
            offset: Varint::new(0xFF).unwrap(),
        },
        &[0x80 | 0x10, 0x01, 50, 66, 0x33, 0x22, 0x88, 0x40, 0xFF],
    );
}

#[test]
fn comparison_with_range_consistence() {
    const TOT_SIZE: usize = 1 + 1 + 1 + 1 + 4 + 1 + 3;
    let op = ComparisonWithRangeRef {
        signed_data: true,
        comparison_type: QueryRangeComparisonType::InRange,
        range: MaskedRangeRef::new(1, 0, 32, Some(&[0x33, 0x22, 0x33, 0x44])).unwrap(),
        file_id: FileId::new(0xFF),
        offset: Varint::new(0x3F_FF_00).unwrap(),
    };

    let mut encoded = [0_u8; TOT_SIZE];
    let size_encoded = op.encode_in(&mut encoded).unwrap();
    let WithByteSize { item: ret, byte_size: size_decoded } =
        ComparisonWithRangeRef::decode(&encoded).unwrap();
    assert_eq!(size_encoded, size_decoded);
    assert_eq!(ret, op);

    let mut encoded2 = [0_u8; TOT_SIZE];
    let size_encoded2 = op.encode_in(&mut encoded2).unwrap();
    assert_eq!(size_encoded, size_encoded2);
    assert_eq!(encoded2[..size_encoded2], encoded[..size_encoded]);
}

#[test]
fn comparison_with_range_without_bitmap() {
    let op = ComparisonWithRangeRef {
        signed_data: false,
        comparison_type: QueryRangeComparisonType::InRange,
        range: MaskedRangeRef::new(2, 0x0102, 0x0304, None).unwrap(),
        file_id: FileId::new(7),
        offset: Varint::new(3).unwrap(),
    };
    let mut out = [0u8; 16];
    let size = op.encode_in(&mut out).unwrap();
    assert_eq!(&out[..size], &[0x81, 0x02, 0x02, 0x01, 0x04, 0x03, 0x07, 0x03]);
    let back = ComparisonWithRangeRef::decode(&out[..size]).unwrap();
    assert_eq!(back.byte_size, size);
    assert_eq!(back.item, op);
}

#[test]
fn comparison_with_range_bad_encoded_range() {
    // start 5 > end 2, with a bitmap: refused when measured.
    let data = [0x90, 0x01, 0x05, 0x02, 0x00, 0x42, 0x00];
    assert_eq!(
        ComparisonWithRangeRef::start_decoding(&data).err(),
        Some(QueryRangeSizeError::BadEncodedRange)
    );
    // Without a bitmap the size is known, but decoding fails.
    let data = [0x80, 0x01, 0x05, 0x02, 0x42, 0x00];
    assert!(ComparisonWithRangeRef::start_decoding(&data).is_ok());
    assert_eq!(
        ComparisonWithRangeRef::decode(&data).err(),
        Some(QueryRangeSizeError::BadEncodedRange)
    );
    assert_eq!(
        ComparisonWithRangeRef::decode(&data[..3]).err(),
        Some(QueryRangeSizeError::MissingBytes)
    );
}

#[test]
fn comparison_with_range_set_boundaries() {
    let mut data = [0x80 | 0x10, 0x01, 50, 66, 0x33, 0x22, 0x88, 0x40, 0xFF];
    let mut decoder = ComparisonWithRangeRef::start_decoding_mut(&mut data).unwrap().item;
    assert_eq!(
        decoder.set_range_boundaries(&Range { compare_length: 1, start: 10, end: 2 }),
        Err(QueryRangeSetError::BadGivenRange)
    );
    assert_eq!(
        decoder.set_range_boundaries(&Range { compare_length: 2, start: 10, end: 26 }),
        Err(QueryRangeSetError::CompareLengthMismatch)
    );
    assert_eq!(
        decoder.set_range_boundaries(&Range { compare_length: 1, start: 10, end: 20 }),
        Err(QueryRangeSetError::BitmapBitSizeMismatch)
    );
    assert_eq!(
        decoder.set_range_boundaries(&Range { compare_length: 1, start: 250, end: 266 }),
        Err(QueryRangeSetError::CompareLengthTooSmall)
    );
    assert_eq!(decoder.set_range_boundaries(&Range { compare_length: 1, start: 10, end: 26 }), Ok(()));
    assert_eq!(decoder.range_boundaries(), Range { compare_length: 1, start: 10, end: 26 });
    assert_eq!(
        decoder.set_range_boundaries_loosely(&Range { compare_length: 1, start: 0, end: 100 }),
        Err(QueryRangeSetLooselyError::ByteSizeMismatch)
    );
    assert_eq!(
        decoder.set_range_boundaries_loosely(&Range { compare_length: 1, start: 0, end: 9 }),
        Ok(())
    );
    let decoded = decoder.complete_decoding().unwrap().item;
    assert_eq!(decoded.range.start(), 0);
    assert_eq!(decoded.range.end(), 9);
    assert_eq!(decoded.range.bitmap(), Some(&[0x33u8, 0x22][..]));
    assert_eq!(decoded.file_id, FileId::new(0x88));
}

fn test_value_query() -> QueryRef<'static> {
    QueryRef::ComparisonWithValue(ComparisonWithValueRef {
        signed_data: false,
        comparison_type: QueryComparisonType::GreaterThan,
        compare_value: MaskedValueRef::new(
            EncodableDataRef::new(&[0x0A, 0x0B, 0x0C, 0x0D]).unwrap(),
            Some(&[0x00, 0xFF, 0x0F, 0xFF]),
        )
        .unwrap(),
        file_id: FileId::new(0x88),
        offset: Varint::new(0xFF).unwrap(),
    })
}

fn check_query(op: QueryRef, data: &[u8]) {
    let mut encoded = [0_u8; 64];
    let size = op.encode_in(&mut encoded).unwrap();
    assert_eq!(size, data.len());
    assert_eq!(&encoded[..size], data);

    let WithByteSize { item: ret, byte_size: size } = DecodedQueryRef::decode(data).unwrap();
    assert_eq!(size, data.len());
    assert_eq!(ret.as_encodable(), op);

    let WithByteSize { item: decoder, byte_size: expected_size } =
        DecodedQueryRef::start_decoding(data).unwrap();
    assert_eq!(expected_size, size);
    assert_eq!(decoder.encoded_size().unwrap(), size);
    assert_eq!(decoder.query_code().unwrap(), op.query_code());

    let WithByteSize { item: mut decoder_mut, byte_size: expected_size } =
        DecodedQueryRef::start_decoding_mut(&mut encoded).unwrap();
    assert_eq!(expected_size, size);

    match decoder_mut.operand_mut().unwrap() {
        ValidEncodedQueryMut::ComparisonWithValue(mut decoder_mut) => {
            let original = decoder_mut.signed_data();
            let new_signed_data = !original;
            decoder_mut.set_signed_data(new_signed_data);
            assert_eq!(decoder_mut.signed_data(), new_signed_data);
        }
        ValidEncodedQueryMut::ComparisonWithRange(mut decoder_mut) => {
            let original = decoder_mut.signed_data();
            let new_signed_data = !original;
            decoder_mut.set_signed_data(new_signed_data);
            assert_eq!(decoder_mut.signed_data(), new_signed_data);
        }
    }

    {
        let original = decoder_mut.query_code().unwrap();
        let target = if let QueryCode::ComparisonWithValue = original {
            QueryCode::ComparisonWithRange
        } else {
            QueryCode::ComparisonWithValue
        };
        assert!(target != original);
        decoder_mut.set_query_code(target);
        assert_eq!(decoder_mut.query_code().unwrap(), target);
    }

    for i in 1..data.len() {
        assert_eq!(DecodedQueryRef::start_decoding(&data[..i]), Err(QuerySizeError::MissingBytes));
    }

    for i in 0..data.len() {
        let mut array = vec![0; i];
        let ret = op.encode_in(&mut array);
        let missing = ret.unwrap_err();
        assert_eq!(missing, data.len());
    }
}

#[test]
fn mod_known() {
    check_query(
        test_value_query(),
        &[
            0x40 | 0x10 | 0x04,
            0x04,
            0x00,
            0xFF,
            0x0F,
            0xFF,
            0x0A,
            0x0B,
            0x0C,
            0x0D,
            0x88,
            0x40,
            0xFF,
        ],
    );
    check_query(
        QueryRef::ComparisonWithRange(ComparisonWithRangeRef {
            signed_data: false,
            comparison_type: QueryRangeComparisonType::NotInRange,
            range: MaskedRangeRef::new(Varint::new(1).unwrap().usize(), 50, 66, Some(&[0x33, 0x22]))
                .unwrap(),
            file_id: FileId::new(0x88),
            offset: Varint::new(0xFF).unwrap(),
        }),
        &[0x80 | 0x10, 0x01, 50, 66, 0x33, 0x22, 0x88, 0x40, 0xFF],
    );
}

#[test]
fn errors() {
    let data = [0xC0, 0x11];
    assert_eq!(
        DecodedQueryRef::start_decoding(&data),
        Err(QuerySizeError::UnsupportedQueryCode(UnsupportedQueryCode {
            code: 6,
            remaining_data: &[0x11],
        }))
    );
}

#[test]
fn mod_consistence() {
    const TOT_SIZE: usize = 1 + 1 + 3 + 3 + 1 + 3;
    let op = QueryRef::ComparisonWithValue(ComparisonWithValueRef {
        signed_data: true,
        comparison_type: QueryComparisonType::GreaterThanOrEqual,
        compare_value: MaskedValueRef::new(
            EncodableDataRef::new(&[0x00, 0x43, 0x02]).unwrap(),
            Some(&[0x44, 0x88, 0x11]),
        )
        .unwrap(),
        file_id: FileId::new(0xFF),
        offset: Varint::new(0x3F_FF_00).unwrap(),
    });

    let mut encoded = [0_u8; TOT_SIZE];
    let size_encoded = op.encode_in(&mut encoded).unwrap();
    let WithByteSize { item: ret, byte_size: size_decoded } =
        DecodedQueryRef::decode(&encoded).unwrap();
    assert_eq!(size_encoded, size_decoded);
    assert_eq!(ret.as_encodable(), op);

    let mut encoded2 = [0_u8; TOT_SIZE];
    let size_encoded2 = op.encode_in(&mut encoded2).unwrap();
    assert_eq!(size_encoded, size_encoded2);
    assert_eq!(encoded2[..size_encoded2], encoded[..size_encoded]);
}

#[test]
fn query_empty_input_is_missing_bytes() {
    assert_eq!(DecodedQueryRef::start_decoding(&[]), Err(QuerySizeError::MissingBytes));
}

fn check_action_query(op: ActionQueryRef, data: &[u8]) {
    let mut encoded = [0_u8; 2 + 8];
    let size = op.encode_in(&mut encoded).unwrap();
    assert_eq!(size, data.len());
    assert_eq!(&encoded[..size], data);

    let WithByteSize { item: ret, byte_size: size } = DecodedActionQueryRef::decode(data).unwrap();
    assert_eq!(size, data.len());
    assert_eq!(ret.as_encodable(), op);

    let WithByteSize { item: decoder, byte_size: expected_size } =
        DecodedActionQueryRef::start_decoding(data).unwrap();
    assert_eq!(expected_size, size);
    assert_eq!(
        op,
        ActionQueryRef {
            group: decoder.group(),
            response: decoder.response(),
            query: decoder.query().complete_decoding().unwrap().item.as_encodable(),
        }
    );
}

fn simple_value_query() -> QueryRef<'static> {
    QueryRef::ComparisonWithValue(ComparisonWithValueRef {
        signed_data: true,
        comparison_type: QueryComparisonType::Equal,
        compare_value: MaskedValueRef::new(EncodableDataRef::new(&[0x00, 0x01, 0x02]).unwrap(), None)
            .unwrap(),
        file_id: FileId::new(0x42),
        offset: Varint::new(0x40_00).unwrap(),
    })
}

#[test]
fn action_query_known() {
    check_action_query(
        ActionQueryRef { group: false, response: true, query: simple_value_query() },
        &[0x40 | 0x08, 0x40 | 0x08 | 0x01, 0x03, 0x00, 0x01, 0x02, 0x42, 0x80, 0x40, 0x00],
    );
}

#[test]
fn action_query_consistence() {
    const TOT_SIZE: usize = 10;
    let op = ActionQueryRef { group: true, response: false, query: simple_value_query() };

    let mut encoded = [0_u8; TOT_SIZE];
    let size_encoded = op.encode_in(&mut encoded).unwrap();
    let WithByteSize { item: ret, byte_size: size_decoded } =
        DecodedActionQueryRef::decode(&encoded).unwrap();
    assert_eq!(size_encoded, size_decoded);
    assert_eq!(ret.as_encodable(), op);

    let mut encoded2 = [0_u8; TOT_SIZE];
    let size_encoded2 = op.encode_in(&mut encoded2).unwrap();
    assert_eq!(size_encoded, size_encoded2);
    assert_eq!(encoded2[..size_encoded2], encoded[..size_encoded]);
}

#[test]
fn action_query_flags_in_place() {
    let mut data = [0x40 | 0x08, 0x40 | 0x08 | 0x01, 0x03, 0x00, 0x01, 0x02, 0x42, 0x80, 0x40, 0x00];
    let mut decoder = DecodedActionQueryRef::start_decoding_mut(&mut data).unwrap().item;
    decoder.set_group(true);
    decoder.set_response(false);
    assert!(decoder.group());
    assert!(!decoder.response());
    decoder.set_group(false);
    assert!(!decoder.group());
    assert_eq!(data[0], 0x08);
}
