use dash7_alp::decodable::WithByteSize;
use dash7_alp::v1_2::action::status::interface::{
    EncodedStatusInterfaceKind, EncodedStatusInterfaceKindMut, StatusInterfaceRef,
};
use dash7_alp::v1_2::action::status::{StatusRef, ValidEncodedStatusMut};
use dash7_alp::v1_2::dash7::addressee::{
    AccessClass, AddresseeIdentifierRef, AddresseeIdentifierType, AddresseeRef,
    AddresseeSetIdentifierError, AddresseeSetNlsMethodError, NlsMethod,
};
use dash7_alp::v1_2::dash7::interface_status::{
    AddresseeWithNlsStateError, AddresseeWithNlsStateRef, Dash7InterfaceStatusRef,
};
use dash7_alp::v1_2::error::{StatusSizeError, UnsupportedExtension};

const UID: [u8; 8] = [0x00, 0x11, 0x22, 0x33, 0x44, 0x55, 0x66, 0x77];

fn check_addressee(op: AddresseeRef, data: &[u8]) {
    let mut encoded = [0_u8; 64];
    let size = op.encode_in(&mut encoded).unwrap();
    assert_eq!(size, data.len());
    assert_eq!(&encoded[..size], data);

    let WithByteSize { item: ret, byte_size: size } = AddresseeRef::decode(data).unwrap();
    assert_eq!(size, data.len());
    assert_eq!(ret, op);

    let WithByteSize { item: decoder, byte_size: expected_size } =
        AddresseeRef::start_decoding(data).unwrap();
    assert_eq!(ret.identifier.id_type(), decoder.id_type());
    assert_eq!(expected_size, size);
    assert_eq!(decoder.encoded_size_unchecked(), size);
    assert_eq!(decoder.encoded_size().unwrap(), size);
    assert_eq!(
        op,
        AddresseeRef {
            nls_method: decoder.nls_method(),
            access_class: decoder.access_class(),
            identifier: decoder.identifier(),
        }
    );
}

#[test]
fn addressee_known() {
    check_addressee(
        AddresseeRef {
            nls_method: NlsMethod::NoSecurity,
            access_class: AccessClass(0x01),
            identifier: AddresseeIdentifierRef::Nbid(4),
        },
        &[0x00, 0x01, 0x04],
    );
    check_addressee(
        AddresseeRef {
            nls_method: NlsMethod::AesCtr,
            access_class: AccessClass(0x21),
            identifier: AddresseeIdentifierRef::Noid,
        },
        &[0x11, 0x21],
    );
    check_addressee(
        AddresseeRef {
            nls_method: NlsMethod::AesCcm64,
            access_class: AccessClass(0xE1),
            identifier: AddresseeIdentifierRef::Uid(UID),
        },
        &[0x26, 0xE1, 0x00, 0x11, 0x22, 0x33, 0x44, 0x55, 0x66, 0x77],
    );
    check_addressee(
        AddresseeRef {
            nls_method: NlsMethod::AesCbcMac64,
            access_class: AccessClass(0x71),
            identifier: AddresseeIdentifierRef::Vid([0xCA, 0xFE]),
        },
        &[0x33, 0x71, 0xCA, 0xFE],
    );
}

#[test]
fn addressee_consistence() {
    const TOT_SIZE: usize = 2 + 8;
    let op = AddresseeRef {
        nls_method: NlsMethod::AesCcm64,
        access_class: AccessClass(0xE1),
        identifier: AddresseeIdentifierRef::Uid(UID),
    };

    let mut encoded = [0_u8; TOT_SIZE];
    let size_encoded = op.encode_in(&mut encoded).unwrap();
    let WithByteSize { item: ret, byte_size: size_decoded } = AddresseeRef::decode(&encoded).unwrap();
    assert_eq!(size_encoded, size_decoded);
    assert_eq!(ret, op);

    let mut encoded2 = [0_u8; TOT_SIZE];
    let size_encoded2 = op.encode_in(&mut encoded2).unwrap();
    assert_eq!(size_encoded, size_encoded2);
    assert_eq!(encoded2[..size_encoded2], encoded[..size_encoded]);
}

#[test]
fn addressee_access_class_fields() {
    let ac = AccessClass(0xE1);
    assert_eq!(ac.u8(), 0xE1);
    assert_eq!(ac.specifier(), 0x0E);
    assert_eq!(ac.mask(), 0x01);
}

#[test]
fn addressee_in_place_changes() {
    let mut data = [0x33, 0x71, 0xCA, 0xFE];
    let mut decoder = AddresseeRef::start_decoding_mut(&mut data).unwrap().item;
    assert_eq!(
        decoder.set_nls_method(NlsMethod::NoSecurity),
        Err(AddresseeSetNlsMethodError::NlsStateMismatch)
    );
    assert_eq!(decoder.set_nls_method(NlsMethod::AesCcm32), Ok(()));
    assert_eq!(decoder.nls_method(), NlsMethod::AesCcm32);
    assert_eq!(
        decoder.set_identifier(AddresseeIdentifierRef::Nbid(3)),
        Err(AddresseeSetIdentifierError::IdMismatch)
    );
    assert_eq!(decoder.set_identifier(AddresseeIdentifierRef::Vid([0x12, 0x34])), Ok(()));
    decoder.set_access_class(AccessClass(0x42));
    assert_eq!(decoder.id_type(), AddresseeIdentifierType::Vid);
    assert_eq!(decoder.access_class(), AccessClass(0x42));
    assert_eq!(data, [0x37, 0x42, 0x12, 0x34]);
}

#[test]
fn addressee_with_nls_state_consistency() {
    let secured = AddresseeRef {
        nls_method: NlsMethod::AesCcm64,
        access_class: AccessClass(0xE1),
        identifier: AddresseeIdentifierRef::Noid,
    };
    assert_eq!(
        AddresseeWithNlsStateRef::new(secured, None),
        Err(AddresseeWithNlsStateError::NlsMethodMismatchNlsStatePresence)
    );
    let a = AddresseeWithNlsStateRef::new(secured, Some([1, 2, 3, 4, 5])).unwrap();
    assert_eq!(a.encoded_size(), 2 + 5);
    assert_eq!(*a.nls_state(), Some([1, 2, 3, 4, 5]));
    assert_eq!(*a.addressee(), secured);
}

fn status(nls_method: NlsMethod, nls_state: Option<[u8; 5]>) -> Dash7InterfaceStatusRef {
    Dash7InterfaceStatusRef {
        ch_header: 0x1,
        ch_idx: 0x2,
        rxlev: 0x3,
        lb: 0x4,
        snr: 0x5,
        status: 0x6,
        token: 0x7,
        seq: 0x8,
        resp_to: 0x9,
        addressee_with_nls_state: AddresseeWithNlsStateRef::new(
            AddresseeRef {
                nls_method,
                access_class: AccessClass(0xE1),
                identifier: AddresseeIdentifierRef::Uid(UID),
            },
            nls_state,
        )
        .unwrap(),
    }
}

fn check_interface_status(op: Dash7InterfaceStatusRef, data: &[u8]) {
    let mut encoded = [0_u8; 64];
    let size = op.encode_in(&mut encoded).unwrap();
    assert_eq!(size, data.len());
    assert_eq!(&encoded[..size], data);

    let WithByteSize { item: ret, byte_size: size } = Dash7InterfaceStatusRef::decode(data).unwrap();
    assert_eq!(size, data.len());
    assert_eq!(ret, op);

    let WithByteSize { item: decoder, byte_size: expected_size } =
        Dash7InterfaceStatusRef::start_decoding(data).unwrap();
    assert_eq!(
        ret.addressee_with_nls_state.addressee(),
        &decoder.addressee().complete_decoding().item
    );
    assert_eq!(expected_size, size);
    assert_eq!(decoder.encoded_size_unchecked(), size);
    assert_eq!(decoder.encoded_size().unwrap(), size);
    assert_eq!(
        op,
        Dash7InterfaceStatusRef {
            ch_header: decoder.ch_header(),
            ch_idx: decoder.ch_idx(),
            rxlev: decoder.rxlev(),
            lb: decoder.lb(),
            snr: decoder.snr(),
            status: decoder.status(),
            token: decoder.token(),
            seq: decoder.seq(),
            resp_to: decoder.resp_to(),
            addressee_with_nls_state: decoder.addressee_with_nls_state().complete_decoding().item,
        }
    );
}

#[test]
fn interface_status_known() {
    check_interface_status(
        status(NlsMethod::AesCcm64, Some([0xA, 0xB, 0xC, 0xD, 0xE])),
        &[
            0x01, 0x02, 0x00, 0x03, 0x04, 0x05, 0x06, 0x07, 0x08, 0x09, 0x26, 0xE1, 0x00, 0x11,
            0x22, 0x33, 0x44, 0x55, 0x66, 0x77, 0xA, 0xB, 0xC, 0xD, 0xE,
        ],
    );
    check_interface_status(
        status(NlsMethod::NoSecurity, None),
        &[
            0x01, 0x02, 0x00, 0x03, 0x04, 0x05, 0x06, 0x07, 0x08, 0x09, 0x20, 0xE1, 0x00, 0x11,
            0x22, 0x33, 0x44, 0x55, 0x66, 0x77,
        ],
    );
}

#[test]
fn interface_status_consistence() {
    const TOT_SIZE: usize = 10 + 10 + 5;
    let op = status(NlsMethod::AesCcm64, Some([0xA, 0xB, 0xC, 0xD, 0xE]));

    let mut encoded = [0_u8; TOT_SIZE];
    let size_encoded = op.encode_in(&mut encoded).unwrap();
    let WithByteSize { item: ret, byte_size: size_decoded } =
        Dash7InterfaceStatusRef::decode(&encoded).unwrap();
    assert_eq!(size_encoded, size_decoded);
    assert_eq!(ret, op);

    let mut encoded2 = [0_u8; TOT_SIZE];
    let size_encoded2 = op.encode_in(&mut encoded2).unwrap();
    assert_eq!(size_encoded, size_encoded2);
    assert_eq!(encoded2[..size_encoded2], encoded[..size_encoded]);
}

#[test]
fn interface_status_set_ch_idx() {
    let mut data = [
        0x01, 0x02, 0x00, 0x03, 0x04, 0x05, 0x06, 0x07, 0x08, 0x09, 0x20, 0xE1, 0x00, 0x11, 0x22,
        0x33, 0x44, 0x55, 0x66, 0x77,
    ];
    let mut decoder = Dash7InterfaceStatusRef::start_decoding_mut(&mut data).unwrap().item;
    decoder.set_ch_idx(0x1234);
    assert_eq!(decoder.ch_idx(), 0x1234);
    assert_eq!(data[1..3], [0x34, 0x12]);
}

fn check_status_interface(op: StatusInterfaceRef, data: &[u8]) {
    let mut encoded = [0_u8; 64];
    let size = op.encode_in(&mut encoded).unwrap();
    assert_eq!(size, data.len());
    assert_eq!(&encoded[..size], data);

    let WithByteSize { item: ret, byte_size: size } = StatusInterfaceRef::decode(data).unwrap();
    assert_eq!(size, data.len());
    assert_eq!(ret, op);

    let WithByteSize { item: decoder, byte_size: expected_size } =
        StatusInterfaceRef::start_decoding(data).unwrap();
    assert_eq!(expected_size, size);
    assert_eq!(decoder.encoded_size().unwrap(), size);
    assert_eq!(
        op,
        match decoder.status().unwrap() {
            EncodedStatusInterfaceKind::Host => StatusInterfaceRef::Host,
            EncodedStatusInterfaceKind::Dash7(status) =>
                StatusInterfaceRef::Dash7(status.complete_decoding().item),
        },
    );
}

const D7_STATUS_BYTES: [u8; 22] = [
    0xD7, 0x14, 0x01, 0x02, 0x00, 0x03, 0x04, 0x05, 0x06, 0x07, 0x08, 0x09, 0x20, 0xE1, 0x00, 0x11,
    0x22, 0x33, 0x44, 0x55, 0x66, 0x77,
];

#[test]
fn status_interface_known() {
    check_status_interface(StatusInterfaceRef::Host, &[0x00, 0x00]);
    check_status_interface(
        StatusInterfaceRef::Dash7(status(NlsMethod::NoSecurity, None)),
        &D7_STATUS_BYTES,
    );
}

#[test]
fn status_interface_consistence() {
    const TOT_SIZE: usize = 22;
    let op = StatusInterfaceRef::Dash7(status(NlsMethod::NoSecurity, None));

    let mut encoded = [0_u8; TOT_SIZE];
    let size_encoded = op.encode_in(&mut encoded).unwrap();
    let WithByteSize { item: ret, byte_size: size_decoded } =
        StatusInterfaceRef::decode(&encoded).unwrap();
    assert_eq!(size_encoded, size_decoded);
    assert_eq!(ret, op);

    let mut encoded2 = [0_u8; TOT_SIZE];
    let size_encoded2 = op.encode_in(&mut encoded2).unwrap();
    assert_eq!(size_encoded, size_encoded2);
    assert_eq!(encoded2[..size_encoded2], encoded[..size_encoded]);
}

fn check_status(op: StatusRef, data: &[u8]) {
    let mut encoded = [0_u8; 64];
    let size = op.encode_in(&mut encoded).unwrap();
    assert_eq!(size, data.len());
    assert_eq!(&encoded[..size], data);

    let WithByteSize { item: ret, byte_size: size } = StatusRef::decode(data).unwrap();
    assert_eq!(size, data.len());
    assert_eq!(ret, op);

    let WithByteSize { item: mut decoder_mut, byte_size: expected_size } =
        StatusRef::start_decoding_mut(&mut encoded).unwrap();
    assert_eq!(expected_size, size);

    match decoder_mut.status_mut().unwrap() {
        ValidEncodedStatusMut::Interface(mut decoder_mut) => match decoder_mut.status_mut().unwrap() {
            EncodedStatusInterfaceKindMut::Host => (),
            EncodedStatusInterfaceKindMut::Dash7(mut decoder_mut) => {
                let original = decoder_mut.ch_header();
                let new_ch_header = !original;
                assert!(new_ch_header != original);
                decoder_mut.set_ch_header(new_ch_header);
                assert_eq!(decoder_mut.ch_header(), new_ch_header);
            }
        },
    }
}

fn status_bytes() -> Vec<u8> {
    let mut v = vec![34 | 0x40];
    v.extend_from_slice(&D7_STATUS_BYTES);
    v
}

#[test]
fn status_known() {
    check_status(
        StatusRef::Interface(StatusInterfaceRef::Dash7(status(NlsMethod::NoSecurity, None))),
        &status_bytes(),
    );
}

#[test]
fn status_consistence() {
    const TOT_SIZE: usize = 23;
    let op = StatusRef::Interface(StatusInterfaceRef::Dash7(status(NlsMethod::NoSecurity, None)));

    let mut encoded = [0_u8; TOT_SIZE];
    let size_encoded = op.encode_in(&mut encoded).unwrap();
    let WithByteSize { item: ret, byte_size: size_decoded } = StatusRef::decode(&encoded).unwrap();
    assert_eq!(size_encoded, size_decoded);
    assert_eq!(ret, op);

    let mut encoded2 = [0_u8; TOT_SIZE];
    let size_encoded2 = op.encode_in(&mut encoded2).unwrap();
    assert_eq!(size_encoded, size_encoded2);
    assert_eq!(encoded2[..size_encoded2], encoded[..size_encoded]);
}

#[test]
fn status_unsupported_extension() {
    let data = [34, 0x00, 0x00];
    assert_eq!(
        StatusRef::start_decoding(&data).err(),
        Some(StatusSizeError::UnsupportedExtension(UnsupportedExtension {
            extension: 0,
            remaining_data: &[0x00, 0x00],
        }))
    );
    let data = [34 | 0x40, 0x12, 0x00];
    match StatusRef::start_decoding(&data) {
        Err(StatusSizeError::UnsupportedInterfaceId(e)) => {
            assert_eq!(e.id, 0x12);
            assert_eq!(e.remaining_data, &[0x00]);
        }
        _ => panic!("unsupported interface expected"),
    }
    assert_eq!(StatusRef::start_decoding(&[]).err(), Some(StatusSizeError::MissingBytes));
}
