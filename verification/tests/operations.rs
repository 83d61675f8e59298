use dash7_alp::v1_2::define::op_code::OpCode as OpCodeUpToSeven;
use dash7_alp::v1_2::error::OpCodeError;
use dash7_alp::codec::{StdError, WithOffset, WithSize};
use dash7_alp::decodable::SizeError;
use dash7_alp::v1_2::action::chunk::{Chunk, ChunkStep};
use dash7_alp::v1_2::action::copy_file::CopyFile;
use dash7_alp::v1_2::action::file_id_action::{DeleteFile, ExecuteFile, ExistFile, FlushFile, RestoreFile};
use dash7_alp::v1_2::action::indirect_forward::IndirectForward;
use dash7_alp::v1_2::action::logic::Logic;
use dash7_alp::v1_2::action::nop::NopRef;
use dash7_alp::v1_2::action::permission_request::PermissionRequest;
use dash7_alp::v1_2::action::response_tag::ResponseTag;
use dash7_alp::v1_2::action::file_properties_action::FilePropertiesAction;
use dash7_alp::v1_2::action::{Action, ActionDecodingError, HeaderActionDecodingError, OpCode};
use dash7_alp::v1_2::data::{
    ActionCondition, FileHeader, FileProperties, Permissions, StorageClass, UserPermissions,
};
use dash7_alp::v1_2::dash7::addressee::{AddresseeIdentifier, NlsMethod};
use dash7_alp::v1_2::operand::action_status::ActionStatus;
use dash7_alp::v1_2::operand::indirect_interface::{
    IndirectInterface, NonOverloadedIndirectInterface, OverloadedIndirectInterface,
};
use dash7_alp::v1_2::operand::permission::{Permission, PermissionDecodingError};
use dash7_alp::v1_2::operand::permission::permission_level;

#[test]
fn test_chunk() {
    let op = Chunk { step: ChunkStep::End };
    let data = [0xB0_u8];
    assert_eq!(op.encoded_size(), data.len());
    let mut out = [0_u8; 1];
    assert_eq!(op.encode_in(&mut out), data.len());
    assert_eq!(out, data);
    assert_eq!(Chunk::decode(&data), Ok(WithSize { value: op, size: 1 }));
}

#[test]
fn test_logic() {
    let op = Logic::Nand;
    let data = [0xF1_u8];
    assert_eq!(op.encoded_size(), data.len());
    let mut out = [0_u8; 1];
    assert_eq!(op.encode_in(&mut out), data.len());
    assert_eq!(out, data);
    assert_eq!(Logic::decode(&data), Ok(WithSize { value: op, size: 1 }));
}

#[test]
fn test_copy_file() {
    let op = CopyFile { group: false, resp: false, src_file_id: 0x42, dst_file_id: 0x24 };
    let data = [0x17_u8, 0x42, 0x24];
    assert_eq!(op.encoded_size(), data.len());
    let mut out = [0_u8; 3];
    assert_eq!(op.encode_in(&mut out), data.len());
    assert_eq!(out, data);
    assert_eq!(CopyFile::decode(&data), Ok(WithSize { value: op, size: 3 }));
}

#[test]
fn test_permission_request() {
    let op = PermissionRequest {
        group: false,
        resp: false,
        level: permission_level::ROOT,
        permission: Permission::Dash7([0x01, 0x02, 0x03, 0x04, 0x05, 0x06, 0x07, 0x08]),
    };
    let data = [0x0A_u8, 0x01, 0x42, 0x01, 0x02, 0x03, 0x04, 0x05, 0x06, 0x07, 0x08];
    assert_eq!(op.encoded_size(), data.len());
    let mut out = [0_u8; 11];
    assert_eq!(op.encode_in(&mut out), data.len());
    assert_eq!(out, data);
    assert_eq!(PermissionRequest::decode(&data), Ok(WithSize { value: op, size: 11 }));
}

#[test]
fn test_status_operand() {
    let op = ActionStatus { action_id: 2, status: 0xF6 };
    let data = [0x02_u8, 0xF6];
    assert_eq!(op.encoded_size(), data.len());
    let mut out = [0_u8; 2];
    assert_eq!(op.encode_in(&mut out), data.len());
    assert_eq!(out, data);
    assert_eq!(ActionStatus::decode(&data), Ok(WithSize { value: op, size: 2 }));
}

#[test]
fn test_overloaded_indirect_interface() {
    let op = OverloadedIndirectInterface {
        interface_file_id: 4,
        nls_method: NlsMethod::AesCcm32,
        access_class: 0xFF,
        address: AddresseeIdentifier::Vid([0xAB, 0xCD]),
    };
    let data = [0x04_u8, 0x37, 0xFF, 0xAB, 0xCD];
    assert_eq!(op.encoded_size(), data.len());
    let mut out = [0_u8; 5];
    assert_eq!(op.encode_in(&mut out), data.len());
    assert_eq!(out, data);
    assert_eq!(OverloadedIndirectInterface::decode(&data), Ok(WithSize { value: op, size: 5 }));
}

#[test]
fn overloaded_indirect_interface_short_inputs() {
    assert_eq!(
        OverloadedIndirectInterface::decode(&[0x04, 0x37]),
        Err(WithOffset { offset: 0, value: StdError::MissingBytes(1) })
    );
    assert_eq!(
        OverloadedIndirectInterface::decode(&[0x04, 0x37, 0xFF, 0xAB]),
        Err(WithOffset { offset: 3, value: StdError::MissingBytes(1) })
    );
}

#[test]
fn non_overloaded_indirect_interface_encoding() {
    let op = NonOverloadedIndirectInterface { interface_file_id: 9, data: vec![1, 2, 3] };
    assert_eq!(op.encoded_size(), 4);
    let mut out = [0xEE_u8; 5];
    assert_eq!(op.encode_in(&mut out), 4);
    assert_eq!(out, [9, 1, 2, 3, 0xEE]);
}

#[test]
fn response_tag_known() {
    let op = ResponseTag { eop: true, err: false, id: 8 };
    let data = [0xA3_u8, 0x08];
    assert_eq!(op.encoded_size(), data.len());
    let mut out = [0_u8; 2];
    assert_eq!(op.encode_in(&mut out), data.len());
    assert_eq!(out, data);
    assert_eq!(ResponseTag::decode(&data), Ok(WithSize { value: op, size: 2 }));
    assert_eq!(
        ResponseTag::decode(&data[..1]),
        Err(WithOffset { offset: 0, value: StdError::MissingBytes(1) })
    );
}

fn vid_interface() -> IndirectInterface {
    IndirectInterface::Overloaded(OverloadedIndirectInterface {
        interface_file_id: 4,
        nls_method: NlsMethod::AesCcm32,
        access_class: 0xFF,
        address: AddresseeIdentifier::Vid([0xAB, 0xCD]),
    })
}

#[test]
fn indirect_forward_known() {
    let op = IndirectForward { resp: true, interface: vid_interface() };
    let data = [0xF3_u8, 0x04, 0x37, 0xFF, 0xAB, 0xCD];
    assert_eq!(op.encoded_size(), data.len());
    let mut out = [0_u8; 6];
    assert_eq!(op.encode_in(&mut out), data.len());
    assert_eq!(out, data);
    assert_eq!(IndirectForward::decode(&data), Ok(WithSize { value: op, size: 6 }));
    assert_eq!(
        IndirectForward::decode(&data[..4]),
        Err(WithOffset { offset: 4, value: StdError::MissingBytes(2) })
    );
}

#[test]
fn permission_errors() {
    assert_eq!(
        Permission::decode(&[]),
        Err(WithOffset { offset: 0, value: PermissionDecodingError::MissingBytes(1) })
    );
    assert_eq!(
        Permission::decode(&[0x43]),
        Err(WithOffset { offset: 0, value: PermissionDecodingError::UnknownId(0x43) })
    );
    assert_eq!(
        PermissionRequest::decode(&[0x0A, 0x01]),
        Err(WithOffset { offset: 2, value: PermissionDecodingError::MissingBytes(1) })
    );
    assert_eq!(
        PermissionRequest::decode(&[0x0A, 0x01, 0x07]),
        Err(WithOffset { offset: 2, value: PermissionDecodingError::UnknownId(0x07) })
    );
}

#[test]
fn chunk_and_logic_every_step() {
    let steps = [ChunkStep::Continue, ChunkStep::Start, ChunkStep::End, ChunkStep::StartEnd];
    let bytes = [0x30_u8, 0x70, 0xB0, 0xF0];
    for i in 0..4 {
        let mut out = [0_u8; 1];
        Chunk { step: steps[i] }.encode_in(&mut out);
        assert_eq!(out[0], bytes[i]);
        assert_eq!(Chunk::decode(&out).unwrap().value.step, steps[i]);
    }
    let ops = [Logic::Or, Logic::Xor, Logic::Nor, Logic::Nand];
    let bytes = [0x31_u8, 0x71, 0xB1, 0xF1];
    for i in 0..4 {
        let mut out = [0_u8; 1];
        ops[i].encode_in(&mut out);
        assert_eq!(out[0], bytes[i]);
        assert_eq!(Logic::decode(&out).unwrap().value, ops[i]);
    }
    assert_eq!(Chunk::decode(&[]), Err(WithOffset { offset: 0, value: StdError::MissingBytes(1) }));
}

#[test]
fn op_code_numbers() {
    for n in 0..=255_u8 {
        match OpCode::from(n) {
            Ok(op) => assert_eq!(op.code(), n),
            Err(x) => assert_eq!(x, n),
        }
    }
    assert_eq!(OpCode::from(51), Ok(OpCode::IndirectForward));
    assert_eq!(OpCode::from(3), Err(3));
    assert_eq!(OpCode::Extension.name(), "EXT");
    assert_eq!(OpCode::ExistFile.name(), "HAS");
}

#[test]
fn action_decode_dispatch() {
    let data = [0x80_u8];
    assert_eq!(
        Action::decode(&data),
        Ok(WithSize { value: Action::Nop(NopRef { group: true, response: false }), size: 1 })
    );
    let data = [0x17_u8, 0x42, 0x24, 0x99];
    assert_eq!(
        Action::decode(&data),
        Ok(WithSize {
            value: Action::CopyFile(CopyFile {
                group: false,
                resp: false,
                src_file_id: 0x42,
                dst_file_id: 0x24,
            }),
            size: 3,
        })
    );
    let data = [0xF3_u8, 0x04, 0x37, 0xFF, 0xAB, 0xCD];
    assert_eq!(
        Action::decode(&data),
        Ok(WithSize {
            value: Action::IndirectForward(IndirectForward { resp: true, interface: vid_interface() }),
            size: 6,
        })
    );
}

#[test]
fn action_decode_errors() {
    assert_eq!(
        Action::decode(&[]),
        Err(WithOffset { offset: 0, value: ActionDecodingError::NoData })
    );
    assert_eq!(
        Action::decode(&[0x03]),
        Err(WithOffset { offset: 0, value: ActionDecodingError::UnknownOpCode(3) })
    );
    assert_eq!(
        Action::decode(&[0x34, 0x01]),
        Err(WithOffset { offset: 0, value: ActionDecodingError::Unsupported(OpCode::RequestTag) })
    );
    assert_eq!(
        Action::decode(&[0x12]),
        Err(WithOffset { offset: 0, value: ActionDecodingError::DeleteFile(StdError::MissingBytes(1)) })
    );
    assert_eq!(
        Action::decode(&[0x3F]),
        Err(WithOffset { offset: 0, value: ActionDecodingError::Extension })
    );
    assert_eq!(
        Action::decode(&[0x17, 0x42]),
        Err(WithOffset { offset: 0, value: ActionDecodingError::CopyFile(StdError::MissingBytes(1)) })
    );
    assert_eq!(
        Action::decode(&[0x01, 0x02]),
        Err(WithOffset { offset: 0, value: ActionDecodingError::ReadFileData(SizeError::MissingBytes) })
    );
}

#[test]
fn action_roundtrip() {
    let actions = [
        Action::Nop(NopRef { group: false, response: true }),
        Action::Chunk(Chunk { step: ChunkStep::Start }),
        Action::Logic(Logic::Xor),
        Action::ResponseTag(ResponseTag { eop: false, err: true, id: 3 }),
        Action::PermissionRequest(PermissionRequest {
            group: true,
            resp: true,
            level: permission_level::USER,
            permission: Permission::Dash7([9, 8, 7, 6, 5, 4, 3, 2]),
        }),
        Action::IndirectForward(IndirectForward { resp: false, interface: vid_interface() }),
    ];
    for action in actions.iter() {
        let size = action.encoded_size();
        let mut out = [0_u8; 16];
        assert_eq!(action.encode_in(&mut out), size);
        assert_eq!(out[0] & 0x3F, action.op_code().code());
        let decoded = Action::decode(&out[..size]).unwrap();
        assert_eq!(&decoded.value, action);
        assert_eq!(decoded.size, size);
    }
}

#[test]
fn file_id_actions_known() {
    let mut out = [0_u8; 2];
    let op = ExistFile { group: false, resp: true, file_id: 9 };
    assert_eq!(op.encoded_size(), 2);
    assert_eq!(op.encode_in(&mut out), 2);
    assert_eq!(out, [0x50, 0x09]);
    assert_eq!(ExistFile::decode(&out), Ok(WithSize { value: op, size: 2 }));

    let op = DeleteFile { group: true, resp: false, file_id: 7 };
    assert_eq!(op.encode_in(&mut out), 2);
    assert_eq!(out, [0x92, 0x07]);
    assert_eq!(DeleteFile::decode(&out), Ok(WithSize { value: op, size: 2 }));

    let op = RestoreFile { group: false, resp: true, file_id: 5 };
    assert_eq!(op.encode_in(&mut out), 2);
    assert_eq!(out, [0x53, 0x05]);
    assert_eq!(RestoreFile::decode(&out), Ok(WithSize { value: op, size: 2 }));

    let op = FlushFile { group: false, resp: true, file_id: 4 };
    assert_eq!(op.encode_in(&mut out), 2);
    assert_eq!(out, [0x54, 0x04]);
    assert_eq!(FlushFile::decode(&out), Ok(WithSize { value: op, size: 2 }));

    let op = ExecuteFile { group: false, resp: true, file_id: 4 };
    assert_eq!(op.encode_in(&mut out), 2);
    assert_eq!(out, [0x5F, 0x04]);
    assert_eq!(ExecuteFile::decode(&out), Ok(WithSize { value: op, size: 2 }));
    assert_eq!(
        ExecuteFile::decode(&out[..1]),
        Err(WithOffset { offset: 0, value: StdError::MissingBytes(1) })
    );
    assert_eq!(
        Action::decode(&[0x5F, 0x04]),
        Ok(WithSize { value: Action::ExecuteFile(op), size: 2 })
    );
}

#[test]
fn action_decode_in_place_actions() {
    let data = [0x44_u8, 0x00, 0x00, 0x03, 0x00, 0x01, 0x02, 0x77];
    let w = Action::decode(&data).unwrap();
    assert_eq!(w.size, 7);
    assert_eq!(w.value.op_code(), OpCode::WriteFileData);
    match w.value {
        Action::WriteFileData(x) => {
            assert!(x.response);
            assert!(!x.group);
        }
        _ => panic!("write file data expected"),
    }
    let mut out = [0_u8; 7];
    assert_eq!(w.value.encode_in(&mut out), 7);
    assert_eq!(out, data[..7]);

    let data = [0x48_u8, 0x49, 0x03, 0x00, 0x01, 0x02, 0x42, 0x80, 0x40, 0x00];
    let w = Action::decode(&data).unwrap();
    assert_eq!(w.size, 10);
    assert_eq!(w.value.op_code(), OpCode::ActionQuery);
    let mut out = [0_u8; 10];
    assert_eq!(w.value.encode_in(&mut out), 10);
    assert_eq!(out, data);

    match Action::decode(&data[..5]) {
        Err(WithOffset { offset: 0, value: ActionDecodingError::ActionQuery(_) }) => {}
        other => panic!("query error expected, got {:?}", other),
    }
    match Action::decode(&[0x22, 0x00, 0x00]) {
        Err(WithOffset { offset: 0, value: ActionDecodingError::Status(_) }) => {}
        other => panic!("status error expected, got {:?}", other),
    }
}

#[test]
fn define_op_code_from_refuses_above_seven() {
    assert_eq!(OpCodeUpToSeven::from(0), Ok(OpCodeUpToSeven::Nop));
    assert_eq!(OpCodeUpToSeven::from(4), Ok(OpCodeUpToSeven::WriteFileData));
    assert_eq!(OpCodeUpToSeven::from(3), Err(OpCodeError::Unsupported { code: 3 }));
    assert_eq!(OpCodeUpToSeven::from(8), Err(OpCodeError::Unsupported { code: 8 }));
    assert_eq!(OpCodeUpToSeven::from(34), Err(OpCodeError::Unsupported { code: 34 }));
    assert_eq!(OpCodeUpToSeven::from(0x40), Err(OpCodeError::Invalid));
}

fn file_header() -> FileHeader {
    FileHeader {
        permissions: Permissions {
            encrypted: true,
            executable: false,
            user: UserPermissions { read: true, write: true, run: true },
            guest: UserPermissions { read: false, write: false, run: false },
        },
        properties: FileProperties {
            act_en: false,
            act_cond: ActionCondition::Read,
            storage_class: StorageClass::Permanent,
        },
        alp_cmd_fid: 1,
        interface_file_id: 2,
        file_size: 0xDEAD_BEEF,
        allocated_size: 0xBAAD_FACE,
    }
}

#[test]
fn file_properties_actions_known() {
    let op = FilePropertiesAction { group: true, resp: false, file_id: 9, header: file_header() };
    let body = [0x09_u8, 0xB8, 0x13, 0x01, 0x02, 0xDE, 0xAD, 0xBE, 0xEF, 0xBA, 0xAD, 0xFA, 0xCE];
    for (code, action) in [
        (0x06_u8, Action::WriteFileProperties(op)),
        (0x11_u8, Action::CreateNewFile(op)),
        (0x21_u8, Action::ReturnFileProperties(op)),
    ] {
        let mut data = vec![code | 0x80];
        data.extend_from_slice(&body);
        assert_eq!(action.encoded_size(), 14);
        let mut out = [0_u8; 14];
        assert_eq!(action.encode_in(&mut out), 14);
        assert_eq!(out[..], data[..]);
        assert_eq!(Action::decode(&data), Ok(WithSize { value: action, size: 14 }));
    }
    assert_eq!(
        Action::decode(&[0x06, 0x09, 0xB8]),
        Err(WithOffset {
            offset: 0,
            value: ActionDecodingError::WriteFileProperties(HeaderActionDecodingError::MissingBytes(11)),
        })
    );
    let mut out = [0_u8; 12];
    assert_eq!(file_header().encode_in(&mut out), 12);
    assert_eq!(out, body[1..]);
    assert_eq!(FileHeader::decode(&body[1..]), Ok(WithSize { value: file_header(), size: 12 }));
}

#[test]
fn query_and_return_data_actions_known() {
    let query = [0x49_u8, 0x03, 0x00, 0x01, 0x02, 0x42, 0x80, 0x40, 0x00];
    for (code, op) in [(0x09_u8, OpCode::BreakQuery), (0x0B_u8, OpCode::VerifyChecksum)] {
        let mut data = vec![0x40 | code];
        data.extend_from_slice(&query);
        let w = Action::decode(&data).unwrap();
        assert_eq!(w.size, 10);
        assert_eq!(w.value.op_code(), op);
        let mut out = [0_u8; 10];
        assert_eq!(w.value.encode_in(&mut out), 10);
        assert_eq!(out[..], data[..]);
    }
    let data = [0x60_u8, 0x01, 0x02, 0x03, 0x03, 0x04, 0x05];
    let w = Action::decode(&data).unwrap();
    assert_eq!(w.size, 7);
    assert_eq!(w.value.op_code(), OpCode::ReturnFileData);
    let mut out = [0_u8; 7];
    assert_eq!(w.value.encode_in(&mut out), 7);
    assert_eq!(out, data);
    assert_eq!(
        Action::decode(&data[..4]),
        Err(WithOffset { offset: 0, value: ActionDecodingError::ReturnFileData(SizeError::MissingBytes) })
    );
    assert_eq!(
        Action::decode(&[0x32, 0x00]),
        Err(WithOffset { offset: 0, value: ActionDecodingError::Unsupported(OpCode::Forward) })
    );
}

#[test]
fn file_properties_actions_have_no_text() {
    let op = FilePropertiesAction { group: true, resp: false, file_id: 1, header: file_header() };
    assert_eq!(Action::WriteFileProperties(op).to_string(), None);
    assert_eq!(Action::CreateNewFile(op).to_string(), None);
    assert_eq!(Action::ReturnFileProperties(op).to_string(), None);
    assert_eq!(
        Action::Nop(NopRef { group: true, response: true }).to_string(),
        Some(String::from("NOP[GR]"))
    );
}
