use dash7_alp::define::EncodableDataRef;
use dash7_alp::v1_2::action::chunk::{Chunk, ChunkStep};
use dash7_alp::v1_2::action::copy_file::CopyFile;
use dash7_alp::v1_2::action::defines::FileId;
use dash7_alp::v1_2::action::file_id_action::{DeleteFile, ExecuteFile, ExistFile, FlushFile, RestoreFile};
use dash7_alp::v1_2::action::logic::Logic;
use dash7_alp::v1_2::action::nop::NopRef;
use dash7_alp::v1_2::action::permission_request::PermissionRequest;
use dash7_alp::v1_2::action::read_file_data::ReadFileDataRef;
use dash7_alp::v1_2::action::read_file_properties::ReadFilePropertiesRef;
use dash7_alp::v1_2::action::response_tag::ResponseTag;
use dash7_alp::v1_2::action::write_file_data::WriteFileDataRef;
use dash7_alp::v1_2::action::Action;
use dash7_alp::v1_2::operand::permission::Permission;
use dash7_alp::varint::Varint;

#[test]
fn test_nop_display() {
    assert_eq!(
        Action::Nop(NopRef { response: false, group: true }).to_string().unwrap(),
        "NOP[G-]"
    );
}

#[test]
fn test_read_file_data_display() {
    assert_eq!(
        Action::ReadFileData(ReadFileDataRef {
            response: false,
            group: true,
            file_id: FileId(1),
            offset: Varint::new(2).unwrap(),
            length: Varint::new(3).unwrap(),
        })
        .to_string()
        .unwrap(),
        "RD[G-]f(1,2,3)"
    );
}

#[test]
fn test_read_file_properties_display() {
    assert_eq!(
        Action::ReadFileProperties(ReadFilePropertiesRef {
            response: true,
            group: false,
            file_id: FileId(1),
        })
        .to_string()
        .unwrap(),
        "RDP[-R]f(1)"
    );
}

#[test]
fn test_write_file_data_display() {
    assert_eq!(
        Action::WriteFileData(WriteFileDataRef {
            response: true,
            group: false,
            file_id: FileId(1),
            offset: Varint::new(2).unwrap(),
            data: EncodableDataRef::new(&[3, 4, 5]).unwrap(),
        })
        .to_string()
        .unwrap(),
        "WR[-R]f(1,2,0x030405)"
    );
}

#[test]
fn test_permission_request_display() {
    assert_eq!(
        Action::PermissionRequest(PermissionRequest {
            group: false,
            resp: true,
            level: 1,
            permission: Permission::Dash7([2, 3, 4, 5, 6, 7, 8, 9]),
        })
        .to_string()
        .unwrap(),
        "PR[-R]1,D7:0x0203040506070809"
    );
}

#[test]
fn test_exist_file_display() {
    assert_eq!(
        Action::ExistFile(ExistFile { group: false, resp: true, file_id: 9 }).to_string().unwrap(),
        "HAS[-R]f(9)"
    )
}

#[test]
fn test_delete_file_display() {
    assert_eq!(
        Action::DeleteFile(DeleteFile { group: false, resp: true, file_id: 7 }).to_string().unwrap(),
        "DEL[-R]f(7)"
    )
}

#[test]
fn test_restore_file_display() {
    assert_eq!(
        Action::RestoreFile(RestoreFile { group: false, resp: true, file_id: 5 })
            .to_string()
            .unwrap(),
        "RST[-R]f(5)"
    )
}

#[test]
fn test_flush_file_display() {
    assert_eq!(
        Action::FlushFile(FlushFile { group: false, resp: true, file_id: 4 }).to_string().unwrap(),
        "FLUSH[-R]f(4)"
    )
}

#[test]
fn test_copy_file_display() {
    assert_eq!(
        Action::CopyFile(CopyFile { group: false, resp: true, src_file_id: 2, dst_file_id: 8 })
            .to_string()
            .unwrap(),
        "CP[-R]f(2)f(8)"
    )
}

#[test]
fn test_execute_file_display() {
    assert_eq!(
        Action::ExecuteFile(ExecuteFile { group: false, resp: true, file_id: 4 })
            .to_string()
            .unwrap(),
        "RUN[-R]f(4)"
    )
}

#[test]
fn test_return_file_data_display() {
    assert_eq!(
        Action::ReturnFileData(WriteFileDataRef {
            response: true,
            group: false,
            file_id: FileId(1),
            offset: Varint::new(2).unwrap(),
            data: EncodableDataRef::new(&[3, 4, 5]).unwrap(),
        })
        .to_string()
        .unwrap(),
        "DATA[-R]f(1,2,0x030405)"
    );
}

#[test]
fn test_response_tag_display() {
    assert_eq!(
        Action::ResponseTag(ResponseTag { eop: true, err: false, id: 8 }).to_string().unwrap(),
        "TG[E-](8)"
    );
}

#[test]
fn test_chunk_display() {
    assert_eq!(
        Action::Chunk(Chunk { step: ChunkStep::Start }).to_string().unwrap(),
        "CHK[S]"
    );
}

#[test]
fn test_logic_display() {
    assert_eq!(Action::Logic(Logic::Xor).to_string().unwrap(), "LOG[XOR]");
}

#[test]
fn display_of_every_flag_and_step() {
    assert_eq!(
        Action::Nop(NopRef { response: true, group: false }).to_string().unwrap(),
        "NOP[-R]"
    );
    assert_eq!(
        Action::Nop(NopRef { response: false, group: false }).to_string().unwrap(),
        "NOP[--]"
    );
    assert_eq!(
        Action::ResponseTag(ResponseTag { eop: false, err: true, id: 255 }).to_string().unwrap(),
        "TG[-R](255)"
    );
    assert_eq!(Action::Chunk(Chunk { step: ChunkStep::Continue }).to_string().unwrap(), "CHK[C]");
    assert_eq!(Action::Chunk(Chunk { step: ChunkStep::End }).to_string().unwrap(), "CHK[E]");
    assert_eq!(Action::Chunk(Chunk { step: ChunkStep::StartEnd }).to_string().unwrap(), "CHK[R]");
    assert_eq!(Action::Logic(Logic::Or).to_string().unwrap(), "LOG[OR]");
    assert_eq!(Action::Logic(Logic::Nor).to_string().unwrap(), "LOG[NOR]");
    assert_eq!(Action::Logic(Logic::Nand).to_string().unwrap(), "LOG[NAND]");
}

#[test]
fn display_of_large_numbers_and_empty_data() {
    assert_eq!(
        Action::ReadFileData(ReadFileDataRef {
            response: true,
            group: true,
            file_id: FileId(255),
            offset: Varint::new(0x3F_FF_FF_FF).unwrap(),
            length: Varint::new(0).unwrap(),
        })
        .to_string()
        .unwrap(),
        "RD[GR]f(255,1073741823,0)"
    );
    assert_eq!(
        Action::WriteFileData(WriteFileDataRef {
            response: false,
            group: false,
            file_id: FileId(0),
            offset: Varint::new(10).unwrap(),
            data: EncodableDataRef::new(&[0xAB, 0x0F]).unwrap(),
        })
        .to_string()
        .unwrap(),
        "WR[--]f(0,10,0xAB0F)"
    );
    assert_eq!(
        Action::WriteFileData(WriteFileDataRef {
            response: false,
            group: false,
            file_id: FileId(0),
            offset: Varint::new(0).unwrap(),
            data: EncodableDataRef::new(&[]).unwrap(),
        })
        .to_string()
        .unwrap(),
        "WR[--]f(0,0,0x)"
    );
}
