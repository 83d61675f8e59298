use dash7_alp::codec::{StdError, WithOffset};
use dash7_alp::wizzilab::v5_3::action::flow::{Flow, FlowSeqnum};
use dash7_alp::wizzilab::v5_3::dash7::stack_error::InterfaceFinalStatusCode;
use dash7_alp::wizzilab::v5_3::dash7::RetryMode;
use dash7_alp::wizzilab::v5_3::action::OpCode as WizziOpCode;

#[test]
fn flow_flow() {
    let flow = Flow { flow: 0x12, seqnum: FlowSeqnum::U16(0x1234) };
    let mut bytes = [0; 6];
    flow.encode_in(&mut bytes);
    let decoded = Flow::decode(&bytes).unwrap().value;
    assert_eq!(flow, decoded);

    let flow = Flow { flow: 0x34, seqnum: FlowSeqnum::U32(0x12345678) };
    let mut bytes = [0; 8];
    flow.encode_in(&mut bytes);
    let decoded = Flow::decode(&bytes).unwrap().value;
    assert_eq!(flow, decoded);

    let raw = [0x36_u8, 0xFD, 0x00, 0x04];
    let decoded = Flow::decode(&raw).unwrap().value;
    assert_eq!(decoded, Flow { flow: 0xFD, seqnum: FlowSeqnum::U16(0x0004) });
}

#[test]
fn flow_bytes_and_sizes() {
    let flow = Flow { flow: 0x34, seqnum: FlowSeqnum::U32(0x12345678) };
    assert_eq!(flow.encoded_size(), 6);
    let mut bytes = [0x36_u8, 0, 0, 0, 0, 0, 0xEE];
    assert_eq!(flow.encode_in(&mut bytes), 6);
    assert_eq!(bytes, [0xB6, 0x34, 0x12, 0x34, 0x56, 0x78, 0xEE]);
    let decoded = Flow::decode(&bytes).unwrap();
    assert_eq!(decoded.size, 6);
    assert_eq!(decoded.value, flow);

    let flow = Flow { flow: 1, seqnum: FlowSeqnum::U16(0xABCD) };
    assert_eq!(flow.encoded_size(), 4);
    let mut bytes = [0_u8; 4];
    assert_eq!(flow.encode_in(&mut bytes), 4);
    assert_eq!(bytes, [0x00, 0x01, 0xAB, 0xCD]);
    assert_eq!(Flow::decode(&[]), Err(WithOffset { offset: 0, value: StdError::MissingBytes(1) }));
}

#[test]
fn interface_final_status_codes() {
    for n in 0..=255_u8 {
        match InterfaceFinalStatusCode::try_from(n) {
            Ok(code) => assert_eq!(code.code(), n),
            Err(x) => assert_eq!(x, n),
        }
    }
    assert_eq!(InterfaceFinalStatusCode::try_from(0xFF), Ok(InterfaceFinalStatusCode::Busy));
    assert_eq!(InterfaceFinalStatusCode::try_from(0x01), Err(0x01));
    assert_eq!(InterfaceFinalStatusCode::NoAck.name(), "NO_ACK");
    assert_eq!(InterfaceFinalStatusCode::NotSupportedMode.code(), 0xEA);
}

#[test]
fn retry_mode_numbers() {
    for n in 0..8_u8 {
        assert_eq!(RetryMode::from(n).unwrap().code(), n);
    }
    assert_eq!(RetryMode::from(2), Ok(RetryMode::FifoFast));
    assert_eq!(RetryMode::from(8), Err(8));
}

#[test]
fn wizzilab_op_code_numbers() {
    for n in 0..=255_u8 {
        match WizziOpCode::from(n) {
            Ok(op) => assert_eq!(op.code(), n),
            Err(x) => assert_eq!(x, n),
        }
    }
    assert_eq!(WizziOpCode::from(5), Ok(WizziOpCode::WriteFileDataFlush));
    assert_eq!(WizziOpCode::from(38), Ok(WizziOpCode::TxStatus));
    assert_eq!(WizziOpCode::from(54), Ok(WizziOpCode::Flow));
    assert_eq!(WizziOpCode::from(3), Err(3));
    assert_eq!(WizziOpCode::PermissionRequest.name(), "PRM");
    assert_eq!(WizziOpCode::FlushFile.name(), "FLSH");
    assert_eq!(WizziOpCode::ResponseTag.name(), "TAG");
}
