use stepson::message::ack::Ack;
use stepson::message::data_mdr::nc_asm::{
    AsmId, AsmSettingType, NcAsmEffect, NcAsmInquiredType, NcAsmSetParam, NcAsmSettingType,
    NcDualSingleValue,
};
use stepson::message::data_mdr::{Command, DataMdr};
use stepson::message::{Data, Message, MESSAGE_START};
use stepson::serializable::DeserializeError;
use stepson::transport::{handle_frame, Action, FrameScanner, ACK_SEQUENCE_NUMBER};

fn data_mdr_message(sequence_number: u8) -> Message {
    Message {
        sequence_number,
        data: Data::DataMdr(DataMdr {
            command: Command::NcAsmSetParam(NcAsmSetParam {
                nc_asm_inquired_type: NcAsmInquiredType::NoiseCancelling,
                nc_asm_effect: NcAsmEffect::Off,
                nc_asm_setting_type: NcAsmSettingType::OnOff,
                nc_dual_single_value: NcDualSingleValue::Off,
                asm_setting_type: AsmSettingType::OnOff,
                asm_id: AsmId::Normal,
                asm_level: 0,
            }),
        }),
    }
}

fn ack_message(sequence_number: u8) -> Message {
    Message {
        sequence_number,
        data: Data::Ack(Ack {}),
    }
}

#[test]
fn ack_ordering_scenario() {
    // the peer writes one valid command frame (sequence number 5), then one
    // valid acknowledgment frame
    let mdr = data_mdr_message(5);
    let peer_ack = ack_message(0);
    let mut input = mdr.serialize();
    input.extend_from_slice(&peer_ack.serialize());

    let mut scanner = FrameScanner::new();
    let actions = scanner.feed(&input);

    // exactly one transmission, and it stands before the command's delivery
    assert_eq!(actions.len(), 3);
    match &actions[0] {
        Action::Transmit(bytes) => {
            let expected_ack = ack_message(ACK_SEQUENCE_NUMBER);
            assert_eq!(*bytes, expected_ack.serialize());
        }
        other => panic!("expected a transmission first, got {other:?}"),
    }
    match &actions[1] {
        Action::Deliver(Ok(m)) => assert_eq!(*m, data_mdr_message(5)),
        other => panic!("expected the command's delivery second, got {other:?}"),
    }
    // the peer's own acknowledgment is delivered like any message, with no
    // further transmission
    match &actions[2] {
        Action::Deliver(Ok(m)) => assert_eq!(*m, ack_message(0)),
        other => panic!("expected the acknowledgment's delivery last, got {other:?}"),
    }
}

#[test]
fn scanner_discards_garbage_before_start() {
    let msg = ack_message(1);
    let frame = msg.serialize();
    let mut input = vec![0x00, 0x10, 0x2F];
    input.extend_from_slice(&frame);

    let mut scanner = FrameScanner::new();
    let mut completed = Vec::new();
    for b in input {
        if let Some(f) = scanner.push_byte(b) {
            completed.push(f);
        }
    }
    assert_eq!(completed, vec![frame]);
}

#[test]
fn scanner_carries_partial_frames_across_chunks() {
    let msg = ack_message(9);
    let frame = msg.serialize();
    let (first, second) = frame.split_at(4);

    let mut scanner = FrameScanner::new();
    let actions = scanner.feed(first);
    assert!(actions.is_empty());
    let actions = scanner.feed(second);
    assert_eq!(actions.len(), 1);
    match &actions[0] {
        Action::Deliver(Ok(m)) => assert_eq!(*m, ack_message(9)),
        other => panic!("expected one delivery, got {other:?}"),
    }
}

#[test]
fn corrupt_frame_is_delivered_as_error_and_scanning_resumes() {
    // a bare start marker followed by an end marker is far too short a frame
    let mut input = vec![MESSAGE_START, 0x3C];
    let good = ack_message(2);
    input.extend_from_slice(&good.serialize());

    let mut scanner = FrameScanner::new();
    let actions = scanner.feed(&input);
    assert_eq!(actions.len(), 2);
    assert!(matches!(
        actions[0],
        Action::Deliver(Err(DeserializeError::TooShort))
    ));
    match &actions[1] {
        Action::Deliver(Ok(m)) => assert_eq!(*m, ack_message(2)),
        other => panic!("expected the good frame's delivery, got {other:?}"),
    }
}

#[test]
fn handle_frame_acknowledges_commands_only() {
    let mdr = data_mdr_message(7);
    let actions = handle_frame(&mdr.serialize());
    assert_eq!(actions.len(), 2);
    assert!(matches!(actions[0], Action::Transmit(_)));

    let ack = ack_message(7);
    let actions = handle_frame(&ack.serialize());
    assert_eq!(actions.len(), 1);
    assert!(matches!(actions[0], Action::Deliver(Ok(_))));
}
