use stepson::message::ack::Ack;
use stepson::message::data_mdr::nc_asm::{
    AsmId, AsmSettingType, NcAsmEffect, NcAsmInquiredType, NcAsmNtfyParam, NcAsmSetParam,
    NcAsmSettingType, NcDualSingleValue,
};
use stepson::message::data_mdr::{Command, CommandType, DataMdr};
use stepson::message::{
    checksum, escape_specials, unescape_specials, Data, DataType, Message, ESCAPE_CHAR,
    MESSAGE_END, MESSAGE_START,
};
use stepson::serializable::{DeserializeError, Serializable};

fn set_param() -> NcAsmSetParam {
    NcAsmSetParam {
        nc_asm_inquired_type: NcAsmInquiredType::NoiseCancellingAndAmbientSoundMode,
        nc_asm_effect: NcAsmEffect::On,
        nc_asm_setting_type: NcAsmSettingType::DualSingleOff,
        nc_dual_single_value: NcDualSingleValue::Dual,
        asm_setting_type: AsmSettingType::LevelAdjustment,
        asm_id: AsmId::Normal,
        asm_level: 7,
    }
}

fn ntfy_param() -> NcAsmNtfyParam {
    NcAsmNtfyParam {
        nc_asm_inquired_type: NcAsmInquiredType::AmbientSoundMode,
        nc_asm_effect: NcAsmEffect::AdjustmentCompletion,
        nc_asm_setting_type: NcAsmSettingType::LevelAdjustment,
        nc_dual_single_value: NcDualSingleValue::Single,
        asm_setting_type: AsmSettingType::OnOff,
        asm_id: AsmId::Voice,
        asm_level: 19,
    }
}

#[test]
fn ack_frame_exact_bytes() {
    // type 0x01, sequence 0, length 0, checksum = (01+00+00+00+00+00) mod 256
    let m = Message {
        sequence_number: 0,
        data: Data::Ack(Ack {}),
    };
    let bytes = m.serialize();
    assert_eq!(
        bytes,
        vec![0x3E, 0x01, 0x00, 0x00, 0x00, 0x00, 0x00, 0x01, 0x3C]
    );
}

#[test]
fn round_trip_ack() {
    let m = Message {
        sequence_number: 3,
        data: Data::Ack(Ack {}),
    };
    let bytes = m.serialize();
    assert_eq!(Message::deserialize(&bytes).unwrap(), m);
}

#[test]
fn round_trip_set_param() {
    let m = Message {
        sequence_number: 0,
        data: Data::DataMdr(DataMdr {
            command: Command::NcAsmSetParam(set_param()),
        }),
    };
    let bytes = m.serialize();
    assert_eq!(Message::deserialize(&bytes).unwrap(), m);
}

#[test]
fn round_trip_ntfy_param() {
    let m = Message {
        sequence_number: 200,
        data: Data::DataMdr(DataMdr {
            command: Command::NcAsmNtfyParam(ntfy_param()),
        }),
    };
    let bytes = m.serialize();
    assert_eq!(Message::deserialize(&bytes).unwrap(), m);
}

#[test]
fn round_trip_unknown_command() {
    let m = Message {
        sequence_number: 1,
        data: Data::DataMdr(DataMdr {
            command: Command::Unknown(vec![9, 8, 7, 6]),
        }),
    };
    let bytes = m.serialize();
    assert_eq!(Message::deserialize(&bytes).unwrap(), m);
}

#[test]
fn round_trip_unknown_data() {
    let m = Message {
        sequence_number: 42,
        data: Data::Unknown(vec![0xAA, 0xBB, 0x00, 0xCC]),
    };
    let bytes = m.serialize();
    assert_eq!(Message::deserialize(&bytes).unwrap(), m);
}

#[test]
fn round_trip_empty_unknown_payload() {
    let m = Message {
        sequence_number: 0,
        data: Data::Unknown(vec![]),
    };
    let bytes = m.serialize();
    assert_eq!(Message::deserialize(&bytes).unwrap(), m);
}

#[test]
fn round_trip_marker_heavy_payload() {
    // every byte of the payload is framing-sensitive
    let m = Message {
        sequence_number: 5,
        data: Data::Unknown(vec![
            MESSAGE_START,
            MESSAGE_END,
            ESCAPE_CHAR,
            MESSAGE_END,
            MESSAGE_START,
            ESCAPE_CHAR,
        ]),
    };
    let bytes = m.serialize();
    assert_eq!(Message::deserialize(&bytes).unwrap(), m);
}

#[test]
fn escaping_produces_valid_pairs() {
    let payload = vec![MESSAGE_START, 0x10, MESSAGE_END, ESCAPE_CHAR, 0x20];
    let escaped = escape_specials(&payload);
    assert_eq!(
        escaped,
        vec![
            ESCAPE_CHAR,
            MESSAGE_START,
            0x10,
            ESCAPE_CHAR,
            MESSAGE_END,
            ESCAPE_CHAR,
            ESCAPE_CHAR,
            0x20
        ]
    );
    // every marker-valued byte sits as the second byte of an escape pair
    let mut i = 0;
    while i < escaped.len() {
        if escaped[i] == ESCAPE_CHAR {
            let lit = escaped[i + 1];
            assert!(lit == MESSAGE_START || lit == MESSAGE_END || lit == ESCAPE_CHAR);
            i += 2;
        } else {
            assert!(escaped[i] != MESSAGE_START && escaped[i] != MESSAGE_END);
            i += 1;
        }
    }
    assert_eq!(unescape_specials(&escaped).unwrap(), payload);
}

#[test]
fn unescape_rejects_invalid_escape() {
    let r = unescape_specials(&[ESCAPE_CHAR, 0x41]);
    assert!(matches!(r, Err(DeserializeError::InvalidEscape(0x41))));
}

#[test]
fn unescape_rejects_trailing_escape() {
    let r = unescape_specials(&[0x10, ESCAPE_CHAR]);
    assert!(matches!(r, Err(DeserializeError::EscapeTruncated)));
}

#[test]
fn checksum_exact_value() {
    assert_eq!(checksum(&[]), 0);
    assert_eq!(checksum(&[1, 2, 3]), 6);
    // the sum wraps at 8 bits
    assert_eq!(checksum(&[0xFF, 0x02]), 0x01);
    assert_eq!(checksum(&[0x80, 0x80]), 0x00);
}

#[test]
fn bit_flip_in_type_or_sequence_is_checksum_error() {
    let m = Message {
        sequence_number: 0,
        data: Data::Ack(Ack {}),
    };
    let bytes = m.serialize();
    for idx in [1usize, 2] {
        for bit in 0..8 {
            let mut corrupt = bytes.clone();
            corrupt[idx] ^= 1 << bit;
            let r = Message::deserialize(&corrupt);
            assert!(
                matches!(r, Err(DeserializeError::InvalidChecksum(_))),
                "flip of bit {bit} at index {idx} was not a checksum error: {r:?}"
            );
        }
    }
}

#[test]
fn bit_flip_in_payload_is_checksum_error() {
    let m = Message {
        sequence_number: 0,
        data: Data::DataMdr(DataMdr {
            command: Command::NcAsmSetParam(set_param()),
        }),
    };
    let bytes = m.serialize();
    // this frame contains no escape pairs, so payload bytes sit at 7..15
    for idx in 7..15usize {
        for bit in 0..8 {
            let mut corrupt = bytes.clone();
            corrupt[idx] ^= 1 << bit;
            if corrupt[idx] == MESSAGE_START || corrupt[idx] == MESSAGE_END
                || corrupt[idx] == ESCAPE_CHAR
            {
                // the flip broke the escaping itself; decode still fails, with
                // an escape or framing error instead of a checksum mismatch
                assert!(Message::deserialize(&corrupt).is_err());
            } else {
                let r = Message::deserialize(&corrupt);
                assert!(
                    matches!(r, Err(DeserializeError::InvalidChecksum(_))),
                    "flip of bit {bit} at index {idx} was not a checksum error: {r:?}"
                );
            }
        }
    }
}

#[test]
fn bit_flip_anywhere_in_covered_range_never_decodes() {
    let m = Message {
        sequence_number: 9,
        data: Data::DataMdr(DataMdr {
            command: Command::NcAsmNtfyParam(ntfy_param()),
        }),
    };
    let bytes = m.serialize();
    // covered range on the wire: type byte through the last payload byte
    for idx in 1..bytes.len() - 2 {
        for bit in 0..8 {
            let mut corrupt = bytes.clone();
            corrupt[idx] ^= 1 << bit;
            assert!(
                Message::deserialize(&corrupt).is_err(),
                "flip of bit {bit} at index {idx} still decoded"
            );
        }
    }
}

#[test]
fn truncation_missing_end_marker() {
    let m = Message {
        sequence_number: 0,
        data: Data::Ack(Ack {}),
    };
    let mut bytes = m.serialize();
    bytes.pop();
    assert!(matches!(
        Message::deserialize(&bytes),
        Err(DeserializeError::TooShort)
    ));
}

#[test]
fn truncation_declared_length_exceeds_available() {
    // declared length 5, but no payload bytes at all
    let body: Vec<u8> = vec![0x01, 0x00, 0x00, 0x00, 0x00, 0x05];
    let mut frame = vec![MESSAGE_START];
    frame.extend_from_slice(&body);
    frame.push(checksum(&body));
    frame.push(MESSAGE_END);
    assert!(matches!(
        Message::deserialize(&frame),
        Err(DeserializeError::TooShort)
    ));
}

#[test]
fn invalid_start_marker() {
    let m = Message {
        sequence_number: 0,
        data: Data::Ack(Ack {}),
    };
    let mut bytes = m.serialize();
    bytes[0] = 0x00;
    assert!(matches!(
        Message::deserialize(&bytes),
        Err(DeserializeError::InvalidStart(0x00))
    ));
}

#[test]
fn invalid_end_marker() {
    // end byte replaced by a non-marker byte; the checksum still matches
    let body: Vec<u8> = vec![0x01, 0x00, 0x00, 0x00, 0x00, 0x00];
    let mut frame = vec![MESSAGE_START];
    frame.extend_from_slice(&body);
    frame.push(checksum(&body));
    frame.push(0x2A);
    assert!(matches!(
        Message::deserialize(&frame),
        Err(DeserializeError::InvalidEnd(0x2A))
    ));
}

#[test]
fn ack_with_payload_is_invalid_length() {
    let body: Vec<u8> = vec![0x01, 0x00, 0x00, 0x00, 0x00, 0x01, 0x55];
    let mut frame = vec![MESSAGE_START];
    frame.extend_from_slice(&body);
    frame.push(checksum(&body));
    frame.push(MESSAGE_END);
    assert!(matches!(
        Message::deserialize(&frame),
        Err(DeserializeError::InvalidLength(0x55))
    ));
}

#[test]
fn unknown_discriminant_tolerance() {
    // a frame with data-type byte 0xFF decodes into Unknown, payload untouched
    let payload = [0x01u8, 0x02, 0x03];
    let mut body: Vec<u8> = vec![0xFF, 0x00, 0x00, 0x00, 0x00, 0x03];
    body.extend_from_slice(&payload);
    let mut frame = vec![MESSAGE_START];
    frame.extend_from_slice(&body);
    frame.push(checksum(&body));
    frame.push(MESSAGE_END);
    let m = Message::deserialize(&frame).unwrap();
    assert_eq!(m.sequence_number, 0);
    assert_eq!(m.data, Data::Unknown(vec![0x01, 0x02, 0x03]));
}

#[test]
fn unrecognized_enum_byte_in_params() {
    // the effect field (second parameter byte) holds no known code
    let inner = [0x68u8, 0x02, 0x99, 0x02, 0x02, 0x01, 0x00, 0x07];
    let mut body: Vec<u8> = vec![0x0C, 0x00, 0x00, 0x00, 0x00, inner.len() as u8];
    body.extend_from_slice(&inner);
    let mut frame = vec![MESSAGE_START];
    frame.extend_from_slice(&body);
    frame.push(checksum(&body));
    frame.push(MESSAGE_END);
    assert!(matches!(
        Message::deserialize(&frame),
        Err(DeserializeError::UnrecognizedDiscriminant(0x99))
    ));
}

#[test]
fn short_param_block_is_too_short() {
    // a set-parameter command with only three of its seven bytes
    let inner = [0x68u8, 0x02, 0x01, 0x00];
    let mut body: Vec<u8> = vec![0x0C, 0x00, 0x00, 0x00, 0x00, inner.len() as u8];
    body.extend_from_slice(&inner);
    let mut frame = vec![MESSAGE_START];
    frame.extend_from_slice(&body);
    frame.push(checksum(&body));
    frame.push(MESSAGE_END);
    assert!(matches!(
        Message::deserialize(&frame),
        Err(DeserializeError::TooShort)
    ));
}

#[test]
fn data_type_codes() {
    assert_eq!(DataType::Ack.code(), 1);
    assert_eq!(DataType::DataMdr.code(), 12);
    assert_eq!(DataType::from_code(1), DataType::Ack);
    assert_eq!(DataType::from_code(12), DataType::DataMdr);
    assert_eq!(DataType::from_code(0xFF), DataType::Unknown);
}

#[test]
fn command_type_codes() {
    assert_eq!(CommandType::NcAsmSetParam.code(), 0x68);
    assert_eq!(CommandType::NcAsmNtfyParam.code(), 0x69);
    assert_eq!(CommandType::from_code(0x68), CommandType::NcAsmSetParam);
    assert_eq!(CommandType::from_code(0x69), CommandType::NcAsmNtfyParam);
    assert_eq!(CommandType::from_code(0x00), CommandType::Unknown);
}

#[test]
fn data_type_of_payloads() {
    assert_eq!(Data::Ack(Ack {}).data_type(), DataType::Ack);
    assert_eq!(
        Data::DataMdr(DataMdr {
            command: Command::Unknown(vec![])
        })
        .data_type(),
        DataType::DataMdr
    );
    assert_eq!(Data::Unknown(vec![1]).data_type(), DataType::Unknown);
}

#[test]
fn requires_ack_only_for_commands() {
    let mdr = Message {
        sequence_number: 0,
        data: Data::DataMdr(DataMdr {
            command: Command::NcAsmSetParam(set_param()),
        }),
    };
    let ack = Message {
        sequence_number: 0,
        data: Data::Ack(Ack {}),
    };
    let unknown = Message {
        sequence_number: 0,
        data: Data::Unknown(vec![]),
    };
    assert!(mdr.requires_ack());
    assert!(!ack.requires_ack());
    assert!(!unknown.requires_ack());
}

#[test]
fn param_block_serializes_in_field_order() {
    let p = set_param();
    assert_eq!(p.serialize(), vec![0x02, 0x01, 0x02, 0x02, 0x01, 0x00, 0x07]);
}

#[test]
fn enum_codes_round_trip() {
    assert_eq!(NcAsmEffect::from_code(16), Some(NcAsmEffect::AdjustmentInProgress));
    assert_eq!(NcAsmEffect::from_code(17), Some(NcAsmEffect::AdjustmentCompletion));
    assert_eq!(NcAsmEffect::from_code(2), None);
    assert_eq!(NcAsmInquiredType::from_code(3), Some(NcAsmInquiredType::AmbientSoundMode));
    assert_eq!(NcDualSingleValue::from_code(2), Some(NcDualSingleValue::Dual));
    assert_eq!(AsmId::from_code(1), Some(AsmId::Voice));
    assert_eq!(AsmId::Voice.code(), 1);
}

#[test]
fn serializable_trait_round_trips() {
    let m = Message {
        sequence_number: 11,
        data: Data::DataMdr(DataMdr {
            command: Command::NcAsmNtfyParam(ntfy_param()),
        }),
    };
    let bytes = Serializable::serialize(&m);
    let back = <Message as Serializable>::deserialize(&bytes).unwrap();
    assert_eq!(back, m);
}

#[test]
fn ack_payload_codec() {
    assert_eq!(Ack::serialize(&Ack {}), Vec::<u8>::new());
    assert!(Ack::deserialize(&[]).is_ok());
    assert!(matches!(
        Ack::deserialize(&[0x09]),
        Err(DeserializeError::InvalidLength(0x09))
    ));
}

#[test]
fn command_payload_codec() {
    // an empty command payload lacks even its tag byte
    assert!(matches!(
        DataMdr::deserialize(&[]),
        Err(DeserializeError::TooShort)
    ));
    // an unknown tag keeps the remaining bytes
    let m = DataMdr::deserialize(&[0x20, 1, 2]).unwrap();
    assert_eq!(m.command, Command::Unknown(vec![1, 2]));
}
