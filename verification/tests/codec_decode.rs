use solar_telemetry::codec::{from_be_bytes, to_be_bytes};
use solar_telemetry::decode::{decode_i16, decode_text, decode_u32, DecodeError};
use solar_telemetry::registers::{decode_register, ModbusRegister, RegisterKind, Value};

#[test]
fn codec_emits_two_bytes_per_word_big_endian() {
    let words = vec![0x1234u16, 0xABCD, 0x0001];
    let bytes = to_be_bytes(words);
    assert_eq!(bytes.len(), 6);
    assert_eq!(bytes, vec![0x12u8, 0x34, 0xAB, 0xCD, 0x00, 0x01]);
}

#[test]
fn codec_empty_input_empty_output() {
    assert_eq!(to_be_bytes(vec![]), Vec::<u8>::new());
}

#[test]
fn codec_round_trip_reconstructs_words() {
    let words = vec![0u16, 0xFFFF, 0x00FF, 0xFF00, 40083];
    let bytes = to_be_bytes(words.clone());
    assert_eq!(from_be_bytes(&bytes), words);
}

#[test]
fn signed16_decodes_twos_complement() {
    assert_eq!(decode_i16(&vec![0xFFFF]), Ok(-1));
    assert_eq!(decode_i16(&vec![0x7FFF]), Ok(32767));
    assert_eq!(decode_i16(&vec![0x8000]), Ok(-32768));
}

#[test]
fn signed16_ignores_extra_words() {
    assert_eq!(decode_i16(&vec![0x0002, 0x9999]), Ok(2));
}

#[test]
fn signed16_rejects_empty() {
    assert_eq!(decode_i16(&vec![]), Err(DecodeError::WrongWordCount));
}

#[test]
fn unsigned32_decodes_big_endian() {
    assert_eq!(decode_u32(&vec![0x0001, 0x0000]), Ok(65536));
    assert_eq!(decode_u32(&vec![0x0000, 0x0001]), Ok(1));
    assert_eq!(decode_u32(&vec![0xFFFF, 0xFFFF]), Ok(u32::MAX));
}

#[test]
fn unsigned32_rejects_wrong_word_count() {
    assert_eq!(decode_u32(&vec![0x0001]), Err(DecodeError::WrongWordCount));
    assert_eq!(decode_u32(&vec![]), Err(DecodeError::WrongWordCount));
    assert_eq!(decode_u32(&vec![1, 2, 3]), Err(DecodeError::WrongWordCount));
}

#[test]
fn text_strips_null_padding() {
    assert_eq!(decode_text(vec![0x4142, 0x0000]), Ok("AB".to_string()));
}

#[test]
fn text_strips_nulls_anywhere() {
    // 'A', NUL, NUL, 'B' — embedded padding is discarded, not just trailing.
    assert_eq!(decode_text(vec![0x4100, 0x0042]), Ok("AB".to_string()));
}

#[test]
fn text_rejects_invalid_utf8() {
    assert_eq!(decode_text(vec![0xFFFE]), Err(DecodeError::InvalidUtf8));
}

#[test]
fn text_of_all_nulls_is_empty() {
    assert_eq!(decode_text(vec![0x0000, 0x0000]), Ok(String::new()));
}

#[test]
fn dispatch_selects_decoder_by_kind() {
    let reg = ModbusRegister::new(40083, 1, RegisterKind::Int16);
    assert!(matches!(decode_register(&reg, vec![0xFFFF]), Ok(Value::Int16(-1))));
    let reg = ModbusRegister::new(40226, 2, RegisterKind::UInt32);
    assert!(matches!(decode_register(&reg, vec![0x0001, 0x0000]), Ok(Value::UInt32(65536))));
    let reg = ModbusRegister::new(40000, 2, RegisterKind::Text);
    match decode_register(&reg, vec![0x4142, 0x0000]) {
        Ok(Value::Text(s)) => assert_eq!(s, "AB"),
        other => panic!("unexpected result: {:?}", other),
    }
}

#[test]
fn dispatch_propagates_word_count_errors() {
    let reg = ModbusRegister::new(40226, 2, RegisterKind::UInt32);
    assert!(matches!(
        decode_register(&reg, vec![0x0001]),
        Err(DecodeError::WrongWordCount)
    ));
}
