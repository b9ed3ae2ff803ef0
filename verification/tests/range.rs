use servo_calibration::bus::{Action, Payload};
use servo_calibration::eeprom::write_servo_memory;
use servo_calibration::range::{compute_range, decode_offset, encode_offset, CalibrationRange};

#[test]
fn forward_above_backward_adds_no_revolution() {
    for backward in (0u16..=4095).step_by(7) {
        for forward in (backward + 1..=4095).step_by(13) {
            let range = compute_range(forward, backward);
            assert_eq!(range.min_angle, backward);
            assert_eq!(range.max_angle, forward);
        }
    }
    let range = compute_range(4095, 0);
    assert_eq!(range, CalibrationRange { min_angle: 0, max_angle: 4095 });
    let range = compute_range(1, 0);
    assert_eq!(range, CalibrationRange { min_angle: 0, max_angle: 1 });
}

#[test]
fn forward_at_or_below_backward_adds_one_revolution() {
    for forward in (0u16..=4095).step_by(7) {
        for backward in (forward..=4095).step_by(13) {
            let range = compute_range(forward, backward);
            assert_eq!(range.min_angle, backward);
            assert_eq!(range.max_angle, forward + 4096);
            assert!(range.max_angle > range.min_angle);
        }
    }
    let range = compute_range(0, 0);
    assert_eq!(range, CalibrationRange { min_angle: 0, max_angle: 4096 });
    let range = compute_range(4095, 4095);
    assert_eq!(range, CalibrationRange { min_angle: 4095, max_angle: 8191 });
    let range = compute_range(0, 4095);
    assert_eq!(range, CalibrationRange { min_angle: 4095, max_angle: 4096 });
}

#[test]
fn upper_limit_always_above_lower_limit() {
    for forward in (0u16..=4095).step_by(5) {
        for backward in (0u16..=4095).step_by(11) {
            let range = compute_range(forward, backward);
            assert!(range.max_angle > range.min_angle);
            assert!(range.max_angle - range.min_angle <= 4096);
        }
    }
}

#[test]
fn offset_code_round_trips() {
    for offset in -2047i16..=2047 {
        let code = encode_offset(offset);
        assert!(code < 4096);
        assert_eq!(decode_offset(code), offset);
    }
}

#[test]
fn offset_code_is_sign_and_magnitude() {
    assert_eq!(encode_offset(0), 0);
    assert_eq!(encode_offset(1), 1);
    assert_eq!(encode_offset(-1), 0x801);
    assert_eq!(encode_offset(2047), 0x7FF);
    assert_eq!(encode_offset(-2047), 0xFFF);
    assert_eq!(encode_offset(1975), 0x7B7);
    assert_eq!(encode_offset(-398), (398 & 0x7FF) | 0x800);
    for offset in 0i16..=2047 {
        assert_eq!(encode_offset(offset), offset as u16);
        assert_eq!(encode_offset(-offset) & 0x7FF, offset as u16);
    }
    for offset in 1i16..=2047 {
        assert_eq!(encode_offset(-offset) & 0x800, 0x800);
        assert_eq!(encode_offset(offset) & 0x800, 0);
    }
}

#[test]
fn lowest_offset_loses_its_magnitude() {
    assert_eq!(encode_offset(-2048), 0x800);
    assert_eq!(decode_offset(encode_offset(-2048)), 0);
}

#[test]
fn magnitude_beyond_eleven_bits_is_cut() {
    assert_eq!(encode_offset(2048), 0);
    assert_eq!(encode_offset(4095), 0x7FF);
    assert_eq!(encode_offset(i16::MAX), 0x7FF);
    assert_eq!(encode_offset(i16::MIN), 0x800);
    assert_eq!(encode_offset(-4095), 0xFFF);
}

#[test]
fn decoding_ignores_bits_above_the_sign() {
    assert_eq!(decode_offset(0x0000), 0);
    assert_eq!(decode_offset(0x0800), 0);
    assert_eq!(decode_offset(0x098E), -398);
    assert_eq!(decode_offset(0xF98E), -398);
    assert_eq!(decode_offset(0x07B7), 1975);
    assert_eq!(decode_offset(0x17B7), 1975);
    assert_eq!(decode_offset(0xFFFF), -2047);
    for code in 0u16..4096 {
        if code != 0x800 {
            assert_eq!(encode_offset(decode_offset(code)), code);
        }
    }
}

#[test]
fn range_without_wraparound() {
    let range = compute_range(3200, 100);
    assert_eq!(range.min_angle, 100);
    assert_eq!(range.max_angle, 3200);
    assert_eq!(range.center_distance(), 1550);
    assert_eq!(range.offset(), -398);
    assert_eq!(range.offset(), 100 + 1550 - 2048);
    assert_eq!(range.encoded_offset(), (398 & 0x7FF) | 0x800);
    assert_eq!(range.encoded_offset(), 0x98E);
    assert_eq!(encode_offset(range.offset()), range.encoded_offset());
}

#[test]
fn range_with_wraparound() {
    let range = compute_range(50, 3900);
    assert_eq!(range.max_angle, 50 + 4096);
    assert_eq!(range.max_angle, 4146);
    assert_eq!(range.min_angle, 3900);
    assert_eq!(range.center_distance(), 123);
    assert_eq!(range.offset(), 1975);
    assert_eq!(range.offset(), 3900 + 123 - 2048);
    assert_eq!(range.encoded_offset(), 0x7B7);
    assert_eq!(range.encoded_offset() & 0x800, 0);
}

#[test]
fn center_distance_rounds_down() {
    assert_eq!(compute_range(1, 0).center_distance(), 0);
    assert_eq!(compute_range(2, 0).center_distance(), 1);
    assert_eq!(compute_range(3, 0).center_distance(), 1);
    assert_eq!(compute_range(4095, 0).center_distance(), 2047);
    assert_eq!(compute_range(0, 0).center_distance(), 2048);
    assert_eq!(compute_range(0, 4095).center_distance(), 0);
}

#[test]
fn offset_extremes() {
    assert_eq!(compute_range(1, 0).offset(), -2048);
    assert_eq!(compute_range(1, 0).encoded_offset(), 0x800);
    assert_eq!(compute_range(4095, 4094).offset(), 2046);
    assert_eq!(compute_range(4095, 4095).offset(), 4095);
    assert_eq!(compute_range(4095, 4095).encoded_offset(), 0x7FF);
    for forward in (0u16..=4095).step_by(3) {
        for backward in (0u16..=4095).step_by(17) {
            let range = compute_range(forward, backward);
            let offset = range.offset();
            assert!((-2048..=4095).contains(&offset));
            if backward < forward {
                assert!(offset <= 2047);
            }
            let expected = range.min_angle as i32
                + (range.max_angle as i32 - range.min_angle as i32) / 2
                - 2048;
            assert_eq!(offset as i32, expected);
        }
    }
}

#[test]
fn memory_write_is_little_endian() {
    let action = write_servo_memory(0x1F, 0x098E);
    assert_eq!(
        action,
        Action::WriteRegister { address: 0x1F, data: Payload::Word { low: 0x8E, high: 0x09 } }
    );
    match action {
        Action::WriteRegister { address, data } => {
            assert_eq!(address, 0x1F);
            assert_eq!(data.bytes(), vec![0x8E, 0x09]);
        }
        _ => panic!("a register write was expected"),
    }
    assert_eq!(
        write_servo_memory(0x2A, 2048),
        Action::WriteRegister { address: 0x2A, data: Payload::Word { low: 0x00, high: 0x08 } }
    );
    assert_eq!(
        write_servo_memory(0x0B, 4146),
        Action::WriteRegister { address: 0x0B, data: Payload::Word { low: 0x32, high: 0x10 } }
    );
    for value in [0u16, 1, 255, 256, 0x1234, u16::MAX] {
        match write_servo_memory(0x09, value) {
            Action::WriteRegister { address: 0x09, data } => {
                assert_eq!(data.bytes(), value.to_le_bytes().to_vec());
            }
            other => panic!("unexpected action {:?}", other),
        }
    }
}

#[test]
fn payload_bytes() {
    assert_eq!(Payload::Byte(7).bytes(), vec![7]);
    assert_eq!(Payload::Word { low: 1, high: 2 }.bytes(), vec![1, 2]);
    assert_eq!(Payload::from_word(0xABCD), Payload::Word { low: 0xCD, high: 0xAB });
    assert_eq!(Payload::from_word(0xABCD).bytes(), vec![0xCD, 0xAB]);
}
