use gfroerli::measurement::{
    DecodeError, EncodedMeasurement, MeasurementMessage, MAX_MSG_LEN, U12,
};

fn all_fields() -> MeasurementMessage {
    MeasurementMessage {
        t_water: Some(U12::new(0b0000_0101_1010)),
        t_inside: Some(0b1100_0011_1010_0101),
        rh_inside: Some(0b0011_1100_0101_1010),
        v_supply: Some(U12::new(0b1111_1010_0101)),
    }
}

/// The measurement with the fields of `all_fields` whose bit is set in `mask`.
fn subset(mask: u8) -> MeasurementMessage {
    let all = all_fields();
    MeasurementMessage {
        t_water: if mask & 1 != 0 { all.t_water } else { None },
        t_inside: if mask & 2 != 0 { all.t_inside } else { None },
        rh_inside: if mask & 4 != 0 { all.rh_inside } else { None },
        v_supply: if mask & 8 != 0 { all.v_supply } else { None },
    }
}

#[test]
fn measurement_test_measurement_encode_empty() {
    let input = MeasurementMessage::default();
    let expected_result = [0];

    let mut output = EncodedMeasurement([0u8; MAX_MSG_LEN]);
    let length = input.encode(&mut output) as usize;

    assert_eq!(length, 1);
    assert_eq!(output.0[0..length], expected_result);
}

#[test]
fn measurement_test_measurement_encode_t_water() {
    let input = MeasurementMessage {
        t_water: Some(U12::new(0b0000_0101_1010)),
        ..MeasurementMessage::default()
    };
    let expected_result = [1, 0b0000_0101, 0b1010_0000];
    let mut output = EncodedMeasurement([0u8; MAX_MSG_LEN]);

    let length = input.encode(&mut output) as usize;
    println!("{:012b}", input.t_water.unwrap().as_u16());
    let mut line = String::new();
    for b in &output.0[1..length] {
        line += &format!("{:08b} ", b);
    }
    println!("{}", line);
    assert_eq!(length, 3);
    assert_eq!(output.0[0..length], expected_result);
}

#[test]
fn measurement_test_measurement_encode_all() {
    let input = all_fields();
    let expected_result = [
        0x0F,
        0b0000_0101,
        0b1010_1100,
        0b0011_1010,
        0b0101_0011,
        0b1100_0101,
        0b1010_1111,
        0b1010_0101,
    ];
    let mut output = EncodedMeasurement([0u8; MAX_MSG_LEN]);

    let length = input.encode(&mut output) as usize;
    println!("{:012b}", input.t_water.unwrap().as_u16());
    let mut line = String::new();
    for b in &output.0[1..length] {
        line += &format!("{:08b} ", b);
    }
    println!("{}", line);
    assert_eq!(length, MAX_MSG_LEN);
    assert_eq!(output.0[0..length], expected_result);
}

#[test]
fn test_measurement_decode_t_water() {
    let message_raw = vec![
        // Bitmask 00000001: Only t_water
        0b0000_0001,
        // Value: 0000_0101_1010 = 90
        0b0000_0101,
        0b1010_0000,
    ];
    let message = MeasurementMessage::decode(&message_raw).unwrap();
    assert_eq!(message.t_water, Some(U12::new(0b0000_0101_1010)));
}

#[test]
fn test_measurement_decode_t_inside() {
    let message_raw = vec![
        // Bitmask 00000010: Only t_inside
        0b0000_0010,
        // Value: 0000_0101_1010_0000 = 1440
        0b0000_0101,
        0b1010_0000,
    ];
    let message = MeasurementMessage::decode(&message_raw).unwrap();
    assert_eq!(message.t_inside, Some(0b0000_0101_1010_0000));
}

#[test]
fn test_measurement_encode_decode_roundtrip() {
    // Source message
    let input = all_fields();

    // Encode
    let mut output = EncodedMeasurement([0u8; MAX_MSG_LEN]);
    let length = input.encode(&mut output) as usize;
    let encoded_slice = &output.0[..length];

    // Decode
    let decoded = MeasurementMessage::decode(encoded_slice).unwrap();
    assert_eq!(decoded, input);
}

#[test]
fn decode_t_water_leaves_other_fields_absent() {
    let message = MeasurementMessage::decode(&[0b0000_0001, 0b0000_0101, 0b1010_0000]).unwrap();
    assert_eq!(message.t_water.map(|v| v.as_u16()), Some(90));
    assert_eq!(message.t_inside, None);
    assert_eq!(message.rh_inside, None);
    assert_eq!(message.v_supply, None);
}

#[test]
fn decode_t_inside_leaves_other_fields_absent() {
    let message = MeasurementMessage::decode(&[0b0000_0010, 0b0000_0101, 0b1010_0000]).unwrap();
    assert_eq!(message.t_inside, Some(1440));
    assert_eq!(message.t_water, None);
    assert_eq!(message.rh_inside, None);
    assert_eq!(message.v_supply, None);
}

#[test]
fn round_trip_every_subset_of_fields() {
    for mask in 0u8..16 {
        let input = subset(mask);
        let mut output = EncodedMeasurement([0xAAu8; MAX_MSG_LEN]);
        let length = input.encode(&mut output);
        let decoded = MeasurementMessage::decode(&output.0[..length]).unwrap();
        assert_eq!(decoded, input, "mask {:04b}", mask);
    }
}

#[test]
fn round_trip_extreme_values() {
    let inputs = [
        MeasurementMessage {
            t_water: Some(U12::new(0)),
            t_inside: Some(0),
            rh_inside: Some(0),
            v_supply: Some(U12::new(0)),
        },
        MeasurementMessage {
            t_water: Some(U12::new(4095)),
            t_inside: Some(65535),
            rh_inside: Some(65535),
            v_supply: Some(U12::new(4095)),
        },
        MeasurementMessage {
            t_water: None,
            t_inside: Some(0x8001),
            rh_inside: None,
            v_supply: Some(U12::new(0x801)),
        },
    ];
    for input in inputs {
        let mut output = EncodedMeasurement([0x55u8; MAX_MSG_LEN]);
        let length = input.encode(&mut output);
        assert_eq!(MeasurementMessage::decode(&output.0[..length]), Ok(input));
    }
}

#[test]
fn encoded_length_of_each_subset() {
    // 1 + ceil(field bits / 8)
    let expected = [1, 3, 3, 5, 3, 5, 5, 7, 3, 4, 5, 6, 5, 6, 7, 8];
    for mask in 0u8..16 {
        let mut output = EncodedMeasurement::new();
        let length = subset(mask).encode(&mut output);
        assert_eq!(length, expected[mask as usize], "mask {:04b}", mask);
        assert!((1..=MAX_MSG_LEN).contains(&length));
    }
}

#[test]
fn encoded_length_is_monotone_in_the_fields() {
    for small in 0u8..16 {
        for large in 0u8..16 {
            if small & large == small {
                let mut a = EncodedMeasurement::new();
                let mut b = EncodedMeasurement::new();
                let la = subset(small).encode(&mut a);
                let lb = subset(large).encode(&mut b);
                assert!(la <= lb, "{:04b} vs {:04b}", small, large);
            }
        }
    }
}

#[test]
fn mask_byte_flags_present_fields() {
    for mask in 0u8..16 {
        let mut output = EncodedMeasurement([0xFFu8; MAX_MSG_LEN]);
        subset(mask).encode(&mut output);
        assert_eq!(output.0[0], mask);
        assert_eq!(output.0[0] & 0xF0, 0);
    }
}

#[test]
fn encode_leaves_bytes_beyond_length() {
    let input = MeasurementMessage {
        t_water: Some(U12::new(90)),
        ..MeasurementMessage::default()
    };
    let mut output = EncodedMeasurement([0xFFu8; MAX_MSG_LEN]);
    let length = input.encode(&mut output);
    assert_eq!(length, 3);
    // the four bits after the field keep their former value
    assert_eq!(output.0[..3], [1, 0b0000_0101, 0b1010_1111]);
    assert_eq!(output.0[3..], [0xFF; 5]);
}

#[test]
fn encode_empty_record_on_dirty_buffer() {
    let mut output = EncodedMeasurement([0x77u8; MAX_MSG_LEN]);
    let length = MeasurementMessage::default().encode(&mut output);
    assert_eq!(length, 1);
    assert_eq!(output.0[0], 0);
    assert_eq!(output.0[1..], [0x77; 7]);
}

#[test]
fn decode_empty_slice_is_malformed() {
    assert_eq!(MeasurementMessage::decode(&[]), Err(DecodeError::MalformedInput));
}

#[test]
fn decode_short_slice_is_malformed() {
    assert_eq!(
        MeasurementMessage::decode(&[0b0000_0001, 0b0000_0101]),
        Err(DecodeError::MalformedInput)
    );
    assert_eq!(
        MeasurementMessage::decode(&[0x0F, 0, 0, 0, 0, 0, 0]),
        Err(DecodeError::MalformedInput)
    );
}

#[test]
fn decode_mask_only() {
    let message = MeasurementMessage::decode(&[0]).unwrap();
    assert_eq!(message, MeasurementMessage::default());
}

#[test]
fn decode_ignores_high_mask_bits_and_trailing_bytes() {
    let message = MeasurementMessage::decode(&[0xF1, 0b0000_0101, 0b1010_0000, 0x99]).unwrap();
    assert_eq!(message.t_water, Some(U12::new(90)));
    assert_eq!(message.t_inside, None);
    assert_eq!(message.rh_inside, None);
    assert_eq!(message.v_supply, None);
}

#[test]
fn decode_all_fields() {
    let raw = [
        0x0F,
        0b0000_0101,
        0b1010_1100,
        0b0011_1010,
        0b0101_0011,
        0b1100_0101,
        0b1010_1111,
        0b1010_0101,
    ];
    assert_eq!(MeasurementMessage::decode(&raw), Ok(all_fields()));
}

#[test]
fn u12_clamps_large_values() {
    assert_eq!(U12::new(4096).as_u16(), 4095);
    assert_eq!(U12::new(4095).as_u16(), 4095);
    assert_eq!(U12::new(0).as_u16(), 0);
    assert_eq!(U12::new(u16::MAX).as_u16(), 4095);
    assert_eq!(U12::new(0x1234).as_u16(), 4095);
    assert_eq!(U12::new(90).as_u16(), 90);
}

#[test]
fn message_from_readings() {
    let message = MeasurementMessage::from_readings(Some(5000), Some((0x1234, 0x5678)), None);
    assert_eq!(message.t_water, Some(U12::new(4095)));
    assert_eq!(message.t_inside, Some(0x1234));
    assert_eq!(message.rh_inside, Some(0x5678));
    assert_eq!(message.v_supply, None);
    let message = MeasurementMessage::from_readings(None, None, Some(U12::new(7)));
    assert_eq!(message.t_water, None);
    assert_eq!(message.t_inside, None);
    assert_eq!(message.v_supply.map(|v| v.as_u16()), Some(7));
}
