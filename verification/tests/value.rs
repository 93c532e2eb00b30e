use wamr_rust_sdk::value::WasmValue;

#[test]
fn test_encode() {
    let params = vec![WasmValue::I32(1), WasmValue::I64(2)];

    let mut ret: Vec<u32> = Vec::new();
    for p in params {
        ret.append(&mut p.encode());
    }

    assert_eq!(ret.len(), 3);
    assert_eq!(ret, vec![1, 2, 0]);
}

#[test]
fn test_encode_decode() {
    let values = vec![
        WasmValue::I32(1),
        WasmValue::I64(2),
        WasmValue::F32((3.0f32).to_bits()),
        WasmValue::F64((4.0f64).to_bits()),
        WasmValue::V128(5),
    ];

    let mut binary: Vec<u32> = Vec::new();
    for v in &values {
        binary.append(&mut v.encode());
    }

    let mut decoded_values: Vec<WasmValue> = Vec::new();
    decoded_values.push(WasmValue::decode_to_i32(binary[0..1].to_vec()));
    decoded_values.push(WasmValue::decode_to_i64(binary[1..3].to_vec()));
    decoded_values.push(WasmValue::decode_to_f32(binary[3..4].to_vec()));
    decoded_values.push(WasmValue::decode_to_f64(binary[4..6].to_vec()));
    decoded_values.push(WasmValue::decode_to_v128(binary[6..10].to_vec()));

    assert_eq!(values, decoded_values);
}

#[test]
fn test_round_trip_integer_extremes() {
    for v in [
        WasmValue::I32(i32::MIN),
        WasmValue::I32(i32::MAX),
        WasmValue::I32(-1),
        WasmValue::I32(0),
    ] {
        assert_eq!(WasmValue::decode_to_i32(v.encode()), v);
    }
    for v in [
        WasmValue::I64(i64::MIN),
        WasmValue::I64(i64::MAX),
        WasmValue::I64(-1),
        WasmValue::I64(0),
    ] {
        assert_eq!(WasmValue::decode_to_i64(v.encode()), v);
    }
    for v in [
        WasmValue::V128(i128::MIN),
        WasmValue::V128(i128::MAX),
        WasmValue::V128(-1),
        WasmValue::V128(0),
    ] {
        assert_eq!(WasmValue::decode_to_v128(v.encode()), v);
    }
}

#[test]
fn test_round_trip_nan_bit_patterns() {
    let f32_patterns = [
        f32::NAN.to_bits(),
        0x7FC0_0001u32, // quiet NaN with a payload
        0x7F80_0001u32, // signaling NaN
        0xFFC0_0000u32, // negative NaN
        (-0.0f32).to_bits(),
        f32::INFINITY.to_bits(),
    ];
    for bits in f32_patterns {
        let v = WasmValue::F32(bits);
        let decoded = WasmValue::decode_to_f32(v.encode());
        assert_eq!(decoded, v);
        if let WasmValue::F32(back) = decoded {
            assert_eq!(back, bits, "bit pattern must survive exactly");
            assert_eq!(f32::from_bits(back).is_nan(), f32::from_bits(bits).is_nan());
        } else {
            panic!("decoded to the wrong kind");
        }
    }

    let f64_patterns = [
        f64::NAN.to_bits(),
        0x7FF8_0000_0000_0001u64,
        0x7FF0_0000_0000_0001u64,
        (-0.0f64).to_bits(),
        f64::NEG_INFINITY.to_bits(),
    ];
    for bits in f64_patterns {
        let v = WasmValue::F64(bits);
        let decoded = WasmValue::decode_to_f64(v.encode());
        assert_eq!(decoded, v);
        if let WasmValue::F64(back) = decoded {
            assert_eq!(back, bits, "bit pattern must survive exactly");
        } else {
            panic!("decoded to the wrong kind");
        }
    }
}

#[test]
fn test_word_layout_little_endian() {
    assert_eq!(WasmValue::I32(-1).encode(), vec![0xFFFF_FFFFu32]);
    assert_eq!(WasmValue::I64(1).encode(), vec![1, 0]);
    assert_eq!(WasmValue::I64(-1).encode(), vec![0xFFFF_FFFFu32, 0xFFFF_FFFFu32]);

    let bits = 1.0f64.to_bits();
    assert_eq!(
        WasmValue::F64(bits).encode(),
        vec![bits as u32, (bits >> 32) as u32]
    );

    let x = 0x0102_0304_0506_0708_090A_0B0C_0D0E_0F10i128;
    assert_eq!(
        WasmValue::V128(x).encode(),
        vec![0x0D0E_0F10, 0x090A_0B0C, 0x0506_0708, 0x0102_0304]
    );
}
