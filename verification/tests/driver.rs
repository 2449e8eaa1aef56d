use sensor_modbus::crc::compute_crc16;
use sensor_modbus::error::DriverError;
use sensor_modbus::frame::{Decoded, Request, decode_response_frame, encode_request};
use sensor_modbus::models::{DataBits, Dev, Parity, Single, StopBits, Ty, Value, Var};
use sensor_modbus::sensor::{build_request, decode_response, get_info, get_request_bytes, get_rs};

/// A recorded response frame from the device: address 1, function 3, four
/// payload bytes `03 10 00 d7`, check `bb ec`.
const RESPONSE: [u8; 9] = [0x01, 0x03, 0x04, 0x03, 0x10, 0x00, 0xd7, 0xbb, 0xec];

#[test]
fn test() {
    let data = [0x01u8, 0x03, 0x04, 0x03, 0x10, 0x00, 0xd7, 0xbb, 0xec].to_vec();
    get_rs(1, 1, data).unwrap().unwrap();
}

#[test]
fn request_bytes_are_wire_exact() {
    let req = get_request_bytes(1, 1).unwrap();
    assert_eq!(req, vec![0x01, 0x03, 0x00, 0x00, 0x00, 0x02, 0xc4, 0x0b]);
}

#[test]
fn request_carries_address_and_valid_check() {
    let req = get_request_bytes(9, 1).unwrap();
    assert_eq!(req.len(), 8);
    assert_eq!(req[0], 9);
    assert_eq!(req[1], 0x03);
    let check = compute_crc16(&req[..6]);
    assert_eq!(req[6], (check % 256) as u8);
    assert_eq!(req[7], (check / 256) as u8);
}

#[test]
fn encoder_serializes_registers_big_endian() {
    let req = Request::read_multiple_holding_registers_request(2, 0x0105, 0x0300);
    let frame = encode_request(&req);
    assert_eq!(&frame[..6], &[0x02, 0x03, 0x01, 0x05, 0x03, 0x00]);
    let check = compute_crc16(&frame[..6]);
    assert_eq!(frame[6], (check % 256) as u8);
    assert_eq!(frame[7], (check / 256) as u8);
}

#[test]
fn round_trip_recorded_frame() {
    let req = build_request(1, 1).unwrap();
    assert_eq!(req, vec![0x01, 0x03, 0x00, 0x00, 0x00, 0x02, 0xc4, 0x0b]);
    let reading = decode_response(1, 1, RESPONSE.to_vec()).unwrap();
    assert!(reading.is_some());
}

#[test]
fn scaling_combines_registers_and_divides_by_ten() {
    // Payload registers [0x0310, 0x00d7]: the reading combines the second
    // register's two bytes big-endian (0x00d7 = 215) and scales to 21.5.
    let reading = get_rs(1, 1, RESPONSE.to_vec()).unwrap().unwrap();
    assert_eq!(reading, b"{\"F32\":21.5}".to_vec());
    let parsed: serde_json::Value = serde_json::from_slice(&reading).unwrap();
    assert_eq!(parsed["F32"].as_f64().unwrap(), 21.5);
    assert_eq!(parsed["F32"].as_f64().unwrap(), (215u16 as f32 / 10.0) as f64);
}

#[test]
fn unknown_key_fails_builder_and_decoder() {
    for key in [0u8, 2, 3, 200, 255] {
        assert_eq!(get_request_bytes(1, key).unwrap_err(), DriverError::UnknownKey);
        // The decoder fails with the same, never with a parse-related
        // error, whatever bytes are present.
        assert_eq!(get_rs(1, key, vec![]).unwrap_err(), DriverError::UnknownKey);
        assert_eq!(get_rs(1, key, RESPONSE.to_vec()).unwrap_err(), DriverError::UnknownKey);
        assert_eq!(get_rs(1, key, vec![0xff; 300]).unwrap_err(), DriverError::UnknownKey);
        assert_eq!(build_request(1, key).unwrap_err(), "unknown collect key".to_string());
        assert_eq!(decode_response(1, key, vec![]).unwrap_err(), "unknown collect key".to_string());
    }
}

#[test]
fn strict_prefixes_need_more_data() {
    for n in 0..RESPONSE.len() {
        let part = RESPONSE[..n].to_vec();
        assert_eq!(get_rs(1, 1, part).unwrap(), None, "prefix of {} bytes", n);
    }
    assert!(get_rs(1, 1, RESPONSE.to_vec()).unwrap().is_some());
}

#[test]
fn trailing_bytes_do_not_change_the_result() {
    let plain = get_rs(1, 1, RESPONSE.to_vec()).unwrap().unwrap();
    for tail in [vec![0x00], vec![0xff, 0xff], vec![0x01, 0x03, 0x04]] {
        let mut extended = RESPONSE.to_vec();
        extended.extend(tail);
        assert_eq!(get_rs(1, 1, extended).unwrap().unwrap(), plain);
    }
}

#[test]
fn every_single_byte_corruption_of_payload_or_check_is_detected() {
    // Corrupt each payload byte, the address byte and both check bytes, in
    // every possible way; the integrity check must catch each one.
    for i in [0usize, 3, 4, 5, 6, 7, 8] {
        for mask in 1u8..=255 {
            let mut bad = RESPONSE.to_vec();
            bad[i] ^= mask;
            assert_eq!(
                get_rs(1, 1, bad).unwrap_err(),
                DriverError::IntegrityCheckFailed,
                "corruption at byte {} with mask {:#x} went undetected",
                i,
                mask
            );
        }
    }
}

#[test]
fn wrong_function_code_is_an_unexpected_frame_type() {
    let mut bad = RESPONSE.to_vec();
    bad[1] = 0x04;
    assert_eq!(get_rs(1, 1, bad).unwrap_err(), DriverError::UnexpectedFrameType);
    let mut exception = RESPONSE.to_vec();
    exception[1] = 0x83;
    assert_eq!(get_rs(1, 1, exception).unwrap_err(), DriverError::UnexpectedFrameType);
}

#[test]
fn short_payload_is_insufficient_registers() {
    // A well-formed frame of the right operation whose payload holds only
    // one register: too short for the scaling step.
    let mut frame = vec![0x01u8, 0x03, 0x02, 0xaa, 0xbb];
    let check = compute_crc16(&frame);
    frame.push((check % 256) as u8);
    frame.push((check / 256) as u8);
    assert_eq!(get_rs(1, 1, frame).unwrap_err(), DriverError::InsufficientRegisters);
}

#[test]
fn describe_is_deterministic_and_canonical() {
    let first = get_info();
    let second = get_info();
    assert_eq!(first, second);
    let expected = "{\"name\":\"20-485型大气压温湿度三合一变送器\",\"ty\":{\"ModbusRtu\":{\"baud_rate\":9600,\"data_bits\":\"Eight\",\"parity\":\"None\",\"stop_bits\":\"One\",\"timeout\":200}},\"vars\":[{\"name\":\"温度\",\"collect_key\":1,\"unit\":\"摄氏度\"}]}";
    assert_eq!(String::from_utf8(first).unwrap(), expected);
}

#[test]
fn describe_output_parses_as_json() {
    let info = get_info();
    let parsed: serde_json::Value = serde_json::from_slice(&info).unwrap();
    assert_eq!(parsed["name"].as_str().unwrap(), "20-485型大气压温湿度三合一变送器");
    let transport = &parsed["ty"]["ModbusRtu"];
    assert_eq!(transport["baud_rate"].as_u64().unwrap(), 9600);
    assert_eq!(transport["data_bits"].as_str().unwrap(), "Eight");
    assert_eq!(transport["parity"].as_str().unwrap(), "None");
    assert_eq!(transport["stop_bits"].as_str().unwrap(), "One");
    assert_eq!(transport["timeout"].as_u64().unwrap(), 200);
    let vars = parsed["vars"].as_array().unwrap();
    assert_eq!(vars.len(), 1);
    assert_eq!(vars[0]["name"].as_str().unwrap(), "温度");
    assert_eq!(vars[0]["collect_key"].as_u64().unwrap(), 1);
    assert_eq!(vars[0]["unit"].as_str().unwrap(), "摄氏度");
}

#[test]
fn value_encoding_keeps_one_fractional_digit() {
    assert_eq!(Value::F32 { tenths: 215 }.to_json().unwrap(), b"{\"F32\":21.5}".to_vec());
    assert_eq!(Value::F32 { tenths: 0 }.to_json().unwrap(), b"{\"F32\":0.0}".to_vec());
    assert_eq!(Value::F32 { tenths: 7 }.to_json().unwrap(), b"{\"F32\":0.7}".to_vec());
    assert_eq!(Value::F32 { tenths: 40 }.to_json().unwrap(), b"{\"F32\":4.0}".to_vec());
    assert_eq!(Value::F32 { tenths: 65535 }.to_json().unwrap(), b"{\"F32\":6553.5}".to_vec());
}

#[test]
fn var_encoding_omits_absent_unit() {
    let with_unit = Var {
        name: "温度".to_string(),
        collect_key: 1,
        unit: Some("摄氏度".to_string()),
    };
    assert_eq!(
        String::from_utf8(with_unit.to_json()).unwrap(),
        "{\"name\":\"温度\",\"collect_key\":1,\"unit\":\"摄氏度\"}"
    );
    let without_unit = Var { name: "flow".to_string(), collect_key: 42, unit: None };
    assert_eq!(
        String::from_utf8(without_unit.to_json()).unwrap(),
        "{\"name\":\"flow\",\"collect_key\":42}"
    );
}

#[test]
fn string_fields_are_json_escaped() {
    // Quote, backslash and control characters in a name or unit must come
    // out as the JSON escapes for them, exactly as serde_json writes them.
    let awkward = "a\"b\\c\nd\te\u{8}f\u{c}g\rh\u{1f}i\u{7f}j";
    let var = Var {
        name: awkward.to_string(),
        collect_key: 3,
        unit: Some("\"\\\u{0}".to_string()),
    };
    let encoded = String::from_utf8(var.to_json()).unwrap();
    assert_eq!(
        encoded,
        "{\"name\":\"a\\\"b\\\\c\\nd\\te\\bf\\fg\\rh\\u001fi\u{7f}j\",\"collect_key\":3,\"unit\":\"\\\"\\\\\\u0000\"}"
    );
    let expected = format!(
        "{{\"name\":{},\"collect_key\":3,\"unit\":{}}}",
        serde_json::to_string(awkward).unwrap(),
        serde_json::to_string("\"\\\u{0}").unwrap()
    );
    assert_eq!(encoded, expected);
    let parsed: serde_json::Value = serde_json::from_slice(encoded.as_bytes()).unwrap();
    assert_eq!(parsed["name"].as_str().unwrap(), awkward);
    assert_eq!(parsed["unit"].as_str().unwrap(), "\"\\\u{0}");
}

#[test]
fn device_name_is_json_escaped() {
    let dev = Dev {
        name: "line1\nline2 \"quoted\"".to_string(),
        ty: Ty::ModbusRtu(Single {
            baud_rate: 9600,
            data_bits: DataBits::Eight,
            parity: Parity::NoParity,
            stop_bits: StopBits::One,
            timeout_ms: 200,
        }),
        vars: vec![],
    };
    let encoded = dev.to_json();
    let parsed: serde_json::Value = serde_json::from_slice(&encoded).unwrap();
    assert_eq!(parsed["name"].as_str().unwrap(), "line1\nline2 \"quoted\"");
    assert_eq!(parsed["vars"].as_array().unwrap().len(), 0);
}

#[test]
fn transport_encoding_lists_every_field() {
    let ty = Ty::ModbusRtu(Single {
        baud_rate: 115200,
        data_bits: DataBits::Seven,
        parity: Parity::Even,
        stop_bits: StopBits::Two,
        timeout_ms: 1000,
    });
    assert_eq!(
        String::from_utf8(ty.to_json()).unwrap(),
        "{\"ModbusRtu\":{\"baud_rate\":115200,\"data_bits\":\"Seven\",\"parity\":\"Even\",\"stop_bits\":\"Two\",\"timeout\":1000}}"
    );
}

#[test]
fn error_messages_cover_the_taxonomy() {
    assert_eq!(DriverError::UnknownKey.message(), "unknown collect key");
    assert_eq!(DriverError::UnexpectedFrameType.message(), "unexpected frame type");
    assert_eq!(DriverError::IntegrityCheckFailed.message(), "integrity check failed");
    assert_eq!(DriverError::InsufficientRegisters.message(), "insufficient registers in response");
    assert_eq!(DriverError::NonFiniteValue.message(), "reading value is not finite");
}

#[test]
fn frame_decoder_reports_the_reading_in_tenths() {
    match decode_response_frame(0x03, &RESPONSE) {
        Decoded::Reading(Value::F32 { tenths }) => assert_eq!(tenths, 215),
        other => panic!("expected a reading, got {:?}", other),
    }
    assert_eq!(decode_response_frame(0x03, &RESPONSE[..4]), Decoded::NeedMoreData);
}

#[test]
fn boundary_decode_flattens_errors_to_text() {
    let mut bad = RESPONSE.to_vec();
    bad[5] ^= 0x01;
    assert_eq!(decode_response(1, 1, bad).unwrap_err(), "integrity check failed".to_string());
    assert_eq!(decode_response(1, 1, RESPONSE[..3].to_vec()).unwrap(), None);
}
