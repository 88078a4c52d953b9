use lumicontrol::float_bits::F64Bits;
use lumicontrol::protocol::{
    decode_frame, encode_frame, message_kind, negotiate_protocol, trim_ascii_whitespace,
    Capability, DeviceInfo, EventEnvelope, EventMessageType, Message, MessageKind, ProtocolError,
    RelayStatus, RequestEnvelope, RequestMessageType, ResponseEnvelope, ResponseMessageType,
    SampleQuality, SensorSample, StreamConfigureParams, MAX_FRAME_BYTES, PROTOCOL_VERSION,
};

fn sensor_device() -> DeviceInfo {
    DeviceInfo {
        product_id: "lumi-sensor".to_string(),
        serial_number: "LC24000122".to_string(),
        hardware_version: "1.0".to_string(),
        firmware_version: "2.0.0".to_string(),
        bootloader_version: "1.0.0".to_string(),
        protocol_min: 2,
        protocol_max: 2,
        capabilities: vec![Capability::AmbientLux],
    }
}

fn payload(error: ProtocolError) -> String {
    match error {
        ProtocolError::InvalidPayload(message) => message,
        other => panic!("expected an invalid payload, got {other:?}"),
    }
}

fn request(command: &str) -> RequestEnvelope {
    RequestEnvelope {
        message_type: RequestMessageType::Request,
        protocol: PROTOCOL_VERSION,
        id: 17,
        command: command.to_string(),
        params: serde_json::Value::Null,
    }
}

#[test]
fn both_supported_profiles_validate_through_capabilities() {
    let sensor = sensor_device();
    sensor.validate().unwrap();
    assert!(!sensor.supports(Capability::Relay));

    let mut relay = sensor;
    relay.product_id = "lumi-sensor-relay".to_string();
    relay.capabilities.push(Capability::Relay);
    relay.validate().unwrap();
    assert!(relay.supports(Capability::Relay));
}

#[test]
fn product_identity_must_match_the_capability_table() {
    let mut unknown = sensor_device();
    unknown.product_id = "unrelated-device".to_string();
    assert!(unknown.validate().is_err());

    let mut inconsistent = sensor_device();
    inconsistent.capabilities.push(Capability::Relay);
    assert!(inconsistent.validate().is_err());

    let mut duplicate = sensor_device();
    duplicate.capabilities.push(Capability::AmbientLux);
    assert!(duplicate.validate().is_err());
}

#[test]
fn stream_configuration_enforces_documented_limits() {
    StreamConfigureParams {
        ambient_lux_interval_ms: 1000,
        include_status_every: 30,
    }
    .validate()
    .unwrap();
    assert!(StreamConfigureParams {
        ambient_lux_interval_ms: 199,
        include_status_every: 30,
    }
    .validate()
    .is_err());
}

#[test]
fn device_validation_reports_the_first_failed_check() {
    let mut unknown = sensor_device();
    unknown.product_id = "other".to_string();
    assert_eq!(payload(unknown.validate().unwrap_err()), "unsupported Lumi product_id: other");

    let mut blank = sensor_device();
    blank.serial_number = " \t".to_string();
    assert_eq!(payload(blank.validate().unwrap_err()), "serial_number must contain 1..=64 characters");

    let mut long = sensor_device();
    long.firmware_version = "x".repeat(65);
    assert_eq!(
        payload(long.validate().unwrap_err()),
        "hardware, firmware, and bootloader versions must contain 1..=64 characters"
    );

    let mut inverted = sensor_device();
    inverted.protocol_min = 3;
    inverted.protocol_max = 1;
    assert_eq!(payload(inverted.validate().unwrap_err()), "protocol_min must not exceed protocol_max");

    let mut no_lux = sensor_device();
    no_lux.capabilities = vec![];
    assert_eq!(payload(no_lux.validate().unwrap_err()), "supported Lumi devices must advertise ambient_lux");

    let mut duplicate = sensor_device();
    duplicate.capabilities.push(Capability::AmbientLux);
    assert_eq!(payload(duplicate.validate().unwrap_err()), "capabilities must not contain duplicates");

    let mut relay = sensor_device();
    relay.product_id = "lumi-sensor-relay".to_string();
    assert_eq!(payload(relay.validate().unwrap_err()), "product_id and relay capability do not match");
}

#[test]
fn protocol_negotiation_rejects_incompatible_firmware() {
    let mut device = sensor_device();
    device.protocol_min = 3;
    device.protocol_max = 4;
    assert!(matches!(
        device.validate(),
        Err(ProtocolError::UnsupportedProtocol { minimum: 3, maximum: 4 })
    ));
    assert_eq!(negotiate_protocol(1, 3), Some(2));
    assert_eq!(negotiate_protocol(3, 4), None);
    assert_eq!(device.negotiated_protocol(), None);
}

#[test]
fn response_shape_requires_result_xor_error() {
    let invalid = ResponseEnvelope {
        message_type: ResponseMessageType::Response,
        protocol: 2,
        id: 4,
        ok: true,
        result: None,
        error: None,
    };
    assert_eq!(
        payload(invalid.validate().unwrap_err()),
        "response must contain exactly one of result or error matching ok"
    );
    let valid = ResponseEnvelope {
        message_type: ResponseMessageType::Response,
        protocol: 2,
        id: 4,
        ok: true,
        result: Some(serde_json::Value::Bool(true)),
        error: None,
    };
    assert!(valid.validate().is_ok());
}

#[test]
fn envelopes_check_version_and_names() {
    assert!(request("device.hello").validate().is_ok());
    assert_eq!(payload(request("  ").validate().unwrap_err()), "command must not be empty");
    let mut old = request("device.hello");
    old.protocol = 1;
    assert!(matches!(
        old.validate(),
        Err(ProtocolError::UnsupportedProtocol { minimum: 1, maximum: 1 })
    ));
    let event = EventEnvelope {
        message_type: EventMessageType::Event,
        protocol: 2,
        event: "".to_string(),
        seq: 1,
        uptime_ms: 5,
        data: serde_json::Value::Null,
    };
    assert_eq!(payload(event.validate().unwrap_err()), "event must not be empty");
}

#[test]
fn valid_sample_requires_real_lux_and_errors_do_not_fabricate_it() {
    SensorSample {
        lux: Some(F64Bits::from_bits(67.5f64.to_bits())),
        quality: SampleQuality::Valid,
    }
    .validate()
    .unwrap();
    assert!(SensorSample { lux: None, quality: SampleQuality::Valid }.validate().is_err());
    assert!(SensorSample {
        lux: Some(F64Bits::from_bits(0.0f64.to_bits())),
        quality: SampleQuality::ReadError,
    }
    .validate()
    .is_err());
    assert!(SensorSample {
        lux: Some(F64Bits::from_bits(f64::INFINITY.to_bits())),
        quality: SampleQuality::Valid,
    }
    .validate()
    .is_err());
    assert!(SensorSample { lux: None, quality: SampleQuality::Saturated }.validate().is_ok());
}

#[test]
fn relay_status_must_match_availability() {
    assert!(RelayStatus { available: true, energized: Some(false) }.validate().is_ok());
    assert!(RelayStatus { available: false, energized: None }.validate().is_ok());
    assert_eq!(
        payload(RelayStatus { available: false, energized: Some(true) }.validate().unwrap_err()),
        "relay energized state must match availability"
    );
}

#[test]
fn oversized_frames_are_rejected_before_json_parsing() {
    let frame = vec![b'x'; MAX_FRAME_BYTES + 1];
    assert!(matches!(
        decode_frame(&frame),
        Err(ProtocolError::FrameTooLarge { actual: 1025, maximum: 1024 })
    ));
}

#[test]
fn decoding_names_the_message_kind_from_its_type_member() {
    let (kind, body) = decode_frame(b"  {\"type\":\"event\",\"seq\":1}\r\n").unwrap();
    assert_eq!(kind, MessageKind::Event);
    assert_eq!(body, b"{\"type\":\"event\",\"seq\":1}".to_vec());
    let (kind, _) = decode_frame(b"{\"type\":\"request\"}").unwrap();
    assert_eq!(kind, MessageKind::Request);
    assert!(matches!(decode_frame(b" \n\t"), Err(ProtocolError::EmptyFrame)));
    assert!(matches!(decode_frame(b"{not json"), Err(ProtocolError::Json(_))));
    assert_eq!(payload(decode_frame(b"{\"id\":1}").unwrap_err()), "message type is required");
    assert_eq!(payload(decode_frame(b"[1,2]").unwrap_err()), "message type is required");
    match decode_frame(b"{\"type\":\"ping\"}") {
        Err(ProtocolError::UnknownMessageType(other)) => assert_eq!(other, "ping"),
        other => panic!("unexpected {other:?}"),
    }
}

#[test]
fn message_kinds_are_named_exactly() {
    assert_eq!(message_kind(Some("response".to_string())).unwrap(), MessageKind::Response);
    assert!(matches!(
        message_kind(Some("Response".to_string())),
        Err(ProtocolError::UnknownMessageType(_))
    ));
    assert!(matches!(message_kind(None), Err(ProtocolError::InvalidPayload(_))));
}

#[test]
fn frames_end_with_one_newline_and_respect_the_limit() {
    let message = Message::Request(request("device.hello"));
    let frame = encode_frame(&message, b"{}".to_vec()).unwrap();
    assert_eq!(frame, b"{}\n".to_vec());
    let big = vec![b' '; MAX_FRAME_BYTES];
    assert!(matches!(
        encode_frame(&message, big),
        Err(ProtocolError::FrameTooLarge { actual: 1025, maximum: 1024 })
    ));
    let invalid = Message::Request(request(""));
    assert!(encode_frame(&invalid, b"{}".to_vec()).is_err());
}

#[test]
fn ascii_whitespace_is_trimmed_from_both_ends() {
    assert_eq!(trim_ascii_whitespace(b" \t a b \r\n"), b"a b".to_vec());
    assert_eq!(trim_ascii_whitespace(b"\x0b"), b"\x0b".to_vec());
    assert!(trim_ascii_whitespace(b"   ").is_empty());
}

#[test]
fn request_round_trips_as_one_json_line() {
    let request = request("device.hello");
    let mut object = serde_json::Map::new();
    object.insert("type".to_string(), serde_json::Value::from("request"));
    object.insert("protocol".to_string(), serde_json::Value::from(request.protocol));
    object.insert("id".to_string(), serde_json::Value::from(request.id));
    object.insert("command".to_string(), serde_json::Value::from(request.command.clone()));
    object.insert("params".to_string(), request.params.clone());
    let json = serde_json::to_vec(&serde_json::Value::Object(object)).unwrap();
    let encoded = encode_frame(&Message::Request(request), json.clone()).unwrap();
    assert_eq!(encoded.last(), Some(&b'\n'));
    let (kind, body) = decode_frame(&encoded).unwrap();
    assert_eq!(kind, MessageKind::Request);
    assert_eq!(body, json);
    let decoded: serde_json::Value = serde_json::from_slice(&body).unwrap();
    assert_eq!(decoded["id"], 17);
    assert_eq!(decoded["command"], "device.hello");
}

#[test]
fn empty_requests_carry_an_empty_object() {
    let request = RequestEnvelope::empty(17, "device.hello".to_string());
    assert_eq!(request.id, 17);
    assert_eq!(request.protocol, PROTOCOL_VERSION);
    assert_eq!(request.command, "device.hello");
    assert_eq!(request.params, serde_json::Value::Object(serde_json::Map::new()));
    assert!(Message::Request(request).validate().is_ok());
}
