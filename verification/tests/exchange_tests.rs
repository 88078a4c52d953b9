use lumicontrol::device::{
    exchange_step, finish_exchange, next_request_id, Arrival, DeviceError, ExchangeStep,
};
use lumicontrol::protocol::{
    ErrorCode, ProtocolError, ResponseEnvelope, ResponseMessageType, WireError, PROTOCOL_VERSION,
};

fn response(ok: bool, result: Option<serde_json::Value>, error: Option<WireError>) -> ResponseEnvelope {
    ResponseEnvelope {
        message_type: ResponseMessageType::Response,
        protocol: PROTOCOL_VERSION,
        id: 7,
        ok,
        result,
        error,
    }
}

#[test]
fn request_ids_skip_zero() {
    assert_eq!(next_request_id(1), 2);
    assert_eq!(next_request_id(u32::MAX), 1);
    assert_eq!(next_request_id(0), 1);
}

#[test]
fn the_hello_tolerates_noise() {
    assert!(matches!(exchange_step(true, 3, Arrival::Garbled), ExchangeStep::Skip));
    assert!(matches!(
        exchange_step(true, 3, Arrival::Request { command: "x".to_string() }),
        ExchangeStep::Skip
    ));
    assert!(matches!(exchange_step(true, 3, Arrival::Event), ExchangeStep::KeepEventIfValid));
    assert!(matches!(exchange_step(true, 3, Arrival::Response { id: 3 }), ExchangeStep::Answer));
    assert!(matches!(exchange_step(true, 3, Arrival::Response { id: 4 }), ExchangeStep::Skip));
}

#[test]
fn other_exchanges_refuse_requests_and_garbage() {
    assert!(matches!(exchange_step(false, 3, Arrival::Garbled), ExchangeStep::FailGarbled));
    match exchange_step(false, 3, Arrival::Request { command: "device.reboot".to_string() }) {
        ExchangeStep::Fail(DeviceError::UnexpectedRequest(command)) => {
            assert_eq!(command, "device.reboot")
        }
        _ => panic!("expected a failure"),
    }
    assert!(matches!(exchange_step(false, 3, Arrival::Event), ExchangeStep::KeepEvent));
}

#[test]
fn finished_exchanges_return_results_or_remote_errors() {
    let ok = finish_exchange(response(true, Some(serde_json::Value::Bool(true)), None));
    assert!(matches!(ok, Ok(r) if r.id == 7));
    let remote = finish_exchange(response(
        false,
        None,
        Some(WireError { code: ErrorCode::Busy, message: "busy".to_string() }),
    ));
    assert!(matches!(remote, Err(DeviceError::Remote(e)) if e.message == "busy"));
    let broken = finish_exchange(response(true, None, None));
    assert!(matches!(broken, Err(DeviceError::Protocol(ProtocolError::InvalidPayload(_)))));
}

#[test]
fn handshake_discards_a_partial_old_frame_and_queues_valid_old_events() {
    let hello_id = next_request_id(0);
    assert!(matches!(exchange_step(true, hello_id, Arrival::Garbled), ExchangeStep::Skip));
    assert!(matches!(
        exchange_step(true, hello_id, Arrival::Event),
        ExchangeStep::KeepEventIfValid
    ));
    assert!(matches!(
        exchange_step(true, hello_id, Arrival::Response { id: hello_id }),
        ExchangeStep::Answer
    ));
}

#[test]
fn persistent_commands_ignore_a_late_response_from_an_older_request() {
    let hello_id = next_request_id(0);
    let configure_id = next_request_id(hello_id);
    assert!(matches!(
        exchange_step(false, configure_id, Arrival::Response { id: configure_id.wrapping_sub(1) }),
        ExchangeStep::Skip
    ));
    assert!(matches!(
        exchange_step(false, configure_id, Arrival::Response { id: configure_id }),
        ExchangeStep::Answer
    ));
}
