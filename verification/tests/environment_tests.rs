use lumicontrol::agent::{assess_health, record_backoff, record_connected, record_relay_result};
use lumicontrol::control::WeatherKind;
use lumicontrol::environment::{
    accept_response_chunk, filled, update_configuration, weather_endpoint, check_http_status, check_response_size, classify_weather, request_target, validate_coordinates, EnvironmentError, WeatherRequest,
};
use lumicontrol::float_bits::F64Bits;
use lumicontrol::ipc::{DeviceConnectionState, DeviceSnapshot, HealthLevel, MonitorSnapshot, RelaySnapshot};
use lumicontrol::protocol::{Capability, DeviceInfo, RelayStatus};
use lumicontrol::store::{StateDocument, StoreError};

fn bits(value: f64) -> F64Bits {
    F64Bits::from_bits(value.to_bits())
}

fn request(endpoint: &str) -> WeatherRequest {
    WeatherRequest {
        endpoint: endpoint.to_string(),
        api_key: Some("key with spaces".to_string()),
        latitude: "31.2".to_string(),
        longitude: "121.5".to_string(),
        timezone: "Asia/Shanghai".to_string(),
    }
}

#[test]
fn weather_classification_uses_safety_first_priority() {
    assert_eq!(classify_weather(95, bits(1.0), bits(0.8)), WeatherKind::Rain);
    assert_eq!(classify_weather(95, bits(1.0), bits(0.1)), WeatherKind::Fog);
    assert_eq!(classify_weather(75, bits(20.0), bits(0.1)), WeatherKind::Cloudy);
    assert_eq!(classify_weather(20, bits(20.0), bits(0.1)), WeatherKind::Clear);
    assert_eq!(classify_weather(20, bits(3.0), bits(0.35)), WeatherKind::Rain);
    assert_eq!(classify_weather(60, bits(f64::NAN), bits(f64::NAN)), WeatherKind::Cloudy);
}

#[test]
fn coordinates_must_lie_on_the_globe() {
    assert!(validate_coordinates(bits(31.2), bits(121.5)).is_ok());
    assert_eq!(
        validate_coordinates(bits(90.5), bits(0.0)).unwrap_err(),
        EnvironmentError::InvalidCoordinates("latitude must be finite and in -90..=90".to_string())
    );
    assert_eq!(
        validate_coordinates(bits(0.0), bits(f64::NAN)).unwrap_err(),
        EnvironmentError::InvalidCoordinates("longitude must be finite and in -180..=180".to_string())
    );
    assert_eq!(check_response_size(65_537).unwrap_err(), EnvironmentError::ResponseTooLarge(65_537));
    assert!(check_response_size(65_536).is_ok());
}

#[test]
fn request_encodes_timezone_and_optional_provider_key() {
    let (parsed, url) = request("https://customer-api.open-meteo.com/v1/forecast").url().unwrap();
    assert_eq!(parsed.as_str(), url);
    assert!(url.contains("timezone=Asia%2FShanghai"));
    assert!(url.contains("apikey=key+with+spaces"));
    assert!(url.contains("forecast_days=1"));
}

#[test]
fn an_empty_release_endpoint_fails_closed() {
    let mut blank = request("");
    blank.api_key = None;
    assert_eq!(blank.url().unwrap_err(), EnvironmentError::ProviderNotConfigured);
}

#[test]
fn endpoints_must_be_secure_urls_with_hosts() {
    assert_eq!(
        request("http://example.com/v1").url().unwrap_err(),
        EnvironmentError::InvalidEndpoint("weather endpoint must be an HTTPS URL with a host".to_string())
    );
    assert!(request("http://example.com/v1").url_with(true).is_ok());
    assert!(matches!(request("not a url").url(), Err(EnvironmentError::InvalidEndpoint(_))));
    let mut system = request("https://example.com");
    system.timezone = "system".to_string();
    system.api_key = None;
    let pairs = system.query_pairs();
    assert_eq!(pairs.len(), 5);
    assert_eq!(pairs[3], ("timezone".to_string(), "auto".to_string()));
}

fn monitor(qualified: bool, error: Option<&str>) -> MonitorSnapshot {
    MonitorSnapshot {
        id: "m".to_string(),
        display_name: "M".to_string(),
        display_path: "p".to_string(),
        qualified,
        current_percent: None,
        target_percent: None,
        transition_active: false,
        manual_override_remaining_ms: None,
        ddc_error_count: 0,
        last_error: error.map(str::to_string),
    }
}

#[test]
fn health_reports_the_first_problem() {
    let connected = DeviceConnectionState::Connected;
    assert_eq!(assess_health(true, &[], connected, false, false, false).0, HealthLevel::Healthy);
    let (level, message) = assess_health(false, &[monitor(false, None)], connected, true, false, false);
    assert_eq!((level, message.as_str()), (HealthLevel::Fault, "No compatible DDC/CI monitor"));
    let (_, message) =
        assess_health(false, &[monitor(true, None)], DeviceConnectionState::BackingOff, true, false, false);
    assert_eq!(message, "Looking for Lumi sensor");
    let (_, message) = assess_health(false, &[monitor(true, Some("ddc"))], connected, true, true, true);
    assert_eq!(message, "A monitor needs attention");
    let (_, message) = assess_health(false, &[monitor(true, None)], connected, true, true, true);
    assert_eq!(message, "Weather data is temporarily unavailable");
    let (level, message) = assess_health(false, &[monitor(true, None)], connected, true, false, true);
    assert_eq!((level, message.as_str()), (HealthLevel::Healthy, "Automatic control is working"));
}

#[test]
fn device_events_update_the_snapshots() {
    let mut device = DeviceSnapshot::default();
    let mut relay = RelaySnapshot::default();
    let info = DeviceInfo {
        product_id: "lumi-sensor-relay".to_string(),
        serial_number: "S1".to_string(),
        hardware_version: "1".to_string(),
        firmware_version: "2".to_string(),
        bootloader_version: "3".to_string(),
        protocol_min: 1,
        protocol_max: 3,
        capabilities: vec![Capability::AmbientLux, Capability::Relay],
    };
    record_connected(&mut device, &mut relay, info, "COM4".to_string(), 2);
    assert_eq!(device.state, DeviceConnectionState::Connected);
    assert_eq!(device.negotiated_protocol, Some(2));
    assert_eq!(device.port_name.as_deref(), Some("COM4"));
    assert!(relay.available);
    record_relay_result(&mut relay, true, Ok(RelayStatus { available: true, energized: Some(true) }));
    assert_eq!(relay.light_on, Some(true));
    record_relay_result(&mut relay, false, Err("busy".to_string()));
    assert_eq!(relay.last_error.as_deref(), Some("busy"));
    assert_eq!(relay.light_on, Some(true));
    record_backoff(&mut device, &mut relay, "gone".to_string());
    assert_eq!(device.state, DeviceConnectionState::BackingOff);
    assert!(!relay.available);
}

#[test]
fn state_documents_of_another_schema_are_refused() {
    assert!(StateDocument::default().check_schema().is_ok());
    let mut other = StateDocument::default();
    other.schema_version = 4;
    match other.check_schema() {
        Err(StoreError::Validation(problems)) => {
            assert_eq!(problems, vec!["unsupported state schema 4; expected 1".to_string()])
        }
        Ok(()) => panic!("schema 4 was accepted"),
    }
}

#[test]
fn http_statuses_outside_success_are_errors() {
    assert!(check_http_status(200).is_ok());
    assert!(check_http_status(299).is_ok());
    assert_eq!(check_http_status(199), Err(EnvironmentError::HttpStatus(199)));
    assert_eq!(check_http_status(404), Err(EnvironmentError::HttpStatus(404)));
}

#[test]
fn responses_are_read_within_the_limit() {
    assert!(accept_response_chunk(0, 100, 100).is_ok());
    assert!(accept_response_chunk(60, 40, 100).is_ok());
    assert_eq!(accept_response_chunk(60, 41, 100), Err(EnvironmentError::ResponseTooLarge(101)));
    assert_eq!(accept_response_chunk(100, 1, 100), Err(EnvironmentError::ResponseTooLarge(101)));
    assert_eq!(
        accept_response_chunk(usize::MAX, 5, 10),
        Err(EnvironmentError::ResponseTooLarge(usize::MAX))
    );
}

#[test]
fn request_targets_carry_the_query() {
    assert_eq!(request_target("/v1/forecast", None), "/v1/forecast");
    assert_eq!(request_target("/v1/forecast", Some("latitude=1")), "/v1/forecast?latitude=1");
}

#[test]
fn weather_endpoint_prefers_runtime_then_built_in_then_open_meteo() {
    assert_eq!(
        weather_endpoint(Some("https://a.example/v1".to_string()), Some("https://b.example".to_string())),
        "https://a.example/v1"
    );
    assert_eq!(
        weather_endpoint(Some("   ".to_string()), Some("https://b.example".to_string())),
        "https://b.example"
    );
    assert_eq!(weather_endpoint(None, None), "https://api.open-meteo.com/v1/forecast");
    assert_eq!(weather_endpoint(None, Some("\t".to_string())), "https://api.open-meteo.com/v1/forecast");
    assert_eq!(filled(Some(" key ".to_string())), Some(" key ".to_string()));
    assert_eq!(filled(Some(" ".to_string())), None);
    assert_eq!(filled(None), None);
}

#[test]
fn update_channels_need_an_https_endpoint_and_a_key() {
    assert_eq!(
        update_configuration(None, Some("key")).unwrap_err(),
        "Update channel is not configured for this build"
    );
    assert_eq!(
        update_configuration(Some("https://updates.example/latest.json"), Some("  ")).unwrap_err(),
        "Update signing key is not configured for this build"
    );
    assert!(update_configuration(Some("not a url"), Some("key"))
        .unwrap_err()
        .starts_with("Update endpoint is invalid: "));
    assert_eq!(
        update_configuration(Some("http://updates.example/latest.json"), Some("key")).unwrap_err(),
        "Update endpoint must use HTTPS"
    );
    let (url, text, key) =
        update_configuration(Some("https://updates.example/latest.json"), Some("key")).unwrap();
    assert_eq!(url.as_str(), "https://updates.example/latest.json");
    assert_eq!(text, "https://updates.example/latest.json");
    assert_eq!(key, "key");
}

#[test]
fn weather_url_carries_every_query_pair_in_order() {
    let mut r = request("https://example.com/v1/forecast");
    r.api_key = None;
    let (_, text) = r.url().unwrap();
    let mut expected = url::Url::parse("https://example.com/v1/forecast").unwrap();
    for (name, value) in r.query_pairs() {
        expected.query_pairs_mut().append_pair(&name, &value);
    }
    assert_eq!(text, expected.as_str());
    assert!(text.starts_with("https://example.com/v1/forecast?latitude="));
    assert!(text.ends_with("&forecast_days=1"));
}
