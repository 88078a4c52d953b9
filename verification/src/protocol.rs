use vstd::prelude::*;
use crate::float_bits::F64Bits;
use crate::json::{json_text_member, read_text_member};
use crate::text::{blank, char_count, is_blank, text_equals, text_of};

verus! {

/// The protocol version this side speaks.
pub const PROTOCOL_VERSION: u16 = 2;

/// The largest frame, newline included, in bytes.
pub const MAX_FRAME_BYTES: usize = 1024;

/// The product id of the sensor.
pub open spec fn product_sensor() -> Seq<char> {
    "lumi-sensor"@
}

/// The product id of the sensor with a relay.
pub open spec fn product_sensor_relay() -> Seq<char> {
    "lumi-sensor-relay"@
}

/// What a device can do.
#[derive(Clone, Copy, Debug, PartialEq, Eq, Structural, PartialOrd, Ord)]
pub enum Capability {
    AmbientLux,
    Relay,
}

/// What a device reports of itself in its hello.
#[derive(Clone, Debug)]
pub struct DeviceInfo {
    pub product_id: String,
    pub serial_number: String,
    pub hardware_version: String,
    pub firmware_version: String,
    pub bootloader_version: String,
    pub protocol_min: u16,
    pub protocol_max: u16,
    pub capabilities: Vec<Capability>,
}

/// The version both sides speak, if the device's range holds ours.
pub open spec fn negotiated(device_min: int, device_max: int) -> Option<u16> {
    if device_min <= PROTOCOL_VERSION <= device_max {
        Some(PROTOCOL_VERSION)
    } else {
        None
    }
}

/// The highest version in `device_min..=device_max` that this side speaks.
pub fn negotiate_protocol(device_min: u16, device_max: u16) -> (r: Option<u16>)
    ensures
        r == negotiated(device_min as int, device_max as int),
{
    if device_min <= PROTOCOL_VERSION && PROTOCOL_VERSION <= device_max {
        Some(PROTOCOL_VERSION)
    } else {
        None
    }
}

/// An error of the device protocol.
#[allow(inconsistent_fields)]
#[derive(Debug)]
pub enum ProtocolError {
    EmptyFrame,
    FrameTooLarge { actual: usize, maximum: usize },
    UnknownMessageType(String),
    UnsupportedProtocol { minimum: u16, maximum: u16 },
    InvalidPayload(String),
    Json(serde_json::Error),
}

/// The text of an `InvalidPayload` error, if `e` is one.
pub open spec fn payload_message(e: ProtocolError) -> Option<Seq<char>> {
    match e {
        ProtocolError::InvalidPayload(m) => Some(m@),
        _ => None,
    }
}

/// A text field of a hello: not blank, and at most 64 characters.
pub open spec fn text_field_ok(s: Seq<char>) -> bool {
    !blank(s) && s.len() <= 64
}

/// Whether some capability occurs twice.
pub open spec fn has_duplicates(caps: Seq<Capability>) -> bool {
    exists|i: int, j: int| 0 <= i < j < caps.len() && caps[i] == caps[j]
}

/// The message for an unknown product.
pub open spec fn unknown_product_message(product_id: Seq<char>) -> Seq<char> {
    "unsupported Lumi product_id: "@ + product_id
}

/// The message for a bad serial number.
pub open spec fn serial_message() -> Seq<char> {
    "serial_number must contain 1..=64 characters"@
}

/// The message for a bad version text.
pub open spec fn version_message() -> Seq<char> {
    "hardware, firmware, and bootloader versions must contain 1..=64 characters"@
}

/// The message for an inverted protocol range.
pub open spec fn range_message() -> Seq<char> {
    "protocol_min must not exceed protocol_max"@
}

/// The message for a device without a light sensor.
pub open spec fn lux_message() -> Seq<char> {
    "supported Lumi devices must advertise ambient_lux"@
}

/// The message for a repeated capability.
pub open spec fn duplicate_message() -> Seq<char> {
    "capabilities must not contain duplicates"@
}

/// The message for a relay capability that does not fit the product.
pub open spec fn relay_message() -> Seq<char> {
    "product_id and relay capability do not match"@
}

impl DeviceInfo {
    /// Whether the device advertises `capability`.
    pub fn supports(&self, capability: Capability) -> (r: bool)
        ensures
            r == self.capabilities@.contains(capability),
    {
        let mut i: usize = 0;
        while i < self.capabilities.len()
            invariant
                0 <= i <= self.capabilities@.len(),
                forall|j: int| 0 <= j < i ==> self.capabilities@[j] != capability,
            decreases self.capabilities@.len() - i,
        {
            if self.capabilities[i] == capability {
                return true;
            }
            i += 1;
        }
        false
    }

    /// The version both sides speak, if any.
    pub fn negotiated_protocol(&self) -> (r: Option<u16>)
        ensures
            r == negotiated(self.protocol_min as int, self.protocol_max as int),
    {
        negotiate_protocol(self.protocol_min, self.protocol_max)
    }

    /// Checks a hello, in this order: a known product; a serial number and
    /// three version texts that are not blank and at most 64 characters;
    /// `protocol_min <= protocol_max`; a version both sides speak; the light
    /// sensor advertised; no capability twice; the relay advertised exactly
    /// when the product has one. The first failed check gives the error.
    pub fn validate(&self) -> (r: Result<(), ProtocolError>)
        ensures
            ({
                let known = self.product_id@ == product_sensor() || self.product_id@
                    == product_sensor_relay();
                let texts = text_field_ok(self.serial_number@);
                let versions = text_field_ok(self.hardware_version@) && text_field_ok(
                    self.firmware_version@,
                ) && text_field_ok(self.bootloader_version@);
                let ordered = self.protocol_min <= self.protocol_max;
                let speaks = negotiated(self.protocol_min as int, self.protocol_max as int)
                    is Some;
                let lux = self.capabilities@.contains(Capability::AmbientLux);
                let unique = !has_duplicates(self.capabilities@);
                let relay = self.capabilities@.contains(Capability::Relay) == (self.product_id@
                    == product_sensor_relay());
                &&& !known ==> payload_message(r->Err_0) == Some(
                    unknown_product_message(self.product_id@),
                ) && r is Err
                &&& known && !texts ==> r is Err && payload_message(r->Err_0) == Some(
                    serial_message(),
                )
                &&& known && texts && !versions ==> r is Err && payload_message(r->Err_0) == Some(
                    version_message(),
                )
                &&& known && texts && versions && !ordered ==> r is Err && payload_message(
                    r->Err_0,
                ) == Some(range_message())
                &&& known && texts && versions && ordered && !speaks ==> (r matches Err(
                    ProtocolError::UnsupportedProtocol { minimum, maximum },
                ) && minimum == self.protocol_min && maximum == self.protocol_max)
                &&& known && texts && versions && ordered && speaks && !lux ==> r is Err
                    && payload_message(r->Err_0) == Some(lux_message())
                &&& known && texts && versions && ordered && speaks && lux && !unique ==> r is Err
                    && payload_message(r->Err_0) == Some(duplicate_message())
                &&& known && texts && versions && ordered && speaks && lux && unique && !relay
                    ==> r is Err && payload_message(r->Err_0) == Some(relay_message())
                &&& r is Ok <==> (known && texts && versions && ordered && speaks && lux && unique
                    && relay)
            }),
    {
        proof {
            reveal_strlit("lumi-sensor");
            reveal_strlit("lumi-sensor-relay");
        }
        let is_sensor = text_equals(self.product_id.as_str(), "lumi-sensor");
        let is_relay = text_equals(self.product_id.as_str(), "lumi-sensor-relay");
        if !is_sensor && !is_relay {
            return Err(
                ProtocolError::InvalidPayload(
                    String::from_str("unsupported Lumi product_id: ").concat(
                        self.product_id.as_str(),
                    ),
                ),
            );
        }
        if !text_ok(self.serial_number.as_str()) {
            return Err(
                ProtocolError::InvalidPayload(
                    String::from_str("serial_number must contain 1..=64 characters"),
                ),
            );
        }
        if !text_ok(self.hardware_version.as_str()) || !text_ok(self.firmware_version.as_str())
            || !text_ok(self.bootloader_version.as_str()) {
            return Err(
                ProtocolError::InvalidPayload(
                    String::from_str(
                        "hardware, firmware, and bootloader versions must contain 1..=64 characters",
                    ),
                ),
            );
        }
        if self.protocol_min > self.protocol_max {
            return Err(
                ProtocolError::InvalidPayload(
                    String::from_str("protocol_min must not exceed protocol_max"),
                ),
            );
        }
        if self.negotiated_protocol().is_none() {
            return Err(
                ProtocolError::UnsupportedProtocol {
                    minimum: self.protocol_min,
                    maximum: self.protocol_max,
                },
            );
        }
        if !self.supports(Capability::AmbientLux) {
            return Err(
                ProtocolError::InvalidPayload(
                    String::from_str("supported Lumi devices must advertise ambient_lux"),
                ),
            );
        }
        if has_repeated(&self.capabilities) {
            return Err(
                ProtocolError::InvalidPayload(
                    String::from_str("capabilities must not contain duplicates"),
                ),
            );
        }
        if self.supports(Capability::Relay) != is_relay {
            return Err(
                ProtocolError::InvalidPayload(
                    String::from_str("product_id and relay capability do not match"),
                ),
            );
        }
        Ok(())
    }
}

/// Whether a text field is not blank and at most 64 characters.
fn text_ok(s: &str) -> (r: bool)
    ensures
        r == text_field_ok(s@),
{
    !is_blank(s) && char_count(s) <= 64
}

/// Whether some capability occurs twice.
fn has_repeated(caps: &Vec<Capability>) -> (r: bool)
    ensures
        r == has_duplicates(caps@),
{
    let mut i: usize = 0;
    while i < caps.len()
        invariant
            0 <= i <= caps@.len(),
            forall|a: int, b: int| 0 <= a < b < caps@.len() && a < i ==> caps@[a] != caps@[b],
        decreases caps@.len() - i,
    {
        let mut j: usize = i + 1;
        while j < caps.len()
            invariant
                i < caps@.len(),
                i + 1 <= j <= caps@.len(),
                forall|a: int, b: int| 0 <= a < b < caps@.len() && a < i ==> caps@[a] != caps@[b],
                forall|b: int| i < b < j ==> caps@[i as int] != caps@[b],
            decreases caps@.len() - j,
        {
            if caps[i] == caps[j] {
                return true;
            }
            j += 1;
        }
        i += 1;
    }
    false
}

/// The tag of a request.
#[derive(Clone, Copy, Debug, PartialEq, Eq, Structural)]
pub enum RequestMessageType {
    Request,
}

/// The tag of a response.
#[derive(Clone, Copy, Debug, PartialEq, Eq, Structural)]
pub enum ResponseMessageType {
    Response,
}

/// The tag of an event.
#[derive(Clone, Copy, Debug, PartialEq, Eq, Structural)]
pub enum EventMessageType {
    Event,
}

/// The error codes a device reports.
#[derive(Clone, Copy, Debug, PartialEq, Eq, Structural)]
pub enum ErrorCode {
    InvalidRequest,
    UnsupportedProtocol,
    UnsupportedCommand,
    UnsupportedCapability,
    InvalidParameter,
    Busy,
    HardwareFailure,
    InternalError,
}

/// An error a device reports in a response.
#[derive(Clone, Debug)]
pub struct WireError {
    pub code: ErrorCode,
    pub message: String,
}

/// A command to a device.
#[derive(Debug)]
pub struct RequestEnvelope {
    pub message_type: RequestMessageType,
    pub protocol: u16,
    pub id: u32,
    pub command: String,
    pub params: serde_json::Value,
}

/// A device's answer to a command.
#[derive(Debug)]
pub struct ResponseEnvelope {
    pub message_type: ResponseMessageType,
    pub protocol: u16,
    pub id: u32,
    pub ok: bool,
    pub result: Option<serde_json::Value>,
    pub error: Option<WireError>,
}

/// A message a device sends on its own.
#[derive(Debug)]
pub struct EventEnvelope {
    pub message_type: EventMessageType,
    pub protocol: u16,
    pub event: String,
    pub seq: u32,
    pub uptime_ms: u64,
    pub data: serde_json::Value,
}

/// Any message of the protocol.
#[derive(Debug)]
pub enum Message {
    Request(RequestEnvelope),
    Response(ResponseEnvelope),
    Event(EventEnvelope),
}

/// The message for an empty command.
pub open spec fn empty_command_message() -> Seq<char> {
    "command must not be empty"@
}

/// The message for a response whose shape does not fit `ok`.
pub open spec fn response_shape_message() -> Seq<char> {
    "response must contain exactly one of result or error matching ok"@
}

/// The message for an empty event name.
pub open spec fn empty_event_message() -> Seq<char> {
    "event must not be empty"@
}

/// Whether a response carries a result and no error when `ok`, and an error
/// and no result otherwise.
pub open spec fn response_shape_ok(r: ResponseEnvelope) -> bool {
    (r.ok && r.result is Some && r.error is None) || (!r.ok && r.result is None && r.error is Some)
}

/// Whether a protocol error is the one for a message of version `version`.
pub open spec fn is_version_error(e: ProtocolError, version: u16) -> bool {
    e matches ProtocolError::UnsupportedProtocol { minimum, maximum } && minimum == version
        && maximum == version
}

/// A new empty JSON object, `serde_json::Value::Object` of
/// `serde_json::Map::new()`. Nothing is claimed of the value.
#[verifier::external_body]
fn empty_json_object() -> serde_json::Value {
    serde_json::Value::Object(serde_json::Map::new())
}

impl RequestEnvelope {
    /// A request of this protocol for `command` with the number `id` and an
    /// empty object as parameters.
    pub fn empty(id: u32, command: String) -> (r: Self)
        ensures
            r.message_type == RequestMessageType::Request,
            r.protocol == PROTOCOL_VERSION,
            r.id == id,
            r.command == command,
    {
        RequestEnvelope {
            message_type: RequestMessageType::Request,
            protocol: PROTOCOL_VERSION,
            id,
            command,
            params: empty_json_object(),
        }
    }

    /// Checks the version, then that the command is not blank.
    pub fn validate(&self) -> (r: Result<(), ProtocolError>)
        ensures
            self.protocol != PROTOCOL_VERSION ==> r is Err && is_version_error(
                r->Err_0,
                self.protocol,
            ),
            self.protocol == PROTOCOL_VERSION && blank(self.command@) ==> r is Err
                && payload_message(r->Err_0) == Some(empty_command_message()),
            r is Ok <==> self.protocol == PROTOCOL_VERSION && !blank(self.command@),
    {
        if self.protocol != PROTOCOL_VERSION {
            return Err(
                ProtocolError::UnsupportedProtocol { minimum: self.protocol, maximum: self.protocol },
            );
        }
        if is_blank(self.command.as_str()) {
            return Err(ProtocolError::InvalidPayload(String::from_str("command must not be empty")));
        }
        Ok(())
    }
}

impl ResponseEnvelope {
    /// A failed response to the request `id` of this protocol, with the
    /// error `code` and `message`.
    pub fn failure(id: u32, code: ErrorCode, message: String) -> (r: Self)
        ensures
            r.protocol == PROTOCOL_VERSION,
            r.id == id,
            !r.ok,
            r.result is None,
            r.error == Some(WireError { code, message }),
            response_shape_ok(r),
    {
        ResponseEnvelope {
            message_type: ResponseMessageType::Response,
            protocol: PROTOCOL_VERSION,
            id,
            ok: false,
            result: None,
            error: Some(WireError { code, message }),
        }
    }

    /// A successful response to the request `id` of this protocol, with the
    /// result already encoded as JSON.
    pub fn success_with(id: u32, result: serde_json::Value) -> (r: Self)
        ensures
            r.protocol == PROTOCOL_VERSION,
            r.id == id,
            r.ok,
            r.result == Some(result),
            r.error is None,
            response_shape_ok(r),
    {
        ResponseEnvelope {
            message_type: ResponseMessageType::Response,
            protocol: PROTOCOL_VERSION,
            id,
            ok: true,
            result: Some(result),
            error: None,
        }
    }

    /// Checks the version, then that exactly one of result and error is
    /// present, the one that `ok` names.
    pub fn validate(&self) -> (r: Result<(), ProtocolError>)
        ensures
            self.protocol != PROTOCOL_VERSION ==> r is Err && is_version_error(
                r->Err_0,
                self.protocol,
            ),
            self.protocol == PROTOCOL_VERSION && !response_shape_ok(*self) ==> r is Err
                && payload_message(r->Err_0) == Some(response_shape_message()),
            r is Ok <==> self.protocol == PROTOCOL_VERSION && response_shape_ok(*self),
    {
        if self.protocol != PROTOCOL_VERSION {
            return Err(
                ProtocolError::UnsupportedProtocol { minimum: self.protocol, maximum: self.protocol },
            );
        }
        let has_result = self.result.is_some();
        let has_error = self.error.is_some();
        if (self.ok && has_result && !has_error) || (!self.ok && !has_result && has_error) {
            Ok(())
        } else {
            Err(
                ProtocolError::InvalidPayload(
                    String::from_str(
                        "response must contain exactly one of result or error matching ok",
                    ),
                ),
            )
        }
    }
}

impl EventEnvelope {
    /// Checks the version, then that the event name is not blank.
    pub fn validate(&self) -> (r: Result<(), ProtocolError>)
        ensures
            self.protocol != PROTOCOL_VERSION ==> r is Err && is_version_error(
                r->Err_0,
                self.protocol,
            ),
            self.protocol == PROTOCOL_VERSION && blank(self.event@) ==> r is Err
                && payload_message(r->Err_0) == Some(empty_event_message()),
            r is Ok <==> self.protocol == PROTOCOL_VERSION && !blank(self.event@),
    {
        if self.protocol != PROTOCOL_VERSION {
            return Err(
                ProtocolError::UnsupportedProtocol { minimum: self.protocol, maximum: self.protocol },
            );
        }
        if is_blank(self.event.as_str()) {
            return Err(ProtocolError::InvalidPayload(String::from_str("event must not be empty")));
        }
        Ok(())
    }
}

/// Whether a message passes the checks of its kind.
pub open spec fn message_valid(m: Message) -> bool {
    match m {
        Message::Request(q) => q.protocol == PROTOCOL_VERSION && !blank(q.command@),
        Message::Response(p) => p.protocol == PROTOCOL_VERSION && response_shape_ok(p),
        Message::Event(e) => e.protocol == PROTOCOL_VERSION && !blank(e.event@),
    }
}

impl Message {
    /// Checks the message as its kind prescribes.
    pub fn validate(&self) -> (r: Result<(), ProtocolError>)
        ensures
            r is Ok <==> message_valid(*self),
    {
        match self {
            Message::Request(message) => message.validate(),
            Message::Response(message) => message.validate(),
            Message::Event(message) => message.validate(),
        }
    }
}

/// How often the device reports.
#[derive(Clone, Copy, Debug, PartialEq, Eq, Structural)]
pub struct StreamConfigureParams {
    pub ambient_lux_interval_ms: u32,
    pub include_status_every: u16,
}

/// The message for a sample interval out of range.
pub open spec fn interval_message() -> Seq<char> {
    "ambient_lux_interval_ms must be in 200..=5000"@
}

/// The message for a status period out of range.
pub open spec fn status_every_message() -> Seq<char> {
    "include_status_every must be in 1..=300"@
}

impl StreamConfigureParams {
    /// The interval must lie in `200..=5000` ms and the status period in
    /// `1..=300` samples; the interval is checked first.
    pub fn validate(&self) -> (r: Result<(), ProtocolError>)
        ensures
            !(200 <= self.ambient_lux_interval_ms <= 5000) ==> r is Err && payload_message(
                r->Err_0,
            ) == Some(interval_message()),
            (200 <= self.ambient_lux_interval_ms <= 5000) && !(1 <= self.include_status_every
                <= 300) ==> r is Err && payload_message(r->Err_0) == Some(status_every_message()),
            r is Ok <==> (200 <= self.ambient_lux_interval_ms <= 5000) && (1
                <= self.include_status_every <= 300),
    {
        if !(200 <= self.ambient_lux_interval_ms && self.ambient_lux_interval_ms <= 5000) {
            return Err(
                ProtocolError::InvalidPayload(
                    String::from_str("ambient_lux_interval_ms must be in 200..=5000"),
                ),
            );
        }
        if !(1 <= self.include_status_every && self.include_status_every <= 300) {
            return Err(
                ProtocolError::InvalidPayload(
                    String::from_str("include_status_every must be in 1..=300"),
                ),
            );
        }
        Ok(())
    }
}

/// Switches the relay.
#[derive(Clone, Copy, Debug, PartialEq, Eq, Structural)]
pub struct RelaySetParams {
    pub energized: bool,
}

/// How a light sample came out.
#[derive(Clone, Copy, Debug, PartialEq, Eq, Structural)]
pub enum SampleQuality {
    Valid,
    Saturated,
    BelowRange,
    ReadError,
}

/// One light reading.
#[derive(Clone, Copy, Debug)]
pub struct SensorSample {
    pub lux: Option<F64Bits>,
    pub quality: SampleQuality,
}

/// The message for a valid sample without a usable value.
pub open spec fn missing_lux_message() -> Seq<char> {
    "valid samples require a finite non-negative lux value"@
}

/// The message for a failed sample that carries a value.
pub open spec fn fabricated_lux_message() -> Seq<char> {
    "invalid samples must not contain a fabricated lux value"@
}

/// Whether `lux` is finite and at least zero.
pub open spec fn usable_lux(lux: F64Bits) -> bool {
    lux.finite() && F64Bits { bits: 0 }.at_most(lux)
}

impl SensorSample {
    /// A valid sample must carry a finite value of at least zero; any other
    /// must carry none.
    pub fn validate(&self) -> (r: Result<(), ProtocolError>)
        ensures
            r is Ok <==> match self.quality {
                SampleQuality::Valid => self.lux matches Some(l) && usable_lux(l),
                _ => self.lux is None,
            },
            r is Err ==> payload_message(r->Err_0) == Some(
                if self.quality == SampleQuality::Valid {
                    missing_lux_message()
                } else {
                    fabricated_lux_message()
                },
            ),
    {
        match (self.quality, self.lux) {
            (SampleQuality::Valid, Some(lux)) => {
                let zero = F64Bits::from_bits(0);
                if lux.is_finite() && zero.le(&lux) {
                    Ok(())
                } else {
                    Err(
                        ProtocolError::InvalidPayload(
                            String::from_str("valid samples require a finite non-negative lux value"),
                        ),
                    )
                }
            },
            (SampleQuality::Valid, None) => Err(
                ProtocolError::InvalidPayload(
                    String::from_str("valid samples require a finite non-negative lux value"),
                ),
            ),
            (_, None) => Ok(()),
            (_, Some(_)) => Err(
                ProtocolError::InvalidPayload(
                    String::from_str("invalid samples must not contain a fabricated lux value"),
                ),
            ),
        }
    }
}

/// What the device reports of its sensor.
#[derive(Clone, Copy, Debug)]
pub struct SensorStatus {
    pub healthy: bool,
    pub lux: Option<F64Bits>,
    pub sample_age_ms: Option<u64>,
}

/// What the device reports of its relay.
#[derive(Clone, Copy, Debug, PartialEq, Eq, Structural)]
pub struct RelayStatus {
    pub available: bool,
    pub energized: Option<bool>,
}

/// The message for a relay state that does not fit availability.
pub open spec fn relay_state_message() -> Seq<char> {
    "relay energized state must match availability"@
}

impl RelayStatus {
    /// An available relay reports its state; a missing one reports none.
    pub fn validate(&self) -> (r: Result<(), ProtocolError>)
        ensures
            r is Ok <==> (self.available == self.energized is Some),
            r is Err ==> payload_message(r->Err_0) == Some(relay_state_message()),
    {
        match (self.available, self.energized) {
            (true, Some(_)) | (false, None) => Ok(()),
            _ => Err(
                ProtocolError::InvalidPayload(
                    String::from_str("relay energized state must match availability"),
                ),
            ),
        }
    }
}

/// The status report of a device.
#[derive(Clone, Debug)]
pub struct DeviceStatus {
    pub sensor: SensorStatus,
    pub relay: RelayStatus,
    pub uptime_ms: u64,
    pub reset_reason: String,
    pub malformed_frames: u32,
}

/// `u8::is_ascii_whitespace`: space, tab, line feed, form feed, return.
pub open spec fn ascii_space(b: u8) -> bool {
    b == 0x20 || b == 0x09 || b == 0x0a || b == 0x0c || b == 0x0d
}

/// The index of the first byte of `s` that is not ASCII white space, or its
/// length.
pub open spec fn first_content(s: Seq<u8>, from: int) -> int
    decreases s.len() - from,
{
    if from < 0 || from >= s.len() {
        s.len() as int
    } else if !ascii_space(s[from]) {
        from
    } else {
        first_content(s, from + 1)
    }
}

/// One past the index of the last byte of `s[..end]` that is not ASCII white
/// space, or `lo` when there is none at or after `lo`.
pub open spec fn last_content(s: Seq<u8>, lo: int, end: int) -> int
    decreases end - lo,
{
    if end <= lo || end > s.len() {
        lo
    } else if !ascii_space(s[end - 1]) {
        end
    } else {
        last_content(s, lo, end - 1)
    }
}

/// `s` without ASCII white space at either end.
pub open spec fn trim_ascii(s: Seq<u8>) -> Seq<u8> {
    let lo = first_content(s, 0);
    s.subrange(lo, last_content(s, lo, s.len() as int))
}

proof fn lemma_first_content(s: Seq<u8>, from: int)
    requires
        0 <= from <= s.len(),
    ensures
        from <= first_content(s, from) <= s.len(),
    decreases s.len() - from,
{
    if from < s.len() && ascii_space(s[from]) {
        lemma_first_content(s, from + 1);
    }
}

proof fn lemma_last_content(s: Seq<u8>, lo: int, end: int)
    requires
        0 <= lo <= end <= s.len(),
    ensures
        lo <= last_content(s, lo, end) <= end,
    decreases end - lo,
{
    if lo < end && ascii_space(s[end - 1]) {
        lemma_last_content(s, lo, end - 1);
    }
}

/// `u8::is_ascii_whitespace`.
fn is_ascii_space(b: u8) -> (r: bool)
    ensures
        r == ascii_space(b),
{
    b == 0x20 || b == 0x09 || b == 0x0a || b == 0x0c || b == 0x0d
}

/// The bytes of `bytes` without ASCII white space at either end.
pub fn trim_ascii_whitespace(bytes: &[u8]) -> (r: Vec<u8>)
    ensures
        r@ == trim_ascii(bytes@),
{
    let mut lo: usize = 0;
    while lo < bytes.len() && is_ascii_space(bytes[lo])
        invariant
            0 <= lo <= bytes@.len(),
            first_content(bytes@, 0) == first_content(bytes@, lo as int),
        decreases bytes@.len() - lo,
    {
        lo += 1;
    }
    let mut hi: usize = bytes.len();
    proof {
        lemma_first_content(bytes@, 0);
    }
    while hi > lo && is_ascii_space(bytes[hi - 1])
        invariant
            lo == first_content(bytes@, 0),
            lo <= hi <= bytes@.len(),
            last_content(bytes@, lo as int, bytes@.len() as int) == last_content(
                bytes@,
                lo as int,
                hi as int,
            ),
        decreases hi - lo,
    {
        hi -= 1;
    }
    let mut out: Vec<u8> = Vec::new();
    let mut i: usize = lo;
    while i < hi
        invariant
            lo <= i <= hi <= bytes@.len(),
            out@ == bytes@.subrange(lo as int, i as int),
        decreases hi - i,
    {
        out.push(bytes[i]);
        i += 1;
        assert(out@ =~= bytes@.subrange(lo as int, i as int));
    }
    out
}

/// The kind of a message, as its `type` member names it.
#[derive(Clone, Copy, Debug, PartialEq, Eq, Structural)]
pub enum MessageKind {
    Request,
    Response,
    Event,
}

/// The kind that a `type` member names, if it names one.
pub open spec fn kind_named(tag: Seq<char>) -> Option<MessageKind> {
    if tag == "request"@ {
        Some(MessageKind::Request)
    } else if tag == "response"@ {
        Some(MessageKind::Response)
    } else if tag == "event"@ {
        Some(MessageKind::Event)
    } else {
        None
    }
}

/// The message for a message without a `type` member.
pub open spec fn missing_type_message() -> Seq<char> {
    "message type is required"@
}

/// Whether `r` is what `message_kind` answers for the member `tag`.
pub open spec fn kind_outcome(tag: Option<Seq<char>>, r: Result<MessageKind, ProtocolError>) -> bool {
    match tag {
        None => r is Err && payload_message(r->Err_0) == Some(missing_type_message()),
        Some(t) => match kind_named(t) {
            Some(k) => r == Ok::<MessageKind, ProtocolError>(k),
            None => r matches Err(ProtocolError::UnknownMessageType(other)) && other@ == t,
        },
    }
}

/// The kind of message that a `type` member names: `request`, `response` or
/// `event`; any other text is an unknown type, and no member at all is an
/// invalid payload.
pub fn message_kind(tag: Option<String>) -> (r: Result<MessageKind, ProtocolError>)
    ensures
        kind_outcome(text_of(tag), r),
{
    proof {
        reveal_strlit("request");
        reveal_strlit("response");
        reveal_strlit("event");
    }
    match tag {
        None => Err(ProtocolError::InvalidPayload(String::from_str("message type is required"))),
        Some(t) => {
            if text_equals(t.as_str(), "request") {
                Ok(MessageKind::Request)
            } else if text_equals(t.as_str(), "response") {
                Ok(MessageKind::Response)
            } else if text_equals(t.as_str(), "event") {
                Ok(MessageKind::Event)
            } else {
                Err(ProtocolError::UnknownMessageType(t))
            }
        },
    }
}

/// Takes a frame apart up to the point where its body is read into a
/// message: a frame longer than `MAX_FRAME_BYTES` is refused before anything
/// else, one that is only white space is empty, and the `type` member of the
/// JSON body names the kind. Returns the kind and the trimmed body.
pub fn decode_frame(frame: &[u8]) -> (r: Result<(MessageKind, Vec<u8>), ProtocolError>)
    ensures
        frame@.len() > MAX_FRAME_BYTES ==> (r matches Err(
            ProtocolError::FrameTooLarge { actual, maximum },
        ) && actual == frame@.len() && maximum == MAX_FRAME_BYTES),
        frame@.len() <= MAX_FRAME_BYTES && trim_ascii(frame@).len() == 0 ==> r matches Err(
            ProtocolError::EmptyFrame,
        ),
        frame@.len() <= MAX_FRAME_BYTES && trim_ascii(frame@).len() > 0 ==> match json_text_member(
            trim_ascii(frame@),
            "type"@,
        ) {
            None => r matches Err(ProtocolError::Json(_)),
            Some(tag) => match r {
                Ok((kind, body)) => kind_outcome(tag, Ok(kind)) && body@ == trim_ascii(frame@),
                Err(e) => kind_outcome(tag, Err(e)),
            },
        },
{
    if frame.len() > MAX_FRAME_BYTES {
        return Err(ProtocolError::FrameTooLarge { actual: frame.len(), maximum: MAX_FRAME_BYTES });
    }
    let trimmed = trim_ascii_whitespace(frame);
    if trimmed.len() == 0 {
        return Err(ProtocolError::EmptyFrame);
    }
    match read_text_member(trimmed.as_slice(), "type") {
        Err(error) => Err(ProtocolError::Json(error)),
        Ok(tag) => match message_kind(tag) {
            Ok(kind) => Ok((kind, trimmed)),
            Err(e) => Err(e),
        },
    }
}

/// Frames the JSON text `json` of `message`: the message must pass its
/// checks, and the text with its closing newline must fit in
/// `MAX_FRAME_BYTES`.
pub fn encode_frame(message: &Message, json: Vec<u8>) -> (r: Result<Vec<u8>, ProtocolError>)
    requires
        json@.len() < usize::MAX,
    ensures
        !message_valid(*message) ==> r is Err,
        message_valid(*message) && json@.len() + 1 > MAX_FRAME_BYTES ==> (r matches Err(
            ProtocolError::FrameTooLarge { actual, maximum },
        ) && actual == json@.len() + 1 && maximum == MAX_FRAME_BYTES),
        message_valid(*message) && json@.len() + 1 <= MAX_FRAME_BYTES ==> (r matches Ok(frame)
            && frame@ == json@.push(0x0a)),
{
    match message.validate() {
        Err(e) => Err(e),
        Ok(()) => {
            if json.len() >= MAX_FRAME_BYTES {
                return Err(
                    ProtocolError::FrameTooLarge { actual: json.len() + 1, maximum: MAX_FRAME_BYTES },
                );
            }
            let mut frame = json;
            frame.push(0x0a);
            Ok(frame)
        },
    }
}

} // verus!
