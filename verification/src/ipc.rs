use vstd::prelude::*;
use vstd::utf8::encode_utf8;
use crate::protocol::Capability;
use crate::store::SettingsDocument;
use crate::text::{decimal, fnv1a, fnv1a64, hex_digits, push_decimal, push_hex_digits};

verus! {

/// The version of the interface between the agent and its clients.
pub const API_VERSION: u16 = 2;

/// The largest JSON body of a frame between processes, in bytes.
pub const MAX_IPC_FRAME_BYTES: usize = 1_048_576;

/// What an agent reports an error as.
#[derive(Clone, Copy, Debug, PartialEq, Eq, Structural)]
pub enum IpcErrorCode {
    InvalidRequest,
    IncompatibleApi,
    InvalidSettings,
    UnsupportedCapability,
    HardwareUnavailable,
    Timeout,
    Internal,
}

/// The name of an error code on the wire.
pub fn error_code_name(code: IpcErrorCode) -> (r: &'static str)
    ensures
        r@ == match code {
            IpcErrorCode::InvalidRequest => "invalid_request"@,
            IpcErrorCode::IncompatibleApi => "incompatible_api"@,
            IpcErrorCode::InvalidSettings => "invalid_settings"@,
            IpcErrorCode::UnsupportedCapability => "unsupported_capability"@,
            IpcErrorCode::HardwareUnavailable => "hardware_unavailable"@,
            IpcErrorCode::Timeout => "timeout"@,
            IpcErrorCode::Internal => "internal"@,
        },
{
    match code {
        IpcErrorCode::InvalidRequest => "invalid_request",
        IpcErrorCode::IncompatibleApi => "incompatible_api",
        IpcErrorCode::InvalidSettings => "invalid_settings",
        IpcErrorCode::UnsupportedCapability => "unsupported_capability",
        IpcErrorCode::HardwareUnavailable => "hardware_unavailable",
        IpcErrorCode::Timeout => "timeout",
        IpcErrorCode::Internal => "internal",
    }
}

/// A request of a client to the agent.
#[derive(Debug)]
pub enum AgentCommand {
    Ping,
    GetSnapshot,
    /// The first snapshot newer than `after_revision`, waiting at most
    /// `timeout_ms` for it.
    WaitForSnapshot { after_revision: u64, timeout_ms: u32 },
    GetSettings,
    SaveSettings { document: Box<SettingsDocument> },
    SetPaused { paused: bool },
    RunNow,
    RefreshHardware,
    SetLight { light_on: bool },
    /// Ends the suppression of one monitor, or of all when none is named.
    ClearManualOverride { monitor_id: Option<String> },
    ExportDiagnostics,
    OpenUi,
    Shutdown,
}

/// An error in a response.
#[derive(Clone, Debug)]
pub struct IpcWireError {
    pub code: IpcErrorCode,
    pub message: String,
}

/// How well the agent runs.
#[derive(Clone, Copy, Debug, PartialEq, Eq, Structural)]
pub enum HealthLevel {
    Healthy,
    Degraded,
    Fault,
    Starting,
}

impl HealthLevel {
    /// Starting.
    pub fn default() -> (r: Self)
        ensures
            r == HealthLevel::Starting,
    {
        HealthLevel::Starting
    }
}

/// Where the agent stands with the device.
#[derive(Clone, Copy, Debug, PartialEq, Eq, Structural)]
pub enum DeviceConnectionState {
    Discovering,
    Connected,
    BackingOff,
    Disconnected,
    Fault,
}

impl DeviceConnectionState {
    /// Discovering.
    pub fn default() -> (r: Self)
        ensures
            r == DeviceConnectionState::Discovering,
    {
        DeviceConnectionState::Discovering
    }
}

/// What the agent reports of the device.
#[derive(Clone, Debug)]
pub struct DeviceSnapshot {
    pub state: DeviceConnectionState,
    pub product_id: Option<String>,
    pub serial_number: Option<String>,
    pub hardware_version: Option<String>,
    pub firmware_version: Option<String>,
    pub bootloader_version: Option<String>,
    pub protocol_min: Option<u16>,
    pub protocol_max: Option<u16>,
    pub negotiated_protocol: Option<u16>,
    pub port_name: Option<String>,
    pub capabilities: Vec<Capability>,
    pub reconnect_count: u64,
    pub last_error: Option<String>,
}

impl DeviceSnapshot {
    /// Discovering, with nothing known.
    pub fn default() -> (r: Self)
        ensures
            r.state == DeviceConnectionState::Discovering,
            r.product_id is None && r.serial_number is None && r.port_name is None,
            r.hardware_version is None && r.firmware_version is None,
            r.bootloader_version is None,
            r.protocol_min is None && r.protocol_max is None,
            r.negotiated_protocol is None,
            r.capabilities@.len() == 0,
            r.reconnect_count == 0,
            r.last_error is None,
    {
        DeviceSnapshot {
            state: DeviceConnectionState::Discovering,
            product_id: None,
            serial_number: None,
            hardware_version: None,
            firmware_version: None,
            bootloader_version: None,
            protocol_min: None,
            protocol_max: None,
            negotiated_protocol: None,
            port_name: None,
            capabilities: Vec::new(),
            reconnect_count: 0,
            last_error: None,
        }
    }
}

/// What the agent reports of one monitor.
#[derive(Clone, Debug)]
pub struct MonitorSnapshot {
    pub id: String,
    pub display_name: String,
    pub display_path: String,
    pub qualified: bool,
    pub current_percent: Option<i32>,
    pub target_percent: Option<i32>,
    pub transition_active: bool,
    pub manual_override_remaining_ms: Option<u64>,
    pub ddc_error_count: u64,
    pub last_error: Option<String>,
}

/// What the agent reports of the relay.
#[derive(Clone, Debug)]
pub struct RelaySnapshot {
    pub available: bool,
    pub light_on: Option<bool>,
    pub energized: Option<bool>,
    pub rules_enabled: bool,
    pub matched_rule_id: Option<String>,
    pub matched_rule_name: Option<String>,
    pub last_error: Option<String>,
}

impl RelaySnapshot {
    /// No relay, nothing known.
    pub fn default() -> (r: Self)
        ensures
            !r.available && !r.rules_enabled,
            r.light_on is None && r.energized is None,
            r.matched_rule_id is None && r.matched_rule_name is None && r.last_error is None,
    {
        RelaySnapshot {
            available: false,
            light_on: None,
            energized: None,
            rules_enabled: false,
            matched_rule_id: None,
            matched_rule_name: None,
            last_error: None,
        }
    }
}

/// What the agent reports of its own resource use.
#[derive(Clone, Copy, Debug, PartialEq, Eq, Structural)]
pub struct ResourceSnapshot {
    pub process_id: u32,
    pub uptime_seconds: u64,
    pub cpu_usage_basis_points: Option<u32>,
    pub cpu_time_ms: Option<u64>,
    pub thread_count: Option<u32>,
    pub handle_count: Option<u32>,
    pub working_set_bytes: Option<u64>,
}

/// An error of the interface between processes that the library detects.
#[derive(Debug)]
pub enum IpcError {
    InvalidFrame(String),
    FrameTooLarge(usize),
    IncompatibleApi { received: u16, supported: u16 },
    AlreadyRunning(String),
    UnsupportedPlatform,
    ServerStopped,
}

/// The text of an `InvalidFrame` error, if `e` is one.
pub open spec fn frame_message(e: IpcError) -> Option<Seq<char>> {
    match e {
        IpcError::InvalidFrame(m) => Some(m@),
        _ => None,
    }
}

/// The little-endian bytes of `v`.
pub open spec fn u32_le(v: u32) -> Seq<u8> {
    seq![
        (v % 256) as u8,
        ((v / 256) % 256) as u8,
        ((v / 65536) % 256) as u8,
        ((v / 16777216) % 256) as u8,
    ]
}

/// The number whose little-endian bytes are the first four of `s`.
pub open spec fn le_u32(s: Seq<u8>) -> int {
    s[0] + 256 * s[1] + 65536 * s[2] + 16777216 * s[3]
}

/// Frames the JSON text `json`: its length as four little-endian bytes,
/// then the text; a text longer than `MAX_IPC_FRAME_BYTES` is refused.
pub fn encode_length_prefixed(json: &[u8]) -> (r: Result<Vec<u8>, IpcError>)
    ensures
        json@.len() > MAX_IPC_FRAME_BYTES ==> (r matches Err(IpcError::FrameTooLarge(n)) && n
            == json@.len()),
        json@.len() <= MAX_IPC_FRAME_BYTES ==> (r matches Ok(frame) && frame@ == u32_le(
            json@.len() as u32,
        ) + json@),
{
    if json.len() > MAX_IPC_FRAME_BYTES {
        return Err(IpcError::FrameTooLarge(json.len()));
    }
    let n = json.len() as u32;
    let mut frame: Vec<u8> = Vec::new();
    frame.push((n % 256) as u8);
    frame.push(((n / 256) % 256) as u8);
    frame.push(((n / 65536) % 256) as u8);
    frame.push(((n / 16777216) % 256) as u8);
    let ghost head = frame@;
    let mut i: usize = 0;
    while i < json.len()
        invariant
            0 <= i <= json@.len(),
            frame@ == head + json@.subrange(0, i as int),
        decreases json@.len() - i,
    {
        frame.push(json[i]);
        i += 1;
        assert(frame@ =~= head + json@.subrange(0, i as int));
    }
    assert(json@.subrange(0, json@.len() as int) =~= json@);
    assert(frame@ =~= u32_le(n) + json@);
    Ok(frame)
}

/// The message for a frame shorter than its prefix.
pub open spec fn no_prefix_message() -> Seq<char> {
    "frame has no length prefix"@
}

/// The message for a prefix that does not fit the frame.
pub open spec fn length_mismatch_message(length: nat, actual: nat) -> Seq<char> {
    "length prefix says "@ + decimal(length) + " bytes but frame contains "@ + decimal(actual)
}

/// Checks a length-prefixed frame and returns its JSON body: a frame of fewer
/// than four bytes has no prefix; a prefix above `MAX_IPC_FRAME_BYTES` is too
/// large; a prefix that differs from the length of the body is invalid.
pub fn decode_length_prefixed(frame: &[u8]) -> (r: Result<Vec<u8>, IpcError>)
    ensures
        frame@.len() < 4 ==> (r is Err && frame_message(r->Err_0) == Some(no_prefix_message())),
        frame@.len() >= 4 && le_u32(frame@) > MAX_IPC_FRAME_BYTES ==> (r matches Err(
            IpcError::FrameTooLarge(n),
        ) && n == le_u32(frame@)),
        frame@.len() >= 4 && le_u32(frame@) <= MAX_IPC_FRAME_BYTES && frame@.len() != le_u32(
            frame@,
        ) + 4 ==> (r is Err && frame_message(r->Err_0) == Some(
            length_mismatch_message(le_u32(frame@) as nat, (frame@.len() - 4) as nat),
        )),
        r is Ok <==> (frame@.len() >= 4 && le_u32(frame@) <= MAX_IPC_FRAME_BYTES && frame@.len()
            == le_u32(frame@) + 4),
        r matches Ok(body) ==> body@ == frame@.subrange(4, frame@.len() as int),
{
    if frame.len() < 4 {
        return Err(IpcError::InvalidFrame(String::from_str("frame has no length prefix")));
    }
    let length: u64 = frame[0] as u64 + 256 * (frame[1] as u64) + 65536 * (frame[2] as u64)
        + 16777216 * (frame[3] as u64);
    if length > MAX_IPC_FRAME_BYTES as u64 {
        return Err(IpcError::FrameTooLarge(length as usize));
    }
    if frame.len() as u64 != length + 4 {
        let mut message = String::from_str("length prefix says ");
        push_decimal(&mut message, length);
        message.append(" bytes but frame contains ");
        push_decimal(&mut message, (frame.len() - 4) as u64);
        proof {
            reveal_strlit("length prefix says ");
            reveal_strlit(" bytes but frame contains ");
        }
        return Err(IpcError::InvalidFrame(message));
    }
    let mut body: Vec<u8> = Vec::new();
    let mut i: usize = 4;
    while i < frame.len()
        invariant
            4 <= i <= frame@.len(),
            body@ == frame@.subrange(4, i as int),
        decreases frame@.len() - i,
    {
        body.push(frame[i]);
        i += 1;
        assert(body@ =~= frame@.subrange(4, i as int));
    }
    Ok(body)
}

/// The bytes of `v` decode to `v`: a body framed and then decoded comes
/// back unchanged.
pub proof fn lemma_prefix_round_trips(v: u32)
    ensures
        le_u32(u32_le(v)) == v,
{
    assert(le_u32(u32_le(v)) == v) by (nonlinear_arith);
}

/// The base name of the agent's pipe and instance lock.
pub open spec fn pipe_base() -> Seq<char> {
    "LumiControl.Agent.v2"@
}

/// The pipe of the agent of the user `user`: the pipe namespace, the base
/// name, a dot and the decimal FNV-1a hash of the user's identity.
pub open spec fn pipe_name_for(user: Seq<char>) -> Seq<char> {
    "\\\\.\\pipe\\"@ + pipe_base() + "."@ + decimal(fnv1a(encode_utf8(user)) as nat)
}

/// The lock of the agent of the user `user`: the session-local namespace,
/// the base name, a dot and the hash in sixteen hexadecimal digits.
pub open spec fn instance_name_for(user: Seq<char>) -> Seq<char> {
    "Local\\"@ + pipe_base() + "."@ + hex_digits(fnv1a(encode_utf8(user)) as nat, 16)
}

/// The pipe the agent of `user` listens on.
pub fn default_pipe_name(user: &str) -> (r: String)
    ensures
        r@ == pipe_name_for(user@),
{
    let hash = fnv1a64(user.as_bytes());
    let mut name = String::from_str("\\\\.\\pipe\\");
    name.append("LumiControl.Agent.v2");
    name.append(".");
    push_decimal(&mut name, hash);
    proof {
        reveal_strlit("\\\\.\\pipe\\");
        reveal_strlit("LumiControl.Agent.v2");
        reveal_strlit(".");
    }
    name
}

/// The namespace of local named pipes.
pub open spec fn pipe_prefix() -> Seq<char> {
    "\\\\.\\pipe\\"@
}

/// Whether `name` is a pipe the agent may serve: in the pipe namespace
/// and at most 240 bytes long.
pub open spec fn valid_pipe_name(name: Seq<char>) -> bool {
    &&& name.len() >= pipe_prefix().len()
    &&& name.subrange(0, pipe_prefix().len() as int) == pipe_prefix()
    &&& encode_utf8(name).len() <= 240
}

/// Accepts a pipe in the pipe namespace of at most 240 bytes; refuses any
/// other name as an invalid named pipe path.
pub fn validate_pipe_name(name: &str) -> (r: Result<(), IpcError>)
    ensures
        r is Ok <==> valid_pipe_name(name@),
        r is Err ==> frame_message(r->Err_0) == Some("invalid named pipe path: "@ + name@),
{
    let prefix = "\\\\.\\pipe\\";
    proof {
        reveal_strlit("\\\\.\\pipe\\");
        reveal_strlit("invalid named pipe path: ");
    }
    let mut ok = name.as_bytes().len() <= 240 && name.unicode_len() >= prefix.unicode_len();
    if ok {
        let mut i: usize = 0;
        while i < prefix.unicode_len()
            invariant
                prefix@ == pipe_prefix(),
                name@.len() >= prefix@.len(),
                0 <= i <= prefix@.len(),
                ok == forall|k: int| 0 <= k < i ==> name@[k] == prefix@[k],
            decreases prefix@.len() - i,
        {
            if name.get_char(i) != prefix.get_char(i) {
                ok = false;
            }
            i += 1;
        }
        proof {
            if ok {
                assert(name@.subrange(0, pipe_prefix().len() as int) =~= pipe_prefix());
            } else {
                let k = choose|k: int| 0 <= k < prefix@.len() && name@[k] != prefix@[k];
                assert(name@.subrange(0, pipe_prefix().len() as int)[k] != pipe_prefix()[k]);
            }
        }
    }
    if ok {
        Ok(())
    } else {
        let mut message = "invalid named pipe path: ".to_string();
        message.append(name);
        Err(IpcError::InvalidFrame(message))
    }
}

/// Ten to the power `k`.
pub open spec fn ten_pow(k: nat) -> nat
    decreases k,
{
    if k == 0 {
        1
    } else {
        10 * ten_pow((k - 1) as nat)
    }
}

/// A number below ten to the power `digits` has at most that many decimal
/// digits.
pub proof fn lemma_decimal_digits(n: nat, digits: nat)
    requires
        n < ten_pow(digits),
        digits >= 1,
    ensures
        decimal(n).len() <= digits,
    decreases digits,
{
    if n >= 10 {
        if digits == 1 {
            assert(ten_pow(1) == 10) by {
                reveal_with_fuel(ten_pow, 2);
            }
        } else {
            let smaller = ten_pow((digits - 1) as nat);
            assert(n / 10 < smaller) by (nonlinear_arith)
                requires
                    n < smaller * 10,
            ;
            lemma_decimal_digits(n / 10, (digits - 1) as nat);
        }
    }
}

/// The decimal numeral of a number is made of ASCII digits.
pub proof fn lemma_decimal_is_ascii(n: nat)
    ensures
        vstd::utf8::is_ascii_chars(decimal(n)),
    decreases n,
{
    if n >= 10 {
        lemma_decimal_is_ascii(n / 10);
    }
}

/// The pipe the agent of any user listens on is one it may serve.
pub proof fn lemma_default_pipe_name_is_valid(user: Seq<char>)
    ensures
        valid_pipe_name(pipe_name_for(user)),
{
    reveal_strlit("\\\\.\\pipe\\");
    reveal_strlit("LumiControl.Agent.v2");
    reveal_strlit(".");
    let hash = fnv1a(encode_utf8(user)) as nat;
    let digits = decimal(hash);
    assert(hash < ten_pow(20)) by {
        reveal_with_fuel(ten_pow, 21);
    }
    lemma_decimal_digits(hash, 20);
    lemma_decimal_is_ascii(hash);
    let name = pipe_name_for(user);
    assert(name.subrange(0, pipe_prefix().len() as int) =~= pipe_prefix());
    assert(vstd::utf8::is_ascii_chars(name)) by {
        assert forall|i: int| 0 <= i < name.len() implies '\0' <= #[trigger] name[i] <= '\u{7f}' by {
            if i >= 30 {
                assert(name[i] == digits[i - 30]);
            }
        }
    }
    vstd::utf8::is_ascii_chars_encode_utf8(name);
}

/// The lock that keeps one agent per `user`.
pub fn default_instance_name(user: &str) -> (r: String)
    ensures
        r@ == instance_name_for(user@),
{
    let hash = fnv1a64(user.as_bytes());
    let mut name = String::from_str("Local\\");
    name.append("LumiControl.Agent.v2");
    name.append(".");
    push_hex_digits(&mut name, hash, 16);
    proof {
        reveal_strlit("Local\\");
        reveal_strlit("LumiControl.Agent.v2");
        reveal_strlit(".");
    }
    name
}

/// The id of the call after the one with id `id`: one more, wrapping past
/// `u64::MAX` to one, never zero.
pub open spec fn following_id(id: u64) -> u64 {
    if id == u64::MAX {
        1
    } else {
        (id + 1) as u64
    }
}

/// The id of the call after the one with id `id`.
pub fn next_call_id(id: u64) -> (r: u64)
    ensures
        r == following_id(id),
        r >= 1,
{
    let next = id.wrapping_add(1);
    if next < 1 {
        1
    } else {
        next
    }
}

/// The message for a response to another call.
pub open spec fn mismatched_id_message(received: nat, sent: nat) -> Seq<char> {
    "response ID "@ + decimal(received) + " does not match request ID "@ + decimal(sent)
}

/// Checks that a response answers the call with id `sent`.
pub fn check_response_id(received: u64, sent: u64) -> (r: Result<(), IpcError>)
    ensures
        r is Ok <==> received == sent,
        r is Err ==> frame_message(r->Err_0) == Some(
            mismatched_id_message(received as nat, sent as nat),
        ),
{
    if received == sent {
        return Ok(());
    }
    let mut message = String::from_str("response ID ");
    push_decimal(&mut message, received);
    message.append(" does not match request ID ");
    push_decimal(&mut message, sent);
    proof {
        reveal_strlit("response ID ");
        reveal_strlit(" does not match request ID ");
    }
    Err(IpcError::InvalidFrame(message))
}

/// Checks the interface version of a request or response.
pub fn check_api_version(received: u16) -> (r: Result<(), IpcError>)
    ensures
        r is Ok <==> received == API_VERSION,
        r is Err ==> (r->Err_0 matches IpcError::IncompatibleApi { received: got, supported }
            && got == received && supported == API_VERSION),
{
    if received != API_VERSION {
        return Err(IpcError::IncompatibleApi { received, supported: API_VERSION });
    }
    Ok(())
}

/// Checks that a response carries exactly one of a result and an error.
pub fn check_response_shape(has_result: bool, has_error: bool) -> (r: Result<(), IpcError>)
    ensures
        r is Ok <==> has_result != has_error,
        r is Err ==> frame_message(r->Err_0) == Some(
            "response must contain exactly one of result or error"@,
        ),
{
    if has_result != has_error {
        Ok(())
    } else {
        Err(
            IpcError::InvalidFrame(
                String::from_str("response must contain exactly one of result or error"),
            ),
        )
    }
}

} // verus!
