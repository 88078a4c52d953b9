//! What a diagnostic package may show of the agent's state and settings:
//! every name, path, serial number, place and error text is replaced by a
//! fixed placeholder, and what is absent stays absent.

use vstd::prelude::*;
use crate::float_bits::F64Bits;
use crate::ipc::{DeviceSnapshot, MonitorSnapshot, RelaySnapshot};
use crate::store::{MonitorProfile, SettingsDocument};
use crate::json::{
    json_object, json_pretty_object, json_text_member, json_u64_member, number_members,
    read_text_member, read_u64_member, text_members, write_object, write_pretty_object,
};
use crate::text::{decimal, push_decimal, text_of};

verus! {

/// `text` in place of a present value; nothing in place of nothing.
pub open spec fn masked(value: Option<String>, text: Seq<char>) -> Option<Seq<char>> {
    match value {
        Some(_) => Some(text),
        None => None,
    }
}

/// Replaces a present value by `text`.
pub fn mask(value: &Option<String>, text: &str) -> (r: Option<String>)
    ensures
        text_of(r) == masked(*value, text@),
{
    match value {
        Some(_) => Some(text.to_string()),
        None => None,
    }
}

/// Hides the device's serial number, port and error text.
pub fn redact_device(device: &mut DeviceSnapshot)
    ensures
        text_of(final(device).serial_number) == masked(old(device).serial_number, "<redacted>"@),
        text_of(final(device).port_name) == masked(old(device).port_name, "<redacted>"@),
        text_of(final(device).last_error) == masked(
            old(device).last_error,
            "A device error was present"@,
        ),
        final(device).state == old(device).state,
        final(device).product_id == old(device).product_id,
        final(device).firmware_version == old(device).firmware_version,
        final(device).negotiated_protocol == old(device).negotiated_protocol,
        final(device).capabilities == old(device).capabilities,
        final(device).reconnect_count == old(device).reconnect_count,
{
    device.serial_number = mask(&device.serial_number, "<redacted>");
    device.port_name = mask(&device.port_name, "<redacted>");
    device.last_error = mask(&device.last_error, "A device error was present");
}

/// The placeholder id of the monitor at `index`.
pub open spec fn placeholder_id(index: nat) -> Seq<char> {
    "monitor-"@ + decimal(index + 1)
}

/// Whether `r` is the snapshot `m`, at `index`, with its names, path and
/// error text hidden.
pub open spec fn redacted_monitor(r: MonitorSnapshot, m: MonitorSnapshot, index: nat) -> bool {
    &&& r.id@ == placeholder_id(index)
    &&& r.display_name@ == "<redacted monitor>"@
    &&& r.display_path@ == "<redacted>"@
    &&& text_of(r.last_error) == masked(m.last_error, "A monitor error was present"@)
    &&& r.qualified == m.qualified
    &&& r.current_percent == m.current_percent
    &&& r.target_percent == m.target_percent
    &&& r.transition_active == m.transition_active
    &&& r.manual_override_remaining_ms == m.manual_override_remaining_ms
    &&& r.ddc_error_count == m.ddc_error_count
}

/// Hides the names, paths and error texts of the monitors, which are
/// numbered from one in their order.
pub fn redact_monitors(monitors: &mut Vec<MonitorSnapshot>)
    requires
        old(monitors)@.len() < u64::MAX,
    ensures
        final(monitors)@.len() == old(monitors)@.len(),
        forall|i: int|
            0 <= i < old(monitors)@.len() ==> redacted_monitor(
                #[trigger] final(monitors)@[i],
                old(monitors)@[i],
                i as nat,
            ),
{
    let ghost all = monitors@;
    let n = monitors.len();
    let mut done: Vec<MonitorSnapshot> = Vec::new();
    let mut i: usize = 0;
    while i < n
        invariant
            n == all.len() < u64::MAX,
            0 <= i <= n,
            monitors@ == all.subrange(i as int, n as int),
            done@.len() == i,
            forall|k: int| 0 <= k < i ==> redacted_monitor(#[trigger] done@[k], all[k], k as nat),
        decreases n - i,
    {
        let mut m = monitors.remove(0);
        let mut id = "monitor-".to_string();
        push_decimal(&mut id, (i as u64) + 1);
        proof {
            reveal_strlit("monitor-");
            reveal_strlit("<redacted monitor>");
            reveal_strlit("<redacted>");
        }
        m.id = id;
        m.display_name = "<redacted monitor>".to_string();
        m.display_path = "<redacted>".to_string();
        m.last_error = mask(&m.last_error, "A monitor error was present");
        done.push(m);
        i += 1;
        proof {
            assert(monitors@ =~= all.subrange(i as int, n as int));
        }
    }
    *monitors = done;
}

/// Hides the relay's error text and the id and name of the rule that
/// matched.
pub fn redact_relay(relay: &mut RelaySnapshot)
    ensures
        text_of(final(relay).last_error) == masked(
            old(relay).last_error,
            "A relay error was present"@,
        ),
        text_of(final(relay).matched_rule_id) == masked(
            old(relay).matched_rule_id,
            "<redacted>"@,
        ),
        text_of(final(relay).matched_rule_name) == masked(
            old(relay).matched_rule_name,
            "<redacted rule>"@,
        ),
        final(relay).available == old(relay).available,
        final(relay).light_on == old(relay).light_on,
        final(relay).energized == old(relay).energized,
        final(relay).rules_enabled == old(relay).rules_enabled,
{
    relay.last_error = mask(&relay.last_error, "A relay error was present");
    relay.matched_rule_id = mask(&relay.matched_rule_id, "<redacted>");
    relay.matched_rule_name = mask(&relay.matched_rule_name, "<redacted rule>");
}

/// Hides the time zone and error text of the environment snapshot, and a
/// settings recovery warning.
pub fn redact_environment_texts(
    timezone: &Option<String>,
    last_error: &Option<String>,
    configuration_warning: &Option<String>,
) -> (r: (Option<String>, Option<String>, Option<String>))
    ensures
        text_of(r.0) == masked(*timezone, "<redacted>"@),
        text_of(r.1) == masked(*last_error, "An environment data error was present"@),
        text_of(r.2) == masked(*configuration_warning, "A settings recovery warning was present"@),
{
    (
        mask(timezone, "<redacted>"),
        mask(last_error, "An environment data error was present"),
        mask(configuration_warning, "A settings recovery warning was present"),
    )
}

/// Whether `r` is the profile `p` renamed at `index`.
pub open spec fn redacted_profile(r: (String, MonitorProfile), p: (String, MonitorProfile), index: nat) -> bool {
    &&& r.0@ == placeholder_id(index)
    &&& r.1.display_name@ == "<redacted monitor>"@
    &&& r.1.enabled == p.1.enabled
    &&& r.1.calibration == p.1.calibration
}

/// The settings with the place, time zone, paths, port, calibrations of
/// the first version and migration warnings hidden, and the monitor
/// profiles renamed and numbered from one in their order. An empty place
/// name and an empty time zone stay empty; the coordinates become zero.
pub fn sanitized_settings(document: SettingsDocument) -> (r: SettingsDocument)
    requires
        document.settings.monitors@.len() < u64::MAX,
    ensures
        r.settings.weather.location_name@ == if document.settings.weather.location_name@.len()
            == 0 {
            Seq::<char>::empty()
        } else {
            "<redacted>"@
        },
        r.settings.weather.timezone@ == if document.settings.weather.timezone@.len() == 0 {
            Seq::<char>::empty()
        } else {
            "<redacted>"@
        },
        r.settings.weather.latitude.bits == 0,
        r.settings.weather.longitude.bits == 0,
        r.settings.weather.enabled == document.settings.weather.enabled,
        r.settings.weather.refresh_seconds == document.settings.weather.refresh_seconds,
        r.migration.source_path is None,
        r.migration.legacy_device_port is None,
        r.migration.legacy_monitor_calibrations is None,
        r.migration.imported_from_v1 == document.migration.imported_from_v1,
        r.migration.imported_at_unix_seconds == document.migration.imported_at_unix_seconds,
        document.migration.warnings@.len() == 0 ==> r.migration.warnings@.len() == 0,
        document.migration.warnings@.len() > 0 ==> r.migration.warnings@.len() == 1
            && r.migration.warnings@[0]@ == "Migration warnings were present"@,
        r.settings.monitors@.len() == document.settings.monitors@.len(),
        forall|i: int|
            0 <= i < document.settings.monitors@.len() ==> redacted_profile(
                #[trigger] r.settings.monitors@[i],
                document.settings.monitors@[i],
                i as nat,
            ),
        r.schema_version == document.schema_version,
        r.settings.paused == document.settings.paused,
        r.settings.start_at_login == document.settings.start_at_login,
        r.settings.theme == document.settings.theme,
        r.settings.relay.rules@ == document.settings.relay.rules@,
        r.settings.control.sensor_curve@ == document.settings.control.sensor_curve@,
        r.settings.control == document.settings.control,
        r.settings.relay == document.settings.relay,
        r.settings.locale == document.settings.locale,
        r.settings.onboarding_completed == document.settings.onboarding_completed,
{
    let mut sanitized = document;
    proof {
        reveal_strlit("<redacted>");
        reveal_strlit("<redacted monitor>");
        reveal_strlit("monitor-");
        reveal_strlit("Migration warnings were present");
    }
    if sanitized.settings.weather.location_name.as_str().unicode_len() > 0 {
        sanitized.settings.weather.location_name = "<redacted>".to_string();
    }
    sanitized.settings.weather.latitude = F64Bits { bits: 0 };
    sanitized.settings.weather.longitude = F64Bits { bits: 0 };
    if sanitized.settings.weather.timezone.as_str().unicode_len() > 0 {
        sanitized.settings.weather.timezone = "<redacted>".to_string();
    }
    sanitized.migration.source_path = None;
    sanitized.migration.legacy_device_port = None;
    sanitized.migration.legacy_monitor_calibrations = None;
    if sanitized.migration.warnings.len() > 0 {
        let mut warnings: Vec<String> = Vec::new();
        warnings.push("Migration warnings were present".to_string());
        sanitized.migration.warnings = warnings;
    }
    let ghost all = sanitized.settings.monitors@;
    let mut profiles = Vec::new();
    std::mem::swap(&mut profiles, &mut sanitized.settings.monitors);
    let n = profiles.len();
    let mut renamed: Vec<(String, MonitorProfile)> = Vec::new();
    let mut i: usize = 0;
    while i < n
        invariant
            n == all.len() < u64::MAX,
            0 <= i <= n,
            profiles@ == all.subrange(i as int, n as int),
            renamed@.len() == i,
            forall|k: int| 0 <= k < i ==> redacted_profile(#[trigger] renamed@[k], all[k], k as nat),
        decreases n - i,
    {
        let (_, mut profile) = profiles.remove(0);
        let mut id = "monitor-".to_string();
        push_decimal(&mut id, (i as u64) + 1);
        profile.display_name = "<redacted monitor>".to_string();
        renamed.push((id, profile));
        i += 1;
        proof {
            assert(profiles@ =~= all.subrange(i as int, n as int));
        }
    }
    sanitized.settings.monitors = renamed;
    sanitized
}

/// The size at which the agent's log is rotated, in bytes.
pub const MAX_LOG_BYTES: u64 = 1_048_576;

/// How many rotated logs are kept besides the active one.
pub const LOG_GENERATIONS: u64 = 3;

/// Whether writing `line_bytes` more to the active log, which holds
/// `current_bytes` (`None` when it is not open), rotates it first: it would
/// grow past `MAX_LOG_BYTES` (counting saturates).
pub fn should_rotate_log(current_bytes: Option<u64>, line_bytes: u64) -> (r: bool)
    ensures
        r == (current_bytes matches Some(b) && (if b + line_bytes > u64::MAX {
            u64::MAX as int
        } else {
            b + line_bytes
        }) > MAX_LOG_BYTES),
{
    match current_bytes {
        Some(bytes) => bytes.saturating_add(line_bytes) > MAX_LOG_BYTES,
        None => false,
    }
}

/// The file name of a log generation: `agent.log` for the active one
/// (generation 0), `agent.N.log` for the N-th rotated one.
pub open spec fn log_name(generation: nat) -> Seq<char> {
    if generation == 0 {
        "agent.log"@
    } else {
        "agent."@ + decimal(generation) + ".log"@
    }
}

/// The file name of a log generation.
pub fn log_file_name(generation: u64) -> (r: String)
    ensures
        r@ == log_name(generation as nat),
{
    proof {
        reveal_strlit("agent.log");
        reveal_strlit("agent.");
        reveal_strlit(".log");
    }
    if generation == 0 {
        return String::from_str("agent.log");
    }
    let mut name = String::from_str("agent.");
    push_decimal(&mut name, generation);
    name.append(".log");
    name
}

/// The renames that rotate the logs, in order: each rotated generation
/// moves one older, the oldest first, replacing what stands there; then
/// the active log becomes the first rotated one. Each pair is (source,
/// destination).
pub open spec fn rotation_plan() -> Seq<(Seq<char>, Seq<char>)> {
    Seq::new(
        LOG_GENERATIONS as nat,
        |i: int| (log_name((LOG_GENERATIONS - 1 - i) as nat), log_name((LOG_GENERATIONS - i) as nat)),
    )
}

/// The renames that rotate the logs.
pub fn log_rotation_plan() -> (r: Vec<(String, String)>)
    ensures
        r@.len() == rotation_plan().len(),
        forall|i: int|
            0 <= i < r@.len() ==> (#[trigger] r@[i]).0@ == rotation_plan()[i].0 && r@[i].1@
                == rotation_plan()[i].1,
{
    let mut plan: Vec<(String, String)> = Vec::new();
    let mut generation: u64 = LOG_GENERATIONS;
    while generation > 0
        invariant
            generation <= LOG_GENERATIONS,
            plan@.len() == LOG_GENERATIONS - generation,
            forall|i: int|
                0 <= i < plan@.len() ==> (#[trigger] plan@[i]).0@ == rotation_plan()[i].0
                    && plan@[i].1@ == rotation_plan()[i].1,
        decreases generation,
    {
        let source = log_file_name(generation - 1);
        let destination = log_file_name(generation);
        plan.push((source, destination));
        generation -= 1;
    }
    plan
}

/// The first newline at or after `from` in `s`; the length of `s` when
/// there is none.
pub open spec fn next_newline(s: Seq<u8>, from: int) -> int
    decreases s.len() - from,
{
    if from < 0 || from >= s.len() {
        s.len() as int
    } else if s[from] == 0x0a {
        from
    } else {
        next_newline(s, from + 1)
    }
}

/// The next newline lies between the start of the search and the end.
pub proof fn lemma_next_newline_bounds(s: Seq<u8>, from: int)
    requires
        0 <= from <= s.len(),
    ensures
        from <= next_newline(s, from) <= s.len(),
    decreases s.len() - from,
{
    if from < s.len() && s[from] != 0x0a {
        lemma_next_newline_bounds(s, from + 1);
    }
}

proof fn lemma_next_newline_at(s: Seq<u8>, from: int, k: int)
    requires
        0 <= from <= k <= s.len(),
        forall|j: int| from <= j < k ==> s[j] != 0x0a,
        k == s.len() || s[k] == 0x0a,
    ensures
        next_newline(s, from) == k,
    decreases k - from,
{
    if from < k {
        lemma_next_newline_at(s, from + 1, k);
    }
}

/// The string member `name` of the JSON text `bytes`, or nothing.
pub open spec fn text_member_or_none(bytes: Seq<u8>, name: Seq<char>) -> Option<Seq<char>> {
    match json_text_member(bytes, name) {
        Some(t) => t,
        None => None,
    }
}

/// The unsigned integer member `name` of the JSON text `bytes`, or nothing.
pub open spec fn u64_member_or_none(bytes: Seq<u8>, name: Seq<char>) -> Option<u64> {
    match json_u64_member(bytes, name) {
        Some(n) => n,
        None => None,
    }
}

/// The members a log record keeps in a diagnostic package: its time as a
/// number, then its level, event and version as strings, and the message
/// `<redacted>`.
pub open spec fn safe_log_members(line: Seq<u8>) -> (
    Seq<(Seq<char>, Option<u64>)>,
    Seq<(Seq<char>, Option<Seq<char>>)>,
) {
    (
        seq![("timestamp_unix_ms"@, u64_member_or_none(line, "timestamp_unix_ms"@))],
        seq![
            ("level"@, text_member_or_none(line, "level"@)),
            ("event"@, text_member_or_none(line, "event"@)),
            ("version"@, text_member_or_none(line, "version"@)),
            ("message"@, Some("<redacted>"@)),
        ],
    )
}

/// A log line as a diagnostic package shows it: the safe members of the
/// record as one JSON line; nothing for a line that is not JSON or cannot
/// be written.
pub open spec fn safe_log_line(line: Seq<u8>) -> Seq<u8> {
    if json_u64_member(line, "timestamp_unix_ms"@) is None {
        Seq::empty()
    } else {
        match json_object(safe_log_members(line).0, safe_log_members(line).1) {
            Some(bytes) => bytes.push(0x0a),
            None => Seq::empty(),
        }
    }
}

/// The string member `name` of the JSON text `bytes`, or nothing.
fn read_text_or_none(bytes: &[u8], name: &str) -> (r: Option<String>)
    ensures
        text_of(r) == text_member_or_none(bytes@, name@),
{
    match read_text_member(bytes, name) {
        Ok(text) => text,
        Err(_) => None,
    }
}

/// A named member holding a number or null.
fn number_member(name: &str, value: Option<u64>) -> (r: (String, Option<u64>))
    ensures
        r.0@ == name@,
        r.1 == value,
{
    (name.to_string(), value)
}

/// A named member holding a string or null.
fn text_member(name: &str, value: Option<String>) -> (r: (String, Option<String>))
    ensures
        r.0@ == name@,
        text_of(r.1) == text_of(value),
{
    (name.to_string(), value)
}

/// The redacted form of a log: each of its lines, split at newlines,
/// made safe in turn.
pub open spec fn safe_log(content: Seq<u8>) -> Seq<u8>
    decreases content.len(),
{
    let k = next_newline(content, 0);
    proof {
        lemma_next_newline_bounds(content, 0);
    }
    if k >= content.len() {
        safe_log_line(content)
    } else {
        safe_log_line(content.subrange(0, k)) + safe_log(content.subrange(k + 1, content.len() as int))
    }
}

/// The line of a log as it may leave the machine.
fn sanitized_log_line(line: &[u8]) -> (r: Vec<u8>)
    ensures
        r@ == safe_log_line(line@),
{
    proof {
        reveal_strlit("<redacted>");
    }
    let timestamp = match read_u64_member(line, "timestamp_unix_ms") {
        None => {
            return Vec::new();
        },
        Some(timestamp) => timestamp,
    };
    let mut numbers: Vec<(String, Option<u64>)> = Vec::new();
    numbers.push(number_member("timestamp_unix_ms", timestamp));
    let mut texts: Vec<(String, Option<String>)> = Vec::new();
    texts.push(text_member("level", read_text_or_none(line, "level")));
    texts.push(text_member("event", read_text_or_none(line, "event")));
    texts.push(text_member("version", read_text_or_none(line, "version")));
    texts.push(text_member("message", Some("<redacted>".to_string())));
    proof {
        assert(number_members(numbers@) =~= safe_log_members(line@).0);
        assert(text_members(texts@) =~= safe_log_members(line@).1);
    }
    match write_object(numbers, texts) {
        Some(mut bytes) => {
            bytes.push(0x0a);
            bytes
        },
        None => Vec::new(),
    }
}

/// The agent's log as a diagnostic package shows it: every record keeps
/// its time, level, event and version, its message is replaced by
/// `<redacted>`, and lines that are not records are left out.
pub fn sanitized_log_records(content: &[u8]) -> (r: Vec<u8>)
    ensures
        r@ == safe_log(content@),
{
    let n = content.len();
    let mut out: Vec<u8> = Vec::new();
    let mut line: Vec<u8> = Vec::new();
    let mut start: usize = 0;
    let mut i: usize = 0;
    assert(content@.subrange(0, n as int) =~= content@);
    assert(line@ =~= content@.subrange(0, 0));
    while i < n
        invariant
            n == content@.len(),
            start <= i <= n,
            line@ == content@.subrange(start as int, i as int),
            forall|j: int| start <= j < i ==> content@[j] != 0x0a,
            out@ + safe_log(content@.subrange(start as int, n as int)) == safe_log(content@),
        decreases n - i,
    {
        if content[i] == 0x0a {
            let ghost rest = content@.subrange(start as int, n as int);
            proof {
                lemma_next_newline_at(rest, 0, i - start);
                assert(rest.subrange(0, i - start) =~= line@);
                assert(rest.subrange(i - start + 1, rest.len() as int) =~= content@.subrange(
                    i + 1,
                    n as int,
                ));
            }
            let safe = sanitized_log_line(line.as_slice());
            let ghost before = out@;
            let mut safe_bytes = safe;
            out.append(&mut safe_bytes);
            assert(out@ + safe_log(content@.subrange(i + 1, n as int)) =~= before + safe_log(rest));
            line = Vec::new();
            start = i + 1;
        } else {
            line.push(content[i]);
            assert(line@ =~= content@.subrange(start as int, i + 1));
        }
        i += 1;
    }
    let ghost rest = content@.subrange(start as int, n as int);
    proof {
        lemma_next_newline_at(rest, 0, rest.len() as int);
        assert(rest =~= line@);
    }
    let safe = sanitized_log_line(line.as_slice());
    let ghost before = out@;
    let mut safe_bytes = safe;
    out.append(&mut safe_bytes);
    assert(out@ =~= before + safe_log(rest));
    out
}

/// The characters of `s`, each cut to a byte.
fn char_bytes(s: &str) -> (r: Vec<u8>)
    ensures
        r@ == s@.map_values(|c: char| c as u8),
{
    let n = s.unicode_len();
    let mut out: Vec<u8> = Vec::new();
    let mut i: usize = 0;
    while i < n
        invariant
            n == s@.len(),
            0 <= i <= n,
            out@ == s@.subrange(0, i as int).map_values(|c: char| c as u8),
        decreases n - i,
    {
        let c = s.get_char(i);
        out.push(c as u8);
        assert(s@.subrange(0, i + 1) =~= s@.subrange(0, i as int).push(c));
        i += 1;
    }
    assert(s@.subrange(0, n as int) =~= s@);
    out
}

/// What a crash record says when it cannot be written as JSON.
pub open spec fn crash_fallback() -> Seq<u8> {
    "{\"message\":\"A crash record was present\"}"@.map_values(|c: char| c as u8)
}

/// The members a crash record keeps in a diagnostic package: its time and
/// process id as numbers (when the record is JSON), then the program's
/// `version`, a fixed message and a redacted location.
pub open spec fn safe_crash_members(content: Seq<u8>, version: Seq<char>) -> (
    Seq<(Seq<char>, Option<u64>)>,
    Seq<(Seq<char>, Option<Seq<char>>)>,
) {
    (
        seq![
            ("timestamp_unix_ms"@, u64_member_or_none(content, "timestamp_unix_ms"@)),
            ("process_id"@, u64_member_or_none(content, "process_id"@)),
        ],
        seq![
            ("version"@, Some(version)),
            ("message"@, Some("A panic was recorded; details remain local"@)),
            ("location"@, Some("<redacted>"@)),
        ],
    )
}

/// A crash record as a diagnostic package shows it: its safe members as
/// pretty JSON, or a fixed note when that cannot be written.
pub open spec fn safe_crash_record(content: Seq<u8>, version: Seq<char>) -> Seq<u8> {
    match json_pretty_object(
        safe_crash_members(content, version).0,
        safe_crash_members(content, version).1,
    ) {
        Some(bytes) => bytes,
        None => crash_fallback(),
    }
}

/// The unsigned integer member `name` of the JSON text `bytes`, or nothing.
fn read_u64_or_none(bytes: &[u8], name: &str) -> (r: Option<u64>)
    ensures
        r == u64_member_or_none(bytes@, name@),
{
    match read_u64_member(bytes, name) {
        Some(n) => n,
        None => None,
    }
}

/// A crash record as it may leave the machine; `version` is the program's
/// version.
pub fn sanitized_crash_record(content: &[u8], version: &str) -> (r: Vec<u8>)
    ensures
        r@ == safe_crash_record(content@, version@),
{
    proof {
        reveal_strlit("A panic was recorded; details remain local");
        reveal_strlit("<redacted>");
    }
    let mut numbers: Vec<(String, Option<u64>)> = Vec::new();
    numbers.push(number_member("timestamp_unix_ms", read_u64_or_none(content, "timestamp_unix_ms")));
    numbers.push(number_member("process_id", read_u64_or_none(content, "process_id")));
    let mut texts: Vec<(String, Option<String>)> = Vec::new();
    texts.push(text_member("version", Some(version.to_string())));
    texts.push(
        text_member("message", Some("A panic was recorded; details remain local".to_string())),
    );
    texts.push(text_member("location", Some("<redacted>".to_string())));
    proof {
        assert(number_members(numbers@) =~= safe_crash_members(content@, version@).0);
        assert(text_members(texts@) =~= safe_crash_members(content@, version@).1);
    }
    match write_pretty_object(numbers, texts) {
        Some(bytes) => bytes,
        None => char_bytes("{\"message\":\"A crash record was present\"}"),
    }
}

} // verus!
