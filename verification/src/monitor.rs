use vstd::prelude::*;
use crate::control::{
    clamp, normalize_brightness, round_half_away, write_interval, CoreError,
    TransitionPlan, TransitionSpec,
};
use crate::text::{
    ascii_lower_bytes, equal_ignoring_ascii_case, fnv1a, fnv1a64, hex_digits, push_hex_digits,
    push_lowercase_bytes,
};

verus! {

/// What identifies a physical monitor across enumerations.
#[derive(Clone, Debug)]
pub struct MonitorIdentity {
    pub display_path: String,
    pub device_id: String,
    pub edid: Vec<u8>,
    pub physical_index: u32,
}

/// The little-endian bytes of `v`.
pub open spec fn le_bytes(v: u32) -> Seq<u8> {
    seq![
        (v % 256) as u8,
        ((v / 256) % 256) as u8,
        ((v / 65536) % 256) as u8,
        ((v / 16777216) % 256) as u8,
    ]
}

/// The bytes an identity is hashed over: the display path and device id,
/// ASCII capitals lowered, each ended by a zero byte, then the EDID and the
/// little-endian physical index.
pub open spec fn identity_bytes(m: MonitorIdentity) -> Seq<u8> {
    ascii_lower_bytes(m.display_path@).push(0) + ascii_lower_bytes(m.device_id@).push(0) + m.edid@
        + le_bytes(m.physical_index)
}

/// The stable id of an identity: `monitor-` and the FNV-1a hash of its
/// bytes in sixteen lowercase hexadecimal digits.
pub open spec fn stable_id_text(m: MonitorIdentity) -> Seq<char> {
    "monitor-"@ + hex_digits(fnv1a(identity_bytes(m)) as nat, 16)
}

impl MonitorIdentity {
    /// The id that names this monitor whatever order monitors are
    /// enumerated in.
    pub fn stable_id(&self) -> (r: String)
        ensures
            r@ == stable_id_text(*self),
    {
        let mut bytes: Vec<u8> = Vec::new();
        push_lowercase_bytes(&mut bytes, self.display_path.as_str());
        bytes.push(0);
        push_lowercase_bytes(&mut bytes, self.device_id.as_str());
        bytes.push(0);
        let mut i: usize = 0;
        let ghost head = bytes@;
        while i < self.edid.len()
            invariant
                0 <= i <= self.edid@.len(),
                bytes@ == head + self.edid@.subrange(0, i as int),
            decreases self.edid@.len() - i,
        {
            bytes.push(self.edid[i]);
            i += 1;
            assert(bytes@ =~= head + self.edid@.subrange(0, i as int));
        }
        let v = self.physical_index;
        bytes.push((v % 256) as u8);
        bytes.push(((v / 256) % 256) as u8);
        bytes.push(((v / 65536) % 256) as u8);
        bytes.push(((v / 16777216) % 256) as u8);
        assert(bytes@ =~= identity_bytes(*self));
        let hash = fnv1a64(bytes.as_slice());
        let mut id = String::from_str("monitor-");
        push_hex_digits(&mut id, hash, 16);
        proof {
            reveal_strlit("monitor-");
        }
        id
    }
}

/// Identities that differ only in the ASCII case of their display path and
/// device id have the same stable id.
pub proof fn lemma_stable_id_ignores_ascii_case(a: MonitorIdentity, b: MonitorIdentity)
    requires
        equal_ignoring_ascii_case(a.display_path@, b.display_path@),
        equal_ignoring_ascii_case(a.device_id@, b.device_id@),
        a.edid@ == b.edid@,
        a.physical_index == b.physical_index,
    ensures
        stable_id_text(a) == stable_id_text(b),
{
    assert(identity_bytes(a) == identity_bytes(b));
}

/// An error of monitor control.
#[allow(inconsistent_fields)]
#[derive(Debug)]
pub enum MonitorError {
    Platform(String),
    NotFound(String),
    UnsupportedPlatform,
    UnsupportedBrightness(String),
    InvalidRange { minimum: u32, maximum: u32 },
    InvalidTransitionConfiguration(String),
    WorkerStopped(String),
}

/// The raw brightness range a monitor reports, and its current raw value.
#[derive(Clone, Copy, Debug, PartialEq, Eq, Structural)]
pub struct BrightnessRange {
    pub minimum_raw: u32,
    pub current_raw: u32,
    pub maximum_raw: u32,
}

/// Whether `r` is the error for the range `b`.
pub open spec fn is_range_error(e: MonitorError, b: BrightnessRange) -> bool {
    e matches MonitorError::InvalidRange { minimum, maximum } && minimum == b.minimum_raw
        && maximum == b.maximum_raw
}

/// The percent that the current raw value stands for: its offset above the
/// minimum (zero below it) as a share of the range, rounded half away from
/// zero and clamped into `0..=100`.
pub open spec fn percent_of(b: BrightnessRange) -> int {
    let offset = if b.current_raw >= b.minimum_raw {
        b.current_raw - b.minimum_raw
    } else {
        0
    };
    clamp(round_half_away(offset * 100, b.maximum_raw - b.minimum_raw), 0, 100)
}

/// The raw value that stands for `percent` (clamped into `0..=100`), rounded
/// half away from zero.
pub open spec fn raw_of(b: BrightnessRange, percent: int) -> int {
    let p = clamp(percent, 0, 100);
    round_half_away(b.minimum_raw * 100 + (b.maximum_raw - b.minimum_raw) * p, 100)
}

impl BrightnessRange {
    /// The range itself when its maximum lies above its minimum.
    pub fn validate(self) -> (r: Result<Self, MonitorError>)
        ensures
            r is Ok <==> self.maximum_raw > self.minimum_raw,
            r matches Ok(v) ==> v == self,
            r matches Err(e) ==> is_range_error(e, self),
    {
        if self.maximum_raw <= self.minimum_raw {
            return Err(
                MonitorError::InvalidRange { minimum: self.minimum_raw, maximum: self.maximum_raw },
            );
        }
        Ok(self)
    }

    /// The current brightness in percent.
    pub fn current_percent(self) -> (r: Result<i32, MonitorError>)
        ensures
            r is Ok <==> self.maximum_raw > self.minimum_raw,
            r matches Ok(p) ==> p == percent_of(self),
            r matches Err(e) ==> is_range_error(e, self),
    {
        let range = match self.validate() {
            Ok(range) => range,
            Err(e) => return Err(e),
        };
        let offset: u64 = if range.current_raw >= range.minimum_raw {
            (range.current_raw - range.minimum_raw) as u64
        } else {
            0
        };
        let span: u64 = (range.maximum_raw - range.minimum_raw) as u64;
        let rounded: u64 = (2 * (offset * 100) + span) / (2 * span);
        let percent: i32 = if rounded > 100 {
            100
        } else {
            rounded as i32
        };
        Ok(percent)
    }

    /// The raw value for `percent`.
    pub fn raw_for_percent(self, percent: i32) -> (r: Result<u32, MonitorError>)
        ensures
            r is Ok <==> self.maximum_raw > self.minimum_raw,
            r matches Ok(v) ==> v == raw_of(self, percent as int),
            r matches Err(e) ==> is_range_error(e, self),
    {
        let range = match self.validate() {
            Ok(range) => range,
            Err(e) => return Err(e),
        };
        let p = normalize_brightness(percent) as u64;
        let span: u64 = (range.maximum_raw - range.minimum_raw) as u64;
        assert(span * p <= span * 100) by (nonlinear_arith)
            requires
                p <= 100,
        ;
        let total: u64 = range.minimum_raw as u64 * 100 + span * p;
        let raw: u64 = (2 * total + 100) / 200;
        proof {
            let hi = range.maximum_raw as int;
            assert(total <= hi * 100);
            assert((2 * total + 100) / 200 <= hi) by (nonlinear_arith)
                requires
                    total <= hi * 100,
                    0 <= total,
            ;
        }
        Ok(raw as u32)
    }
}

/// A raw value of a valid range lies within the range.
pub proof fn lemma_raw_within_range(b: BrightnessRange, percent: int)
    requires
        b.maximum_raw > b.minimum_raw,
    ensures
        b.minimum_raw <= raw_of(b, percent) <= b.maximum_raw,
{
    let p = clamp(percent, 0, 100);
    let span = b.maximum_raw - b.minimum_raw;
    let lo = b.minimum_raw as int;
    let hi = b.maximum_raw as int;
    assert(0 <= span * p <= span * 100) by (nonlinear_arith)
        requires
            0 <= p <= 100,
            span > 0,
    ;
    let n = lo * 100 + span * p;
    assert(lo * 100 <= n <= hi * 100);
    assert(lo <= (2 * n + 100) / 200 <= hi) by (nonlinear_arith)
        requires
            lo * 100 <= n <= hi * 100,
            0 <= lo,
    ;
}

/// A monitor found by enumeration.
#[derive(Clone, Debug)]
pub struct MonitorDescriptor {
    pub id: String,
    pub display_name: String,
    pub display_path: String,
    pub device_id: String,
    pub brightness: Option<BrightnessRange>,
    pub qualification_error: Option<String>,
}

impl MonitorDescriptor {
    /// The current brightness in percent, when the monitor has a valid
    /// brightness range.
    pub fn current_percent(&self) -> (r: Option<i32>)
        ensures
            r == match self.brightness {
                Some(b) => if b.maximum_raw > b.minimum_raw {
                    Some(percent_of(b) as i32)
                } else {
                    None
                },
                None => None,
            },
    {
        match self.brightness {
            Some(range) => match range.current_percent() {
                Ok(p) => Some(p),
                Err(_) => None,
            },
            None => None,
        }
    }
}

/// An open connection to one monitor; the platform provides it.
pub trait MonitorSession {
    /// The stable id of the monitor.
    fn id(&self) -> &str;

    /// Reads the raw brightness range and value.
    fn read_brightness(&mut self) -> Result<BrightnessRange, MonitorError>;

    /// Sets the brightness in percent.
    fn set_brightness_percent(&mut self, percent: i32) -> Result<(), MonitorError>;
}

/// Finds and opens monitors; the platform provides it.
pub trait MonitorBackend {
    /// The monitors present now.
    fn enumerate(&self) -> Result<Vec<MonitorDescriptor>, MonitorError>;

    /// Opens the monitor with the stable id `monitor_id`.
    fn open(&self, monitor_id: &str) -> Result<Box<dyn MonitorSession>, MonitorError>;
}

/// What the monitor workers report.
#[derive(Clone, Debug)]
pub enum SchedulerEvent {
    MonitorOnline { monitor_id: String, current_percent: i32 },
    BrightnessApplied { monitor_id: String, percent: i32 },
    BrightnessObserved { monitor_id: String, percent: i32 },
    TransitionComplete { monitor_id: String, percent: i32 },
    MonitorError { monitor_id: String, message: String },
    MonitorRemoved { monitor_id: String },
    RefreshReady { descriptors: Vec<MonitorDescriptor> },
    RefreshFailed { message: String },
}

/// What a monitor worker decides after a step, for the loop around it to
/// report and act on.
#[derive(Clone, Debug)]
pub enum WorkerNotice {
    Quiet,
    Applied { percent: i32 },
    Complete { percent: i32 },
    Failed { message: String },
}

/// The state of one monitor worker: the brightness it last applied or read,
/// and the transition it is running, if any.
#[derive(Clone, Copy, Debug)]
pub struct MonitorWorkerState {
    pub current: i32,
    pub plan: Option<TransitionPlan>,
}

/// A write that a worker's transition asks for at some moment.
#[derive(Clone, Copy, Debug, PartialEq, Eq, Structural)]
pub struct DueWrite {
    pub percent: i32,
    pub complete: bool,
}

impl MonitorWorkerState {
    /// A worker that has read `current` and runs no transition.
    pub fn online(current: i32) -> (r: Self)
        ensures
            r.current == current,
            r.plan is None,
    {
        MonitorWorkerState { current, plan: None }
    }

    /// Handles a new target at `now_ms`: a running transition is retargeted
    /// from where it stands, otherwise a new one starts from the current
    /// brightness. A transition that would end where the monitor already is
    /// is dropped and reported complete; an invalid spec is reported and
    /// changes nothing.
    pub fn retarget(&mut self, now_ms: u64, target_percent: i32, spec: TransitionSpec) -> (r:
        WorkerNotice)
        ensures
            final(self).current == old(self).current,
            old(self).plan is None && !spec.valid() ==> (r matches WorkerNotice::Failed { message }
                && message@ == spec.validate_error_message() && final(self).plan
                == old(self).plan),
            old(self).plan is Some || spec.valid() ==> ({
                let start = match old(self).plan {
                    Some(p) => p.brightness_at(now_ms),
                    None => clamp(old(self).current as int, 0, 100),
                };
                let end = clamp(target_percent as int, 0, 100);
                if end == old(self).current {
                    &&& final(self).plan is None
                    &&& r == (WorkerNotice::Complete { percent: old(self).current })
                } else {
                    &&& r is Quiet
                    &&& final(self).plan matches Some(p)
                    &&& p.start_value() == start
                    &&& p.end_value() == end
                    &&& p.started_at() == now_ms
                }
            }),
    {
        let next = match self.plan {
            Some(active) => active.retarget(now_ms, target_percent),
            None => TransitionPlan::new(self.current, target_percent, now_ms, spec),
        };
        match next {
            Ok(next) => {
                if next.target() == self.current {
                    self.plan = None;
                    WorkerNotice::Complete { percent: self.current }
                } else {
                    self.plan = Some(next);
                    WorkerNotice::Quiet
                }
            },
            Err(CoreError::InvalidConfiguration(message)) => WorkerNotice::Failed { message },
        }
    }

    /// Records a brightness read from the monitor.
    pub fn observed(&mut self, percent: i32)
        ensures
            final(self).current == percent,
            final(self).plan == old(self).plan,
    {
        self.current = percent;
    }

    /// The write due at `now_ms`, if any: the transition's value, when it
    /// differs from the current brightness or the transition has finished.
    pub fn due_write(&self, now_ms: u64) -> (r: Option<DueWrite>)
        ensures
            match self.plan {
                None => r is None,
                Some(p) => {
                    let value = p.brightness_at(now_ms);
                    let complete = now_ms >= p.started_at() && now_ms - p.started_at()
                        >= p.transition_spec().duration_ms;
                    if value != self.current || complete {
                        r == Some(DueWrite { percent: value as i32, complete })
                    } else {
                        r is None
                    }
                },
            },
    {
        match self.plan {
            None => None,
            Some(active) => {
                let value = active.value_at(now_ms);
                let complete = active.is_complete(now_ms);
                if value != self.current || complete {
                    Some(DueWrite { percent: value, complete })
                } else {
                    None
                }
            },
        }
    }

    /// Whether the running transition has finished by `now_ms` without a
    /// write being due.
    pub fn finished(&self, now_ms: u64) -> (r: bool)
        ensures
            r == (self.plan matches Some(p) && now_ms >= p.started_at() && now_ms - p.started_at()
                >= p.transition_spec().duration_ms),
    {
        match self.plan {
            Some(active) => active.is_complete(now_ms),
            None => false,
        }
    }

    /// Records a successful write of `write`: the brightness is applied and
    /// reported, and a finished transition ends and is reported complete.
    pub fn write_succeeded(&mut self, write: DueWrite) -> (r: Vec<WorkerNotice>)
        ensures
            final(self).current == write.percent,
            write.complete ==> final(self).plan is None,
            !write.complete ==> final(self).plan == old(self).plan,
            r@.len() == if write.complete {
                2int
            } else {
                1int
            },
            r@[0] == (WorkerNotice::Applied { percent: write.percent }),
            write.complete ==> r@[1] == (WorkerNotice::Complete { percent: write.percent }),
    {
        self.current = write.percent;
        let mut notices: Vec<WorkerNotice> = Vec::new();
        notices.push(WorkerNotice::Applied { percent: write.percent });
        if write.complete {
            self.plan = None;
            notices.push(WorkerNotice::Complete { percent: write.percent });
        }
        notices
    }

    /// Records a failed write: the transition is dropped.
    pub fn write_failed(&mut self, message: String) -> (r: WorkerNotice)
        ensures
            final(self).current == old(self).current,
            final(self).plan is None,
            r matches WorkerNotice::Failed { message: m } && m@ == message@,
    {
        self.plan = None;
        WorkerNotice::Failed { message }
    }

    /// How long to wait before the next write of the running transition.
    pub fn write_interval_ms(&self) -> (r: Option<u64>)
        ensures
            match self.plan {
                Some(p) => r == Some(write_interval(p.transition_spec().max_writes_per_second as int) as u64),
                None => r is None,
            },
    {
        match self.plan {
            Some(active) => Some(active.minimum_write_interval_ms()),
            None => None,
        }
    }
}

/// The checked command for a transition towards `target_percent`: the
/// target brought into `0..=100`, and the spec when it is valid; an invalid
/// spec is refused with the reason it gives.
pub fn prepare_retarget(target_percent: i32, spec: TransitionSpec) -> (r: Result<
    (i32, TransitionSpec),
    MonitorError,
>)
    ensures
        r is Ok <==> spec.valid(),
        r matches Ok((target, checked)) ==> target == clamp(target_percent as int, 0, 100)
            && checked == spec,
        r matches Err(e) ==> e matches MonitorError::InvalidTransitionConfiguration(message)
            && message@ == spec.validate_error_message(),
{
    let target = normalize_brightness(target_percent);
    match spec.validate() {
        Ok(checked) => Ok((target, checked)),
        Err(CoreError::InvalidConfiguration(message)) => Err(
            MonitorError::InvalidTransitionConfiguration(message),
        ),
    }
}

/// The ids of the monitors found whose brightness can be controlled, in
/// order.
pub open spec fn controllable_ids(d: Seq<MonitorDescriptor>) -> Seq<Seq<char>> {
    d.filter(controllable()).map_values(descriptor_id())
}

/// Whether a monitor found has a brightness range.
pub open spec fn controllable() -> spec_fn(MonitorDescriptor) -> bool {
    |m: MonitorDescriptor| m.brightness is Some
}

/// The id of a monitor found.
pub open spec fn descriptor_id() -> spec_fn(MonitorDescriptor) -> Seq<char> {
    |m: MonitorDescriptor| m.id@
}

/// The ids of the monitors found whose brightness can be controlled, in
/// order: each gets a worker.
pub fn controllable_monitor_ids(descriptors: &Vec<MonitorDescriptor>) -> (r: Vec<String>)
    ensures
        r@.len() == controllable_ids(descriptors@).len(),
        forall|k: int| 0 <= k < r@.len() ==> #[trigger] r@[k]@ == controllable_ids(descriptors@)[k],
{
    let ghost all = descriptors@;
    let ghost keep = controllable();
    let mut ids: Vec<String> = Vec::new();
    let mut i: usize = 0;
    while i < descriptors.len()
        invariant
            0 <= i <= all.len(),
            all == descriptors@,
            keep == controllable(),
            ids@.len() == all.subrange(0, i as int).filter(keep).len(),
            forall|k: int|
                0 <= k < ids@.len() ==> #[trigger] ids@[k]@ == all.subrange(0, i as int).filter(
                    keep,
                )[k].id@,
        decreases all.len() - i,
    {
        let d = &descriptors[i];
        proof {
            assert(all.subrange(0, i + 1) =~= all.subrange(0, i as int).push(*d));
            all.subrange(0, i as int).lemma_filter_push(*d, keep);
        }
        if d.brightness.is_some() {
            ids.push(d.id.clone());
        }
        i += 1;
    }
    assert(all.subrange(0, all.len() as int) =~= all);
    ids
}

/// The monitors that had a worker and are no longer controllable, in the
/// order of `worker_ids`: each is reported removed.
pub fn removed_monitor_ids(worker_ids: &Vec<String>, descriptors: &Vec<MonitorDescriptor>) -> (r: Vec<
    String,
>)
    ensures
        r@.map_values(|s: String| s@) == worker_ids@.map_values(|s: String| s@).filter(
            |id: Seq<char>| !controllable_ids(descriptors@).contains(id),
        ),
{
    let kept = controllable_monitor_ids(descriptors);
    let ghost controllable = controllable_ids(descriptors@);
    assert(kept@.map_values(|s: String| s@) =~= controllable);
    let ghost views = worker_ids@.map_values(|s: String| s@);
    let ghost gone = |id: Seq<char>| !controllable.contains(id);
    let mut removed: Vec<String> = Vec::new();
    let mut i: usize = 0;
    while i < worker_ids.len()
        invariant
            0 <= i <= worker_ids@.len(),
            views == worker_ids@.map_values(|s: String| s@),
            kept@.map_values(|s: String| s@) == controllable,
            controllable == controllable_ids(descriptors@),
            gone == (|id: Seq<char>| !controllable.contains(id)),
            removed@.map_values(|s: String| s@) == views.subrange(0, i as int).filter(gone),
        decreases worker_ids@.len() - i,
    {
        let id = worker_ids[i].as_str();
        let mut found = false;
        let mut j: usize = 0;
        while j < kept.len()
            invariant
                0 <= j <= kept@.len(),
                kept@.map_values(|s: String| s@) == controllable,
                found <==> exists|k: int| 0 <= k < j && kept@[k]@ == id@,
            decreases kept@.len() - j,
        {
            if crate::text::text_equals(kept[j].as_str(), id) {
                found = true;
            }
            j += 1;
        }
        proof {
            assert(views.subrange(0, i + 1) =~= views.subrange(0, i as int).push(id@));
            views.subrange(0, i as int).lemma_filter_push(id@, gone);
            if found {
                let k = choose|k: int| 0 <= k < kept@.len() && kept@[k]@ == id@;
                assert(controllable[k] == id@);
            } else {
                assert forall|k: int| 0 <= k < controllable.len() implies controllable[k] != id@ by {
                    assert(controllable[k] == kept@[k]@);
                }
            }
        }
        if !found {
            removed.push(worker_ids[i].clone());
        }
        i += 1;
        proof {
            assert(removed@.map_values(|s: String| s@) =~= views.subrange(0, i as int).filter(gone));
        }
    }
    assert(views.subrange(0, worker_ids@.len() as int) =~= views);
    removed
}

} // verus!
