//! What the agent keeps for each controlled monitor, and how the events of
//! the monitor workers change it and the monitors' snapshots.

use vstd::prelude::*;
use crate::control::{ManualOverrideConfig, ManualOverrideGuard};
use crate::ipc::MonitorSnapshot;
use crate::monitor::{percent_of, MonitorDescriptor, SchedulerEvent};
use crate::store::MonitorProfile;
use crate::text::text_equals;

verus! {

/// The index of the first id from `i` on that equals `id`.
pub open spec fn first_from(ids: Seq<Seq<char>>, id: Seq<char>, i: int) -> Option<int>
    decreases ids.len() - i,
{
    if i < 0 || i >= ids.len() {
        None
    } else if ids[i] == id {
        Some(i)
    } else {
        first_from(ids, id, i + 1)
    }
}

/// The index of the first id that equals `id`.
pub open spec fn first_match(ids: Seq<Seq<char>>, id: Seq<char>) -> Option<int> {
    first_from(ids, id, 0)
}

/// The first match is the first index that holds `id`; there is none when
/// no index holds it.
pub proof fn lemma_first_match(ids: Seq<Seq<char>>, id: Seq<char>, i: int)
    requires
        0 <= i <= ids.len(),
    ensures
        first_from(ids, id, i) matches Some(k) ==> i <= k < ids.len() && ids[k] == id
            && forall|j: int| i <= j < k ==> ids[j] != id,
        first_from(ids, id, i) is None ==> forall|j: int| i <= j < ids.len() ==> ids[j] != id,
    decreases ids.len() - i,
{
    if i < ids.len() && ids[i] != id {
        lemma_first_match(ids, id, i + 1);
    }
}

/// What the agent keeps for one controlled monitor: its guard against
/// changes made by hand, the brightness last read and last aimed at, and
/// whether a transition runs.
#[derive(Debug)]
pub struct MonitorControl {
    pub id: String,
    pub guard: ManualOverrideGuard,
    pub current: Option<i32>,
    pub target: Option<i32>,
    pub transition_active: bool,
}

/// The ids of the controlled monitors, in order.
pub open spec fn control_ids(s: Seq<MonitorControl>) -> Seq<Seq<char>> {
    Seq::new(s.len(), |i: int| s[i].id@)
}

/// The ids of the monitor snapshots, in order.
pub open spec fn snapshot_ids(s: Seq<MonitorSnapshot>) -> Seq<Seq<char>> {
    Seq::new(s.len(), |i: int| s[i].id@)
}

/// The brightness a reading is compared with: the last one read, else the
/// last one aimed at, else the reading itself.
pub open spec fn expected_of(c: MonitorControl, percent: i32) -> int {
    match c.current {
        Some(v) => v as int,
        None => match c.target {
            Some(t) => t as int,
            None => percent as int,
        },
    }
}

/// Whether comparing a reading with what was expected stays within `i32`.
pub open spec fn reading_fits(c: MonitorControl, percent: i32) -> bool {
    !c.transition_active ==> i32::MIN < expected_of(c, percent) - percent <= i32::MAX
}

/// A change to what the agent keeps for one monitor.
#[derive(Clone, Copy, Debug)]
pub enum ControlChange {
    /// A brightness was read or written.
    Reading { percent: i32 },
    /// A brightness was read that the user may have set by hand.
    Observed { now_ms: u64, percent: i32 },
    /// A transition ended at a brightness.
    Settled { percent: i32 },
    /// A transition stopped on an error.
    Halted,
    /// A transition towards `target` started.
    Retargeted { target: i32 },
}

/// `c` after `change`.
pub open spec fn changed_control(c: MonitorControl, change: ControlChange) -> MonitorControl {
    match change {
        ControlChange::Reading { percent } => MonitorControl { current: Some(percent), ..c },
        ControlChange::Observed { now_ms, percent } => MonitorControl {
            guard: c.guard.after_reading(
                now_ms as int,
                expected_of(c, percent),
                percent as int,
                c.transition_active,
            ),
            current: Some(percent),
            ..c
        },
        ControlChange::Settled { percent } => MonitorControl {
            current: Some(percent),
            transition_active: false,
            ..c
        },
        ControlChange::Halted => MonitorControl { transition_active: false, ..c },
        ControlChange::Retargeted { target } => MonitorControl {
            target: Some(target),
            transition_active: true,
            ..c
        },
    }
}

/// Whether `change` can be made to `c` without overflow.
pub open spec fn change_fits(c: MonitorControl, change: ControlChange) -> bool {
    change matches ControlChange::Observed { percent, .. } ==> reading_fits(c, percent)
}

/// The controls after `change` to the first one with `id`, if any.
pub open spec fn with_first_control(
    s: Seq<MonitorControl>,
    id: Seq<char>,
    change: ControlChange,
) -> Seq<MonitorControl> {
    match first_match(control_ids(s), id) {
        Some(k) => s.update(k, changed_control(s[k], change)),
        None => s,
    }
}

/// Whether `change` fits the first control with `id`, if any.
pub open spec fn first_change_fits(
    s: Seq<MonitorControl>,
    id: Seq<char>,
    change: ControlChange,
) -> bool {
    first_match(control_ids(s), id) matches Some(k) ==> change_fits(s[k], change)
}

/// A change to the snapshot of one monitor.
#[derive(Debug)]
pub enum SnapshotChange {
    /// A brightness was read or written: no error any more.
    Reading { percent: i32 },
    /// A brightness was read; the time left of a suppression.
    Observed { percent: i32, remaining: Option<u64> },
    /// A transition ended at a brightness.
    Settled { percent: i32 },
    /// An operation failed.
    Failed { message: String },
    /// A transition towards `target` started.
    Retargeted { target: i32 },
    /// A transition could not start.
    RetargetFailed { message: String },
}

/// `m` after `change`.
pub open spec fn changed_snapshot(m: MonitorSnapshot, change: SnapshotChange) -> MonitorSnapshot {
    match change {
        SnapshotChange::Reading { percent } => MonitorSnapshot {
            current_percent: Some(percent),
            last_error: None,
            ..m
        },
        SnapshotChange::Observed { percent, remaining } => MonitorSnapshot {
            current_percent: Some(percent),
            manual_override_remaining_ms: remaining,
            ..m
        },
        SnapshotChange::Settled { percent } => MonitorSnapshot {
            current_percent: Some(percent),
            transition_active: false,
            ..m
        },
        SnapshotChange::Failed { message } => MonitorSnapshot {
            ddc_error_count: if m.ddc_error_count == u64::MAX {
                u64::MAX
            } else {
                (m.ddc_error_count + 1) as u64
            },
            last_error: Some(message),
            transition_active: false,
            ..m
        },
        SnapshotChange::Retargeted { target } => MonitorSnapshot {
            target_percent: Some(target),
            transition_active: true,
            manual_override_remaining_ms: None,
            ..m
        },
        SnapshotChange::RetargetFailed { message } => MonitorSnapshot {
            last_error: Some(message),
            ..m
        },
    }
}

/// The snapshots after `change` to the first one with `id`, if any.
pub open spec fn with_first_snapshot(
    s: Seq<MonitorSnapshot>,
    id: Seq<char>,
    change: SnapshotChange,
) -> Seq<MonitorSnapshot> {
    match first_match(snapshot_ids(s), id) {
        Some(k) => s.update(k, changed_snapshot(s[k], change)),
        None => s,
    }
}

/// The index of the first control with `id`.
pub fn find_control(controls: &Vec<MonitorControl>, id: &str) -> (r: Option<usize>)
    ensures
        match r {
            Some(k) => first_match(control_ids(controls@), id@) == Some(k as int),
            None => first_match(control_ids(controls@), id@) is None,
        },
{
    let ghost ids = control_ids(controls@);
    let mut i: usize = 0;
    while i < controls.len()
        invariant
            0 <= i <= controls@.len(),
            ids == control_ids(controls@),
            first_match(ids, id@) == first_from(ids, id@, i as int),
        decreases controls@.len() - i,
    {
        if text_equals(controls[i].id.as_str(), id) {
            return Some(i);
        }
        i += 1;
    }
    None
}

/// The index of the first snapshot with `id`.
pub fn find_snapshot(snapshots: &Vec<MonitorSnapshot>, id: &str) -> (r: Option<usize>)
    ensures
        match r {
            Some(k) => first_match(snapshot_ids(snapshots@), id@) == Some(k as int),
            None => first_match(snapshot_ids(snapshots@), id@) is None,
        },
{
    let ghost ids = snapshot_ids(snapshots@);
    let mut i: usize = 0;
    while i < snapshots.len()
        invariant
            0 <= i <= snapshots@.len(),
            ids == snapshot_ids(snapshots@),
            first_match(ids, id@) == first_from(ids, id@, i as int),
        decreases snapshots@.len() - i,
    {
        if text_equals(snapshots[i].id.as_str(), id) {
            return Some(i);
        }
        i += 1;
    }
    None
}

/// Makes `change` to one control.
fn change_control(c: &mut MonitorControl, change: ControlChange)
    requires
        change_fits(*old(c), change),
    ensures
        *final(c) == changed_control(*old(c), change),
{
    match change {
        ControlChange::Reading { percent } => {
            c.current = Some(percent);
        },
        ControlChange::Observed { now_ms, percent } => {
            let expected = match c.current {
                Some(v) => v,
                None => match c.target {
                    Some(t) => t,
                    None => percent,
                },
            };
            let active = c.transition_active;
            c.guard.observe(now_ms, expected, percent, active);
            c.current = Some(percent);
        },
        ControlChange::Settled { percent } => {
            c.current = Some(percent);
            c.transition_active = false;
        },
        ControlChange::Halted => {
            c.transition_active = false;
        },
        ControlChange::Retargeted { target } => {
            c.target = Some(target);
            c.transition_active = true;
        },
    }
}

/// Makes `change` to one snapshot.
fn change_snapshot(m: &mut MonitorSnapshot, change: SnapshotChange)
    ensures
        *final(m) == changed_snapshot(*old(m), change),
{
    match change {
        SnapshotChange::Reading { percent } => {
            m.current_percent = Some(percent);
            m.last_error = None;
        },
        SnapshotChange::Observed { percent, remaining } => {
            m.current_percent = Some(percent);
            m.manual_override_remaining_ms = remaining;
        },
        SnapshotChange::Settled { percent } => {
            m.current_percent = Some(percent);
            m.transition_active = false;
        },
        SnapshotChange::Failed { message } => {
            m.ddc_error_count = m.ddc_error_count.saturating_add(1);
            m.last_error = Some(message);
            m.transition_active = false;
        },
        SnapshotChange::Retargeted { target } => {
            m.target_percent = Some(target);
            m.transition_active = true;
            m.manual_override_remaining_ms = None;
        },
        SnapshotChange::RetargetFailed { message } => {
            m.last_error = Some(message);
        },
    }
}

/// Makes `change` to the first control with `id`, if any; says whether
/// there was one.
pub fn change_first_control(
    controls: &mut Vec<MonitorControl>,
    id: &str,
    change: ControlChange,
) -> (found: bool)
    requires
        first_change_fits(old(controls)@, id@, change),
    ensures
        found == first_match(control_ids(old(controls)@), id@) is Some,
        final(controls)@ == with_first_control(old(controls)@, id@, change),
{
    match find_control(controls, id) {
        Some(k) => {
            proof {
                lemma_first_match(control_ids(controls@), id@, 0);
            }
            let mut c = controls.remove(k);
            change_control(&mut c, change);
            controls.insert(k, c);
            assert(controls@ =~= with_first_control(old(controls)@, id@, change));
            true
        },
        None => false,
    }
}

/// Makes `change` to the first snapshot with `id`, if any.
pub fn change_first_snapshot(snapshots: &mut Vec<MonitorSnapshot>, id: &str, change: SnapshotChange)
    ensures
        final(snapshots)@ == with_first_snapshot(old(snapshots)@, id@, change),
{
    match find_snapshot(snapshots, id) {
        Some(k) => {
            proof {
                lemma_first_match(snapshot_ids(snapshots@), id@, 0);
            }
            let mut m = snapshots.remove(k);
            change_snapshot(&mut m, change);
            snapshots.insert(k, m);
            assert(snapshots@ =~= with_first_snapshot(old(snapshots)@, id@, change));
        },
        None => {},
    }
}

/// The controls without the first one with `id`, if any.
pub open spec fn without_first_control(s: Seq<MonitorControl>, id: Seq<char>) -> Seq<
    MonitorControl,
> {
    match first_match(control_ids(s), id) {
        Some(k) => s.remove(k),
        None => s,
    }
}

/// Whether a snapshot belongs to a monitor other than `id`.
pub open spec fn other_than(id: Seq<char>) -> spec_fn(MonitorSnapshot) -> bool {
    |m: MonitorSnapshot| m.id@ != id
}

/// Forgets the first control with `id`, if any.
pub fn remove_first_control(controls: &mut Vec<MonitorControl>, id: &str)
    ensures
        final(controls)@ == without_first_control(old(controls)@, id@),
{
    match find_control(controls, id) {
        Some(k) => {
            proof {
                lemma_first_match(control_ids(controls@), id@, 0);
            }
            let _gone = controls.remove(k);
        },
        None => {},
    }
}

/// Drops every snapshot of the monitor `id`.
pub fn retain_other_snapshots(snapshots: &mut Vec<MonitorSnapshot>, id: &str)
    ensures
        final(snapshots)@ == old(snapshots)@.filter(other_than(id@)),
{
    let ghost all = snapshots@;
    let mut kept: Vec<MonitorSnapshot> = Vec::new();
    let mut i: usize = 0;
    let n = snapshots.len();
    while i < n
        invariant
            n == all.len(),
            0 <= i <= n,
            snapshots@ == all.subrange(i as int, n as int),
            kept@ == all.subrange(0, i as int).filter(other_than(id@)),
        decreases n - i,
    {
        let m = snapshots.remove(0);
        proof {
            assert(all.subrange(0, i + 1) =~= all.subrange(0, i as int).push(m));
            all.subrange(0, i as int).lemma_filter_push(m, other_than(id@));
        }
        if !text_equals(m.id.as_str(), id) {
            kept.push(m);
        }
        i += 1;
        assert(snapshots@ =~= all.subrange(i as int, n as int));
    }
    assert(all.subrange(0, n as int) =~= all);
    *snapshots = kept;
}

/// What the agent's loop still has to do after a monitor event.
#[derive(Debug)]
pub enum MonitorFollowUp {
    Nothing,
    /// Hand the monitors found to the workers and take them over.
    InstallDescriptors(Vec<MonitorDescriptor>),
    /// Report why the monitors could not be enumerated.
    ReportStatus(String),
}

/// Applies an event of the monitor workers to the controls and the
/// snapshots: a reading or a write records the brightness and clears the
/// error; a reading of a known monitor is checked for a change by hand and
/// reports the time left of any suppression; the end of a transition
/// records where it ended; an error stops the transition and is counted; a
/// removed monitor is forgotten. The monitors found by enumeration, and the
/// reason it failed, are handed back.
pub fn apply_monitor_event(
    controls: &mut Vec<MonitorControl>,
    snapshots: &mut Vec<MonitorSnapshot>,
    event: SchedulerEvent,
    now_ms: u64,
) -> (r: MonitorFollowUp)
    requires
        event matches SchedulerEvent::BrightnessObserved { monitor_id, percent }
            ==> first_change_fits(
            old(controls)@,
            monitor_id@,
            ControlChange::Observed { now_ms, percent },
        ),
    ensures
        match event {
            SchedulerEvent::MonitorOnline { monitor_id, current_percent } => {
                &&& final(controls)@ == with_first_control(
                    old(controls)@,
                    monitor_id@,
                    ControlChange::Reading { percent: current_percent },
                )
                &&& final(snapshots)@ == with_first_snapshot(
                    old(snapshots)@,
                    monitor_id@,
                    SnapshotChange::Reading { percent: current_percent },
                )
                &&& r is Nothing
            },
            SchedulerEvent::BrightnessApplied { monitor_id, percent } => {
                &&& final(controls)@ == with_first_control(
                    old(controls)@,
                    monitor_id@,
                    ControlChange::Reading { percent },
                )
                &&& final(snapshots)@ == with_first_snapshot(
                    old(snapshots)@,
                    monitor_id@,
                    SnapshotChange::Reading { percent },
                )
                &&& r is Nothing
            },
            SchedulerEvent::BrightnessObserved { monitor_id, percent } => {
                &&& final(controls)@ == with_first_control(
                    old(controls)@,
                    monitor_id@,
                    ControlChange::Observed { now_ms, percent },
                )
                &&& match first_match(control_ids(old(controls)@), monitor_id@) {
                    Some(k) => final(snapshots)@ == with_first_snapshot(
                        old(snapshots)@,
                        monitor_id@,
                        SnapshotChange::Observed {
                            percent,
                            remaining: changed_control(
                                old(controls)@[k],
                                ControlChange::Observed { now_ms, percent },
                            ).guard.remaining_at(now_ms as int),
                        },
                    ),
                    None => final(snapshots)@ == old(snapshots)@,
                }
                &&& r is Nothing
            },
            SchedulerEvent::TransitionComplete { monitor_id, percent } => {
                &&& final(controls)@ == with_first_control(
                    old(controls)@,
                    monitor_id@,
                    ControlChange::Settled { percent },
                )
                &&& final(snapshots)@ == with_first_snapshot(
                    old(snapshots)@,
                    monitor_id@,
                    SnapshotChange::Settled { percent },
                )
                &&& r is Nothing
            },
            SchedulerEvent::MonitorError { monitor_id, message } => {
                &&& final(controls)@ == with_first_control(
                    old(controls)@,
                    monitor_id@,
                    ControlChange::Halted,
                )
                &&& final(snapshots)@ == with_first_snapshot(
                    old(snapshots)@,
                    monitor_id@,
                    SnapshotChange::Failed { message },
                )
                &&& r is Nothing
            },
            SchedulerEvent::MonitorRemoved { monitor_id } => {
                &&& final(controls)@ == without_first_control(old(controls)@, monitor_id@)
                &&& final(snapshots)@ == old(snapshots)@.filter(other_than(monitor_id@))
                &&& r is Nothing
            },
            SchedulerEvent::RefreshReady { descriptors } => {
                &&& final(controls)@ == old(controls)@
                &&& final(snapshots)@ == old(snapshots)@
                &&& r == MonitorFollowUp::InstallDescriptors(descriptors)
            },
            SchedulerEvent::RefreshFailed { message } => {
                &&& final(controls)@ == old(controls)@
                &&& final(snapshots)@ == old(snapshots)@
                &&& r == MonitorFollowUp::ReportStatus(message)
            },
        },
{
    match event {
        SchedulerEvent::MonitorOnline { monitor_id, current_percent } => {
            change_first_control(
                controls,
                monitor_id.as_str(),
                ControlChange::Reading { percent: current_percent },
            );
            change_first_snapshot(
                snapshots,
                monitor_id.as_str(),
                SnapshotChange::Reading { percent: current_percent },
            );
            MonitorFollowUp::Nothing
        },
        SchedulerEvent::BrightnessApplied { monitor_id, percent } => {
            change_first_control(controls, monitor_id.as_str(), ControlChange::Reading { percent });
            change_first_snapshot(snapshots, monitor_id.as_str(), SnapshotChange::Reading { percent });
            MonitorFollowUp::Nothing
        },
        SchedulerEvent::BrightnessObserved { monitor_id, percent } => {
            match find_control(controls, monitor_id.as_str()) {
                Some(k) => {
                    proof {
                        lemma_first_match(control_ids(controls@), monitor_id@, 0);
                    }
                    change_first_control(
                        controls,
                        monitor_id.as_str(),
                        ControlChange::Observed { now_ms, percent },
                    );
                    let remaining = controls[k].guard.remaining_ms(now_ms);
                    change_first_snapshot(
                        snapshots,
                        monitor_id.as_str(),
                        SnapshotChange::Observed { percent, remaining },
                    );
                },
                None => {},
            }
            MonitorFollowUp::Nothing
        },
        SchedulerEvent::TransitionComplete { monitor_id, percent } => {
            change_first_control(controls, monitor_id.as_str(), ControlChange::Settled { percent });
            change_first_snapshot(snapshots, monitor_id.as_str(), SnapshotChange::Settled { percent });
            MonitorFollowUp::Nothing
        },
        SchedulerEvent::MonitorError { monitor_id, message } => {
            change_first_control(controls, monitor_id.as_str(), ControlChange::Halted);
            change_first_snapshot(snapshots, monitor_id.as_str(), SnapshotChange::Failed { message });
            MonitorFollowUp::Nothing
        },
        SchedulerEvent::MonitorRemoved { monitor_id } => {
            remove_first_control(controls, monitor_id.as_str());
            retain_other_snapshots(snapshots, monitor_id.as_str());
            MonitorFollowUp::Nothing
        },
        SchedulerEvent::RefreshReady { descriptors } => MonitorFollowUp::InstallDescriptors(
            descriptors,
        ),
        SchedulerEvent::RefreshFailed { message } => MonitorFollowUp::ReportStatus(message),
    }
}

/// The ids of the monitors found, in order.
pub open spec fn descriptor_ids(d: Seq<MonitorDescriptor>) -> Seq<Seq<char>> {
    Seq::new(d.len(), |i: int| d[i].id@)
}

/// Whether a control belongs to one of the monitors `ids`.
pub open spec fn listed_in(ids: Seq<Seq<char>>) -> spec_fn(MonitorControl) -> bool {
    |c: MonitorControl| ids.contains(c.id@)
}

/// The monitors found that are new: their id is not among `known` and no
/// monitor before them has it.
pub open spec fn added_descriptors(known: Seq<Seq<char>>, d: Seq<MonitorDescriptor>) -> Seq<
    MonitorDescriptor,
>
    decreases d.len(),
{
    if d.len() == 0 {
        Seq::empty()
    } else {
        let before = added_descriptors(known, d.drop_last());
        let id = d.last().id@;
        if known.contains(id) || descriptor_ids(d.drop_last()).contains(id) {
            before
        } else {
            before.push(d.last())
        }
    }
}

/// The current brightness of a monitor found, when its range is valid.
pub open spec fn descriptor_percent(d: MonitorDescriptor) -> Option<i32> {
    match d.brightness {
        Some(b) => if b.maximum_raw > b.minimum_raw {
            Some(percent_of(b) as i32)
        } else {
            None
        },
        None => None,
    }
}

/// What the agent starts to keep for a new monitor.
pub open spec fn fresh_control(
    d: MonitorDescriptor,
    config: ManualOverrideConfig,
    last_target: Option<i32>,
) -> MonitorControl {
    MonitorControl {
        id: d.id,
        guard: ManualOverrideGuard::unsuppressed(config),
        current: descriptor_percent(d),
        target: last_target,
        transition_active: false,
    }
}

/// `fresh_control` for each monitor.
pub open spec fn fresh_for(
    config: ManualOverrideConfig,
    last_target: Option<i32>,
) -> spec_fn(MonitorDescriptor) -> MonitorControl {
    |d: MonitorDescriptor| fresh_control(d, config, last_target)
}

/// The first snapshot of a monitor found.
pub open spec fn descriptor_snapshot(last_target: Option<i32>) -> spec_fn(MonitorDescriptor) -> MonitorSnapshot {
    |d: MonitorDescriptor|
        MonitorSnapshot {
            id: d.id,
            display_name: d.display_name,
            display_path: d.display_path,
            qualified: d.brightness is Some,
            current_percent: descriptor_percent(d),
            target_percent: last_target,
            transition_active: false,
            manual_override_remaining_ms: None,
            ddc_error_count: 0,
            last_error: d.qualification_error,
        }
}

/// Whether one of the first `n` monitors found has `id`.
fn listed_before(descriptors: &Vec<MonitorDescriptor>, n: usize, id: &str) -> (r: bool)
    requires
        n <= descriptors@.len(),
    ensures
        r == descriptor_ids(descriptors@.subrange(0, n as int)).contains(id@),
{
    let ghost ids = descriptor_ids(descriptors@.subrange(0, n as int));
    let mut i: usize = 0;
    while i < n
        invariant
            0 <= i <= n <= descriptors@.len(),
            ids == descriptor_ids(descriptors@.subrange(0, n as int)),
            forall|j: int| 0 <= j < i ==> ids[j] != id@,
        decreases n - i,
    {
        if text_equals(descriptors[i].id.as_str(), id) {
            assert(ids[i as int] == id@);
            return true;
        }
        i += 1;
    }
    false
}

/// Whether one of the first `n` controls has `id`.
fn control_before(controls: &Vec<MonitorControl>, n: usize, id: &str) -> (r: bool)
    requires
        n <= controls@.len(),
    ensures
        r == control_ids(controls@.subrange(0, n as int)).contains(id@),
{
    let ghost ids = control_ids(controls@.subrange(0, n as int));
    let mut i: usize = 0;
    while i < n
        invariant
            0 <= i <= n <= controls@.len(),
            ids == control_ids(controls@.subrange(0, n as int)),
            forall|j: int| 0 <= j < i ==> ids[j] != id@,
        decreases n - i,
    {
        if text_equals(controls[i].id.as_str(), id) {
            assert(ids[i as int] == id@);
            return true;
        }
        i += 1;
    }
    false
}

/// Forgets the controls of monitors that were not found.
fn retain_listed_controls(controls: &mut Vec<MonitorControl>, descriptors: &Vec<MonitorDescriptor>)
    ensures
        final(controls)@ == old(controls)@.filter(listed_in(descriptor_ids(descriptors@))),
{
    let ghost all = controls@;
    let ghost keep = listed_in(descriptor_ids(descriptors@));
    let mut kept: Vec<MonitorControl> = Vec::new();
    let mut i: usize = 0;
    let n = controls.len();
    while i < n
        invariant
            n == all.len(),
            0 <= i <= n,
            keep == listed_in(descriptor_ids(descriptors@)),
            controls@ == all.subrange(i as int, n as int),
            kept@ == all.subrange(0, i as int).filter(keep),
        decreases n - i,
    {
        let c = controls.remove(0);
        proof {
            assert(all.subrange(0, i + 1) =~= all.subrange(0, i as int).push(c));
            all.subrange(0, i as int).lemma_filter_push(c, keep);
            assert(descriptors@.subrange(0, descriptors@.len() as int) =~= descriptors@);
        }
        if listed_before(descriptors, descriptors.len(), c.id.as_str()) {
            kept.push(c);
        }
        i += 1;
        assert(controls@ =~= all.subrange(i as int, n as int));
    }
    assert(all.subrange(0, n as int) =~= all);
    *controls = kept;
}

/// Takes over the monitors found by enumeration: the controls of monitors
/// no longer found are forgotten, those of monitors still found are kept
/// as they were, and each new monitor gets a fresh control aimed at the
/// last target; the snapshots become those of the monitors found, in their
/// order.
pub fn replace_monitor_descriptors(
    controls: &mut Vec<MonitorControl>,
    snapshots: &mut Vec<MonitorSnapshot>,
    descriptors: Vec<MonitorDescriptor>,
    config: ManualOverrideConfig,
    last_target: Option<i32>,
)
    ensures
        ({
            let kept = old(controls)@.filter(listed_in(descriptor_ids(descriptors@)));
            let added = added_descriptors(control_ids(kept), descriptors@);
            final(controls)@ == kept + added.map_values(fresh_for(config, last_target))
        }),
        final(snapshots)@ == descriptors@.map_values(descriptor_snapshot(last_target)),
{
    retain_listed_controls(controls, &descriptors);
    let ghost kept = controls@;
    let ghost known = control_ids(kept);
    let kept_len = controls.len();
    let n = descriptors.len();
    let mut i: usize = 0;
    while i < n
        invariant
            n == descriptors@.len(),
            0 <= i <= n,
            kept_len == kept.len(),
            known == control_ids(kept),
            controls@ == kept + added_descriptors(
                known,
                descriptors@.subrange(0, i as int),
            ).map_values(fresh_for(config, last_target)),
        decreases n - i,
    {
        let ghost prefix = descriptors@.subrange(0, i as int);
        let ghost next = descriptors@.subrange(0, i + 1);
        proof {
            assert(next.drop_last() =~= prefix);
            assert(next.last() == descriptors@[i as int]);
            assert(controls@.subrange(0, kept_len as int) =~= kept);
        }
        let id = descriptors[i].id.as_str();
        let known_before = control_before(controls, kept_len, id);
        let seen_before = listed_before(&descriptors, i, id);
        if !known_before && !seen_before {
            let d = &descriptors[i];
            let fresh = MonitorControl {
                id: d.id.clone(),
                guard: ManualOverrideGuard::new(config),
                current: d.current_percent(),
                target: last_target,
                transition_active: false,
            };
            controls.push(fresh);
        }
        i += 1;
        proof {
            assert(controls@ =~= kept + added_descriptors(known, next).map_values(
                fresh_for(config, last_target),
            ));
        }
    }
    proof {
        assert(descriptors@.subrange(0, n as int) =~= descriptors@);
    }
    let ghost all = descriptors@;
    let mut found = descriptors;
    let mut fresh_snapshots: Vec<MonitorSnapshot> = Vec::new();
    let mut j: usize = 0;
    while j < n
        invariant
            n == all.len(),
            0 <= j <= n,
            found@ == all.subrange(j as int, n as int),
            fresh_snapshots@ == all.subrange(0, j as int).map_values(
                descriptor_snapshot(last_target),
            ),
        decreases n - j,
    {
        let d = found.remove(0);
        let current_percent = d.current_percent();
        let qualified = d.brightness.is_some();
        let snapshot = MonitorSnapshot {
            id: d.id,
            display_name: d.display_name,
            display_path: d.display_path,
            qualified,
            current_percent,
            target_percent: last_target,
            transition_active: false,
            manual_override_remaining_ms: None,
            ddc_error_count: 0,
            last_error: d.qualification_error,
        };
        fresh_snapshots.push(snapshot);
        j += 1;
        proof {
            assert(found@ =~= all.subrange(j as int, n as int));
            assert(fresh_snapshots@ =~= all.subrange(0, j as int).map_values(
                descriptor_snapshot(last_target),
            ));
        }
    }
    proof {
        assert(all.subrange(0, n as int) =~= all);
    }
    *snapshots = fresh_snapshots;
}

/// The ids of the monitor profiles, in order.
pub open spec fn profile_ids(p: Seq<(String, MonitorProfile)>) -> Seq<Seq<char>> {
    Seq::new(p.len(), |i: int| p[i].0@)
}

/// Whether automatic control is on for the monitor `id`: its profile says
/// so, or it has none.
pub open spec fn control_enabled(profiles: Seq<(String, MonitorProfile)>, id: Seq<char>) -> bool {
    match first_match(profile_ids(profiles), id) {
        Some(k) => profiles[k].1.enabled,
        None => true,
    }
}

/// Whether the last target is applied to a monitor at `now_ms`: control is
/// on for it and no change by hand suppresses it.
pub open spec fn retargetable(
    profiles: Seq<(String, MonitorProfile)>,
    now_ms: u64,
) -> spec_fn(MonitorControl) -> bool {
    |c: MonitorControl| control_enabled(profiles, c.id@) && !c.guard.suppressed_at(now_ms as int)
}

/// The monitors the last target goes to: none while paused or without a
/// target, else those that are retargetable, in order.
pub open spec fn retarget_set(
    controls: Seq<MonitorControl>,
    paused: bool,
    last_target: Option<i32>,
    profiles: Seq<(String, MonitorProfile)>,
    now_ms: u64,
) -> Seq<MonitorControl> {
    if paused || last_target is None {
        Seq::empty()
    } else {
        controls.filter(retargetable(profiles, now_ms))
    }
}

/// Whether automatic control is on for the monitor `id`.
fn is_control_enabled(profiles: &Vec<(String, MonitorProfile)>, id: &str) -> (r: bool)
    ensures
        r == control_enabled(profiles@, id@),
{
    let ghost ids = profile_ids(profiles@);
    let mut i: usize = 0;
    while i < profiles.len()
        invariant
            0 <= i <= profiles@.len(),
            ids == profile_ids(profiles@),
            first_match(ids, id@) == first_from(ids, id@, i as int),
        decreases profiles@.len() - i,
    {
        if text_equals(profiles[i].0.as_str(), id) {
            return profiles[i].1.enabled;
        }
        i += 1;
    }
    true
}

/// The ids of the monitors the last target goes to, in order: none while
/// paused or without a target; else every monitor whose control is on and
/// not suppressed by a change by hand at `now_ms`.
pub fn monitors_to_retarget(
    controls: &Vec<MonitorControl>,
    paused: bool,
    last_target: Option<i32>,
    profiles: &Vec<(String, MonitorProfile)>,
    now_ms: u64,
) -> (r: Vec<String>)
    ensures
        ({
            let chosen = retarget_set(controls@, paused, last_target, profiles@, now_ms);
            &&& r@.len() == chosen.len()
            &&& forall|i: int| 0 <= i < chosen.len() ==> r@[i] == chosen[i].id
        }),
{
    let mut ids: Vec<String> = Vec::new();
    if paused || last_target.is_none() {
        return ids;
    }
    let ghost keep = retargetable(profiles@, now_ms);
    let n = controls.len();
    let mut i: usize = 0;
    while i < n
        invariant
            n == controls@.len(),
            0 <= i <= n,
            keep == retargetable(profiles@, now_ms),
            ids@.len() == controls@.subrange(0, i as int).filter(keep).len(),
            forall|k: int|
                0 <= k < ids@.len() ==> ids@[k] == controls@.subrange(0, i as int).filter(
                    keep,
                )[k].id,
        decreases n - i,
    {
        let c = &controls[i];
        proof {
            assert(controls@.subrange(0, i + 1) =~= controls@.subrange(0, i as int).push(*c));
            controls@.subrange(0, i as int).lemma_filter_push(*c, keep);
        }
        if is_control_enabled(profiles, c.id.as_str()) && !c.guard.is_suppressed(now_ms) {
            ids.push(c.id.clone());
        }
        i += 1;
    }
    assert(controls@.subrange(0, n as int) =~= controls@);
    ids
}

/// Records whether a transition towards `target` started on the monitor
/// `id`: on success its control and snapshot aim at the target and the
/// transition runs; otherwise the snapshot shows the error.
pub fn record_retarget(
    controls: &mut Vec<MonitorControl>,
    snapshots: &mut Vec<MonitorSnapshot>,
    id: &str,
    target: i32,
    outcome: Result<(), String>,
)
    ensures
        match outcome {
            Ok(()) => {
                &&& final(controls)@ == with_first_control(
                    old(controls)@,
                    id@,
                    ControlChange::Retargeted { target },
                )
                &&& final(snapshots)@ == with_first_snapshot(
                    old(snapshots)@,
                    id@,
                    SnapshotChange::Retargeted { target },
                )
            },
            Err(message) => {
                &&& final(controls)@ == old(controls)@
                &&& final(snapshots)@ == with_first_snapshot(
                    old(snapshots)@,
                    id@,
                    SnapshotChange::RetargetFailed { message },
                )
            },
        },
{
    match outcome {
        Ok(()) => {
            change_first_control(controls, id, ControlChange::Retargeted { target });
            change_first_snapshot(snapshots, id, SnapshotChange::Retargeted { target });
        },
        Err(message) => {
            change_first_snapshot(snapshots, id, SnapshotChange::RetargetFailed { message });
        },
    }
}

/// The time left of the suppression of the monitor `id` at `now_ms`: that
/// of its control, none without one.
pub open spec fn remaining_for(controls: Seq<MonitorControl>, id: Seq<char>, now_ms: u64) -> Option<
    u64,
> {
    match first_match(control_ids(controls), id) {
        Some(k) => controls[k].guard.remaining_at(now_ms as int),
        None => None,
    }
}

/// A snapshot showing the time left of its monitor's suppression.
pub open spec fn with_remaining(controls: Seq<MonitorControl>, now_ms: u64) -> spec_fn(
    MonitorSnapshot,
) -> MonitorSnapshot {
    |m: MonitorSnapshot|
        MonitorSnapshot { manual_override_remaining_ms: remaining_for(controls, m.id@, now_ms), ..m }
}

/// Shows in every snapshot the time left of its monitor's suppression.
pub fn update_override_snapshots(
    controls: &Vec<MonitorControl>,
    snapshots: &mut Vec<MonitorSnapshot>,
    now_ms: u64,
)
    ensures
        final(snapshots)@ == old(snapshots)@.map_values(with_remaining(controls@, now_ms)),
{
    let ghost all = snapshots@;
    let n = snapshots.len();
    let mut done: Vec<MonitorSnapshot> = Vec::new();
    let mut i: usize = 0;
    while i < n
        invariant
            n == all.len(),
            0 <= i <= n,
            snapshots@ == all.subrange(i as int, n as int),
            done@ == all.subrange(0, i as int).map_values(with_remaining(controls@, now_ms)),
        decreases n - i,
    {
        let mut m = snapshots.remove(0);
        let remaining = match find_control(controls, m.id.as_str()) {
            Some(k) => {
                proof {
                    lemma_first_match(control_ids(controls@), m.id@, 0);
                }
                controls[k].guard.remaining_ms(now_ms)
            },
            None => None,
        };
        m.manual_override_remaining_ms = remaining;
        done.push(m);
        i += 1;
        proof {
            assert(snapshots@ =~= all.subrange(i as int, n as int));
            assert(done@ =~= all.subrange(0, i as int).map_values(with_remaining(controls@, now_ms)));
        }
    }
    assert(all.subrange(0, n as int) =~= all);
    *snapshots = done;
}

/// Whether a control is the one named, or every one when none is.
pub open spec fn selected(monitor_id: Option<Seq<char>>, c: MonitorControl) -> bool {
    match monitor_id {
        Some(id) => c.id@ == id,
        None => true,
    }
}

/// A control with its suppression ended when selected.
pub open spec fn cleared_if_selected(monitor_id: Option<Seq<char>>) -> spec_fn(MonitorControl) -> MonitorControl {
    |c: MonitorControl|
        if selected(monitor_id, c) {
            MonitorControl { guard: c.guard.cleared(), ..c }
        } else {
            c
        }
}

/// The view of an optional id.
pub open spec fn id_view(monitor_id: Option<&str>) -> Option<Seq<char>> {
    match monitor_id {
        Some(id) => Some(id@),
        None => None,
    }
}

/// Ends the suppression of the monitor named, or of every monitor.
pub fn clear_overrides(controls: &mut Vec<MonitorControl>, monitor_id: Option<&str>)
    ensures
        final(controls)@ == old(controls)@.map_values(cleared_if_selected(id_view(monitor_id))),
{
    let ghost all = controls@;
    let ghost f = cleared_if_selected(id_view(monitor_id));
    let n = controls.len();
    let mut done: Vec<MonitorControl> = Vec::new();
    let mut i: usize = 0;
    while i < n
        invariant
            n == all.len(),
            0 <= i <= n,
            f == cleared_if_selected(id_view(monitor_id)),
            controls@ == all.subrange(i as int, n as int),
            done@ == all.subrange(0, i as int).map_values(f),
        decreases n - i,
    {
        let mut c = controls.remove(0);
        let chosen = match monitor_id {
            Some(id) => text_equals(c.id.as_str(), id),
            None => true,
        };
        if chosen {
            c.guard.clear();
        }
        done.push(c);
        i += 1;
        proof {
            assert(controls@ =~= all.subrange(i as int, n as int));
            assert(done@ =~= all.subrange(0, i as int).map_values(f));
        }
    }
    assert(all.subrange(0, n as int) =~= all);
    *controls = done;
}

/// A control with a fresh guard of `config`.
pub open spec fn regarded(config: ManualOverrideConfig) -> spec_fn(MonitorControl) -> MonitorControl {
    |c: MonitorControl| MonitorControl { guard: ManualOverrideGuard::unsuppressed(config), ..c }
}

/// Gives every control a fresh guard of the new `config`.
pub fn reset_guards(controls: &mut Vec<MonitorControl>, config: ManualOverrideConfig)
    ensures
        final(controls)@ == old(controls)@.map_values(regarded(config)),
{
    let ghost all = controls@;
    let n = controls.len();
    let mut done: Vec<MonitorControl> = Vec::new();
    let mut i: usize = 0;
    while i < n
        invariant
            n == all.len(),
            0 <= i <= n,
            controls@ == all.subrange(i as int, n as int),
            done@ == all.subrange(0, i as int).map_values(regarded(config)),
        decreases n - i,
    {
        let mut c = controls.remove(0);
        c.guard = ManualOverrideGuard::new(config);
        done.push(c);
        i += 1;
        proof {
            assert(controls@ =~= all.subrange(i as int, n as int));
            assert(done@ =~= all.subrange(0, i as int).map_values(regarded(config)));
        }
    }
    assert(all.subrange(0, n as int) =~= all);
    *controls = done;
}

/// A snapshot without a running transition.
pub open spec fn at_rest() -> spec_fn(MonitorSnapshot) -> MonitorSnapshot {
    |m: MonitorSnapshot| MonitorSnapshot { transition_active: false, ..m }
}

/// Shows every monitor without a running transition, as when the system
/// sleeps.
pub fn stop_all_transitions(snapshots: &mut Vec<MonitorSnapshot>)
    ensures
        final(snapshots)@ == old(snapshots)@.map_values(at_rest()),
{
    let ghost all = snapshots@;
    let n = snapshots.len();
    let mut done: Vec<MonitorSnapshot> = Vec::new();
    let mut i: usize = 0;
    while i < n
        invariant
            n == all.len(),
            0 <= i <= n,
            snapshots@ == all.subrange(i as int, n as int),
            done@ == all.subrange(0, i as int).map_values(at_rest()),
        decreases n - i,
    {
        let mut m = snapshots.remove(0);
        m.transition_active = false;
        done.push(m);
        i += 1;
        proof {
            assert(snapshots@ =~= all.subrange(i as int, n as int));
            assert(done@ =~= all.subrange(0, i as int).map_values(at_rest()));
        }
    }
    assert(all.subrange(0, n as int) =~= all);
    *snapshots = done;
}

/// The last target goes nowhere while paused or without a target;
/// otherwise it goes to exactly the monitors whose control is on and that
/// no change by hand suppresses.
pub proof fn lemma_retarget_respects_overrides(
    controls: Seq<MonitorControl>,
    paused: bool,
    last_target: Option<i32>,
    profiles: Seq<(String, MonitorProfile)>,
    now_ms: u64,
)
    ensures
        paused || last_target is None ==> retarget_set(
            controls,
            paused,
            last_target,
            profiles,
            now_ms,
        ).len() == 0,
        forall|i: int|
            0 <= i < retarget_set(controls, paused, last_target, profiles, now_ms).len() ==> {
                let c = #[trigger] retarget_set(controls, paused, last_target, profiles, now_ms)[i];
                control_enabled(profiles, c.id@) && !c.guard.suppressed_at(now_ms as int)
            },
        !paused && last_target is Some ==> forall|i: int|
            0 <= i < controls.len() && control_enabled(profiles, controls[i].id@)
                && !controls[i].guard.suppressed_at(now_ms as int) ==> #[trigger] retarget_set(
                controls,
                paused,
                last_target,
                profiles,
                now_ms,
            ).contains(controls[i]),
{
    let chosen = retarget_set(controls, paused, last_target, profiles, now_ms);
    if !paused && last_target is Some {
        let keep = retargetable(profiles, now_ms);
        assert forall|i: int| 0 <= i < chosen.len() implies {
            let c = #[trigger] chosen[i];
            control_enabled(profiles, c.id@) && !c.guard.suppressed_at(now_ms as int)
        } by {
            controls.lemma_filter_pred(keep, i);
        }
        assert forall|i: int|
            0 <= i < controls.len() && control_enabled(profiles, controls[i].id@)
                && !controls[i].guard.suppressed_at(now_ms as int) implies #[trigger] chosen.contains(
            controls[i],
        ) by {
            controls.lemma_filter_contains(keep, i);
        }
    }
}

} // verus!
