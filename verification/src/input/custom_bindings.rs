//! Custom boolean bindings that OpenXR cannot express directly: toggles,
//! analog thresholds, grabs, dpad directions and double taps. Each is a
//! state machine fed with what the runtime reported for the underlying
//! OpenXR action; the float comparisons against thresholds and the dpad
//! geometry are made before the readings reach these functions.
use vstd::prelude::*;
use crate::text::chars_of;

verus! {

/// Marks the set of OpenXR actions that back a custom binding.
pub struct Actions;

/// Marks the set of action names that back a custom binding.
pub struct Names;

/// The state of a boolean action as OpenXR reports it (times in
/// nanoseconds).
#[derive(Copy, Clone, Debug, PartialEq, Eq, Structural)]
pub struct BoolActionState {
    pub current_state: bool,
    pub changed_since_last_sync: bool,
    pub last_change_time: i64,
    pub is_active: bool,
}

/// A time in nanoseconds, shared between syncs.
#[derive(Copy, Clone, Debug)]
pub struct AtomicTime {
    nanos: i64,
}

impl AtomicTime {
    pub closed spec fn nanos(&self) -> i64 {
        self.nanos
    }

    pub fn new(time: i64) -> (r: Self)
        ensures
            r.nanos() == time,
    {
        AtomicTime { nanos: time }
    }

    pub fn store(&mut self, time: i64)
        ensures
            final(self).nanos() == time,
    {
        self.nanos = time;
    }

    pub fn load(&self) -> (t: i64)
        ensures
            t == self.nanos(),
    {
        self.nanos
    }
}

/// The state a custom binding reports after a reading: active, with the
/// given current value and whether it changed, at the reading's time.
pub open spec fn reported(current: bool, previous: bool, time: i64) -> BoolActionState {
    BoolActionState {
        current_state: current,
        changed_since_last_sync: current != previous,
        last_change_time: time,
        is_active: true,
    }
}

// ---------------------------------------------------------------- toggle

/// A button that flips its state on every press.
#[derive(Copy, Clone, Debug, PartialEq, Eq, Structural)]
pub struct ToggleData {
    pub last_state: bool,
}

/// The toggle's next state and report for a reading of its button.
pub open spec fn toggle_step(last: bool, input: BoolActionState) -> (bool, Option<BoolActionState>) {
    if !input.is_active {
        (last, None)
    } else {
        let current = if input.changed_since_last_sync && input.current_state {
            !last
        } else {
            last
        };
        (current, Some(reported(current, last, input.last_change_time)))
    }
}

impl ToggleData {
    /// A toggle that starts released.
    pub fn new() -> (r: Self)
        ensures
            !r.last_state,
    {
        ToggleData { last_state: false }
    }

    /// Feeds one reading of the underlying button; `None` when the button
    /// is not active.
    pub fn state(&mut self, input: BoolActionState) -> (r: Option<BoolActionState>)
        ensures
            (final(self).last_state, r) == toggle_step(old(self).last_state, input),
    {
        if !input.is_active {
            return None;
        }
        let s = self.last_state;
        let current_state = if input.changed_since_last_sync && input.current_state {
            !s
        } else {
            s
        };
        let changed_since_last_sync = s != current_state;
        self.last_state = current_state;
        Some(
            BoolActionState {
                current_state,
                changed_since_last_sync,
                last_change_time: input.last_change_time,
                is_active: true,
            },
        )
    }
}

/// Two presses of a toggle button bring it back to where it was.
pub proof fn lemma_toggle_twice_restores(last: bool, press1: BoolActionState, press2: BoolActionState)
    requires
        press1.is_active && press1.changed_since_last_sync && press1.current_state,
        press2.is_active && press2.changed_since_last_sync && press2.current_state,
    ensures
        toggle_step(toggle_step(last, press1).0, press2).0 == last,
        toggle_step(last, press1).0 != last,
{
}

/// A reading without a fresh press leaves a toggle unchanged and reports
/// no change.
pub proof fn lemma_toggle_holds_without_press(last: bool, input: BoolActionState)
    requires
        input.is_active,
        !(input.changed_since_last_sync && input.current_state),
    ensures
        toggle_step(last, input).0 == last,
        toggle_step(last, input).1 matches Some(r) && r.current_state == last
            && !r.changed_since_last_sync,
{
}

// ------------------------------------------------------------- threshold

/// An analog input read against two thresholds: how it compares with the
/// click and the release threshold.
#[derive(Copy, Clone, Debug, PartialEq, Eq, Structural)]
pub struct ThresholdReading {
    pub is_active: bool,
    /// The value is at or above the click threshold.
    pub at_or_above_click: bool,
    /// The value is at or above the release threshold.
    pub at_or_above_release: bool,
    pub last_change_time: i64,
}

/// An analog input used as a button, with hysteresis.
#[derive(Copy, Clone, Debug, PartialEq, Eq, Structural)]
pub struct ThresholdState {
    pub last_state: bool,
}

/// The next state and report for a reading: a released button presses at
/// the click threshold, a pressed one stays pressed down to the release
/// threshold.
pub open spec fn threshold_step(last: bool, r: ThresholdReading) -> (bool, Option<BoolActionState>) {
    if !r.is_active {
        (last, None)
    } else {
        let current = if last {
            r.at_or_above_release
        } else {
            r.at_or_above_click
        };
        (current, Some(reported(current, last, r.last_change_time)))
    }
}

impl ThresholdState {
    pub fn new() -> (r: Self)
        ensures
            !r.last_state,
    {
        ThresholdState { last_state: false }
    }

    /// Feeds one reading; `None` when the input is not active.
    pub fn state(&mut self, r: ThresholdReading) -> (out: Option<BoolActionState>)
        ensures
            (final(self).last_state, out) == threshold_step(old(self).last_state, r),
    {
        if !r.is_active {
            return None;
        }
        let s = self.last_state;
        let current_state = if s {
            r.at_or_above_release
        } else {
            r.at_or_above_click
        };
        let changed_since_last_sync = s != current_state;
        self.last_state = current_state;
        Some(
            BoolActionState {
                current_state,
                changed_since_last_sync,
                last_change_time: r.last_change_time,
                is_active: true,
            },
        )
    }
}

/// Hysteresis: with the release threshold at or below the click threshold,
/// a value between the two keeps whatever state the button had, a value at
/// or above the click threshold presses it and one below the release
/// threshold releases it.
pub proof fn lemma_threshold_hysteresis(last: bool, r: ThresholdReading)
    requires
        r.is_active,
        r.at_or_above_click ==> r.at_or_above_release,
    ensures
        (r.at_or_above_release && !r.at_or_above_click) ==> threshold_step(last, r).0 == last,
        r.at_or_above_click ==> threshold_step(last, r).0,
        !r.at_or_above_release ==> !threshold_step(last, r).0,
{
}

// ------------------------------------------------------------------ grab

/// What the force and value actions of a grab binding report, compared
/// with the grab thresholds. The grab value is the force plus one while
/// any force is applied, and the squeeze value otherwise.
#[derive(Copy, Clone, Debug, PartialEq, Eq, Structural)]
pub struct GrabReading {
    pub force_active: bool,
    pub value_active: bool,
    /// The grab value is strictly above the release threshold.
    pub above_release: bool,
    /// The grab value is at or above the hold threshold.
    pub at_or_above_hold: bool,
    /// The change time the force action reports.
    pub force_change_time: i64,
}

/// A grab: held from the hold threshold until the value falls to the
/// release threshold.
#[derive(Copy, Clone, Debug, PartialEq, Eq, Structural)]
pub struct GrabBindingData {
    pub last_state: bool,
}

pub open spec fn grab_step(prev: bool, r: GrabReading) -> (bool, Option<BoolActionState>) {
    if !r.force_active || !r.value_active {
        (false, None)
    } else {
        let grabbed = (prev && r.above_release) || (!prev && r.at_or_above_hold);
        (grabbed, Some(reported(grabbed, prev, r.force_change_time)))
    }
}

impl GrabBindingData {
    pub fn new() -> (r: Self)
        ensures
            !r.last_state,
    {
        GrabBindingData { last_state: false }
    }

    /// Feeds one reading; `None`, and the grab released, when either action
    /// is inactive.
    pub fn state(&mut self, r: GrabReading) -> (out: Option<BoolActionState>)
        ensures
            (final(self).last_state, out) == grab_step(old(self).last_state, r),
    {
        if !r.force_active || !r.value_active {
            self.last_state = false;
            return None;
        }
        let prev_grabbed = self.last_state;
        let grabbed = (prev_grabbed && r.above_release) || (!prev_grabbed && r.at_or_above_hold);
        let changed_since_last_sync = grabbed != prev_grabbed;
        self.last_state = grabbed;
        Some(
            BoolActionState {
                current_state: grabbed,
                changed_since_last_sync,
                last_change_time: r.force_change_time,
                is_active: true,
            },
        )
    }
}

/// Losing either action ends a grab, so the next grab needs the hold
/// threshold again.
pub proof fn lemma_grab_released_when_inactive(prev: bool, r1: GrabReading, r2: GrabReading)
    requires
        !r1.force_active || !r1.value_active,
        r2.force_active && r2.value_active,
        !r2.at_or_above_hold,
    ensures
        !grab_step(prev, r1).0,
        !grab_step(grab_step(prev, r1).0, r2).0,
{
}

// ------------------------------------------------------------------ dpad

/// The directions of a dpad.
#[derive(Copy, Clone, Debug, PartialEq, Eq, Structural)]
pub enum DpadDirection {
    North,
    East,
    South,
    West,
    Center,
}

/// Where the stick or pad of a dpad stands: outside the center zone (half
/// the radius) or not, and in which quarter-circle wedges its angle falls
/// (wedge edges belong to both neighbours).
#[derive(Copy, Clone, Debug, PartialEq, Eq, Structural)]
pub struct DpadPosition {
    pub outside_center: bool,
    pub in_north_wedge: bool,
    pub in_east_wedge: bool,
    pub in_south_wedge: bool,
    pub in_west_wedge: bool,
}

/// The click or touch action that enables a dpad, compared with the
/// activation thresholds (strictly above 0.33 to engage, above 0.2 to stay
/// engaged).
#[derive(Copy, Clone, Debug, PartialEq, Eq, Structural)]
pub struct DpadActivatorReading {
    pub is_active: bool,
    pub above_click: bool,
    pub above_release: bool,
}

/// Everything a dpad direction reads in one sync.
#[derive(Copy, Clone, Debug, PartialEq, Eq, Structural)]
pub struct DpadReading {
    /// Whether the two-axis action is active.
    pub xy_active: bool,
    /// The change time the two-axis action reports.
    pub xy_change_time: i64,
    pub position: DpadPosition,
    /// The activator, where the binding has one.
    pub activator: Option<DpadActivatorReading>,
}

/// One direction of a dpad made from a stick or pad.
#[derive(Copy, Clone, Debug, PartialEq, Eq, Structural)]
pub struct DpadData {
    pub direction: DpadDirection,
    pub last_state: bool,
    pub active: bool,
    pub changed: bool,
}

/// What one sync of a dpad direction gives: the reported state and whether
/// the direction was just entered, which is when haptic feedback is due.
#[derive(Copy, Clone, Debug, PartialEq, Eq, Structural)]
pub struct DpadOutcome {
    pub state: Option<BoolActionState>,
    pub pulse_haptic: bool,
}

/// Whether the position lies in the zone of a direction.
pub open spec fn dpad_in_bounds(direction: DpadDirection, p: DpadPosition) -> bool {
    match direction {
        DpadDirection::North => p.outside_center && p.in_north_wedge,
        DpadDirection::East => p.outside_center && p.in_east_wedge,
        DpadDirection::South => p.outside_center && p.in_south_wedge,
        DpadDirection::West => p.outside_center && p.in_west_wedge,
        DpadDirection::Center => !p.outside_center,
    }
}

/// Whether the dpad is engaged: always without an activator, and whenever
/// the activator is not bound in the current profile.
pub open spec fn dpad_engaged(last: bool, activator: Option<DpadActivatorReading>) -> bool {
    match activator {
        None => true,
        Some(a) => !a.is_active || (if last {
            a.above_release
        } else {
            a.above_click
        }),
    }
}

pub open spec fn dpad_step(d: DpadData, r: DpadReading) -> (DpadData, DpadOutcome) {
    if !dpad_engaged(d.last_state, r.activator) {
        (
            DpadData { last_state: false, active: false, changed: d.last_state, ..d },
            DpadOutcome { state: None, pulse_haptic: false },
        )
    } else {
        let in_bounds = dpad_in_bounds(d.direction, r.position);
        let changed = in_bounds != d.last_state;
        (
            DpadData { last_state: in_bounds, active: true, changed, ..d },
            DpadOutcome {
                state: Some(
                    BoolActionState {
                        current_state: in_bounds,
                        changed_since_last_sync: changed,
                        last_change_time: r.xy_change_time,
                        is_active: r.xy_active,
                    },
                ),
                pulse_haptic: changed && in_bounds,
            },
        )
    }
}

impl DpadData {
    /// A released dpad direction.
    pub fn new(direction: DpadDirection) -> (r: Self)
        ensures
            r == (DpadData { direction, last_state: false, active: false, changed: false }),
    {
        DpadData { direction, last_state: false, active: false, changed: false }
    }

    /// Feeds one reading; `None` while the dpad is not engaged.
    pub fn state(&mut self, r: DpadReading) -> (out: DpadOutcome)
        ensures
            (*final(self), out) == dpad_step(*old(self), r),
    {
        let last_active = self.last_state;
        let engaged = match r.activator {
            None => true,
            Some(a) => !a.is_active || (if last_active {
                a.above_release
            } else {
                a.above_click
            }),
        };
        if !engaged {
            let changed = self.last_state;
            self.last_state = false;
            self.changed = changed;
            self.active = false;
            return DpadOutcome { state: None, pulse_haptic: false };
        }
        let p = r.position;
        let in_bounds = match self.direction {
            DpadDirection::North => p.outside_center && p.in_north_wedge,
            DpadDirection::East => p.outside_center && p.in_east_wedge,
            DpadDirection::South => p.outside_center && p.in_south_wedge,
            DpadDirection::West => p.outside_center && p.in_west_wedge,
            DpadDirection::Center => !p.outside_center,
        };
        let changed = in_bounds != self.last_state;
        self.last_state = in_bounds;
        self.changed = changed;
        self.active = true;
        DpadOutcome {
            state: Some(
                BoolActionState {
                    current_state: in_bounds,
                    changed_since_last_sync: changed,
                    last_change_time: r.xy_change_time,
                    is_active: r.xy_active,
                },
            ),
            pulse_haptic: changed && in_bounds,
        }
    }
}

/// The center of a dpad and any outer direction are never pressed
/// together.
pub proof fn lemma_dpad_center_excludes_edges(p: DpadPosition, d: DpadDirection)
    requires
        d != DpadDirection::Center,
    ensures
        !(dpad_in_bounds(DpadDirection::Center, p) && dpad_in_bounds(d, p)),
{
}

/// Haptic feedback is given exactly when a direction is entered.
pub proof fn lemma_dpad_pulse_on_entry(d: DpadData, r: DpadReading)
    ensures
        dpad_step(d, r).1.pulse_haptic <==> (dpad_engaged(d.last_state, r.activator)
            && !d.last_state && dpad_in_bounds(d.direction, r.position)),
{
}

// ------------------------------------------------------------ double tap

/// The longest gap, in milliseconds, between releasing a button and
/// pressing it again that still counts as a double tap.
pub const DOUBLE_TAP_TIMEOUT_MS: i64 = 300;

/// A binding that fires on the second press of a quick double press.
#[derive(Copy, Clone, Debug)]
pub struct DoubleTapData {
    pub clicked_once: bool,
    pub first_release_time: AtomicTime,
    pub active: bool,
}

/// The spec view of a double-tap state: pressed once, release time, firing.
pub open spec fn double_tap_view(d: DoubleTapData) -> (bool, i64, bool) {
    (d.clicked_once, d.first_release_time.nanos(), d.active)
}

/// The time from the release at `released` to `now`, as the runtime's time
/// difference gives it: the difference of the two times, wrapped to 64 bits.
pub open spec fn elapsed_since_release(released: i64, now: i64) -> i64 {
    now.wrapping_sub(released)
}

/// Whether a press at `now` follows the release at `released` closely
/// enough (whole milliseconds elapsed, at most the timeout).
pub open spec fn within_double_tap_window(released: i64, now: i64) -> bool {
    elapsed_since_release(released, now) / 1_000_000 <= DOUBLE_TAP_TIMEOUT_MS
}

/// Whether a reading asks for the time since the first release, which has
/// to be non-negative (a negative time is taken for a broken clock and
/// stops the program).
pub open spec fn double_tap_reads_elapsed(d: (bool, i64, bool), input: BoolActionState) -> bool {
    input.is_active && input.current_state && !d.2 && d.0
}

pub open spec fn double_tap_step(d: (bool, i64, bool), input: BoolActionState) -> (
    (bool, i64, bool),
    Option<BoolActionState>,
) {
    let (clicked_once, released, active) = d;
    if !input.is_active {
        (d, None)
    } else if !input.current_state {
        let released2 = if clicked_once {
            input.last_change_time
        } else {
            released
        };
        (
            (clicked_once, released2, false),
            Some(BoolActionState { current_state: false, changed_since_last_sync: active, ..input }),
        )
    } else if active {
        (d, Some(input))
    } else {
        let fire = clicked_once && within_double_tap_window(released, input.last_change_time);
        let clicked_once2 = if fire {
            false
        } else {
            true
        };
        (
            (clicked_once2, released, fire),
            Some(
                BoolActionState {
                    current_state: fire,
                    changed_since_last_sync: fire,
                    ..input
                },
            ),
        )
    }
}

impl DoubleTapData {
    /// A double tap that has seen no press.
    pub fn new() -> (r: Self)
        ensures
            double_tap_view(r) == (false, 0i64, false),
    {
        DoubleTapData { clicked_once: false, first_release_time: AtomicTime::new(0), active: false }
    }

    /// Feeds one reading of the underlying button; `None` when it is not
    /// active.
    pub fn state(&mut self, input: BoolActionState) -> (r: Option<BoolActionState>)
        requires
            double_tap_reads_elapsed(double_tap_view(*old(self)), input) ==> 0
                <= elapsed_since_release(old(self).first_release_time.nanos(), input.last_change_time),
        ensures
            (double_tap_view(*final(self)), r) == double_tap_step(
                double_tap_view(*old(self)),
                input,
            ),
    {
        if !input.is_active {
            return None;
        }
        if !input.current_state {
            if self.clicked_once {
                self.first_release_time.store(input.last_change_time);
            }
            let was_active = self.active;
            self.active = false;
            return Some(
                BoolActionState {
                    current_state: false,
                    changed_since_last_sync: was_active,
                    ..input
                },
            );
        }
        if self.active {
            Some(input)
        } else {
            let clicked_once = self.clicked_once;
            self.clicked_once = !clicked_once;
            let active = clicked_once && {
                let elapsed = input.last_change_time.wrapping_sub(self.first_release_time.load());
                elapsed / 1_000_000 <= DOUBLE_TAP_TIMEOUT_MS
            };
            if active {
                self.active = true;
            } else if clicked_once {
                self.clicked_once = true;
            }
            Some(BoolActionState { current_state: active, changed_since_last_sync: active, ..input })
        }
    }
}

/// From rest, press, release at `t1` and press again at `t2`: the second
/// press fires if and only if it came within the timeout of the release.
/// (The time between them is their difference wherever that fits in 64
/// bits.)
pub proof fn lemma_double_tap_fires_within_timeout(t0: i64, t1: i64, t2: i64)
    requires
        0 <= elapsed_since_release(t1, t2),
    ensures
        0 <= t2 - t1 <= i64::MAX ==> elapsed_since_release(t1, t2) == t2 - t1,
        ({
            let press0 = BoolActionState {
                current_state: true,
                changed_since_last_sync: true,
                last_change_time: t0,
                is_active: true,
            };
            let release = BoolActionState {
                current_state: false,
                changed_since_last_sync: true,
                last_change_time: t1,
                is_active: true,
            };
            let press1 = BoolActionState {
                current_state: true,
                changed_since_last_sync: true,
                last_change_time: t2,
                is_active: true,
            };
            let s1 = double_tap_step((false, 0i64, false), press0);
            let s2 = double_tap_step(s1.0, release);
            let s3 = double_tap_step(s2.0, press1);
            &&& s1.1 matches Some(r1) && !r1.current_state
            &&& s2.1 matches Some(r2) && !r2.current_state
            &&& s3.1 matches Some(r3) && r3.current_state == (elapsed_since_release(t1, t2)
                / 1_000_000 <= 300)
        }),
{
}

/// One reading of an active button, from any double-tap state (pressed
/// once `k`, release time `t0`, firing `a`): a release reports the button
/// up, changed exactly when it was firing, stops firing and, after a first
/// press, records the release time; a press while firing passes through
/// unchanged; any other press fires exactly when it is the second press and
/// came within the timeout of the recorded release, and otherwise counts as
/// a first press.
pub proof fn lemma_double_tap_reading(d: (bool, i64, bool), input: BoolActionState)
    requires
        input.is_active,
    ensures
        ({
            let (next, out) = double_tap_step(d, input);
            let (k, t0, a) = d;
            &&& !input.current_state ==> {
                &&& out == Some(
                    BoolActionState { current_state: false, changed_since_last_sync: a, ..input },
                )
                &&& next == (k, if k {
                    input.last_change_time
                } else {
                    t0
                }, false)
            }
            &&& input.current_state && a ==> out == Some(input) && next == d
            &&& input.current_state && !a ==> {
                let w = k && within_double_tap_window(t0, input.last_change_time);
                &&& out == Some(
                    BoolActionState { current_state: w, changed_since_last_sync: w, ..input },
                )
                &&& next == (!w, t0, w)
            }
        }),
{
}

// --------------------------------------------------------- binding cache

/// Whether a binding's state has been read since the last action sync.
#[derive(Copy, Clone, Debug)]
pub enum BindingState {
    Unsynced,
    Synced(Option<BoolActionState>),
}

/// The custom binding behind a boolean action.
#[derive(Copy, Clone, Debug)]
pub enum BoolBindingType {
    Dpad(DpadData),
    DoubleTap(DoubleTapData),
    Toggle(ToggleData),
    Grab(GrabBindingData),
    ThresholdFloat(ThresholdState),
    ThresholdVec2(ThresholdState),
}

/// What the runtime reported for the actions behind a binding. For the
/// kinds backed by extra actions, `None` means that the extra action has
/// not been created.
#[derive(Copy, Clone, Debug)]
pub enum BindingReading {
    Dpad(DpadReading),
    DoubleTap(Option<BoolActionState>),
    Toggle(Option<BoolActionState>),
    Grab(Option<GrabReading>),
    ThresholdFloat(Option<ThresholdReading>),
    ThresholdVec2(Option<ThresholdReading>),
}

/// A custom binding for one hand, with the state it last reported.
#[derive(Copy, Clone, Debug)]
pub struct BoolBindingData {
    pub ty: BoolBindingType,
    /// The subaction path (hand) the binding belongs to.
    pub hand: u64,
    pub last_state: BindingState,
}

/// What a binding can answer without reading the runtime.
#[derive(Copy, Clone, Debug, PartialEq, Eq, Structural)]
pub enum BindingLookup {
    /// The binding belongs to the other hand: it reports nothing.
    OtherHand,
    /// The state already read since the last sync.
    Cached(Option<BoolActionState>),
    /// The actions behind the binding have to be read.
    NeedsReading,
}

pub open spec fn binding_lookup(b: BoolBindingData, subaction_path: u64) -> BindingLookup {
    if b.hand != subaction_path {
        BindingLookup::OtherHand
    } else {
        match b.last_state {
            BindingState::Synced(s) => BindingLookup::Cached(s),
            BindingState::Unsynced => BindingLookup::NeedsReading,
        }
    }
}

/// Whether a reading may be fed to the binding: a double tap needs a
/// non-negative time since its first release.
pub open spec fn reading_allowed(ty: BoolBindingType, reading: BindingReading) -> bool {
    match (ty, reading) {
        (BoolBindingType::DoubleTap(d), BindingReading::DoubleTap(Some(input))) =>
            double_tap_reads_elapsed(double_tap_view(d), input) ==> 0 <= elapsed_since_release(
                d.first_release_time.nanos(),
                input.last_change_time,
            ),
        _ => true,
    }
}

/// What feeding `reading` to the binding `b` gives: the binding after it
/// (`new`) and the state it reports (`r`). The reading's state machine
/// steps and its report is kept until the next sync; a reading with no
/// extra action behind it, or of another kind of binding, reports nothing
/// and changes nothing.
pub open spec fn record_outcome(
    b: BoolBindingData,
    reading: BindingReading,
    new: BoolBindingData,
    r: Option<BoolActionState>,
) -> bool {
    &&& new.hand == b.hand
    &&& match (b.ty, reading) {
        (BoolBindingType::Dpad(d), BindingReading::Dpad(rd)) => {
            &&& new.ty == BoolBindingType::Dpad(dpad_step(d, rd).0)
            &&& r == dpad_step(d, rd).1.state
            &&& new.last_state == BindingState::Synced(r)
        },
        (BoolBindingType::Toggle(t), BindingReading::Toggle(Some(i))) => {
            &&& new.ty == BoolBindingType::Toggle(
                ToggleData { last_state: toggle_step(t.last_state, i).0 },
            )
            &&& r == toggle_step(t.last_state, i).1
            &&& new.last_state == BindingState::Synced(r)
        },
        (BoolBindingType::Grab(g), BindingReading::Grab(Some(i))) => {
            &&& new.ty == BoolBindingType::Grab(
                GrabBindingData { last_state: grab_step(g.last_state, i).0 },
            )
            &&& r == grab_step(g.last_state, i).1
            &&& new.last_state == BindingState::Synced(r)
        },
        (BoolBindingType::ThresholdFloat(t), BindingReading::ThresholdFloat(Some(i))) => {
            &&& new.ty == BoolBindingType::ThresholdFloat(
                ThresholdState { last_state: threshold_step(t.last_state, i).0 },
            )
            &&& r == threshold_step(t.last_state, i).1
            &&& new.last_state == BindingState::Synced(r)
        },
        (BoolBindingType::ThresholdVec2(t), BindingReading::ThresholdVec2(Some(i))) => {
            &&& new.ty == BoolBindingType::ThresholdVec2(
                ThresholdState { last_state: threshold_step(t.last_state, i).0 },
            )
            &&& r == threshold_step(t.last_state, i).1
            &&& new.last_state == BindingState::Synced(r)
        },
        (BoolBindingType::DoubleTap(d), BindingReading::DoubleTap(Some(i))) => {
            &&& new.ty matches BoolBindingType::DoubleTap(d2) && double_tap_view(
                d2,
            ) == double_tap_step(double_tap_view(d), i).0
            &&& r == double_tap_step(double_tap_view(d), i).1
            &&& new.last_state == BindingState::Synced(r)
        },
        _ => r.is_none() && new.ty == b.ty && new.last_state
            == b.last_state,
    }
}

impl BoolBindingData {
    /// A binding for the given hand that has not been read yet.
    pub fn new(ty: BoolBindingType, hand: u64) -> (r: Self)
        ensures
            r.ty == ty,
            r.hand == hand,
            r.last_state is Unsynced,
    {
        BoolBindingData { ty, hand, last_state: BindingState::Unsynced }
    }

    /// Forgets the state read since the last sync.
    pub fn unsync(&mut self)
        ensures
            final(self).ty == old(self).ty,
            final(self).hand == old(self).hand,
            final(self).last_state is Unsynced,
    {
        self.last_state = BindingState::Unsynced;
    }

    /// Answers a state request for `subaction_path` without reading the
    /// runtime, where the binding can.
    pub fn lookup(&self, subaction_path: u64) -> (r: BindingLookup)
        requires
            subaction_path != 0,
        ensures
            r == binding_lookup(*self, subaction_path),
    {
        if self.hand != subaction_path {
            return BindingLookup::OtherHand;
        }
        match self.last_state {
            BindingState::Synced(s) => BindingLookup::Cached(s),
            BindingState::Unsynced => BindingLookup::NeedsReading,
        }
    }

    /// Feeds the reading of the binding's actions to its state machine and
    /// keeps the result until the next sync. A missing extra action (or a
    /// reading of another kind of binding) reports nothing and caches
    /// nothing.
    pub fn record(&mut self, reading: BindingReading) -> (r: Option<BoolActionState>)
        requires
            reading_allowed(old(self).ty, reading),
        ensures
            record_outcome(*old(self), reading, *final(self), r),
    {
        let out = match (&mut self.ty, reading) {
            (BoolBindingType::Dpad(d), BindingReading::Dpad(rd)) => d.state(rd).state,
            (BoolBindingType::Toggle(t), BindingReading::Toggle(Some(i))) => t.state(i),
            (BoolBindingType::Grab(g), BindingReading::Grab(Some(i))) => g.state(i),
            (BoolBindingType::ThresholdFloat(t), BindingReading::ThresholdFloat(Some(i))) => t.state(i),
            (BoolBindingType::ThresholdVec2(t), BindingReading::ThresholdVec2(Some(i))) => t.state(i),
            (BoolBindingType::DoubleTap(d), BindingReading::DoubleTap(Some(i))) => d.state(i),
            _ => {
                return None;
            },
        };
        self.last_state = BindingState::Synced(out);
        out
    }
}

impl BoolBindingData {
    /// A state request for `subaction_path` (never the null path): the
    /// binding of the other hand reports nothing; a state read since the
    /// last sync is given back without reading anything; otherwise `read`
    /// reads the binding's actions, once: its error is passed on and nothing
    /// is kept, and its reading is fed to the binding (see
    /// [`record_outcome`]).
    pub fn state<E, F: FnOnce() -> Result<BindingReading, E>>(
        &mut self,
        subaction_path: u64,
        read: F,
    ) -> (r: Result<Option<BoolActionState>, E>)
        requires
            subaction_path != 0,
            call_requires(read, ()),
            forall|res: Result<BindingReading, E>| #[trigger]
                call_ensures(read, (), res) ==> (res matches Ok(rd) ==> reading_allowed(
                    old(self).ty,
                    rd,
                )),
        ensures
            match binding_lookup(*old(self), subaction_path) {
                BindingLookup::OtherHand => r matches Ok(c) && c.is_none() && *final(self) == *old(
                    self,
                ),
                BindingLookup::Cached(s) => r matches Ok(c) && c == s && *final(self) == *old(self),
                BindingLookup::NeedsReading => exists|res: Result<BindingReading, E>| #[trigger]
                    call_ensures(read, (), res) && match res {
                        Ok(rd) => r matches Ok(c) && record_outcome(*old(self), rd, *final(self), c),
                        Err(e) => r matches Err(e2) && e2 == e && *final(self) == *old(self),
                    },
            },
    {
        match self.lookup(subaction_path) {
            BindingLookup::OtherHand => Ok(None),
            BindingLookup::Cached(s) => Ok(s),
            BindingLookup::NeedsReading => {
                let res = read();
                let ghost res_g = res;
                assert(call_ensures(read, (), res_g));
                match res {
                    Ok(rd) => {
                        let c = self.record(rd);
                        Ok(c)
                    },
                    Err(e) => Err(e),
                }
            },
        }
    }
}

/// Once a binding's state has been read, every further request for its
/// hand gets that same state back without another reading, until the next
/// sync forgets it.
pub proof fn lemma_binding_read_once_per_sync(b: BoolBindingData, s: Option<BoolActionState>, path: u64)
    requires
        b.last_state == BindingState::Synced(s),
        b.hand == path,
    ensures
        binding_lookup(b, path) == BindingLookup::Cached(s),
        binding_lookup(BoolBindingData { last_state: BindingState::Unsynced, ..b }, path)
            == BindingLookup::NeedsReading,
{
}

// ------------------------------------------------------ extra action names

/// The kinds of extra OpenXR actions that custom bindings create.
#[derive(Copy, Clone, Debug, PartialEq, Eq, Structural)]
pub enum ExtraActionKind {
    GrabForce,
    GrabValue,
    Toggle,
    ThresholdFloat,
    ThresholdVector2,
    DoubleTap,
}

/// The suffix appended to a cleaned action name for an extra action.
pub open spec fn extra_action_suffix(kind: ExtraActionKind) -> Seq<char> {
    match kind {
        ExtraActionKind::GrabForce => "_grabactionf"@,
        ExtraActionKind::GrabValue => "_grabactionv"@,
        ExtraActionKind::Toggle => "_tgl"@,
        ExtraActionKind::ThresholdFloat => "_asfloat"@,
        ExtraActionKind::ThresholdVector2 => "_asfloat2"@,
        ExtraActionKind::DoubleTap => "_dbl"@,
    }
}

/// The name of the extra action of the given kind for an action whose
/// cleaned name is `cleaned_action_name`.
pub fn extra_action_name(kind: ExtraActionKind, cleaned_action_name: &str) -> (r: String)
    ensures
        r@ == cleaned_action_name@ + extra_action_suffix(kind),
{
    let mut s = String::from_str(cleaned_action_name);
    let suffix = match kind {
        ExtraActionKind::GrabForce => "_grabactionf",
        ExtraActionKind::GrabValue => "_grabactionv",
        ExtraActionKind::Toggle => "_tgl",
        ExtraActionKind::ThresholdFloat => "_asfloat",
        ExtraActionKind::ThresholdVector2 => "_asfloat2",
        ExtraActionKind::DoubleTap => "_dbl",
    };
    s.append(suffix);
    s
}


/// A dpad direction without an activator reads the stick or pad alone: an
/// outer direction is pressed exactly when the position is outside the
/// center zone and inside that direction's own wedge (north reads the
/// north wedge, east the east wedge, south the south wedge, west the west
/// wedge), the center exactly when the position is inside the center
/// zone; entering the zone pulses the haptics.
pub proof fn lemma_dpad_direction_reads_its_own_wedge(d: DpadData, r: DpadReading)
    requires
        r.activator.is_none(),
    ensures
        ({
            let out = dpad_step(d, r).1;
            let p = r.position;
            let pressed = match d.direction {
                DpadDirection::North => p.outside_center && p.in_north_wedge,
                DpadDirection::East => p.outside_center && p.in_east_wedge,
                DpadDirection::South => p.outside_center && p.in_south_wedge,
                DpadDirection::West => p.outside_center && p.in_west_wedge,
                DpadDirection::Center => !p.outside_center,
            };
            &&& out.state matches Some(s) && s.current_state == pressed
                && s.changed_since_last_sync == (pressed != d.last_state)
            &&& out.pulse_haptic == (pressed && !d.last_state)
        }),
{
}

/// Whether a dpad direction reports itself pressed after a reading.
pub open spec fn dpad_pressed(d: DpadData, r: DpadReading) -> bool {
    dpad_step(d, r).1.state matches Some(s) && s.current_state
}

/// A position outside the center zone that lies in one wedge only presses
/// exactly one direction, the one of that wedge: for two different
/// directions, a dpad without an activator never presses both, and with
/// the position in the south wedge only, a direction is pressed exactly
/// when it is south.
pub proof fn lemma_dpad_one_wedge_one_direction(d1: DpadData, d2: DpadData, r: DpadReading)
    requires
        r.activator.is_none(),
        d1.direction != d2.direction,
        r.position.outside_center,
        (r.position.in_north_wedge as int) + (r.position.in_east_wedge as int)
            + (r.position.in_south_wedge as int) + (r.position.in_west_wedge as int) == 1,
    ensures
        !(dpad_pressed(d1, r) && dpad_pressed(d2, r)),
        r.position.in_south_wedge ==> (dpad_pressed(d1, r) <==> d1.direction == DpadDirection::South),
{
}
} // verus!
