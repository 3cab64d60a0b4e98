use std::f32::consts::{FRAC_PI_4, PI};
use xrizer::input::custom_bindings::{
    extra_action_name, BindingLookup, BindingReading, BindingState, BoolActionState,
    BoolBindingData, BoolBindingType, DoubleTapData, DpadActivatorReading, DpadData,
    DpadDirection, DpadPosition, DpadReading, ExtraActionKind, GrabBindingData, GrabReading,
    ThresholdReading, ThresholdState, ToggleData,
};

fn press(t: i64) -> BoolActionState {
    BoolActionState { current_state: true, changed_since_last_sync: true, last_change_time: t, is_active: true }
}

fn release(t: i64) -> BoolActionState {
    BoolActionState { current_state: false, changed_since_last_sync: true, last_change_time: t, is_active: true }
}

fn held(t: i64) -> BoolActionState {
    BoolActionState { current_state: true, changed_since_last_sync: false, last_change_time: t, is_active: true }
}

#[test]
fn toggle_flips_on_press_and_holds_otherwise() {
    let mut t = ToggleData::new();
    let r = t.state(press(1)).unwrap();
    assert!(r.current_state && r.changed_since_last_sync);
    let r = t.state(held(2)).unwrap();
    assert!(r.current_state && !r.changed_since_last_sync);
    let r = t.state(release(3)).unwrap();
    assert!(r.current_state && !r.changed_since_last_sync);
    let r = t.state(press(4)).unwrap();
    assert!(!r.current_state && r.changed_since_last_sync);
    assert!(!t.last_state);
}

#[test]
fn toggle_inactive_reports_nothing() {
    let mut t = ToggleData::new();
    let mut s = press(1);
    s.is_active = false;
    assert_eq!(t.state(s), None);
    assert!(!t.last_state);
}

fn threshold(click: bool, rel: bool) -> ThresholdReading {
    ThresholdReading { is_active: true, at_or_above_click: click, at_or_above_release: rel, last_change_time: 7 }
}

#[test]
fn threshold_hysteresis() {
    let mut s = ThresholdState::new();
    // between the thresholds while released: stays released
    assert!(!s.state(threshold(false, true)).unwrap().current_state);
    // at the click threshold: pressed
    let r = s.state(threshold(true, true)).unwrap();
    assert!(r.current_state && r.changed_since_last_sync && r.last_change_time == 7);
    // between the thresholds while pressed: stays pressed
    let r = s.state(threshold(false, true)).unwrap();
    assert!(r.current_state && !r.changed_since_last_sync);
    // below the release threshold: released
    assert!(!s.state(threshold(false, false)).unwrap().current_state);
}

fn grab(hold: bool, above_release: bool) -> GrabReading {
    GrabReading { force_active: true, value_active: true, above_release, at_or_above_hold: hold, force_change_time: 5 }
}

#[test]
fn grab_holds_until_release_threshold() {
    let mut g = GrabBindingData::new();
    assert!(!g.state(grab(false, true)).unwrap().current_state);
    assert!(g.state(grab(true, true)).unwrap().current_state);
    assert!(g.state(grab(false, true)).unwrap().current_state);
    let r = g.state(grab(false, false)).unwrap();
    assert!(!r.current_state && r.changed_since_last_sync);
}

#[test]
fn grab_released_when_inactive() {
    let mut g = GrabBindingData::new();
    assert!(g.state(grab(true, true)).unwrap().current_state);
    let mut r = grab(true, true);
    r.force_active = false;
    assert_eq!(g.state(r), None);
    assert!(!g.last_state);
    // needs the hold threshold again
    assert!(!g.state(grab(false, true)).unwrap().current_state);
}

fn position(outside: bool, north: bool, east: bool) -> DpadPosition {
    DpadPosition { outside_center: outside, in_north_wedge: north, in_east_wedge: east, in_south_wedge: false, in_west_wedge: false }
}

#[test]
fn dpad_pulses_on_entry_only() {
    let mut d = DpadData::new(DpadDirection::North);
    let r = DpadReading { xy_active: true, xy_change_time: 3, position: position(true, true, false), activator: None };
    let o = d.state(r);
    assert!(o.pulse_haptic);
    assert!(o.state.unwrap().current_state);
    let o = d.state(r);
    assert!(!o.pulse_haptic);
    assert!(o.state.unwrap().current_state);
    let r2 = DpadReading { position: position(false, false, false), ..r };
    let o = d.state(r2);
    assert!(!o.pulse_haptic);
    assert!(!o.state.unwrap().current_state);
}

#[test]
fn dpad_center_and_edge_exclusive() {
    let mut c = DpadData::new(DpadDirection::Center);
    let mut e = DpadData::new(DpadDirection::East);
    for p in [position(true, false, true), position(false, false, true), position(true, true, true)] {
        let r = DpadReading { xy_active: true, xy_change_time: 0, position: p, activator: None };
        let a = c.state(r).state.unwrap().current_state;
        let b = e.state(r).state.unwrap().current_state;
        assert!(!(a && b));
    }
}

#[test]
fn dpad_needs_activator() {
    let mut d = DpadData::new(DpadDirection::East);
    let act = DpadActivatorReading { is_active: true, above_click: false, above_release: false };
    let r = DpadReading { xy_active: true, xy_change_time: 0, position: position(true, false, true), activator: Some(act) };
    let o = d.state(r);
    assert_eq!(o.state, None);
    assert!(!o.pulse_haptic);
    let act = DpadActivatorReading { is_active: true, above_click: true, above_release: true };
    let o = d.state(DpadReading { activator: Some(act), ..r });
    assert!(o.state.unwrap().current_state && o.pulse_haptic);
}

#[test]
fn double_tap_within_timeout_fires() {
    let mut d = DoubleTapData::new();
    assert!(!d.state(press(0)).unwrap().current_state);
    assert!(!d.state(release(100_000_000)).unwrap().current_state);
    let r = d.state(press(300_000_000)).unwrap();
    assert!(r.current_state && r.changed_since_last_sync);
    // held: stays on
    assert!(d.state(held(350_000_000)).unwrap().current_state);
    let r = d.state(release(400_000_000)).unwrap();
    assert!(!r.current_state && r.changed_since_last_sync);
}

#[test]
fn double_tap_timeout() {
    let mut d = DoubleTapData::new();
    assert!(!d.state(press(0)).unwrap().current_state);
    assert!(!d.state(release(100_000_000)).unwrap().current_state);
    // 301 ms after the release: too late
    assert!(!d.state(press(401_000_000)).unwrap().current_state);
}

#[test]
fn binding_read_once_per_sync() {
    let mut b = BoolBindingData::new(BoolBindingType::Toggle(ToggleData::new()), 10);
    assert_eq!(b.lookup(10), BindingLookup::NeedsReading);
    assert_eq!(b.lookup(11), BindingLookup::OtherHand);
    let r = b.record(BindingReading::Toggle(Some(press(1))));
    assert!(r.unwrap().current_state);
    assert_eq!(b.lookup(10), BindingLookup::Cached(r));
    assert_eq!(b.lookup(10), BindingLookup::Cached(r));
    b.unsync();
    assert!(matches!(b.last_state, BindingState::Unsynced));
    assert_eq!(b.lookup(10), BindingLookup::NeedsReading);
}

#[test]
fn binding_without_extra_action_reports_nothing() {
    let mut b = BoolBindingData::new(BoolBindingType::Grab(GrabBindingData::new()), 1);
    assert_eq!(b.record(BindingReading::Grab(None)), None);
    assert!(matches!(b.last_state, BindingState::Unsynced));
}

#[test]
fn extra_action_names() {
    assert_eq!(extra_action_name(ExtraActionKind::GrabForce, "boolact"), "boolact_grabactionf");
    assert_eq!(extra_action_name(ExtraActionKind::ThresholdFloat, "boolact"), "boolact_asfloat");
    assert_eq!(extra_action_name(ExtraActionKind::DoubleTap, "x"), "x_dbl");
    assert_eq!(extra_action_name(ExtraActionKind::Toggle, "x"), "x_tgl");
}

#[test]
fn binding_state_reads_once_per_sync() {
    let mut b = BoolBindingData::new(BoolBindingType::Toggle(ToggleData::new()), 10);
    let mut reads = 0;
    // The other hand: nothing is read.
    let r: Result<Option<BoolActionState>, u32> = b.state(11, || {
        reads += 1;
        Ok(BindingReading::Toggle(Some(press(1))))
    });
    assert_eq!(r, Ok(None));
    assert_eq!(reads, 0);
    // First request: read once.
    let r = b.state(10, || {
        reads += 1;
        Ok::<_, u32>(BindingReading::Toggle(Some(press(1))))
    });
    let first = r.unwrap();
    assert!(first.unwrap().current_state);
    assert_eq!(reads, 1);
    // Until the next sync, the same state without reading.
    let r = b.state(10, || {
        reads += 1;
        Ok::<_, u32>(BindingReading::Toggle(Some(press(5))))
    });
    assert_eq!(r, Ok(first));
    assert_eq!(reads, 1);
    // After the sync, read again; an error is passed on and nothing kept.
    b.unsync();
    let r = b.state(10, || {
        reads += 1;
        Err::<BindingReading, u32>(7)
    });
    assert_eq!(r, Err(7));
    assert!(matches!(b.last_state, BindingState::Unsynced));
    let r = b.state(10, || {
        reads += 1;
        Ok::<_, u32>(BindingReading::Toggle(Some(press(9))))
    });
    assert!(!r.unwrap().unwrap().current_state);
    assert_eq!(reads, 3);
}

#[test]
fn double_tap_wrapped_elapsed_time() {
    // The time between release and press is the runtime's 64-bit wrapped
    // difference: a release at the largest time and a press at the smallest
    // are 1 ns apart.
    let mut d = DoubleTapData::new();
    assert!(!d.state(press(0)).unwrap().current_state);
    assert!(!d.state(release(i64::MAX)).unwrap().current_state);
    assert!(d.state(press(i64::MIN)).unwrap().current_state);
}

const LEFT: u64 = 1;
const RIGHT: u64 = 2;

/// Reads a binding once for a sync, as the action state request does.
fn read_synced(b: &mut BoolBindingData, hand: u64, reading: BindingReading) -> BoolActionState {
    b.unsync();
    b.state(hand, || Ok::<_, ()>(reading)).unwrap().unwrap()
}

/// The grab comparison of the default thresholds (hold at 0.70, release
/// above 0.65) on the force and value the runtime reports.
fn grab_floats(force: f32, value: f32) -> GrabReading {
    let v = if force > 0.0 { force + 1.0 } else { value };
    GrabReading { force_active: true, value_active: true, above_release: v > 0.65, at_or_above_hold: v >= 0.70, force_change_time: 0 }
}

#[test]
fn grab_per_hand() {
    let mut left = BoolBindingData::new(BoolBindingType::Grab(GrabBindingData::new()), LEFT);
    let mut right = BoolBindingData::new(BoolBindingType::Grab(GrabBindingData::new()), RIGHT);
    let grab = 0.70f32;
    let release = 0.65f32;
    let mut check = |force: f32, value: f32, hand: u64, state: bool, changed: bool| {
        let b = if hand == LEFT { &mut left } else { &mut right };
        let s = read_synced(b, hand, BindingReading::Grab(Some(grab_floats(force, value))));
        assert_eq!(s.current_state, state);
        assert!(s.is_active);
        assert_eq!(s.changed_since_last_sync, changed);
    };
    check(0.0, grab - 0.1, LEFT, false, false);
    check(0.0, grab - 0.1, RIGHT, false, false);
    check(0.0, grab, LEFT, true, true);
    check(0.0, grab, RIGHT, true, true);
    check(0.0, release, LEFT, false, true);
    check(0.0, 1.0, RIGHT, true, false);
}

fn bool_state(current: bool, changed: bool) -> BoolActionState {
    BoolActionState { current_state: current, changed_since_last_sync: changed, last_change_time: 0, is_active: true }
}

#[test]
fn toggle_button_per_hand() {
    let mut left = BoolBindingData::new(BoolBindingType::Toggle(ToggleData::new()), LEFT);
    let mut right = BoolBindingData::new(BoolBindingType::Toggle(ToggleData::new()), RIGHT);

    let s = read_synced(&mut left, LEFT, BindingReading::Toggle(Some(bool_state(false, false))));
    assert!(s.is_active && !s.current_state && !s.changed_since_last_sync);
    let s = read_synced(&mut right, RIGHT, BindingReading::Toggle(Some(bool_state(false, false))));
    assert!(s.is_active && !s.current_state && !s.changed_since_last_sync);

    let s = read_synced(&mut left, LEFT, BindingReading::Toggle(Some(bool_state(true, true))));
    assert!(s.is_active && s.current_state && s.changed_since_last_sync);
    let s = read_synced(&mut right, RIGHT, BindingReading::Toggle(Some(bool_state(false, false))));
    assert!(s.is_active && !s.current_state && !s.changed_since_last_sync);

    let s = read_synced(&mut left, LEFT, BindingReading::Toggle(Some(bool_state(false, true))));
    assert!(s.is_active && s.current_state && !s.changed_since_last_sync);
    let s = read_synced(&mut right, RIGHT, BindingReading::Toggle(Some(bool_state(true, true))));
    assert!(s.is_active && s.current_state && s.changed_since_last_sync);
}

#[test]
fn grab_binding() {
    // One hand, the default thresholds (grab at 0.70, release above 0.65).
    let mut b = BoolBindingData::new(BoolBindingType::Grab(GrabBindingData::new()), LEFT);
    let grab = 0.70f32;
    let release = 0.65f32;
    let mut check = |force: f32, value: f32, state: bool, changed: bool| {
        let s = read_synced(&mut b, LEFT, BindingReading::Grab(Some(grab_floats(force, value))));
        assert_eq!(s.current_state, state);
        assert!(s.is_active);
        assert_eq!(s.changed_since_last_sync, changed);
    };
    check(0.0, grab - 0.1, false, false);
    check(0.0, grab + 0.1, true, true);
    check(0.1, 0.0, true, false);
    check(0.0, 1.0, true, false);
    check(0.0, release, false, true);
    check(0.0, grab - 0.1, false, false);
}

#[test]
fn toggle_button() {
    let mut b = BoolBindingData::new(BoolBindingType::Toggle(ToggleData::new()), LEFT);
    // The toggle action goes true, false, true, then stays.
    let s = read_synced(&mut b, LEFT, BindingReading::Toggle(Some(bool_state(true, true))));
    assert!(s.is_active && s.current_state && s.changed_since_last_sync);
    let s = read_synced(&mut b, LEFT, BindingReading::Toggle(Some(bool_state(false, true))));
    assert!(s.is_active && s.current_state && !s.changed_since_last_sync);
    let s = read_synced(&mut b, LEFT, BindingReading::Toggle(Some(bool_state(true, true))));
    assert!(s.is_active && !s.current_state && s.changed_since_last_sync);
    // no change across sync point
    let s = read_synced(&mut b, LEFT, BindingReading::Toggle(Some(bool_state(true, false))));
    assert!(s.is_active && !s.current_state && !s.changed_since_last_sync);
}

#[test]
fn double_tap() {
    let mut b = BoolBindingData::new(BoolBindingType::DoubleTap(DoubleTapData::new()), LEFT);
    // The runtime reports the time of each change; the taps come quickly.
    let mut step = |current: bool, changed: bool, t: i64| {
        let s = BoolActionState { current_state: current, changed_since_last_sync: changed, last_change_time: t, is_active: true };
        read_synced(&mut b, LEFT, BindingReading::DoubleTap(Some(s)))
    };
    let inactive = |s: BoolActionState, changed: bool| s.is_active && !s.current_state && s.changed_since_last_sync == changed;
    assert!(inactive(step(false, false, 0), false));
    assert!(inactive(step(true, true, 10), false));
    assert!(inactive(step(false, true, 20), false));
    let s = step(true, true, 30);
    assert!(s.is_active && s.current_state && s.changed_since_last_sync);
    // Hold
    let s = step(true, false, 30);
    assert!(s.is_active && s.current_state && !s.changed_since_last_sync);
    assert!(inactive(step(false, true, 40), true));
    assert!(inactive(step(false, false, 40), false));
}

/// Where a stick position lies among the dpad zones (center zone of radius
/// 0.5, quarter wedges).
fn dpad_at(x: f32, y: f32) -> DpadPosition {
    let angle = y.atan2(x);
    DpadPosition {
        outside_center: x.hypot(y) >= 0.5,
        in_north_wedge: (FRAC_PI_4..=3.0 * FRAC_PI_4).contains(&angle),
        in_east_wedge: (-FRAC_PI_4..=FRAC_PI_4).contains(&angle),
        in_south_wedge: (-3.0 * FRAC_PI_4..=-FRAC_PI_4).contains(&angle),
        in_west_wedge: (3.0 * FRAC_PI_4..=PI).contains(&angle) || (-PI..=-3.0 * FRAC_PI_4).contains(&angle),
    }
}

#[test]
fn dpad_input() {
    // North on the Vive wand's trackpad, clicked (1.0 is above the 0.33
    // activation threshold).
    let mut b = BoolBindingData::new(BoolBindingType::Dpad(DpadData::new(DpadDirection::North)), LEFT);
    let click = DpadActivatorReading { is_active: true, above_click: 1.0 > 0.33, above_release: 1.0 > 0.2 };
    let reading = |x: f32, y: f32| DpadReading { xy_active: true, xy_change_time: 0, position: dpad_at(x, y), activator: Some(click) };
    let s = read_synced(&mut b, LEFT, BindingReading::Dpad(reading(0.0, 0.55)));
    assert!(s.is_active && s.current_state && s.changed_since_last_sync);
    let s = read_synced(&mut b, LEFT, BindingReading::Dpad(reading(0.0, 0.55)));
    assert!(s.is_active && s.current_state && !s.changed_since_last_sync);
    let s = read_synced(&mut b, LEFT, BindingReading::Dpad(reading(0.55, 0.0)));
    assert!(s.is_active && !s.current_state && s.changed_since_last_sync);
}

/// The grab comparison of given hold and release thresholds.
fn grab_floats_with(force: f32, value: f32, hold: f32, release: f32) -> GrabReading {
    let v = if force > 0.0 { force + 1.0 } else { value };
    GrabReading { force_active: true, value_active: true, above_release: v > release, at_or_above_hold: v >= hold, force_change_time: 0 }
}

#[test]
fn grab_binding_custom_threshold() {
    // The binding's thresholds are 1.16 to hold and 1.15 to release, so
    // only force (which counts as one plus the force) can grab.
    let mut b = BoolBindingData::new(BoolBindingType::Grab(GrabBindingData::new()), RIGHT);
    let grab = 0.16f32;
    let release = 0.15f32;
    let mut check = |force: f32, value: f32, state: bool, changed: bool| {
        let s = read_synced(&mut b, RIGHT, BindingReading::Grab(Some(grab_floats_with(force, value, 1.16, 1.15))));
        assert_eq!(s.current_state, state);
        assert!(s.is_active);
        assert_eq!(s.changed_since_last_sync, changed);
    };
    check(0.0, 1.0, false, false);
    check(grab + 0.01, 0.0, true, true);
    check(grab - 0.001, 0.0, true, false);
    check(release, 0.0, false, true);
    check(0.0, 1.0, false, false);
}

#[test]
fn dpad_input_same_action_on_different_inputs() {
    // One action on a dpad of each thumbstick: a binding per hand, each
    // with its own state.
    let mut left = BoolBindingData::new(BoolBindingType::Dpad(DpadData::new(DpadDirection::East)), LEFT);
    let mut right = BoolBindingData::new(BoolBindingType::Dpad(DpadData::new(DpadDirection::East)), RIGHT);
    let on_left = DpadReading { xy_active: true, xy_change_time: 0, position: dpad_at(1.0, 0.0), activator: None };
    let idle_right = DpadReading { xy_active: false, xy_change_time: 0, position: dpad_at(0.0, 0.0), activator: None };
    let s = read_synced(&mut left, LEFT, BindingReading::Dpad(on_left));
    assert!(s.is_active && s.current_state && s.changed_since_last_sync);
    let s = read_synced(&mut right, RIGHT, BindingReading::Dpad(idle_right));
    assert!(!s.is_active && !s.current_state && !s.changed_since_last_sync);
    let s = read_synced(&mut left, LEFT, BindingReading::Dpad(on_left));
    assert!(s.is_active && s.current_state && !s.changed_since_last_sync);
}

#[test]
fn dpad_cross_profile_states() {
    // The Vive wand's trackpad dpad and the Index controller's thumbstick
    // dpad are separate bindings of the same action.
    let mut vive = BoolBindingData::new(BoolBindingType::Dpad(DpadData::new(DpadDirection::North)), LEFT);
    let mut knuckles = BoolBindingData::new(BoolBindingType::Dpad(DpadData::new(DpadDirection::North)), LEFT);
    let click = DpadActivatorReading { is_active: true, above_click: true, above_release: true };
    let pad = |x: f32, y: f32| DpadReading { xy_active: true, xy_change_time: 0, position: dpad_at(x, y), activator: Some(click) };
    let stick = |x: f32, y: f32| DpadReading { xy_active: true, xy_change_time: 0, position: dpad_at(x, y), activator: None };
    let s = read_synced(&mut vive, LEFT, BindingReading::Dpad(pad(0.0, 0.55)));
    assert!(s.is_active && s.current_state && s.changed_since_last_sync);
    // Any input on the touchpad does not trigger the thumbstick dpad.
    let s = read_synced(&mut knuckles, LEFT, BindingReading::Dpad(stick(0.0, 0.0)));
    assert!(s.is_active && !s.current_state && !s.changed_since_last_sync);
    let s = read_synced(&mut knuckles, LEFT, BindingReading::Dpad(stick(0.0, 0.55)));
    assert!(s.is_active && s.current_state && s.changed_since_last_sync);
    // Sliding to the center releases the trackpad dpad.
    let s = read_synced(&mut vive, LEFT, BindingReading::Dpad(pad(0.0, 0.0)));
    assert!(s.is_active && !s.current_state && s.changed_since_last_sync);
}
