use xrizer::input::paths::{DynComponent, DynInputPath, DynSubpath, InputPathError};
use xrizer::input::profiles::{
    all_profiles_in_order, next_profile_to_run, run_for_all_profiles, LegacyAction, Profile, ProfileRunner,
    ProfileWork,
};
use xrizer::openxr_data::Hand;

fn path(hand: Hand, subpath: DynSubpath, component: Option<DynComponent>) -> DynInputPath {
    DynInputPath { hand, subpath, component }
}

#[test]
fn parses_full_input_path() {
    let p = DynInputPath::from_str("/user/hand/left/input/a/click").unwrap();
    assert_eq!(p, path(Hand::Left, DynSubpath::A, Some(DynComponent::Click)));
}

#[test]
fn parses_openvr_names() {
    let p = DynInputPath::from_str("/user/hand/right/input/grip/pull").unwrap();
    assert_eq!(p, path(Hand::Right, DynSubpath::Squeeze, Some(DynComponent::Value)));
    let p = DynInputPath::from_str("/user/hand/right/input/joystick").unwrap();
    assert_eq!(p, path(Hand::Right, DynSubpath::Thumbstick, None));
    let p = DynInputPath::from_str("/user/hand/left/input/application_menu/click").unwrap();
    assert_eq!(p, path(Hand::Left, DynSubpath::Menu, Some(DynComponent::Click)));
}

#[test]
fn rejects_bad_paths() {
    assert!(matches!(
        DynInputPath::from_str("/user/hand/middle/input/a/click"),
        Err(InputPathError::InvalidHand(_))
    ));
    assert!(matches!(
        DynInputPath::from_str("/user/hand/left/input/nose/click"),
        Err(InputPathError::InvalidSubpath(_))
    ));
    assert!(matches!(
        DynInputPath::from_str("/user/hand/left/input/a/squish"),
        Err(InputPathError::InvalidComponent(_, _))
    ));
    assert!(DynInputPath::from_str("/user/head/left/input/a").is_err());
    assert!(DynInputPath::from_str("").is_err());
}

#[test]
fn displays_openxr_path() {
    let p = path(Hand::Right, DynSubpath::Squeeze, Some(DynComponent::Value));
    assert_eq!(p.to_path_string(), "/user/hand/right/input/squeeze/value");
    let p = path(Hand::Left, DynSubpath::Trackpad, None);
    assert_eq!(p.to_path_string(), "/user/hand/left/input/trackpad");
}

#[test]
fn display_then_parse_roundtrip() {
    for hand in [Hand::Left, Hand::Right] {
        for sub in [DynSubpath::A, DynSubpath::B, DynSubpath::X, DynSubpath::Y, DynSubpath::Trigger, DynSubpath::Thumbstick, DynSubpath::Trackpad] {
            for comp in [None, Some(DynComponent::Click), Some(DynComponent::Touch), Some(DynComponent::Value)] {
                let p = path(hand, sub, comp);
                assert_eq!(DynInputPath::from_str(&p.to_path_string()).unwrap(), p);
            }
        }
    }
}

#[test]
fn display_then_parse_changes_squeeze() {
    // "squeeze" is not a name OpenVR binding files use: it does not read back.
    let p = path(Hand::Left, DynSubpath::Squeeze, Some(DynComponent::Click));
    assert!(DynInputPath::from_str(&p.to_path_string()).is_err());
}

#[test]
fn with_component_replaces_component() {
    let p = path(Hand::Left, DynSubpath::Trigger, Some(DynComponent::Click));
    assert_eq!(p.with_component(DynComponent::Value), path(Hand::Left, DynSubpath::Trigger, Some(DynComponent::Value)));
}

#[test]
fn component_and_subpath_names() {
    assert_eq!(DynComponent::from_openvr_str("pull"), Some(DynComponent::Value));
    assert_eq!(DynComponent::from_openvr_str("force"), None);
    assert_eq!(DynSubpath::from_openvr_str("grip"), Some(DynSubpath::Squeeze));
    assert_eq!(DynSubpath::Squeeze.name(), "squeeze");
    assert_eq!(DynComponent::Force.name(), "force");
}

#[test]
fn knuckles_translates_trackpad_click_to_force() {
    let p = path(Hand::Left, DynSubpath::Trackpad, Some(DynComponent::Click));
    let t = Profile::Knuckles.translate_path(p).unwrap();
    assert_eq!(t, path(Hand::Left, DynSubpath::Trackpad, Some(DynComponent::Force)));
    assert!(Profile::Knuckles.is_legal(t));
}

#[test]
fn vive_translates_trigger_click_to_value() {
    let p = path(Hand::Right, DynSubpath::Trigger, Some(DynComponent::Click));
    let t = Profile::ViveWands.translate_path(p).unwrap();
    assert_eq!(t.component, Some(DynComponent::Value));
    assert_eq!(t.hand, Hand::Right);
    assert!(Profile::ViveWands.is_legal(t));
}

#[test]
fn oculus_translates_nothing() {
    let p = path(Hand::Right, DynSubpath::Trigger, Some(DynComponent::Click));
    assert_eq!(Profile::OculusTouch.translate_path(p), None);
}

#[test]
fn focus3_face_button_on_other_hand_is_not_legal() {
    // A touch on the left hand's A button redirects to a click that the
    // left controller does not have.
    let p = path(Hand::Left, DynSubpath::A, Some(DynComponent::Touch));
    let t = Profile::ViveFocus3.translate_path(p).unwrap();
    assert!(!Profile::ViveFocus3.is_legal(t));
}

#[test]
fn legacy_bindings_are_legal() {
    let actions = [
        LegacyAction::AppMenu,
        LegacyAction::A,
        LegacyAction::TriggerClick,
        LegacyAction::SqueezeClick,
        LegacyAction::Trigger,
        LegacyAction::Squeeze,
        LegacyAction::MainXy,
        LegacyAction::MainXyTouch,
        LegacyAction::MainXyClick,
    ];
    for profile in [Profile::ViveWands, Profile::Knuckles, Profile::OculusTouch, Profile::ViveFocus3, Profile::SimpleController] {
        for a in actions {
            for p in profile.legacy_bindings(a) {
                assert!(profile.is_legal(p), "{profile:?} {a:?} {p:?}");
            }
        }
    }
}

#[test]
fn knuckles_legal_paths() {
    let k = Profile::Knuckles;
    assert!(k.is_legal(path(Hand::Left, DynSubpath::A, Some(DynComponent::Click))));
    assert!(k.is_legal(path(Hand::Left, DynSubpath::Trackpad, Some(DynComponent::Force))));
    assert!(k.is_legal(path(Hand::Right, DynSubpath::Squeeze, Some(DynComponent::Value))));
    assert!(!k.is_legal(path(Hand::Left, DynSubpath::Menu, Some(DynComponent::Click))));
}

#[test]
fn profile_paths() {
    assert_eq!(Profile::Knuckles.profile_path(), "/interaction_profiles/valve/index_controller");
    assert_eq!(Profile::SimpleController.profile_path(), "/interaction_profiles/khr/simple_controller");
}

/// Drives the profile run as a runner that answers `answers[i]` after the
/// `i`-th profile, and gives back the profiles run.
fn drive_profile_run(answers: &[bool]) -> Vec<Profile> {
    let mut ran = Vec::new();
    let mut keep = true;
    while let Some(p) = next_profile_to_run(ran.len(), keep) {
        keep = answers[ran.len()];
        ran.push(p);
    }
    ran
}

#[test]
fn profile_run_stops_after_first_refusal() {
    let all = all_profiles_in_order();
    assert_eq!(
        all,
        vec![Profile::ViveWands, Profile::Knuckles, Profile::OculusTouch, Profile::ViveFocus3, Profile::SimpleController]
    );
    assert_eq!(drive_profile_run(&[true; 5]), all);
    assert_eq!(drive_profile_run(&[false, true, true, true, true]), vec![Profile::ViveWands]);
    assert_eq!(
        drive_profile_run(&[true, true, false, true, true]),
        vec![Profile::ViveWands, Profile::Knuckles, Profile::OculusTouch]
    );
    assert_eq!(next_profile_to_run(0, false), Some(Profile::ViveWands));
    assert_eq!(next_profile_to_run(5, true), None);
    assert!(!drive_profile_run(&[true; 5]).contains(&Profile::ViveTracker));
}

/// Work that records what it is asked, answering from a list.
struct Recorder {
    answers: Vec<bool>,
    calls: Vec<String>,
}

impl ProfileWork for Recorder {
    fn run(&mut self, profile: Profile) {
        self.calls.push(format!("run {profile:?}"));
    }

    fn keep_running(&self) -> bool {
        self.answers[self.calls.len() - 1]
    }
}

#[test]
fn run_for_all_profiles_with_runner() {
    let mut r = ProfileRunner::new(Recorder { answers: vec![true, true, false, true, true], calls: vec![] });
    let (ran, answers) = run_for_all_profiles(&mut r);
    assert_eq!(ran, vec![Profile::ViveWands, Profile::Knuckles, Profile::OculusTouch]);
    assert_eq!(answers, vec![true, true, false]);
    assert_eq!(r.work.calls, vec!["run ViveWands", "run Knuckles", "run OculusTouch"]);
    assert_eq!(r.ran, ran);
    assert!(!r.answer);

    let mut r = ProfileRunner::new(Recorder { answers: vec![true; 5], calls: vec![] });
    let (ran, answers) = run_for_all_profiles(&mut r);
    assert_eq!(ran, all_profiles_in_order());
    assert_eq!(answers, vec![true; 5]);
}

/// Work that keeps the default answer.
struct Always(Vec<Profile>);

impl ProfileWork for Always {
    fn run(&mut self, profile: Profile) {
        self.0.push(profile);
    }
}

#[test]
fn runner_goes_on_by_default() {
    let mut r = ProfileRunner::new(Always(vec![]));
    run_for_all_profiles(&mut r);
    assert_eq!(r.work.0, all_profiles_in_order());
    assert!(!r.work.0.contains(&Profile::ViveTracker));
}
