use xrizer::input::action_manifest::bindings::{
    dpad_parent_key, extra_actions_for, find_action, handle_haptic_bindings, handle_pose_bindings, handle_skeleton_bindings,
    handle_sources, parse_pose_binding, try_bind_with_component, ActionBinding, ActionBindingData,
    ActionKind, ActionPath, BindingOp, BoundPose, BoundPoseType, ButtonForceInput, ButtonInput,
    ButtonParameters, DpadBound, DpadInput, DpadParameters, DpadSubMode, ExtraActionType,
    ForceInputError, FromString, GrabInput, InputSlot, LoadedAction, MaybeInputPath, OutputKind,
    PathValidator, PoseBinding, PoseBindingEntry, PoseBindingError, ProfileValidator,
    ScalarConstantInput, ScrollInput, ForceSensorInput, SimpleActionBinding, SkeletonBindingCheck, ThresholdParams, TriggerInput,
    Vector2Input,
};
use xrizer::input::custom_bindings::{
    BindingReading, BoolBindingData, BoolBindingType, ThresholdReading, ThresholdState,
};
use xrizer::input::paths::{DynComponent, DynInputPath, DynSubpath};
use xrizer::input::profiles::Profile;
use xrizer::openxr_data::Hand;
use xrizer::openxr_data::Hand::{Left as L, Right as R};
use xrizer::input::paths::DynSubpath::{A, B, Menu, Squeeze, Thumbstick, Trackpad, Trigger, X, Y};

fn ap(s: &str) -> ActionPath {
    ActionPath::new(s)
}

fn path(hand: Hand, subpath: DynSubpath, component: Option<DynComponent>) -> DynInputPath {
    DynInputPath { hand, subpath, component }
}

fn action(name: &str, kind: ActionKind) -> LoadedAction {
    LoadedAction { name: name.to_string(), kind }
}

fn valid<I, P>(p: DynInputPath, inputs: I, parameters: Option<P>) -> ActionBindingData<I, P> {
    ActionBindingData { path: MaybeInputPath::Valid(p), inputs, parameters }
}

#[test]
fn action_paths_are_lower_case() {
    assert_eq!(ap("/actions/Set1/in/BoolAct").path, "/actions/set1/in/boolact");
}

#[test]
fn cleaned_name_keeps_allowed_characters() {
    assert_eq!(ap("/actions/set1/in/boolact").cleaned_name(), "boolact");
    assert_eq!(ActionPath { path: "/actions/set1/in/bool act!é".to_string() }.cleaned_name(), "bool_act__");
    assert_eq!(ActionPath { path: "/x/a-b_c.d".to_string() }.cleaned_name(), "a-b_c.d");
}

#[test]
fn action_set_name_is_prefix_before_third_slash() {
    assert_eq!(ap("/actions/set1/in/boolact").action_set_name(), "/actions/set1");
    assert_eq!(ap("/actions/main/out/haptic").action_set_name(), "/actions/main");
}

#[test]
fn pose_binding_paths() {
    assert_eq!(parse_pose_binding("/user/hand/left/pose/raw"), Ok((Hand::Left, BoundPoseType::Raw)));
    assert_eq!(parse_pose_binding("/user/hand/right/pose/tip"), Ok((Hand::Right, BoundPoseType::Tip)));
    assert_eq!(parse_pose_binding("/user/hand/right/pose/gdc2015"), Ok((Hand::Right, BoundPoseType::Gdc2015)));
    assert_eq!(parse_pose_binding("/user/hand/left/pose/handgrip"), Ok((Hand::Left, BoundPoseType::Raw)));
    assert_eq!(parse_pose_binding("/user/hand/middle/pose/raw"), Err(PoseBindingError::UnknownHand));
    assert_eq!(parse_pose_binding("raw"), Err(PoseBindingError::MissingSlash));
}

#[test]
fn force_input_parameter() {
    assert_eq!(ButtonForceInput::default_deserialize(None), Ok(None));
    assert_eq!(ButtonForceInput::default_deserialize(Some("")), Ok(Some(ButtonForceInput::Click)));
    assert_eq!(ButtonForceInput::default_deserialize(Some("force")), Ok(Some(ButtonForceInput::Force)));
    assert_eq!(ButtonForceInput::default_deserialize(Some("position")), Ok(Some(ButtonForceInput::Position)));
    assert_eq!(ButtonForceInput::default_deserialize(Some("Force")), Err(ForceInputError::UnknownVariant));
}

#[test]
fn numbers_written_as_strings() {
    assert_eq!(FromString::<u8>::parse("50").map(|x| x.0), Some(50));
    assert_eq!(FromString::<u8>::parse("+7").map(|x| x.0), Some(7));
    assert_eq!(FromString::<u8>::parse("007").map(|x| x.0), Some(7));
    assert_eq!(FromString::<u8>::parse("255").map(|x| x.0), Some(255));
    assert!(FromString::<u8>::parse("256").is_none());
    assert!(FromString::<u8>::parse("-1").is_none());
    assert!(FromString::<u8>::parse("+").is_none());
    assert!(FromString::<u8>::parse("").is_none());
    assert!(FromString::<u8>::parse("1 ").is_none());
    assert_eq!(FromString::<bool>::parse("true").map(|x| x.0), Some(true));
    assert_eq!(FromString::<bool>::parse("false").map(|x| x.0), Some(false));
    assert!(FromString::<bool>::parse("True").is_none());
    // agrees with std
    for s in ["0", "12", "+12", "300", "x", "", "+", "-0", "0255"] {
        assert_eq!(FromString::<u8>::parse(s).map(|x| x.0), s.parse::<u8>().ok(), "{s}");
    }
}

#[test]
fn dpad_parameters_default() {
    let d = DpadParameters::default();
    assert_eq!(d.sub_mode, DpadSubMode::Touch);
    assert_eq!(d.deadzone_pct.0, 50);
    assert_eq!(d.overlap_pct.0, 50);
    assert!(!d.sticky.0);
}

#[test]
fn invalid_binding_path_is_kept() {
    match MaybeInputPath::from_string("/user/hand/left/input/nose".to_string()) {
        MaybeInputPath::Invalid { path, .. } => assert_eq!(path, "/user/hand/left/input/nose"),
        _ => panic!("expected invalid"),
    }
    assert!(matches!(
        MaybeInputPath::from_string("/user/hand/left/input/a".to_string()),
        MaybeInputPath::Valid(p) if p == path(Hand::Left, DynSubpath::A, None)
    ));
}

#[test]
fn profile_validator() {
    let k = ProfileValidator { profile: Profile::Knuckles };
    let p = path(Hand::Left, DynSubpath::Trackpad, Some(DynComponent::Click));
    assert_eq!(k.validate(p), Some(path(Hand::Left, DynSubpath::Trackpad, Some(DynComponent::Force))));
    assert_eq!(k.validate(path(Hand::Left, DynSubpath::Menu, Some(DynComponent::Click))), None);
    let o = ProfileValidator { profile: Profile::OculusTouch };
    assert_eq!(o.validate(path(Hand::Left, DynSubpath::A, Some(DynComponent::Click))), None);
}

#[test]
fn try_bind_reports_invalid_complete_path() {
    let k = ProfileValidator { profile: Profile::Knuckles };
    let partial = path(Hand::Left, DynSubpath::Menu, None);
    assert_eq!(
        try_bind_with_component(&k, 0, InputSlot::Click, partial, Some(DynComponent::Click), OutputKind::Boolean),
        Err(path(Hand::Left, DynSubpath::Menu, Some(DynComponent::Click)))
    );
    let partial = path(Hand::Right, DynSubpath::A, None);
    assert_eq!(
        try_bind_with_component(&k, 3, InputSlot::Touch, partial, Some(DynComponent::Touch), OutputKind::Boolean),
        Ok(BindingOp::Suggest { source: 3, slot: InputSlot::Touch, path: path(Hand::Right, DynSubpath::A, Some(DynComponent::Touch)), output: OutputKind::Boolean })
    );
}

fn button(touch: bool, click: bool, double: bool) -> ButtonInput {
    ButtonInput {
        touch: if touch { Some(ap("/actions/set1/in/touchact")) } else { None },
        click: if click { Some(ap("/actions/set1/in/boolact")) } else { None },
        double: if double { Some(ap("/actions/set1/in/dblact")) } else { None },
    }
}

#[test]
fn button_click_defaults_to_threshold_on_value() {
    let v = ProfileValidator { profile: Profile::Knuckles };
    let trig = path(Hand::Left, DynSubpath::Trigger, None);
    let sources = vec![ActionBinding::Button(valid(trig, button(true, true, false), None))];
    let ops = handle_sources(&v, &vec![], &sources);
    assert_eq!(ops, vec![
        BindingOp::Suggest { source: 0, slot: InputSlot::Touch, path: path(Hand::Left, DynSubpath::Trigger, Some(DynComponent::Touch)), output: OutputKind::Boolean },
        BindingOp::Threshold { source: 0, slot: InputSlot::Click, hand: Hand::Left, path: path(Hand::Left, DynSubpath::Trigger, Some(DynComponent::Value)), vector2: false, params: ThresholdParams::FromBinding },
    ]);
    assert_eq!(extra_actions_for(&ops[1]), vec![ExtraActionType::Analog]);
}

#[test]
fn button_without_value_falls_back_to_click() {
    let v = ProfileValidator { profile: Profile::Knuckles };
    let a = path(Hand::Right, DynSubpath::A, None);
    let sources = vec![ActionBinding::Button(valid(a, button(false, true, true), None))];
    let ops = handle_sources(&v, &vec![], &sources);
    let click = path(Hand::Right, DynSubpath::A, Some(DynComponent::Click));
    assert_eq!(ops, vec![
        BindingOp::DoubleTap { source: 0, hand: Hand::Right, path: click },
        BindingOp::Suggest { source: 0, slot: InputSlot::Click, path: click, output: OutputKind::Boolean },
    ]);
}

#[test]
fn button_force_input_position_is_vector2_threshold() {
    let v = ProfileValidator { profile: Profile::Knuckles };
    let pad = path(Hand::Left, DynSubpath::Trackpad, None);
    let params = Some(ButtonParameters { force_input: Some(ButtonForceInput::Position) });
    let sources = vec![ActionBinding::Button(valid(pad, button(false, true, false), params))];
    let ops = handle_sources(&v, &vec![], &sources);
    assert_eq!(ops, vec![BindingOp::Threshold { source: 0, slot: InputSlot::Click, hand: Hand::Left, path: pad, vector2: true, params: ThresholdParams::FromBinding }]);
}

#[test]
fn toggle_needs_the_action() {
    let v = ProfileValidator { profile: Profile::Knuckles };
    let a = path(Hand::Left, DynSubpath::A, None);
    let sources = vec![ActionBinding::ToggleButton(valid(a, button(false, true, false), None::<()>))];
    assert_eq!(handle_sources(&v, &vec![], &sources), vec![]);
    let actions = vec![action("/actions/set1/in/boolact", ActionKind::Boolean)];
    let ops = handle_sources(&v, &actions, &sources);
    assert_eq!(ops, vec![BindingOp::Toggle { source: 0, hand: Hand::Left, path: path(Hand::Left, DynSubpath::A, Some(DynComponent::Click)) }]);
    assert_eq!(extra_actions_for(&ops[0]), vec![ExtraActionType::ToggleAction]);
}

#[test]
fn trigger_touch_from_pull_without_capsense() {
    // The Vive wand has no trigger touch: a touch binding reads any pull.
    let v = ProfileValidator { profile: Profile::ViveWands };
    let trig = path(Hand::Right, DynSubpath::Trigger, None);
    let inputs = TriggerInput { pull: None, touch: Some(ap("/actions/set1/in/touchact")), click: None };
    let ops = handle_sources(&v, &vec![], &vec![ActionBinding::Trigger(valid(trig, inputs, None::<()>))]);
    assert_eq!(ops, vec![BindingOp::Threshold { source: 0, slot: InputSlot::Touch, hand: Hand::Right, path: path(Hand::Right, DynSubpath::Trigger, Some(DynComponent::Value)), vector2: false, params: ThresholdParams::TouchConversion }]);
}

#[test]
fn trigger_touch_bound_directly_with_capsense() {
    let v = ProfileValidator { profile: Profile::OculusTouch };
    let trig = path(Hand::Right, DynSubpath::Trigger, None);
    let inputs = TriggerInput { pull: Some(ap("/a/b/c/pull")), touch: Some(ap("/a/b/c/touch")), click: None };
    let ops = handle_sources(&v, &vec![], &vec![ActionBinding::Trigger(valid(trig, inputs, None::<()>))]);
    assert_eq!(ops, vec![
        BindingOp::Suggest { source: 0, slot: InputSlot::Pull, path: path(Hand::Right, DynSubpath::Trigger, Some(DynComponent::Value)), output: OutputKind::Float },
        BindingOp::Suggest { source: 0, slot: InputSlot::Touch, path: path(Hand::Right, DynSubpath::Trigger, Some(DynComponent::Touch)), output: OutputKind::Boolean },
    ]);
}

#[test]
fn grab_needs_force_and_value() {
    let actions = vec![action("/actions/set1/in/grab", ActionKind::Boolean)];
    let squeeze = path(Hand::Left, DynSubpath::Squeeze, None);
    let sources = vec![ActionBinding::Grab(valid(squeeze, GrabInput { grab: ap("/actions/set1/in/grab") }, None::<()>))];
    let k = ProfileValidator { profile: Profile::Knuckles };
    let ops = handle_sources(&k, &actions, &sources);
    assert_eq!(ops, vec![BindingOp::Grab { source: 0, hand: Hand::Left, force_path: path(Hand::Left, DynSubpath::Squeeze, Some(DynComponent::Force)), value_path: path(Hand::Left, DynSubpath::Squeeze, Some(DynComponent::Value)) }]);
    assert_eq!(extra_actions_for(&ops[0]), vec![ExtraActionType::GrabForce, ExtraActionType::GrabTouch]);
    let o = ProfileValidator { profile: Profile::OculusTouch };
    assert_eq!(handle_sources(&o, &actions, &sources), vec![]);
}

#[test]
fn dpad_binds_directions_with_actions() {
    let actions = vec![
        action("/actions/set1/in/north", ActionKind::Boolean),
        action("/actions/set1/in/center", ActionKind::Boolean),
    ];
    let pad = path(Hand::Left, DynSubpath::Trackpad, None);
    let inputs = DpadInput {
        north: Some(ap("/actions/set1/in/north")),
        east: Some(ap("/actions/set1/in/east")),
        south: None,
        west: None,
        center: Some(ap("/actions/set1/in/center")),
    };
    let sources = vec![ActionBinding::Dpad(valid(pad, inputs, Some(DpadParameters::default())))];
    let v = ProfileValidator { profile: Profile::Knuckles };
    let ops = handle_sources(&v, &actions, &sources);
    assert_eq!(ops, vec![BindingOp::Dpad { source: 0, path: pad, bound: DpadBound { north: true, east: false, south: false, west: false, center: true } }]);
    // a profile without the pad binds nothing
    let o = ProfileValidator { profile: Profile::OculusTouch };
    assert_eq!(handle_sources(&o, &actions, &sources), vec![]);
    // nor does a dpad without actions
    assert_eq!(handle_sources(&v, &vec![], &sources), vec![]);
}

#[test]
fn sources_in_order_and_invalid_skipped() {
    let v = ProfileValidator { profile: Profile::Knuckles };
    let sources = vec![
        ActionBinding::ScalarConstant(valid(path(Hand::Left, DynSubpath::Trigger, None), ScalarConstantInput { value: ap("/a/b/c/v") }, None::<()>)),
        ActionBinding::Ignored,
        ActionBinding::Trackpad(ActionBindingData {
            path: MaybeInputPath::from_string("/user/hand/left/input/nose".to_string()),
            inputs: Vector2Input { position: Some(ap("/a/b/c/p")), click: None, touch: None },
            parameters: None::<()>,
        }),
        ActionBinding::Joystick(valid(path(Hand::Right, DynSubpath::Thumbstick, None), Vector2Input { position: Some(ap("/a/b/c/p")), click: Some(ap("/a/b/c/c")), touch: None }, None::<()>)),
    ];
    let ops = handle_sources(&v, &vec![], &sources);
    assert_eq!(ops, vec![
        BindingOp::Suggest { source: 0, slot: InputSlot::Value, path: path(Hand::Left, DynSubpath::Trigger, Some(DynComponent::Value)), output: OutputKind::Float },
        BindingOp::Suggest { source: 3, slot: InputSlot::Click, path: path(Hand::Right, DynSubpath::Thumbstick, Some(DynComponent::Click)), output: OutputKind::Boolean },
        BindingOp::Suggest { source: 3, slot: InputSlot::Position, path: path(Hand::Right, DynSubpath::Thumbstick, None), output: OutputKind::Vector2 },
    ]);
    for op in &ops {
        match op {
            BindingOp::Suggest { path, .. } => assert!(Profile::Knuckles.is_legal(*path)),
            _ => unreachable!(),
        }
    }
}

#[test]
fn pose_bindings_set_their_hand() {
    let actions = vec![action("/actions/main/in/pose", ActionKind::Pose)];
    let bindings = vec![
        PoseBinding { output: ap("/actions/main/in/pose"), path: (Hand::Left, BoundPoseType::Raw) },
        PoseBinding { output: ap("/actions/main/in/missing"), path: (Hand::Left, BoundPoseType::Tip) },
        PoseBinding { output: ap("/actions/main/in/pose"), path: (Hand::Right, BoundPoseType::Tip) },
        PoseBinding { output: ap("/actions/main/in/pose"), path: (Hand::Left, BoundPoseType::Gdc2015) },
    ];
    let mut entries: Vec<PoseBindingEntry> = Vec::new();
    handle_pose_bindings(&actions, &mut entries, &bindings);
    assert_eq!(entries.len(), 1);
    assert_eq!(entries[0].action, "/actions/main/in/pose");
    assert_eq!(entries[0].pose, BoundPose { left: Some(BoundPoseType::Gdc2015), right: Some(BoundPoseType::Tip) });
}

#[test]
fn skeleton_bindings_are_checked() {
    let actions = vec![action("/actions/main/in/skel_l", ActionKind::Skeleton(Hand::Left))];
    let sab = |o: &str, p: &str| SimpleActionBinding { output: ap(o), path: p.to_string() };
    let bindings = vec![
        sab("/actions/main/in/skel_l", "/user/hand/left/input/skeleton/left"),
        sab("/actions/main/in/skel_l", "/user/hand/right/input/skeleton/right"),
        sab("/actions/main/in/skel_l", "/user/hand/left/input/skeleton"),
        sab("/actions/main/in/other", "/user/hand/left/input/skeleton/left"),
    ];
    assert_eq!(handle_skeleton_bindings(&actions, &bindings), vec![
        SkeletonBindingCheck::Bound(Hand::Left),
        SkeletonBindingCheck::HandMismatch { declared: Hand::Left, bound: Hand::Right },
        SkeletonBindingCheck::InvalidPath,
        SkeletonBindingCheck::NoAction,
    ]);
}

#[test]
fn haptic_bindings_need_a_haptic_output() {
    let actions = vec![action("/actions/main/out/vib", ActionKind::Haptic)];
    let sab = |o: &str, p: &str| SimpleActionBinding { output: ap(o), path: p.to_string() };
    let bindings = vec![
        sab("/actions/main/out/vib", "/user/hand/left/output/haptic"),
        sab("/actions/main/out/vib", "/user/hand/left/input/haptic"),
        sab("/actions/main/out/other", "/user/hand/right/output/haptic"),
        sab("/actions/main/out/vib", "/user/hand/right/output/haptic"),
    ];
    assert_eq!(handle_haptic_bindings(&actions, &bindings), vec![0, 3]);
}

#[test]
fn find_action_by_name() {
    let actions = vec![action("/a/b/c/x", ActionKind::Vector1), action("/a/b/c/x", ActionKind::Vector2)];
    assert_eq!(find_action(&actions, "/a/b/c/x"), Some(ActionKind::Vector1));
    assert_eq!(find_action(&actions, "/a/b/c/y"), None);
}

#[test]
fn dpad_parent_key_names_pad_and_set() {
    let pad = path(Hand::Left, DynSubpath::Trackpad, None);
    assert_eq!(dpad_parent_key(pad, "/actions/set1"), "/user/hand/left/input/trackpad-/actions/set1");
}

/// The comparison of the thresholds that turn a pull into a touch (on at
/// 0.01, off below 0.005).
fn touch_from_pull(value: f32) -> ThresholdReading {
    ThresholdReading { is_active: true, at_or_above_click: value >= 0.01, at_or_above_release: value >= 0.005, last_change_time: 0 }
}

#[test]
fn grip_touch_from_pull_oculus() {
    // The Touch controller's grip has no capsense: a touch binding on it
    // reads any pull of the grip, through a threshold.
    let o = ProfileValidator { profile: Profile::OculusTouch };
    let squeeze = path(Hand::Left, DynSubpath::Squeeze, None);
    let inputs = TriggerInput { pull: None, touch: Some(ap("/actions/set1/in/boolact2")), click: None };
    let ops = handle_sources(&o, &vec![], &vec![ActionBinding::Trigger(valid(squeeze, inputs, None::<()>))]);
    assert_eq!(ops, vec![BindingOp::Threshold {
        source: 0,
        slot: InputSlot::Touch,
        hand: Hand::Left,
        path: path(Hand::Left, DynSubpath::Squeeze, Some(DynComponent::Value)),
        vector2: false,
        params: ThresholdParams::TouchConversion,
    }]);
    assert_eq!(extra_actions_for(&ops[0]), vec![ExtraActionType::Analog]);

    let mut b = BoolBindingData::new(BoolBindingType::ThresholdFloat(ThresholdState::new()), 1);
    let mut read = |value: f32| {
        b.unsync();
        b.state(1, || Ok::<_, ()>(BindingReading::ThresholdFloat(Some(touch_from_pull(value))))).unwrap().unwrap()
    };
    let s = read(0.0);
    assert!(s.is_active && !s.current_state && !s.changed_since_last_sync);
    let s = read(0.01);
    assert!(s.is_active && s.current_state && s.changed_since_last_sync);
    let s = read(0.0);
    assert!(s.is_active && !s.current_state && s.changed_since_last_sync);
}

#[test]
fn trigger_no_touch_from_pull_oculus() {
    // The Touch controller's trigger has capsense: the touch is bound
    // directly, and no threshold is made for it.
    let o = ProfileValidator { profile: Profile::OculusTouch };
    let trig = path(Hand::Left, DynSubpath::Trigger, None);
    let inputs = TriggerInput { pull: None, touch: Some(ap("/actions/set1/in/boolact3")), click: None };
    let ops = handle_sources(&o, &vec![], &vec![ActionBinding::Trigger(valid(trig, inputs, None::<()>))]);
    assert_eq!(ops, vec![BindingOp::Suggest {
        source: 0,
        slot: InputSlot::Touch,
        path: path(Hand::Left, DynSubpath::Trigger, Some(DynComponent::Touch)),
        output: OutputKind::Boolean,
    }]);
    assert!(ops.iter().all(|op| !extra_actions_for(op).contains(&ExtraActionType::Analog)));
}

#[test]
fn double_tap_bindings() {
    let k = ProfileValidator { profile: Profile::Knuckles };
    let a = path(Hand::Left, DynSubpath::A, None);
    let inputs = ButtonInput { touch: None, click: None, double: Some(ap("/actions/set1/in/boolact3")) };
    let ops = handle_sources(&k, &vec![], &vec![ActionBinding::Button(valid(a, inputs, None))]);
    let doubles: Vec<String> = ops
        .iter()
        .filter(|op| extra_actions_for(op).contains(&ExtraActionType::Double))
        .map(|op| match op {
            BindingOp::DoubleTap { path, .. } => path.to_path_string(),
            _ => unreachable!(),
        })
        .collect();
    assert_eq!(doubles, vec!["/user/hand/left/input/a/click".to_string()]);
}

// The source bindings that the test manifest's binding file gives each
// profile, one list per action, and the inputs each action ends up on.

const BOOLACT: &str = "/actions/set1/in/boolact";
const VEC1: &str = "/actions/set1/in/vec1act";
const VEC2: &str = "/actions/set1/in/vec2act";
const SCROLL: &str = "/actions/set1/in/scrollact";
const VIB: &str = "/actions/set1/in/vib";

fn manifest_actions() -> Vec<LoadedAction> {
    vec![
        action(BOOLACT, ActionKind::Boolean),
        action(VEC1, ActionKind::Vector1),
        action(VEC2, ActionKind::Vector2),
        action(SCROLL, ActionKind::Vector2),
        action(VIB, ActionKind::Haptic),
    ]
}

fn on(hand: Hand, subpath: DynSubpath) -> DynInputPath {
    path(hand, subpath, None)
}

fn btn(p: DynInputPath, touch: Option<&str>, click: Option<&str>) -> ActionBinding {
    ActionBinding::Button(valid(p, ButtonInput { touch: touch.map(ap), click: click.map(ap), double: None }, None))
}

fn trig(p: DynInputPath, pull: Option<&str>, touch: Option<&str>) -> ActionBinding {
    ActionBinding::Trigger(valid(p, TriggerInput { pull: pull.map(ap), touch: touch.map(ap), click: None }, None::<()>))
}

fn pad(p: DynInputPath, position: Option<&str>, click: Option<&str>, touch: Option<&str>) -> ActionBinding {
    ActionBinding::Trackpad(valid(p, Vector2Input { position: position.map(ap), click: click.map(ap), touch: touch.map(ap) }, None::<()>))
}

fn stick(p: DynInputPath, position: Option<&str>, click: Option<&str>, touch: Option<&str>) -> ActionBinding {
    ActionBinding::Joystick(valid(p, Vector2Input { position: position.map(ap), click: click.map(ap), touch: touch.map(ap) }, None::<()>))
}

fn sorted(mut v: Vec<String>) -> Vec<String> {
    v.sort();
    v
}

fn expect(v: &[&str]) -> Vec<String> {
    sorted(v.iter().map(|s| s.to_string()).collect())
}

/// The inputs the ops bind their action to directly, as a boolean, float
/// or 2D action (by the output kind given).
fn direct(ops: &[BindingOp], kind: OutputKind) -> Vec<String> {
    sorted(
        ops.iter()
            .filter_map(|op| match op {
                BindingOp::Suggest { path, output, .. } if *output == kind => Some(path.to_path_string()),
                _ => None,
            })
            .collect(),
    )
}

/// The inputs whose float action (`<action>_asfloat`) a threshold reads.
fn as_float(ops: &[BindingOp]) -> Vec<String> {
    sorted(
        ops.iter()
            .filter_map(|op| match op {
                BindingOp::Threshold { path, vector2: false, params: ThresholdParams::FromBinding, .. } => {
                    Some(path.to_path_string())
                }
                _ => None,
            })
            .collect(),
    )
}

fn haptics(bindings: &[(&str, &str)]) -> Vec<String> {
    let sab: Vec<SimpleActionBinding> =
        bindings.iter().map(|(o, p)| SimpleActionBinding { output: ap(o), path: p.to_string() }).collect();
    let pushed = handle_haptic_bindings(&manifest_actions(), &sab);
    sorted(pushed.into_iter().map(|i| sab[i].path.clone()).collect())
}

fn both_haptics() -> Vec<String> {
    haptics(&[(VIB, "/user/hand/left/output/haptic"), (VIB, "/user/hand/right/output/haptic")])
}

#[test]
fn knuckles_verify_bindings() {
    let v = ProfileValidator { profile: Profile::Knuckles };
    let acts = manifest_actions();
    let boolact = vec![
        btn(on(L, A), None, Some(BOOLACT)),
        btn(on(R, A), None, Some(BOOLACT)),
        btn(on(L, B), None, Some(BOOLACT)),
        btn(on(R, B), None, Some(BOOLACT)),
        btn(on(L, Squeeze), Some(BOOLACT), Some(BOOLACT)),
        btn(on(L, Trigger), Some(BOOLACT), Some(BOOLACT)),
        btn(on(R, Trigger), Some(BOOLACT), Some(BOOLACT)),
        stick(on(L, Thumbstick), None, Some(BOOLACT), Some(BOOLACT)),
        stick(on(R, Thumbstick), None, Some(BOOLACT), Some(BOOLACT)),
        pad(on(R, Trackpad), None, Some(BOOLACT), Some(BOOLACT)),
        pad(on(L, Trackpad), None, Some(BOOLACT), None),
        ActionBinding::Grab(valid(on(R, Squeeze), GrabInput { grab: ap(BOOLACT) }, None::<()>)),
    ];
    let ops = handle_sources(&v, &acts, &boolact);
    assert_eq!(direct(&ops, OutputKind::Boolean), expect(&[
        "/user/hand/left/input/a/click",
        "/user/hand/right/input/a/click",
        "/user/hand/left/input/b/click",
        "/user/hand/right/input/b/click",
        "/user/hand/left/input/squeeze/value",
        "/user/hand/left/input/trigger/touch",
        "/user/hand/right/input/trigger/touch",
        "/user/hand/left/input/thumbstick/click",
        "/user/hand/right/input/thumbstick/click",
        "/user/hand/left/input/thumbstick/touch",
        "/user/hand/right/input/thumbstick/touch",
        "/user/hand/right/input/trackpad/touch",
        "/user/hand/left/input/trackpad/force",
        "/user/hand/right/input/trackpad/force",
    ]));
    assert_eq!(as_float(&ops), expect(&[
        "/user/hand/left/input/trigger/value",
        "/user/hand/right/input/trigger/value",
        "/user/hand/left/input/squeeze/value",
    ]));
    let grab_force: Vec<String> = ops
        .iter()
        .filter_map(|op| match op {
            BindingOp::Grab { force_path, .. } => Some(force_path.to_path_string()),
            _ => None,
        })
        .collect();
    assert!(grab_force.contains(&"/user/hand/right/input/squeeze/force".to_string()));

    let vec1 = vec![
        trig(on(L, Trigger), Some(VEC1), None),
        trig(on(R, Trigger), Some(VEC1), None),
        ActionBinding::ForceSensor(valid(on(L, Squeeze), ForceSensorInput { force: ap(VEC1) }, None::<()>)),
        trig(on(R, Squeeze), Some(VEC1), None),
    ];
    assert_eq!(direct(&handle_sources(&v, &acts, &vec1), OutputKind::Float), expect(&[
        "/user/hand/left/input/trigger/value",
        "/user/hand/right/input/trigger/value",
        "/user/hand/left/input/squeeze/force",
        "/user/hand/right/input/squeeze/value",
    ]));
    let vec2 = vec![
        pad(on(L, Trackpad), Some(VEC2), None, None),
        pad(on(R, Trackpad), Some(VEC2), None, None),
        stick(on(L, Thumbstick), Some(VEC2), None, None),
        stick(on(R, Thumbstick), Some(VEC2), None, None),
    ];
    assert_eq!(direct(&handle_sources(&v, &acts, &vec2), OutputKind::Vector2), expect(&[
        "/user/hand/left/input/trackpad",
        "/user/hand/right/input/trackpad",
        "/user/hand/left/input/thumbstick",
        "/user/hand/right/input/thumbstick",
    ]));
    let scroll = vec![ActionBinding::Scroll(valid(on(L, Thumbstick), ScrollInput { scroll: ap(SCROLL) }, None::<()>))];
    assert_eq!(direct(&handle_sources(&v, &acts, &scroll), OutputKind::Vector2), expect(&["/user/hand/left/input/thumbstick"]));
    assert_eq!(both_haptics(), expect(&["/user/hand/left/output/haptic", "/user/hand/right/output/haptic"]));
}

/// The bindings the Touch-style controllers share (x/y on the left, a/b on
/// the right).
fn xy_ab_boolact() -> Vec<ActionBinding> {
    vec![
        btn(on(L, X), None, Some(BOOLACT)),
        btn(on(L, Y), None, Some(BOOLACT)),
        btn(on(R, A), None, Some(BOOLACT)),
        btn(on(R, B), None, Some(BOOLACT)),
        stick(on(R, Thumbstick), None, Some(BOOLACT), Some(BOOLACT)),
        btn(on(L, Menu), None, Some(BOOLACT)),
        btn(on(L, Squeeze), None, Some(BOOLACT)),
        btn(on(R, Squeeze), None, Some(BOOLACT)),
        btn(on(L, Trigger), None, Some(BOOLACT)),
        btn(on(R, Trigger), None, Some(BOOLACT)),
    ]
}

fn verify_xy_ab_profile(profile: Profile) {
    let v = ProfileValidator { profile };
    let acts = manifest_actions();
    let ops = handle_sources(&v, &acts, &xy_ab_boolact());
    assert_eq!(direct(&ops, OutputKind::Boolean), expect(&[
        "/user/hand/left/input/x/click",
        "/user/hand/left/input/y/click",
        "/user/hand/right/input/a/click",
        "/user/hand/right/input/b/click",
        "/user/hand/right/input/thumbstick/click",
        "/user/hand/right/input/thumbstick/touch",
        "/user/hand/left/input/menu/click",
    ]));
    assert_eq!(as_float(&ops), expect(&[
        "/user/hand/left/input/squeeze/value",
        "/user/hand/right/input/squeeze/value",
        "/user/hand/left/input/trigger/value",
        "/user/hand/right/input/trigger/value",
    ]));
    let vec1 = vec![trig(on(L, Trigger), Some(VEC1), None), trig(on(R, Trigger), Some(VEC1), None)];
    assert_eq!(direct(&handle_sources(&v, &acts, &vec1), OutputKind::Float), expect(&[
        "/user/hand/left/input/trigger/value",
        "/user/hand/right/input/trigger/value",
    ]));
    let vec2 = vec![stick(on(L, Thumbstick), Some(VEC2), None, None), stick(on(R, Thumbstick), Some(VEC2), None, None)];
    assert_eq!(direct(&handle_sources(&v, &acts, &vec2), OutputKind::Vector2), expect(&[
        "/user/hand/left/input/thumbstick",
        "/user/hand/right/input/thumbstick",
    ]));
    assert_eq!(both_haptics(), expect(&["/user/hand/left/output/haptic", "/user/hand/right/output/haptic"]));
}

#[test]
fn oculus_touch_verify_bindings() {
    verify_xy_ab_profile(Profile::OculusTouch);
}

#[test]
fn vive_focus3_verify_bindings() {
    verify_xy_ab_profile(Profile::ViveFocus3);
}

#[test]
fn simple_controller_verify_bindings() {
    let v = ProfileValidator { profile: Profile::SimpleController };
    let acts = manifest_actions();
    let boolact = vec![
        btn(on(L, Menu), None, Some(BOOLACT)),
        btn(on(R, Menu), None, Some(BOOLACT)),
        btn(on(L, Trigger), None, Some(BOOLACT)),
        btn(on(R, Trigger), None, Some(BOOLACT)),
    ];
    let ops = handle_sources(&v, &acts, &boolact);
    assert_eq!(direct(&ops, OutputKind::Boolean), expect(&[
        "/user/hand/left/input/menu/click",
        "/user/hand/right/input/menu/click",
        "/user/hand/left/input/select/click",
        "/user/hand/right/input/select/click",
    ]));
    // The simple controller has neither trigger values nor pads.
    let vec1 = vec![trig(on(L, Trigger), Some(VEC1), None), trig(on(R, Trigger), Some(VEC1), None)];
    assert_eq!(direct(&handle_sources(&v, &acts, &vec1), OutputKind::Float), expect(&[]));
    let vec2 = vec![pad(on(L, Trackpad), Some(VEC2), None, None), stick(on(R, Thumbstick), Some(VEC2), None, None)];
    assert_eq!(direct(&handle_sources(&v, &acts, &vec2), OutputKind::Vector2), expect(&[]));
    assert_eq!(both_haptics(), expect(&["/user/hand/left/output/haptic", "/user/hand/right/output/haptic"]));
}

#[test]
fn vive_controller_verify_bindings() {
    let v = ProfileValidator { profile: Profile::ViveWands };
    let acts = manifest_actions();
    let boolact = vec![
        btn(on(L, Squeeze), None, Some(BOOLACT)),
        btn(on(R, Squeeze), None, Some(BOOLACT)),
        btn(on(L, Menu), None, Some(BOOLACT)),
        btn(on(R, Menu), None, Some(BOOLACT)),
        pad(on(L, Trackpad), None, Some(BOOLACT), Some(BOOLACT)),
        btn(on(L, Trigger), None, Some(BOOLACT)),
        btn(on(R, Trigger), None, Some(BOOLACT)),
    ];
    let ops = handle_sources(&v, &acts, &boolact);
    assert_eq!(direct(&ops, OutputKind::Boolean), expect(&[
        "/user/hand/left/input/squeeze/click",
        "/user/hand/right/input/squeeze/click",
        "/user/hand/left/input/menu/click",
        "/user/hand/right/input/menu/click",
        "/user/hand/left/input/trackpad/click",
        "/user/hand/left/input/trackpad/touch",
    ]));
    assert_eq!(as_float(&ops), expect(&["/user/hand/left/input/trigger/value", "/user/hand/right/input/trigger/value"]));
    let vec1 = vec![trig(on(L, Trigger), Some(VEC1), None), trig(on(R, Trigger), Some(VEC1), None)];
    assert_eq!(direct(&handle_sources(&v, &acts, &vec1), OutputKind::Float), expect(&[
        "/user/hand/left/input/trigger/value",
        "/user/hand/right/input/trigger/value",
    ]));
    let vec2 = vec![pad(on(L, Trackpad), Some(VEC2), None, None), pad(on(R, Trackpad), Some(VEC2), None, None)];
    assert_eq!(direct(&handle_sources(&v, &acts, &vec2), OutputKind::Vector2), expect(&[
        "/user/hand/left/input/trackpad",
        "/user/hand/right/input/trackpad",
    ]));
    assert_eq!(both_haptics(), expect(&["/user/hand/left/output/haptic", "/user/hand/right/output/haptic"]));
}

#[test]
fn cased_actions() {
    // Action names are matched without regard to case: the manifest's
    // actions and the binding file's outputs are both read lower-cased.
    let acts = vec![
        LoadedAction { name: ap("/actions/set1/in/BoolAct").path, kind: ActionKind::Boolean },
        LoadedAction { name: ap("/actions/set1/in/Vec1Act").path, kind: ActionKind::Vector1 },
        LoadedAction { name: ap("/actions/set1/in/Vec2Act").path, kind: ActionKind::Vector2 },
        LoadedAction { name: ap("/actions/set1/in/VibAct").path, kind: ActionKind::Haptic },
        LoadedAction { name: ap("/actions/set1/in/PoseAct").path, kind: ActionKind::Pose },
        LoadedAction { name: ap("/actions/set1/in/SkelAct").path, kind: ActionKind::Skeleton(Hand::Left) },
    ];
    let v = ProfileValidator { profile: Profile::ViveWands };
    let sources = vec![
        btn(on(Hand::Left, Squeeze), None, Some("/actions/set1/in/BoolAct")),
        trig(on(Hand::Left, Trigger), Some("/actions/set1/in/VEC1act"), None),
        pad(on(Hand::Left, Trackpad), Some("/actions/set1/in/Vec2Act"), None, None),
    ];
    let ops = handle_sources(&v, &acts, &sources);
    assert_eq!(direct(&ops, OutputKind::Boolean), expect(&["/user/hand/left/input/squeeze/click"]));
    assert_eq!(direct(&ops, OutputKind::Float), expect(&["/user/hand/left/input/trigger/value"]));
    assert_eq!(direct(&ops, OutputKind::Vector2), expect(&["/user/hand/left/input/trackpad"]));

    let sab = vec![SimpleActionBinding { output: ap("/actions/set1/in/VibAct"), path: "/user/hand/left/output/haptic".to_string() }];
    assert_eq!(handle_haptic_bindings(&acts, &sab), vec![0]);
    let poses = vec![PoseBinding { output: ap("/actions/set1/in/PoseAct"), path: (Hand::Left, BoundPoseType::Raw) }];
    let mut entries: Vec<PoseBindingEntry> = Vec::new();
    handle_pose_bindings(&acts, &mut entries, &poses);
    assert_eq!(entries.len(), 1);
    let skel = vec![SimpleActionBinding { output: ap("/actions/set1/in/SkelAct"), path: "/user/hand/left/input/skeleton/left".to_string() }];
    assert_eq!(handle_skeleton_bindings(&acts, &skel), vec![SkeletonBindingCheck::Bound(Hand::Left)]);
}

#[test]
fn dpad_input_different_sets_have_different_actions() {
    let pad = path(Hand::Left, DynSubpath::Trackpad, None);
    let set1 = dpad_parent_key(pad, &ap("/actions/set1/in/boolact").action_set_name());
    let set2 = dpad_parent_key(pad, &ap("/actions/set2/in/boolact").action_set_name());
    assert_eq!(set1, "/user/hand/left/input/trackpad-/actions/set1");
    assert_ne!(set1, set2);
}

fn north_dpad(p: DynInputPath) -> ActionBinding {
    let inputs = DpadInput { north: Some(ap(BOOLACT)), east: None, south: None, west: None, center: None };
    ActionBinding::Dpad(valid(p, inputs, Some(DpadParameters::default())))
}

#[test]
fn dpad_cross_profile_actions() {
    // The same action on the wand's trackpad dpad and the Index
    // controller's thumbstick dpad: different pads, different pad actions.
    let acts = manifest_actions();
    let sources = vec![north_dpad(on(L, Trackpad)), north_dpad(on(L, Thumbstick))];
    let vive = handle_sources(&ProfileValidator { profile: Profile::ViveWands }, &acts, &sources);
    let knuckles = handle_sources(&ProfileValidator { profile: Profile::Knuckles }, &acts, &sources);
    let pads = |ops: &[BindingOp]| -> Vec<String> {
        ops.iter()
            .filter_map(|op| match op {
                BindingOp::Dpad { path, .. } => Some(dpad_parent_key(*path, "/actions/set1")),
                _ => None,
            })
            .collect()
    };
    assert_eq!(pads(&vive), vec!["/user/hand/left/input/trackpad-/actions/set1".to_string()]);
    assert!(pads(&knuckles).contains(&"/user/hand/left/input/thumbstick-/actions/set1".to_string()));
    assert_ne!(pads(&vive)[0], "/user/hand/left/input/thumbstick-/actions/set1");
}

#[test]
fn dpad_input_use_non_dpad_when_available() {
    // The action has both a plain button binding and a dpad binding: the
    // button is suggested directly, beside the dpad.
    let acts = manifest_actions();
    let sources = vec![btn(on(L, Menu), None, Some(BOOLACT)), north_dpad(on(L, Trackpad))];
    let ops = handle_sources(&ProfileValidator { profile: Profile::ViveWands }, &acts, &sources);
    assert_eq!(direct(&ops, OutputKind::Boolean), expect(&["/user/hand/left/input/menu/click"]));
    assert!(ops.iter().any(|op| matches!(op, BindingOp::Dpad { source: 1, .. })));
}

#[test]
fn actions_with_bad_paths() {
    // Names OpenXR refuses are cleaned: lower case, and every character
    // but letters, digits, `-`, `_` and `.` becomes `_`.
    assert_eq!(ap("/actions/set1/in/action with spaces").cleaned_name(), "action_with_spaces");
    assert_eq!(ap("/actions/set1/in/action,with,commas").cleaned_name(), "action_with_commas");
    assert_eq!(ap("/actions/set1/in/mixed, action").cleaned_name(), "mixed__action");
    assert_eq!(ap("/actions/set1/in/(action)(with)(parenthesis)").cleaned_name(), "_action__with__parenthesis_");
    assert_eq!(ap("/actions/set1/in/[action][with][brackets]").cleaned_name(), "_action__with__brackets_");
    assert_eq!(
        ap("/actions/set1/in/this right here is an action that is exactly 64 characters long!").cleaned_name(),
        "this_right_here_is_an_action_that_is_exactly_64_characters_long_"
    );
    assert_eq!(
        ap("/actions/set1/in/ThisActionHasAReallyLongNameThatIsMostCertainlyLongerThanTheOpenXRLimit,However,ItWillBeGivenASimpleLocalizedName").cleaned_name(),
        "thisactionhasareallylongnamethatismostcertainlylongerthantheopenxrlimit_however_itwillbegivenasimplelocalizedname"
    );
}
