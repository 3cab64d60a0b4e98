//! Interaction profiles: which inputs each supported controller has, how
//! OpenVR inputs missing on a controller are redirected, the device
//! properties reported for it, and the legacy and skeletal bindings.
use vstd::prelude::*;
use crate::openxr_data::Hand;
use crate::input::legacy::{ButtonId, button_mask, button_mask_from_id};
use crate::input::paths::{DynComponent, DynInputPath, DynSubpath};

verus! {

/// A value that is either shared by both hands or given per hand.
#[derive(Copy, Clone, Debug, PartialEq, Eq, Structural)]
pub enum Property<T> {
    BothHands(T),
    PerHand { left: T, right: T },
}

/// The value of a property for one hand.
pub open spec fn property_for<T>(p: Property<T>, hand: Hand) -> T {
    match p {
        Property::BothHands(v) => v,
        Property::PerHand { left, right } => match hand {
            Hand::Left => left,
            Hand::Right => right,
        },
    }
}

impl<T> Property<T> {
    /// The value of the property for `hand`.
    pub fn get(&self, hand: Hand) -> (r: &T)
        ensures
            *r == property_for(*self, hand),
    {
        match self {
            Property::BothHands(property) => property,
            Property::PerHand { left, right } => match hand {
                Hand::Left => left,
                Hand::Right => right,
            },
        }
    }
}

/// Whether the main two-axis input of a controller is a stick or a pad.
#[derive(Copy, Clone, Debug, PartialEq, Eq, Structural)]
pub enum MainAxisType {
    Thumbstick,
    Trackpad,
}

/// The OpenVR device properties reported for the controllers of a profile.
#[derive(Copy, Clone, Debug)]
pub struct ProfileProperties {
    /// `Prop_ModelNumber_String`
    pub model: Property<&'static str>,
    /// `Prop_ControllerType_String`
    pub openvr_controller_type: &'static str,
    /// `Prop_RenderModelName_String`
    pub render_model_name: Property<&'static str>,
    pub main_axis: MainAxisType,
    /// `Prop_RegisteredDeviceType_String`
    pub registered_device_type: Property<&'static str>,
    /// `Prop_SerialNumber_String`
    pub serial_number: Property<&'static str>,
    /// `Prop_TrackingSystemName_String`
    pub tracking_system_name: &'static str,
    /// `Prop_ManufacturerName_String`
    pub manufacturer_name: &'static str,
    /// `Prop_SupportedButtons_Uint64`
    pub legacy_buttons_mask: u64,
}

/// The supported interaction profiles.
#[derive(Copy, Clone, Debug, PartialEq, Eq, Structural)]
pub enum Profile {
    ViveWands,
    Knuckles,
    OculusTouch,
    ViveFocus3,
    SimpleController,
    ViveTracker,
}

/// The actions of the legacy controller interface.
#[derive(Copy, Clone, Debug, PartialEq, Eq, Structural)]
pub enum LegacyAction {
    AppMenu,
    A,
    TriggerClick,
    SqueezeClick,
    Trigger,
    Squeeze,
    MainXy,
    MainXyTouch,
    MainXyClick,
}

/// The actions that drive the estimated hand skeleton.
#[derive(Copy, Clone, Debug, PartialEq, Eq, Structural)]
pub enum SkeletalAction {
    ThumbTouch,
    IndexTouch,
    IndexCurl,
    RestCurl,
}

/// The controller types an action manifest can name default bindings for.
#[derive(Debug)]
pub enum ControllerType {
    ViveController,
    OculusTouch,
    Knuckles,
    ViveFocus3,
    Unknown(String),
}

/// The profiles whose actions are loaded for bindings of a controller type
/// (the Vive controller bindings serve the simple controller as well).
pub open spec fn profiles_for_controller(ty: ControllerType) -> Seq<Profile> {
    match ty {
        ControllerType::ViveController => seq![Profile::ViveWands, Profile::SimpleController],
        ControllerType::OculusTouch => seq![Profile::OculusTouch],
        ControllerType::Knuckles => seq![Profile::Knuckles],
        ControllerType::ViveFocus3 => seq![Profile::ViveFocus3],
        ControllerType::Unknown(_) => Seq::<Profile>::empty(),
    }
}

impl ControllerType {
    /// The profiles to run for bindings of this controller type, in order.
    pub fn run_for_profile(&self) -> (r: Vec<Profile>)
        ensures
            r@ == profiles_for_controller(*self),
    {
        let v = match self {
            ControllerType::ViveController => vec![Profile::ViveWands, Profile::SimpleController],
            ControllerType::OculusTouch => vec![Profile::OculusTouch],
            ControllerType::Knuckles => vec![Profile::Knuckles],
            ControllerType::ViveFocus3 => vec![Profile::ViveFocus3],
            ControllerType::Unknown(_) => Vec::new(),
        };
        proof {
            assert(v@ =~= profiles_for_controller(*self));
        }
        v
    }
}

/// Every profile that takes part in binding suggestion, in the order they
/// are run (the tracker profile takes no part).
pub open spec fn all_profiles() -> Seq<Profile> {
    seq![
        Profile::ViveWands,
        Profile::Knuckles,
        Profile::OculusTouch,
        Profile::ViveFocus3,
        Profile::SimpleController,
    ]
}

/// Every profile that takes part in binding suggestion, in the order they
/// are run.
pub fn all_profiles_in_order() -> (r: Vec<Profile>)
    ensures
        r@ == all_profiles(),
{
    let v = vec![
        Profile::ViveWands,
        Profile::Knuckles,
        Profile::OculusTouch,
        Profile::ViveFocus3,
        Profile::SimpleController,
    ];
    proof {
        assert(v@ =~= all_profiles());
    }
    v
}

/// The step of running every profile: after `ran` profiles have run, with
/// the runner asked after the last of them whether to go on (`keep_running`,
/// not consulted before the first), the profile to run next, if any.
pub open spec fn spec_next_profile(ran: nat, keep_running: bool) -> Option<Profile> {
    if ran == 0 {
        Some(all_profiles()[0])
    } else if !keep_running || ran >= all_profiles().len() {
        None
    } else {
        Some(all_profiles()[ran as int])
    }
}

/// Running every profile, one step at a time: the profile to run after
/// `ran` profiles have run and the runner answered `keep_running` after the
/// last of them. The run stops at the first `false` answer.
pub fn next_profile_to_run(ran: usize, keep_running: bool) -> (r: Option<Profile>)
    ensures
        r == spec_next_profile(ran as nat, keep_running),
{
    let all = all_profiles_in_order();
    if ran == 0 {
        Some(all[0])
    } else if !keep_running || ran >= all.len() {
        None
    } else {
        Some(all[ran])
    }
}

/// The runner's answer after the `j`-th profile run, which the step before
/// profile `j` consults (none before the first).
pub open spec fn answer_before(answers: Seq<bool>, j: nat) -> bool {
    j == 0 || answers[j - 1]
}

/// Running every profile runs them in order and stops right after the first
/// profile after which the runner declines to go on: when the runner's
/// answers after the profiles run so far are `answers`, with the first
/// `false` at index `k` (or none, `k` being then the last index), exactly
/// the first `k + 1` profiles run. The tracker profile never runs.
pub proof fn lemma_profile_run_stops_at_first_refusal(answers: Seq<bool>, k: nat)
    requires
        answers.len() == all_profiles().len(),
        k < answers.len(),
        forall|i: int| 0 <= i < k ==> answers[i],
        !answers[k as int] || k + 1 == answers.len(),
    ensures
        forall|j: nat|
            j <= k ==> #[trigger] spec_next_profile(j, answer_before(answers, j)) == Some(
                all_profiles()[j as int],
            ),
        spec_next_profile(k + 1, answers[k as int]) is None,
        !all_profiles().contains(Profile::ViveTracker),
{
    assert forall|j: nat| j <= k implies #[trigger] spec_next_profile(j, answer_before(answers, j))
        == Some(all_profiles()[j as int]) by {
        if j > 0 {
            assert(answers[j - 1]);
        }
    }
    if all_profiles().contains(Profile::ViveTracker) {
        let i = choose|i: int| 0 <= i < all_profiles().len() && all_profiles()[i] == Profile::ViveTracker;
        assert(false);
    }
}

/// Work done once for each of a set of interaction profiles. A runner is
/// seen through the profiles it has run so far and the answer it gives,
/// in its present state, to whether to go on.
pub trait RunWithProfile {
    /// The profiles this runner has run, in order.
    spec fn runs(&self) -> Seq<Profile>;

    /// Whether this runner, as it is, wants the next profile run.
    spec fn wants_more(&self) -> bool;

    /// Does the work for one profile.
    fn run(&mut self, profile: Profile)
        ensures
            final(self).runs() == old(self).runs().push(profile),
    ;

    /// Whether to go on with the next profile.
    fn keep_running(&self) -> (r: bool)
        ensures
            r == self.wants_more(),
    ;
}

/// The work that a runner does for each profile, as its users write it.
pub trait ProfileWork {
    /// Does the work for one profile.
    fn run(&mut self, profile: Profile);

    /// Whether to go on with the next profile.
    fn keep_running(&self) -> bool {
        true
    }
}

/// A runner made of a piece of work: it keeps the profiles the work was
/// run for and the answer the work gave after the last of them.
pub struct ProfileRunner<W: ProfileWork> {
    pub work: W,
    pub ran: Vec<Profile>,
    pub answer: bool,
}

impl<W: ProfileWork> ProfileRunner<W> {
    /// A runner for `work` that has run nothing yet.
    pub fn new(work: W) -> (r: Self)
        ensures
            r.work == work,
            r.ran@ == Seq::<Profile>::empty(),
            r.answer,
    {
        ProfileRunner { work, ran: Vec::new(), answer: true }
    }
}

impl<W: ProfileWork> RunWithProfile for ProfileRunner<W> {
    open spec fn runs(&self) -> Seq<Profile> {
        self.ran@
    }

    open spec fn wants_more(&self) -> bool {
        self.answer
    }

    fn run(&mut self, profile: Profile) {
        self.work.run(profile);
        self.answer = self.work.keep_running();
        self.ran.push(profile);
    }

    fn keep_running(&self) -> (r: bool) {
        self.answer
    }
}

/// A record of a profile run: `states[0]` is the runner before the first
/// run and `states[i + 1]` the runner after run `i`, which added `ran[i]`
/// to its runs and then answered `answers[i]`.
pub open spec fn run_trace<R: RunWithProfile>(states: Seq<R>, ran: Seq<Profile>, answers: Seq<bool>) -> bool {
    &&& states.len() == ran.len() + 1
    &&& answers.len() == ran.len()
    &&& forall|i: int|
        #![trigger ran[i]]
        0 <= i < ran.len() ==> states[i + 1].runs() == states[i].runs().push(ran[i]) && answers[i]
            == states[i + 1].wants_more()
}

/// Runs `runner` for every profile that takes part in binding suggestion,
/// in order, asking it after each run whether to go on, and stops right
/// after the first run it answers `false` to; the tracker profile never
/// runs. Gives the profiles run and the runner's answers, in order.
pub fn run_for_all_profiles<R: RunWithProfile>(runner: &mut R) -> (r: (Vec<Profile>, Vec<bool>))
    ensures
        1 <= r.0@.len() <= all_profiles().len(),
        r.0@ == all_profiles().take(r.0@.len() as int),
        exists|states: Seq<R>|
            #![trigger run_trace(states, r.0@, r.1@)]
            run_trace(states, r.0@, r.1@) && states[0] == *old(runner) && states.last()
                == *final(runner),
        forall|i: int| 0 <= i < r.1@.len() - 1 ==> #[trigger] r.1@[i],
        !r.1@.last() || r.0@.len() == all_profiles().len(),
        final(runner).runs() == old(runner).runs() + r.0@,
        !r.0@.contains(Profile::ViveTracker),
{
    let ghost start = *runner;
    let ghost mut states: Seq<R> = seq![*runner];
    let mut ran: Vec<Profile> = Vec::new();
    let mut answers: Vec<bool> = Vec::new();
    let mut keep = true;
    assert(ran@ =~= all_profiles().take(0));
    assert(start.runs() + ran@ =~= start.runs());
    loop
        invariant
            ran@.len() <= all_profiles().len(),
            answers@.len() == ran@.len(),
            ran@ == all_profiles().take(ran@.len() as int),
            forall|i: int| 0 <= i < answers@.len() - 1 ==> #[trigger] answers@[i],
            keep == (ran@.len() == 0 || answers@.last()),
            run_trace(states, ran@, answers@),
            states[0] == start,
            states.last() == *runner,
            runner.runs() == start.runs() + ran@,
        ensures
            1 <= ran@.len() <= all_profiles().len(),
            answers@.len() == ran@.len(),
            ran@ == all_profiles().take(ran@.len() as int),
            forall|i: int| 0 <= i < answers@.len() - 1 ==> #[trigger] answers@[i],
            !answers@.last() || ran@.len() == all_profiles().len(),
            run_trace(states, ran@, answers@),
            states[0] == start,
            states.last() == *runner,
            runner.runs() == start.runs() + ran@,
        decreases all_profiles().len() - ran@.len(),
    {
        match next_profile_to_run(ran.len(), keep) {
            None => {
                break;
            },
            Some(p) => {
                let ghost prev = *runner;
                runner.run(p);
                let k = runner.keep_running();
                let ghost before = answers@;
                let ghost ran0 = ran@;
                assert(all_profiles().take(ran@.len() + 1int) =~= ran@.push(p));
                ran.push(p);
                answers.push(k);
                keep = k;
                proof {
                    let s0 = states;
                    states = states.push(*runner);
                    assert forall|i: int|
                        #![trigger ran@[i]]
                        0 <= i < ran@.len() implies states[i + 1].runs() == states[i].runs().push(
                            ran@[i],
                        ) && answers@[i] == states[i + 1].wants_more() by {
                        if i < ran0.len() {
                            assert(ran@[i] == ran0[i]);
                            assert(answers@[i] == before[i]);
                            assert(states[i + 1] == s0[i + 1]);
                            assert(states[i] == s0[i]);
                        } else {
                            assert(states[i] == prev);
                        }
                    }
                    assert(start.runs() + ran@ =~= (start.runs() + ran0).push(p));
                }
                assert forall|i: int| 0 <= i < answers@.len() - 1 implies #[trigger] answers@[i] by {
                    assert(answers@[i] == before[i]);
                }
            },
        }
    }
    proof {
        if ran@.contains(Profile::ViveTracker) {
            let i = choose|i: int| 0 <= i < ran@.len() && ran@[i] == Profile::ViveTracker;
            assert(ran@[i] == all_profiles()[i]);
        }
    }
    let r = (ran, answers);
    assert(run_trace(states, r.0@, r.1@));
    r
}

/// Where a profile lacks an input that OpenVR bindings name, the input of
/// that profile that stands in for it.
pub open spec fn spec_translate_path(profile: Profile, path: DynInputPath) -> Option<DynInputPath> {
    match profile {
        Profile::Knuckles => if path.subpath == DynSubpath::Trackpad && path.component == Some(
            DynComponent::Click,
        ) {
            Some(DynInputPath { component: Some(DynComponent::Force), ..path })
        } else if path.subpath == DynSubpath::Squeeze && path.component == Some(
            DynComponent::Touch,
        ) {
            Some(DynInputPath { component: Some(DynComponent::Value), ..path })
        } else {
            None
        },
        Profile::SimpleController => if path.subpath == DynSubpath::Trigger && path.component
            == Some(DynComponent::Click) {
            Some(DynInputPath { subpath: DynSubpath::Select, ..path })
        } else {
            None
        },
        Profile::ViveWands => if path.subpath == DynSubpath::Trigger && path.component == Some(
            DynComponent::Click,
        ) {
            Some(DynInputPath { component: Some(DynComponent::Value), ..path })
        } else if path.subpath == DynSubpath::Squeeze && path.component == Some(
            DynComponent::Value,
        ) {
            Some(DynInputPath { component: Some(DynComponent::Click), ..path })
        } else {
            None
        },
        Profile::ViveFocus3 => if (path.subpath == DynSubpath::A || path.subpath == DynSubpath::B
            || path.subpath == DynSubpath::X || path.subpath == DynSubpath::Y) && path.component
            == Some(DynComponent::Touch) {
            Some(DynInputPath { component: Some(DynComponent::Click), ..path })
        } else {
            None
        },
        Profile::OculusTouch | Profile::ViveTracker => None,
    }
}

impl Profile {
    /// Where this profile lacks an input that OpenVR bindings name, the
    /// input that stands in for it.
    pub fn translate_path(self, path: DynInputPath) -> (r: Option<DynInputPath>)
        ensures
            r == spec_translate_path(self, path),
    {
        match self {
            Profile::Knuckles => {
                if path.subpath == DynSubpath::Trackpad && path.component == Some(
                    DynComponent::Click,
                ) {
                    Some(path.with_component(DynComponent::Force))
                } else if path.subpath == DynSubpath::Squeeze && path.component == Some(
                    DynComponent::Touch,
                ) {
                    Some(path.with_component(DynComponent::Value))
                } else {
                    None
                }
            },
            Profile::SimpleController => {
                if path.subpath == DynSubpath::Trigger && path.component == Some(
                    DynComponent::Click,
                ) {
                    Some(DynInputPath { subpath: DynSubpath::Select, ..path })
                } else {
                    None
                }
            },
            Profile::ViveWands => {
                if path.subpath == DynSubpath::Trigger && path.component == Some(
                    DynComponent::Click,
                ) {
                    Some(DynInputPath { component: Some(DynComponent::Value), ..path })
                } else if path.subpath == DynSubpath::Squeeze && path.component == Some(
                    DynComponent::Value,
                ) {
                    Some(DynInputPath { component: Some(DynComponent::Click), ..path })
                } else {
                    None
                }
            },
            Profile::ViveFocus3 => {
                if (path.subpath == DynSubpath::A || path.subpath == DynSubpath::B || path.subpath
                    == DynSubpath::X || path.subpath == DynSubpath::Y) && path.component == Some(
                    DynComponent::Touch,
                ) {
                    Some(path.with_component(DynComponent::Click))
                } else {
                    None
                }
            },
            Profile::OculusTouch | Profile::ViveTracker => None,
        }
    }

    /// Whether the runtime offers what the profile needs: the Vive Focus 3
    /// profile needs its OpenXR extension, the others nothing.
    pub fn has_required_extensions(self, focus3_extension_enabled: bool) -> (r: bool)
        ensures
            r == (self != Profile::ViveFocus3 || focus3_extension_enabled),
    {
        match self {
            Profile::ViveFocus3 => focus3_extension_enabled,
            _ => true,
        }
    }

    /// Whether the skeleton thumb curl is always estimated from the skeletal
    /// input actions (the Index controller reports a binary curl otherwise).
    pub fn force_estimated_thumb(self) -> (r: bool)
        ensures
            r == (self == Profile::Knuckles),
    {
        match self {
            Profile::Knuckles => true,
            _ => false,
        }
    }
}

/// Whether `path` exists on the controllers of `profile`.
pub open spec fn profile_path_is_legal(profile: Profile, path: DynInputPath) -> bool {
    let left = path.hand == Hand::Left;
    let right = path.hand == Hand::Right;
    match profile {
        Profile::ViveWands => {
            ||| (path.subpath == DynSubpath::Squeeze && path.component == Some(DynComponent::Click))
            ||| (path.subpath == DynSubpath::Menu && path.component == Some(DynComponent::Click))
            ||| (path.subpath == DynSubpath::Trigger && path.component == Some(DynComponent::Click))
            ||| (path.subpath == DynSubpath::Trigger && path.component == Some(DynComponent::Value))
            ||| (path.subpath == DynSubpath::Trackpad && path.component == Some(DynComponent::Click))
            ||| (path.subpath == DynSubpath::Trackpad && path.component == Some(DynComponent::Touch))
            ||| (path.subpath == DynSubpath::Trackpad && path.component.is_none())
            ||| (path.subpath == DynSubpath::Trackpad && path.component == Some(DynComponent::Vec2X))
            ||| (path.subpath == DynSubpath::Trackpad && path.component == Some(DynComponent::Vec2Y))
        },
        Profile::Knuckles => {
            ||| (path.subpath == DynSubpath::A && path.component == Some(DynComponent::Click))
            ||| (path.subpath == DynSubpath::A && path.component == Some(DynComponent::Touch))
            ||| (path.subpath == DynSubpath::B && path.component == Some(DynComponent::Click))
            ||| (path.subpath == DynSubpath::B && path.component == Some(DynComponent::Touch))
            ||| (path.subpath == DynSubpath::Trigger && path.component == Some(DynComponent::Click))
            ||| (path.subpath == DynSubpath::Trigger && path.component == Some(DynComponent::Touch))
            ||| (path.subpath == DynSubpath::Trigger && path.component == Some(DynComponent::Value))
            ||| (path.subpath == DynSubpath::Squeeze && path.component == Some(DynComponent::Value))
            ||| (path.subpath == DynSubpath::Squeeze && path.component == Some(DynComponent::Force))
            ||| (path.subpath == DynSubpath::Thumbstick && path.component == Some(DynComponent::Click))
            ||| (path.subpath == DynSubpath::Thumbstick && path.component == Some(DynComponent::Touch))
            ||| (path.subpath == DynSubpath::Thumbstick && path.component.is_none())
            ||| (path.subpath == DynSubpath::Trackpad && path.component == Some(DynComponent::Force))
            ||| (path.subpath == DynSubpath::Trackpad && path.component == Some(DynComponent::Touch))
            ||| (path.subpath == DynSubpath::Trackpad && path.component.is_none())
        },
        Profile::OculusTouch => {
            ||| (path.subpath == DynSubpath::Squeeze && path.component == Some(DynComponent::Value))
            ||| (path.subpath == DynSubpath::Trigger && path.component == Some(DynComponent::Value))
            ||| (path.subpath == DynSubpath::Trigger && path.component == Some(DynComponent::Touch))
            ||| (path.subpath == DynSubpath::Thumbstick && path.component.is_none())
            ||| (path.subpath == DynSubpath::Thumbstick && path.component == Some(DynComponent::Click))
            ||| (path.subpath == DynSubpath::Thumbstick && path.component == Some(DynComponent::Touch))
            ||| (path.subpath == DynSubpath::Thumbrest && path.component == Some(DynComponent::Touch))
            ||| (left && path.subpath == DynSubpath::X && path.component == Some(DynComponent::Click))
            ||| (left && path.subpath == DynSubpath::X && path.component == Some(DynComponent::Touch))
            ||| (left && path.subpath == DynSubpath::Y && path.component == Some(DynComponent::Click))
            ||| (left && path.subpath == DynSubpath::Y && path.component == Some(DynComponent::Touch))
            ||| (left && path.subpath == DynSubpath::Menu && path.component == Some(DynComponent::Click))
            ||| (right && path.subpath == DynSubpath::A && path.component == Some(DynComponent::Click))
            ||| (right && path.subpath == DynSubpath::A && path.component == Some(DynComponent::Touch))
            ||| (right && path.subpath == DynSubpath::B && path.component == Some(DynComponent::Click))
            ||| (right && path.subpath == DynSubpath::B && path.component == Some(DynComponent::Touch))
        },
        Profile::ViveFocus3 => {
            ||| (path.subpath == DynSubpath::Squeeze && path.component == Some(DynComponent::Value))
            ||| (path.subpath == DynSubpath::Squeeze && path.component == Some(DynComponent::Click))
            ||| (path.subpath == DynSubpath::Squeeze && path.component == Some(DynComponent::Touch))
            ||| (path.subpath == DynSubpath::Trigger && path.component == Some(DynComponent::Value))
            ||| (path.subpath == DynSubpath::Trigger && path.component == Some(DynComponent::Click))
            ||| (path.subpath == DynSubpath::Trigger && path.component == Some(DynComponent::Touch))
            ||| (path.subpath == DynSubpath::Thumbstick && path.component.is_none())
            ||| (path.subpath == DynSubpath::Thumbstick && path.component == Some(DynComponent::Click))
            ||| (path.subpath == DynSubpath::Thumbstick && path.component == Some(DynComponent::Touch))
            ||| (path.subpath == DynSubpath::Thumbrest && path.component == Some(DynComponent::Touch))
            ||| (left && path.subpath == DynSubpath::X && path.component == Some(DynComponent::Click))
            ||| (left && path.subpath == DynSubpath::Y && path.component == Some(DynComponent::Click))
            ||| (left && path.subpath == DynSubpath::Menu && path.component == Some(DynComponent::Click))
            ||| (right && path.subpath == DynSubpath::A && path.component == Some(DynComponent::Click))
            ||| (right && path.subpath == DynSubpath::B && path.component == Some(DynComponent::Click))
        },
        Profile::SimpleController => {
            ||| (path.subpath == DynSubpath::Select && path.component == Some(DynComponent::Click))
            ||| (path.subpath == DynSubpath::Menu && path.component == Some(DynComponent::Click))
        },
        Profile::ViveTracker => false,
    }
}

/// The inputs that feed a legacy action on the controllers of a profile.
pub open spec fn legacy_binding_paths(profile: Profile, action: LegacyAction) -> Seq<DynInputPath> {
    match (profile, action) {
        (Profile::ViveWands, LegacyAction::AppMenu) => seq![
                DynInputPath { hand: Hand::Left, subpath: DynSubpath::Menu, component: Some(DynComponent::Click) },
                DynInputPath { hand: Hand::Right, subpath: DynSubpath::Menu, component: Some(DynComponent::Click) },
            ],
        (Profile::ViveWands, LegacyAction::A) => Seq::<DynInputPath>::empty(),
        (Profile::ViveWands, LegacyAction::TriggerClick) => seq![
                DynInputPath { hand: Hand::Left, subpath: DynSubpath::Trigger, component: Some(DynComponent::Click) },
                DynInputPath { hand: Hand::Right, subpath: DynSubpath::Trigger, component: Some(DynComponent::Click) },
            ],
        (Profile::ViveWands, LegacyAction::SqueezeClick) => seq![
                DynInputPath { hand: Hand::Left, subpath: DynSubpath::Squeeze, component: Some(DynComponent::Click) },
                DynInputPath { hand: Hand::Right, subpath: DynSubpath::Squeeze, component: Some(DynComponent::Click) },
            ],
        (Profile::ViveWands, LegacyAction::Trigger) => seq![
                DynInputPath { hand: Hand::Left, subpath: DynSubpath::Trigger, component: Some(DynComponent::Value) },
                DynInputPath { hand: Hand::Right, subpath: DynSubpath::Trigger, component: Some(DynComponent::Value) },
            ],
        (Profile::ViveWands, LegacyAction::Squeeze) => seq![
                DynInputPath { hand: Hand::Left, subpath: DynSubpath::Squeeze, component: Some(DynComponent::Click) },
                DynInputPath { hand: Hand::Right, subpath: DynSubpath::Squeeze, component: Some(DynComponent::Click) },
            ],
        (Profile::ViveWands, LegacyAction::MainXy) => seq![
                DynInputPath { hand: Hand::Left, subpath: DynSubpath::Trackpad, component: None },
                DynInputPath { hand: Hand::Right, subpath: DynSubpath::Trackpad, component: None },
            ],
        (Profile::ViveWands, LegacyAction::MainXyTouch) => seq![
                DynInputPath { hand: Hand::Left, subpath: DynSubpath::Trackpad, component: Some(DynComponent::Touch) },
                DynInputPath { hand: Hand::Right, subpath: DynSubpath::Trackpad, component: Some(DynComponent::Touch) },
            ],
        (Profile::ViveWands, LegacyAction::MainXyClick) => seq![
                DynInputPath { hand: Hand::Left, subpath: DynSubpath::Trackpad, component: Some(DynComponent::Click) },
                DynInputPath { hand: Hand::Right, subpath: DynSubpath::Trackpad, component: Some(DynComponent::Click) },
            ],
        (Profile::Knuckles, LegacyAction::AppMenu) => seq![
                DynInputPath { hand: Hand::Left, subpath: DynSubpath::B, component: Some(DynComponent::Click) },
                DynInputPath { hand: Hand::Right, subpath: DynSubpath::B, component: Some(DynComponent::Click) },
            ],
        (Profile::Knuckles, LegacyAction::A) => seq![
                DynInputPath { hand: Hand::Left, subpath: DynSubpath::A, component: Some(DynComponent::Click) },
                DynInputPath { hand: Hand::Right, subpath: DynSubpath::A, component: Some(DynComponent::Click) },
            ],
        (Profile::Knuckles, LegacyAction::TriggerClick) => seq![
                DynInputPath { hand: Hand::Left, subpath: DynSubpath::Trigger, component: Some(DynComponent::Click) },
                DynInputPath { hand: Hand::Right, subpath: DynSubpath::Trigger, component: Some(DynComponent::Click) },
            ],
        (Profile::Knuckles, LegacyAction::SqueezeClick) => seq![
                DynInputPath { hand: Hand::Left, subpath: DynSubpath::Squeeze, component: Some(DynComponent::Value) },
                DynInputPath { hand: Hand::Right, subpath: DynSubpath::Squeeze, component: Some(DynComponent::Value) },
            ],
        (Profile::Knuckles, LegacyAction::Trigger) => seq![
                DynInputPath { hand: Hand::Left, subpath: DynSubpath::Trigger, component: Some(DynComponent::Value) },
                DynInputPath { hand: Hand::Right, subpath: DynSubpath::Trigger, component: Some(DynComponent::Value) },
            ],
        (Profile::Knuckles, LegacyAction::Squeeze) => seq![
                DynInputPath { hand: Hand::Left, subpath: DynSubpath::Squeeze, component: Some(DynComponent::Value) },
                DynInputPath { hand: Hand::Right, subpath: DynSubpath::Squeeze, component: Some(DynComponent::Value) },
            ],
        (Profile::Knuckles, LegacyAction::MainXy) => seq![
                DynInputPath { hand: Hand::Left, subpath: DynSubpath::Thumbstick, component: None },
                DynInputPath { hand: Hand::Right, subpath: DynSubpath::Thumbstick, component: None },
            ],
        (Profile::Knuckles, LegacyAction::MainXyTouch) => seq![
                DynInputPath { hand: Hand::Left, subpath: DynSubpath::Thumbstick, component: Some(DynComponent::Touch) },
                DynInputPath { hand: Hand::Right, subpath: DynSubpath::Thumbstick, component: Some(DynComponent::Touch) },
            ],
        (Profile::Knuckles, LegacyAction::MainXyClick) => seq![
                DynInputPath { hand: Hand::Left, subpath: DynSubpath::Thumbstick, component: Some(DynComponent::Click) },
                DynInputPath { hand: Hand::Right, subpath: DynSubpath::Thumbstick, component: Some(DynComponent::Click) },
            ],
        (Profile::OculusTouch, LegacyAction::AppMenu) => seq![
                DynInputPath { hand: Hand::Left, subpath: DynSubpath::Y, component: Some(DynComponent::Click) },
                DynInputPath { hand: Hand::Right, subpath: DynSubpath::B, component: Some(DynComponent::Click) },
            ],
        (Profile::OculusTouch, LegacyAction::A) => seq![
                DynInputPath { hand: Hand::Left, subpath: DynSubpath::X, component: Some(DynComponent::Click) },
                DynInputPath { hand: Hand::Right, subpath: DynSubpath::A, component: Some(DynComponent::Click) },
            ],
        (Profile::OculusTouch, LegacyAction::TriggerClick) => seq![
                DynInputPath { hand: Hand::Left, subpath: DynSubpath::Trigger, component: Some(DynComponent::Value) },
                DynInputPath { hand: Hand::Right, subpath: DynSubpath::Trigger, component: Some(DynComponent::Value) },
            ],
        (Profile::OculusTouch, LegacyAction::SqueezeClick) => seq![
                DynInputPath { hand: Hand::Left, subpath: DynSubpath::Squeeze, component: Some(DynComponent::Value) },
                DynInputPath { hand: Hand::Right, subpath: DynSubpath::Squeeze, component: Some(DynComponent::Value) },
            ],
        (Profile::OculusTouch, LegacyAction::Trigger) => seq![
                DynInputPath { hand: Hand::Left, subpath: DynSubpath::Trigger, component: Some(DynComponent::Value) },
                DynInputPath { hand: Hand::Right, subpath: DynSubpath::Trigger, component: Some(DynComponent::Value) },
            ],
        (Profile::OculusTouch, LegacyAction::Squeeze) => seq![
                DynInputPath { hand: Hand::Left, subpath: DynSubpath::Squeeze, component: Some(DynComponent::Value) },
                DynInputPath { hand: Hand::Right, subpath: DynSubpath::Squeeze, component: Some(DynComponent::Value) },
            ],
        (Profile::OculusTouch, LegacyAction::MainXy) => seq![
                DynInputPath { hand: Hand::Left, subpath: DynSubpath::Thumbstick, component: None },
                DynInputPath { hand: Hand::Right, subpath: DynSubpath::Thumbstick, component: None },
            ],
        (Profile::OculusTouch, LegacyAction::MainXyTouch) => seq![
                DynInputPath { hand: Hand::Left, subpath: DynSubpath::Thumbstick, component: Some(DynComponent::Touch) },
                DynInputPath { hand: Hand::Right, subpath: DynSubpath::Thumbstick, component: Some(DynComponent::Touch) },
            ],
        (Profile::OculusTouch, LegacyAction::MainXyClick) => seq![
                DynInputPath { hand: Hand::Left, subpath: DynSubpath::Thumbstick, component: Some(DynComponent::Click) },
                DynInputPath { hand: Hand::Right, subpath: DynSubpath::Thumbstick, component: Some(DynComponent::Click) },
            ],
        (Profile::ViveFocus3, LegacyAction::AppMenu) => seq![
                DynInputPath { hand: Hand::Left, subpath: DynSubpath::Y, component: Some(DynComponent::Click) },
                DynInputPath { hand: Hand::Right, subpath: DynSubpath::B, component: Some(DynComponent::Click) },
            ],
        (Profile::ViveFocus3, LegacyAction::A) => seq![
                DynInputPath { hand: Hand::Left, subpath: DynSubpath::X, component: Some(DynComponent::Click) },
                DynInputPath { hand: Hand::Right, subpath: DynSubpath::A, component: Some(DynComponent::Click) },
            ],
        (Profile::ViveFocus3, LegacyAction::TriggerClick) => seq![
                DynInputPath { hand: Hand::Left, subpath: DynSubpath::Trigger, component: Some(DynComponent::Click) },
                DynInputPath { hand: Hand::Right, subpath: DynSubpath::Trigger, component: Some(DynComponent::Click) },
            ],
        (Profile::ViveFocus3, LegacyAction::SqueezeClick) => seq![
                DynInputPath { hand: Hand::Left, subpath: DynSubpath::Squeeze, component: Some(DynComponent::Click) },
                DynInputPath { hand: Hand::Right, subpath: DynSubpath::Squeeze, component: Some(DynComponent::Click) },
            ],
        (Profile::ViveFocus3, LegacyAction::Trigger) => seq![
                DynInputPath { hand: Hand::Left, subpath: DynSubpath::Trigger, component: Some(DynComponent::Value) },
                DynInputPath { hand: Hand::Right, subpath: DynSubpath::Trigger, component: Some(DynComponent::Value) },
            ],
        (Profile::ViveFocus3, LegacyAction::Squeeze) => seq![
                DynInputPath { hand: Hand::Left, subpath: DynSubpath::Squeeze, component: Some(DynComponent::Value) },
                DynInputPath { hand: Hand::Right, subpath: DynSubpath::Squeeze, component: Some(DynComponent::Value) },
            ],
        (Profile::ViveFocus3, LegacyAction::MainXy) => seq![
                DynInputPath { hand: Hand::Left, subpath: DynSubpath::Thumbstick, component: None },
                DynInputPath { hand: Hand::Right, subpath: DynSubpath::Thumbstick, component: None },
            ],
        (Profile::ViveFocus3, LegacyAction::MainXyTouch) => seq![
                DynInputPath { hand: Hand::Left, subpath: DynSubpath::Thumbstick, component: Some(DynComponent::Touch) },
                DynInputPath { hand: Hand::Right, subpath: DynSubpath::Thumbstick, component: Some(DynComponent::Touch) },
            ],
        (Profile::ViveFocus3, LegacyAction::MainXyClick) => seq![
                DynInputPath { hand: Hand::Left, subpath: DynSubpath::Thumbstick, component: Some(DynComponent::Click) },
                DynInputPath { hand: Hand::Right, subpath: DynSubpath::Thumbstick, component: Some(DynComponent::Click) },
            ],
        (Profile::SimpleController, LegacyAction::AppMenu) => seq![
                DynInputPath { hand: Hand::Left, subpath: DynSubpath::Menu, component: Some(DynComponent::Click) },
                DynInputPath { hand: Hand::Right, subpath: DynSubpath::Menu, component: Some(DynComponent::Click) },
            ],
        (Profile::SimpleController, LegacyAction::A) => Seq::<DynInputPath>::empty(),
        (Profile::SimpleController, LegacyAction::TriggerClick) => seq![
                DynInputPath { hand: Hand::Left, subpath: DynSubpath::Select, component: Some(DynComponent::Click) },
                DynInputPath { hand: Hand::Right, subpath: DynSubpath::Select, component: Some(DynComponent::Click) },
            ],
        (Profile::SimpleController, LegacyAction::SqueezeClick) => seq![
                DynInputPath { hand: Hand::Left, subpath: DynSubpath::Menu, component: Some(DynComponent::Click) },
                DynInputPath { hand: Hand::Right, subpath: DynSubpath::Menu, component: Some(DynComponent::Click) },
            ],
        (Profile::SimpleController, LegacyAction::Trigger) => seq![
                DynInputPath { hand: Hand::Left, subpath: DynSubpath::Select, component: Some(DynComponent::Click) },
                DynInputPath { hand: Hand::Right, subpath: DynSubpath::Select, component: Some(DynComponent::Click) },
            ],
        (Profile::SimpleController, LegacyAction::Squeeze) => seq![
                DynInputPath { hand: Hand::Left, subpath: DynSubpath::Menu, component: Some(DynComponent::Click) },
                DynInputPath { hand: Hand::Right, subpath: DynSubpath::Menu, component: Some(DynComponent::Click) },
            ],
        (Profile::SimpleController, LegacyAction::MainXy) => Seq::<DynInputPath>::empty(),
        (Profile::SimpleController, LegacyAction::MainXyTouch) => Seq::<DynInputPath>::empty(),
        (Profile::SimpleController, LegacyAction::MainXyClick) => Seq::<DynInputPath>::empty(),
        (Profile::ViveTracker, _) => Seq::<DynInputPath>::empty(),
    }
}

/// The inputs that feed a skeletal estimation action on the controllers of a profile.
pub open spec fn skeletal_binding_paths(profile: Profile, action: SkeletalAction) -> Seq<DynInputPath> {
    match (profile, action) {
        (Profile::ViveWands, SkeletalAction::ThumbTouch) => seq![
                DynInputPath { hand: Hand::Left, subpath: DynSubpath::Trackpad, component: Some(DynComponent::Click) },
                DynInputPath { hand: Hand::Right, subpath: DynSubpath::Trackpad, component: Some(DynComponent::Click) },
                DynInputPath { hand: Hand::Left, subpath: DynSubpath::Trackpad, component: Some(DynComponent::Touch) },
                DynInputPath { hand: Hand::Right, subpath: DynSubpath::Trackpad, component: Some(DynComponent::Touch) },
            ],
        (Profile::ViveWands, SkeletalAction::IndexTouch) => seq![
                DynInputPath { hand: Hand::Left, subpath: DynSubpath::Trigger, component: Some(DynComponent::Click) },
                DynInputPath { hand: Hand::Right, subpath: DynSubpath::Trigger, component: Some(DynComponent::Click) },
            ],
        (Profile::ViveWands, SkeletalAction::IndexCurl) => seq![
                DynInputPath { hand: Hand::Left, subpath: DynSubpath::Trigger, component: Some(DynComponent::Value) },
                DynInputPath { hand: Hand::Right, subpath: DynSubpath::Trigger, component: Some(DynComponent::Value) },
            ],
        (Profile::ViveWands, SkeletalAction::RestCurl) => seq![
                DynInputPath { hand: Hand::Left, subpath: DynSubpath::Squeeze, component: Some(DynComponent::Click) },
                DynInputPath { hand: Hand::Right, subpath: DynSubpath::Squeeze, component: Some(DynComponent::Click) },
            ],
        (Profile::Knuckles, SkeletalAction::ThumbTouch) => seq![
                DynInputPath { hand: Hand::Left, subpath: DynSubpath::Thumbstick, component: Some(DynComponent::Touch) },
                DynInputPath { hand: Hand::Right, subpath: DynSubpath::Thumbstick, component: Some(DynComponent::Touch) },
                DynInputPath { hand: Hand::Left, subpath: DynSubpath::Trackpad, component: Some(DynComponent::Touch) },
                DynInputPath { hand: Hand::Right, subpath: DynSubpath::Trackpad, component: Some(DynComponent::Touch) },
                DynInputPath { hand: Hand::Left, subpath: DynSubpath::A, component: Some(DynComponent::Touch) },
                DynInputPath { hand: Hand::Right, subpath: DynSubpath::A, component: Some(DynComponent::Touch) },
                DynInputPath { hand: Hand::Left, subpath: DynSubpath::B, component: Some(DynComponent::Touch) },
                DynInputPath { hand: Hand::Right, subpath: DynSubpath::B, component: Some(DynComponent::Touch) },
            ],
        (Profile::Knuckles, SkeletalAction::IndexTouch) => seq![
                DynInputPath { hand: Hand::Left, subpath: DynSubpath::Trigger, component: Some(DynComponent::Touch) },
                DynInputPath { hand: Hand::Right, subpath: DynSubpath::Trigger, component: Some(DynComponent::Touch) },
            ],
        (Profile::Knuckles, SkeletalAction::IndexCurl) => seq![
                DynInputPath { hand: Hand::Left, subpath: DynSubpath::Trigger, component: Some(DynComponent::Value) },
                DynInputPath { hand: Hand::Right, subpath: DynSubpath::Trigger, component: Some(DynComponent::Value) },
            ],
        (Profile::Knuckles, SkeletalAction::RestCurl) => seq![
                DynInputPath { hand: Hand::Left, subpath: DynSubpath::Squeeze, component: Some(DynComponent::Value) },
                DynInputPath { hand: Hand::Right, subpath: DynSubpath::Squeeze, component: Some(DynComponent::Value) },
            ],
        (Profile::OculusTouch, SkeletalAction::ThumbTouch) => seq![
                DynInputPath { hand: Hand::Left, subpath: DynSubpath::Thumbstick, component: Some(DynComponent::Touch) },
                DynInputPath { hand: Hand::Right, subpath: DynSubpath::Thumbstick, component: Some(DynComponent::Touch) },
                DynInputPath { hand: Hand::Left, subpath: DynSubpath::X, component: Some(DynComponent::Touch) },
                DynInputPath { hand: Hand::Left, subpath: DynSubpath::Y, component: Some(DynComponent::Touch) },
                DynInputPath { hand: Hand::Right, subpath: DynSubpath::A, component: Some(DynComponent::Touch) },
                DynInputPath { hand: Hand::Right, subpath: DynSubpath::B, component: Some(DynComponent::Touch) },
                DynInputPath { hand: Hand::Left, subpath: DynSubpath::Thumbrest, component: Some(DynComponent::Touch) },
                DynInputPath { hand: Hand::Right, subpath: DynSubpath::Thumbrest, component: Some(DynComponent::Touch) },
            ],
        (Profile::OculusTouch, SkeletalAction::IndexTouch) => seq![
                DynInputPath { hand: Hand::Left, subpath: DynSubpath::Trigger, component: Some(DynComponent::Touch) },
                DynInputPath { hand: Hand::Right, subpath: DynSubpath::Trigger, component: Some(DynComponent::Touch) },
            ],
        (Profile::OculusTouch, SkeletalAction::IndexCurl) => seq![
                DynInputPath { hand: Hand::Left, subpath: DynSubpath::Trigger, component: Some(DynComponent::Value) },
                DynInputPath { hand: Hand::Right, subpath: DynSubpath::Trigger, component: Some(DynComponent::Value) },
            ],
        (Profile::OculusTouch, SkeletalAction::RestCurl) => seq![
                DynInputPath { hand: Hand::Left, subpath: DynSubpath::Squeeze, component: Some(DynComponent::Value) },
                DynInputPath { hand: Hand::Right, subpath: DynSubpath::Squeeze, component: Some(DynComponent::Value) },
            ],
        (Profile::ViveFocus3, SkeletalAction::ThumbTouch) => seq![
                DynInputPath { hand: Hand::Left, subpath: DynSubpath::Thumbstick, component: Some(DynComponent::Touch) },
                DynInputPath { hand: Hand::Right, subpath: DynSubpath::Thumbstick, component: Some(DynComponent::Touch) },
                DynInputPath { hand: Hand::Left, subpath: DynSubpath::X, component: Some(DynComponent::Click) },
                DynInputPath { hand: Hand::Left, subpath: DynSubpath::Y, component: Some(DynComponent::Click) },
                DynInputPath { hand: Hand::Right, subpath: DynSubpath::A, component: Some(DynComponent::Click) },
                DynInputPath { hand: Hand::Right, subpath: DynSubpath::B, component: Some(DynComponent::Click) },
                DynInputPath { hand: Hand::Left, subpath: DynSubpath::Thumbrest, component: Some(DynComponent::Touch) },
                DynInputPath { hand: Hand::Right, subpath: DynSubpath::Thumbrest, component: Some(DynComponent::Touch) },
            ],
        (Profile::ViveFocus3, SkeletalAction::IndexTouch) => seq![
                DynInputPath { hand: Hand::Left, subpath: DynSubpath::Trigger, component: Some(DynComponent::Touch) },
                DynInputPath { hand: Hand::Right, subpath: DynSubpath::Trigger, component: Some(DynComponent::Touch) },
            ],
        (Profile::ViveFocus3, SkeletalAction::IndexCurl) => seq![
                DynInputPath { hand: Hand::Left, subpath: DynSubpath::Trigger, component: Some(DynComponent::Value) },
                DynInputPath { hand: Hand::Right, subpath: DynSubpath::Trigger, component: Some(DynComponent::Value) },
            ],
        (Profile::ViveFocus3, SkeletalAction::RestCurl) => seq![
                DynInputPath { hand: Hand::Left, subpath: DynSubpath::Squeeze, component: Some(DynComponent::Value) },
                DynInputPath { hand: Hand::Right, subpath: DynSubpath::Squeeze, component: Some(DynComponent::Value) },
            ],
        (Profile::SimpleController, SkeletalAction::ThumbTouch) => Seq::<DynInputPath>::empty(),
        (Profile::SimpleController, SkeletalAction::IndexTouch) => seq![
                DynInputPath { hand: Hand::Left, subpath: DynSubpath::Select, component: Some(DynComponent::Click) },
                DynInputPath { hand: Hand::Right, subpath: DynSubpath::Select, component: Some(DynComponent::Click) },
            ],
        (Profile::SimpleController, SkeletalAction::IndexCurl) => seq![
                DynInputPath { hand: Hand::Left, subpath: DynSubpath::Select, component: Some(DynComponent::Click) },
                DynInputPath { hand: Hand::Right, subpath: DynSubpath::Select, component: Some(DynComponent::Click) },
            ],
        (Profile::SimpleController, SkeletalAction::RestCurl) => seq![
                DynInputPath { hand: Hand::Left, subpath: DynSubpath::Menu, component: Some(DynComponent::Click) },
                DynInputPath { hand: Hand::Right, subpath: DynSubpath::Menu, component: Some(DynComponent::Click) },
            ],
        (Profile::ViveTracker, _) => Seq::<DynInputPath>::empty(),
    }
}

/// The OpenVR device properties reported for the controllers of a profile.
pub open spec fn spec_profile_properties(profile: Profile) -> ProfileProperties {
    match profile {
        Profile::ViveWands => ProfileProperties {
            model: Property::BothHands("Vive. MV"),
            openvr_controller_type: "vive_controller",
            render_model_name: Property::BothHands("vr_controller_vive_1_5"),
            main_axis: MainAxisType::Trackpad,
            registered_device_type: Property::PerHand { left: "htc/vive_controllerLHR-00000001", right: "htc/vive_controllerLHR-00000002" },
            serial_number: Property::PerHand { left: "LHR-00000001", right: "LHR-00000002" },
            tracking_system_name: "lighthouse",
            manufacturer_name: "HTC",
            legacy_buttons_mask: button_mask(ButtonId::System) | button_mask(ButtonId::ApplicationMenu) | button_mask(ButtonId::Grip) | button_mask(ButtonId::Axis0) | button_mask(ButtonId::Axis1),
        },
        Profile::Knuckles => ProfileProperties {
            model: Property::PerHand { left: "Knuckles Left", right: "Knuckles Right" },
            openvr_controller_type: "knuckles",
            render_model_name: Property::PerHand { left: "{indexcontroller}valve_controller_knu_1_0_left", right: "{indexcontroller}valve_controller_knu_1_0_right" },
            main_axis: MainAxisType::Thumbstick,
            registered_device_type: Property::PerHand { left: "valve/index_controllerLHR-FFFFFFF1", right: "valve/index_controllerLHR-FFFFFFF2" },
            serial_number: Property::PerHand { left: "LHR-FFFFFFF1", right: "LHR-FFFFFFF2" },
            tracking_system_name: "lighthouse",
            manufacturer_name: "Valve",
            legacy_buttons_mask: button_mask(ButtonId::System) | button_mask(ButtonId::ApplicationMenu) | button_mask(ButtonId::Grip) | button_mask(ButtonId::A) | button_mask(ButtonId::Axis0) | button_mask(ButtonId::Axis1) | button_mask(ButtonId::Axis2),
        },
        Profile::OculusTouch => ProfileProperties {
            model: Property::PerHand { left: "Oculus Quest2 (Left Controller)", right: "Oculus Quest2 (Right Controller)" },
            openvr_controller_type: "oculus_touch",
            render_model_name: Property::PerHand { left: "oculus_quest2_controller_left", right: "oculus_quest2_controller_right" },
            main_axis: MainAxisType::Thumbstick,
            registered_device_type: Property::PerHand { left: "oculus/WMHD315M3010GV_Controller_Left", right: "oculus/WMHD315M3010GV_Controller_Right" },
            serial_number: Property::PerHand { left: "WMHD315M3010GV_Controller_Left", right: "WMHD315M3010GV_Controller_Right" },
            tracking_system_name: "oculus",
            manufacturer_name: "Oculus",
            legacy_buttons_mask: button_mask(ButtonId::System) | button_mask(ButtonId::ApplicationMenu) | button_mask(ButtonId::Grip) | button_mask(ButtonId::A) | button_mask(ButtonId::Axis0) | button_mask(ButtonId::Axis1) | button_mask(ButtonId::Axis2),
        },
        Profile::ViveFocus3 => ProfileProperties {
            model: Property::BothHands("vive_focus3_controller"),
            openvr_controller_type: "vive_focus3_controller",
            render_model_name: Property::PerHand { left: "vive_focus3_controller_left", right: "vive_focus3_controller_right" },
            main_axis: MainAxisType::Thumbstick,
            registered_device_type: Property::BothHands("htc_business_streaming/vive_focus3_controller"),
            serial_number: Property::PerHand { left: "CTL_LEFT", right: "CTL_RIGHT" },
            tracking_system_name: "htc_eyes",
            manufacturer_name: "htc_rr",
            legacy_buttons_mask: button_mask(ButtonId::System) | button_mask(ButtonId::ApplicationMenu) | button_mask(ButtonId::Grip) | button_mask(ButtonId::A) | button_mask(ButtonId::Axis1) | button_mask(ButtonId::Axis2) | button_mask(ButtonId::Axis3) | button_mask(ButtonId::Axis4),
        },
        Profile::SimpleController => ProfileProperties {
            model: Property::BothHands("generic"),
            openvr_controller_type: "<unknown>",
            render_model_name: Property::BothHands("generic_controller"),
            main_axis: MainAxisType::Thumbstick,
            registered_device_type: Property::PerHand { left: "htc/vive_controllerLHR-00000001", right: "htc/vive_controllerLHR-00000002" },
            serial_number: Property::PerHand { left: "LHR-00000001", right: "LHR-00000002" },
            tracking_system_name: "lighthouse",
            manufacturer_name: "HTC",
            legacy_buttons_mask: button_mask(ButtonId::System) | button_mask(ButtonId::ApplicationMenu) | button_mask(ButtonId::Grip) | button_mask(ButtonId::Axis0) | button_mask(ButtonId::Axis1),
        },
        Profile::ViveTracker => ProfileProperties {
            model: Property::BothHands("Vive Tracker Handheld Object"),
            openvr_controller_type: "vive_tracker_handheld_object",
            render_model_name: Property::BothHands("vr_tracker_vive_3_0"),
            main_axis: MainAxisType::Thumbstick,
            registered_device_type: Property::BothHands("vive_tracker"),
            serial_number: Property::BothHands("vive_tracker"),
            tracking_system_name: "lighthouse",
            manufacturer_name: "HTC",
            legacy_buttons_mask: 0u64,
        },
    }
}

/// The OpenXR interaction profile path of a profile.
pub open spec fn spec_profile_path(profile: Profile) -> Seq<char> {
    match profile {
        Profile::ViveWands => "/interaction_profiles/htc/vive_controller"@,
        Profile::Knuckles => "/interaction_profiles/valve/index_controller"@,
        Profile::OculusTouch => "/interaction_profiles/oculus/touch_controller"@,
        Profile::ViveFocus3 => "/interaction_profiles/htc/vive_focus3_controller"@,
        Profile::SimpleController => "/interaction_profiles/khr/simple_controller"@,
        Profile::ViveTracker => "/interaction_profiles/htc/vive_tracker_htcx"@,
    }
}

impl Profile {
    /// Whether `path` exists on the controllers of this profile.
    pub fn is_legal(self, path: DynInputPath) -> (r: bool)
        ensures
            r == profile_path_is_legal(self, path),
    {
        let left = path.hand == Hand::Left;
        let right = path.hand == Hand::Right;
        let s = path.subpath;
        let c = path.component;
        match self {
            Profile::ViveWands => {
                (s == DynSubpath::Squeeze && c == Some(DynComponent::Click))
                || (s == DynSubpath::Menu && c == Some(DynComponent::Click))
                || (s == DynSubpath::Trigger && c == Some(DynComponent::Click))
                || (s == DynSubpath::Trigger && c == Some(DynComponent::Value))
                || (s == DynSubpath::Trackpad && c == Some(DynComponent::Click))
                || (s == DynSubpath::Trackpad && c == Some(DynComponent::Touch))
                || (s == DynSubpath::Trackpad && c.is_none())
                || (s == DynSubpath::Trackpad && c == Some(DynComponent::Vec2X))
                || (s == DynSubpath::Trackpad && c == Some(DynComponent::Vec2Y))
            },
            Profile::Knuckles => {
                (s == DynSubpath::A && c == Some(DynComponent::Click))
                || (s == DynSubpath::A && c == Some(DynComponent::Touch))
                || (s == DynSubpath::B && c == Some(DynComponent::Click))
                || (s == DynSubpath::B && c == Some(DynComponent::Touch))
                || (s == DynSubpath::Trigger && c == Some(DynComponent::Click))
                || (s == DynSubpath::Trigger && c == Some(DynComponent::Touch))
                || (s == DynSubpath::Trigger && c == Some(DynComponent::Value))
                || (s == DynSubpath::Squeeze && c == Some(DynComponent::Value))
                || (s == DynSubpath::Squeeze && c == Some(DynComponent::Force))
                || (s == DynSubpath::Thumbstick && c == Some(DynComponent::Click))
                || (s == DynSubpath::Thumbstick && c == Some(DynComponent::Touch))
                || (s == DynSubpath::Thumbstick && c.is_none())
                || (s == DynSubpath::Trackpad && c == Some(DynComponent::Force))
                || (s == DynSubpath::Trackpad && c == Some(DynComponent::Touch))
                || (s == DynSubpath::Trackpad && c.is_none())
            },
            Profile::OculusTouch => {
                (s == DynSubpath::Squeeze && c == Some(DynComponent::Value))
                || (s == DynSubpath::Trigger && c == Some(DynComponent::Value))
                || (s == DynSubpath::Trigger && c == Some(DynComponent::Touch))
                || (s == DynSubpath::Thumbstick && c.is_none())
                || (s == DynSubpath::Thumbstick && c == Some(DynComponent::Click))
                || (s == DynSubpath::Thumbstick && c == Some(DynComponent::Touch))
                || (s == DynSubpath::Thumbrest && c == Some(DynComponent::Touch))
                || (left && s == DynSubpath::X && c == Some(DynComponent::Click))
                || (left && s == DynSubpath::X && c == Some(DynComponent::Touch))
                || (left && s == DynSubpath::Y && c == Some(DynComponent::Click))
                || (left && s == DynSubpath::Y && c == Some(DynComponent::Touch))
                || (left && s == DynSubpath::Menu && c == Some(DynComponent::Click))
                || (right && s == DynSubpath::A && c == Some(DynComponent::Click))
                || (right && s == DynSubpath::A && c == Some(DynComponent::Touch))
                || (right && s == DynSubpath::B && c == Some(DynComponent::Click))
                || (right && s == DynSubpath::B && c == Some(DynComponent::Touch))
            },
            Profile::ViveFocus3 => {
                (s == DynSubpath::Squeeze && c == Some(DynComponent::Value))
                || (s == DynSubpath::Squeeze && c == Some(DynComponent::Click))
                || (s == DynSubpath::Squeeze && c == Some(DynComponent::Touch))
                || (s == DynSubpath::Trigger && c == Some(DynComponent::Value))
                || (s == DynSubpath::Trigger && c == Some(DynComponent::Click))
                || (s == DynSubpath::Trigger && c == Some(DynComponent::Touch))
                || (s == DynSubpath::Thumbstick && c.is_none())
                || (s == DynSubpath::Thumbstick && c == Some(DynComponent::Click))
                || (s == DynSubpath::Thumbstick && c == Some(DynComponent::Touch))
                || (s == DynSubpath::Thumbrest && c == Some(DynComponent::Touch))
                || (left && s == DynSubpath::X && c == Some(DynComponent::Click))
                || (left && s == DynSubpath::Y && c == Some(DynComponent::Click))
                || (left && s == DynSubpath::Menu && c == Some(DynComponent::Click))
                || (right && s == DynSubpath::A && c == Some(DynComponent::Click))
                || (right && s == DynSubpath::B && c == Some(DynComponent::Click))
            },
            Profile::SimpleController => {
                (s == DynSubpath::Select && c == Some(DynComponent::Click))
                || (s == DynSubpath::Menu && c == Some(DynComponent::Click))
            },
            Profile::ViveTracker => false,
        }
    }

    /// The OpenXR interaction profile path.
    pub fn profile_path(self) -> (s: &'static str)
        ensures
            s@ == spec_profile_path(self),
    {
        match self {
            Profile::ViveWands => "/interaction_profiles/htc/vive_controller",
            Profile::Knuckles => "/interaction_profiles/valve/index_controller",
            Profile::OculusTouch => "/interaction_profiles/oculus/touch_controller",
            Profile::ViveFocus3 => "/interaction_profiles/htc/vive_focus3_controller",
            Profile::SimpleController => "/interaction_profiles/khr/simple_controller",
            Profile::ViveTracker => "/interaction_profiles/htc/vive_tracker_htcx",
        }
    }

    /// The OpenVR device properties reported for the controllers.
    pub fn properties(self) -> (r: ProfileProperties)
        ensures
            r == spec_profile_properties(self),
    {
        match self {
            Profile::ViveWands => ProfileProperties {
                model: Property::BothHands("Vive. MV"),
                openvr_controller_type: "vive_controller",
                render_model_name: Property::BothHands("vr_controller_vive_1_5"),
                main_axis: MainAxisType::Trackpad,
                registered_device_type: Property::PerHand { left: "htc/vive_controllerLHR-00000001", right: "htc/vive_controllerLHR-00000002" },
                serial_number: Property::PerHand { left: "LHR-00000001", right: "LHR-00000002" },
                tracking_system_name: "lighthouse",
                manufacturer_name: "HTC",
                legacy_buttons_mask: button_mask_from_id(ButtonId::System) | button_mask_from_id(ButtonId::ApplicationMenu) | button_mask_from_id(ButtonId::Grip) | button_mask_from_id(ButtonId::Axis0) | button_mask_from_id(ButtonId::Axis1),
            },
            Profile::Knuckles => ProfileProperties {
                model: Property::PerHand { left: "Knuckles Left", right: "Knuckles Right" },
                openvr_controller_type: "knuckles",
                render_model_name: Property::PerHand { left: "{indexcontroller}valve_controller_knu_1_0_left", right: "{indexcontroller}valve_controller_knu_1_0_right" },
                main_axis: MainAxisType::Thumbstick,
                registered_device_type: Property::PerHand { left: "valve/index_controllerLHR-FFFFFFF1", right: "valve/index_controllerLHR-FFFFFFF2" },
                serial_number: Property::PerHand { left: "LHR-FFFFFFF1", right: "LHR-FFFFFFF2" },
                tracking_system_name: "lighthouse",
                manufacturer_name: "Valve",
                legacy_buttons_mask: button_mask_from_id(ButtonId::System) | button_mask_from_id(ButtonId::ApplicationMenu) | button_mask_from_id(ButtonId::Grip) | button_mask_from_id(ButtonId::A) | button_mask_from_id(ButtonId::Axis0) | button_mask_from_id(ButtonId::Axis1) | button_mask_from_id(ButtonId::Axis2),
            },
            Profile::OculusTouch => ProfileProperties {
                model: Property::PerHand { left: "Oculus Quest2 (Left Controller)", right: "Oculus Quest2 (Right Controller)" },
                openvr_controller_type: "oculus_touch",
                render_model_name: Property::PerHand { left: "oculus_quest2_controller_left", right: "oculus_quest2_controller_right" },
                main_axis: MainAxisType::Thumbstick,
                registered_device_type: Property::PerHand { left: "oculus/WMHD315M3010GV_Controller_Left", right: "oculus/WMHD315M3010GV_Controller_Right" },
                serial_number: Property::PerHand { left: "WMHD315M3010GV_Controller_Left", right: "WMHD315M3010GV_Controller_Right" },
                tracking_system_name: "oculus",
                manufacturer_name: "Oculus",
                legacy_buttons_mask: button_mask_from_id(ButtonId::System) | button_mask_from_id(ButtonId::ApplicationMenu) | button_mask_from_id(ButtonId::Grip) | button_mask_from_id(ButtonId::A) | button_mask_from_id(ButtonId::Axis0) | button_mask_from_id(ButtonId::Axis1) | button_mask_from_id(ButtonId::Axis2),
            },
            Profile::ViveFocus3 => ProfileProperties {
                model: Property::BothHands("vive_focus3_controller"),
                openvr_controller_type: "vive_focus3_controller",
                render_model_name: Property::PerHand { left: "vive_focus3_controller_left", right: "vive_focus3_controller_right" },
                main_axis: MainAxisType::Thumbstick,
                registered_device_type: Property::BothHands("htc_business_streaming/vive_focus3_controller"),
                serial_number: Property::PerHand { left: "CTL_LEFT", right: "CTL_RIGHT" },
                tracking_system_name: "htc_eyes",
                manufacturer_name: "htc_rr",
                legacy_buttons_mask: button_mask_from_id(ButtonId::System) | button_mask_from_id(ButtonId::ApplicationMenu) | button_mask_from_id(ButtonId::Grip) | button_mask_from_id(ButtonId::A) | button_mask_from_id(ButtonId::Axis1) | button_mask_from_id(ButtonId::Axis2) | button_mask_from_id(ButtonId::Axis3) | button_mask_from_id(ButtonId::Axis4),
            },
            Profile::SimpleController => ProfileProperties {
                model: Property::BothHands("generic"),
                openvr_controller_type: "<unknown>",
                render_model_name: Property::BothHands("generic_controller"),
                main_axis: MainAxisType::Thumbstick,
                registered_device_type: Property::PerHand { left: "htc/vive_controllerLHR-00000001", right: "htc/vive_controllerLHR-00000002" },
                serial_number: Property::PerHand { left: "LHR-00000001", right: "LHR-00000002" },
                tracking_system_name: "lighthouse",
                manufacturer_name: "HTC",
                legacy_buttons_mask: button_mask_from_id(ButtonId::System) | button_mask_from_id(ButtonId::ApplicationMenu) | button_mask_from_id(ButtonId::Grip) | button_mask_from_id(ButtonId::Axis0) | button_mask_from_id(ButtonId::Axis1),
            },
            Profile::ViveTracker => ProfileProperties {
                model: Property::BothHands("Vive Tracker Handheld Object"),
                openvr_controller_type: "vive_tracker_handheld_object",
                render_model_name: Property::BothHands("vr_tracker_vive_3_0"),
                main_axis: MainAxisType::Thumbstick,
                registered_device_type: Property::BothHands("vive_tracker"),
                serial_number: Property::BothHands("vive_tracker"),
                tracking_system_name: "lighthouse",
                manufacturer_name: "HTC",
                legacy_buttons_mask: 0u64,
            },
        }
    }

    /// The inputs that feed a legacy action. The tracker profile has no
    /// legacy bindings.
    pub fn legacy_bindings(self, action: LegacyAction) -> (r: Vec<DynInputPath>)
        requires
            self != Profile::ViveTracker,
        ensures
            r@ == legacy_binding_paths(self, action),
    {
        let v = match (self, action) {
            (Profile::ViveWands, LegacyAction::AppMenu) => vec![
                DynInputPath { hand: Hand::Left, subpath: DynSubpath::Menu, component: Some(DynComponent::Click) },
                DynInputPath { hand: Hand::Right, subpath: DynSubpath::Menu, component: Some(DynComponent::Click) },
            ],
            (Profile::ViveWands, LegacyAction::A) => Vec::new(),
            (Profile::ViveWands, LegacyAction::TriggerClick) => vec![
                DynInputPath { hand: Hand::Left, subpath: DynSubpath::Trigger, component: Some(DynComponent::Click) },
                DynInputPath { hand: Hand::Right, subpath: DynSubpath::Trigger, component: Some(DynComponent::Click) },
            ],
            (Profile::ViveWands, LegacyAction::SqueezeClick) => vec![
                DynInputPath { hand: Hand::Left, subpath: DynSubpath::Squeeze, component: Some(DynComponent::Click) },
                DynInputPath { hand: Hand::Right, subpath: DynSubpath::Squeeze, component: Some(DynComponent::Click) },
            ],
            (Profile::ViveWands, LegacyAction::Trigger) => vec![
                DynInputPath { hand: Hand::Left, subpath: DynSubpath::Trigger, component: Some(DynComponent::Value) },
                DynInputPath { hand: Hand::Right, subpath: DynSubpath::Trigger, component: Some(DynComponent::Value) },
            ],
            (Profile::ViveWands, LegacyAction::Squeeze) => vec![
                DynInputPath { hand: Hand::Left, subpath: DynSubpath::Squeeze, component: Some(DynComponent::Click) },
                DynInputPath { hand: Hand::Right, subpath: DynSubpath::Squeeze, component: Some(DynComponent::Click) },
            ],
            (Profile::ViveWands, LegacyAction::MainXy) => vec![
                DynInputPath { hand: Hand::Left, subpath: DynSubpath::Trackpad, component: None },
                DynInputPath { hand: Hand::Right, subpath: DynSubpath::Trackpad, component: None },
            ],
            (Profile::ViveWands, LegacyAction::MainXyTouch) => vec![
                DynInputPath { hand: Hand::Left, subpath: DynSubpath::Trackpad, component: Some(DynComponent::Touch) },
                DynInputPath { hand: Hand::Right, subpath: DynSubpath::Trackpad, component: Some(DynComponent::Touch) },
            ],
            (Profile::ViveWands, LegacyAction::MainXyClick) => vec![
                DynInputPath { hand: Hand::Left, subpath: DynSubpath::Trackpad, component: Some(DynComponent::Click) },
                DynInputPath { hand: Hand::Right, subpath: DynSubpath::Trackpad, component: Some(DynComponent::Click) },
            ],
            (Profile::Knuckles, LegacyAction::AppMenu) => vec![
                DynInputPath { hand: Hand::Left, subpath: DynSubpath::B, component: Some(DynComponent::Click) },
                DynInputPath { hand: Hand::Right, subpath: DynSubpath::B, component: Some(DynComponent::Click) },
            ],
            (Profile::Knuckles, LegacyAction::A) => vec![
                DynInputPath { hand: Hand::Left, subpath: DynSubpath::A, component: Some(DynComponent::Click) },
                DynInputPath { hand: Hand::Right, subpath: DynSubpath::A, component: Some(DynComponent::Click) },
            ],
            (Profile::Knuckles, LegacyAction::TriggerClick) => vec![
                DynInputPath { hand: Hand::Left, subpath: DynSubpath::Trigger, component: Some(DynComponent::Click) },
                DynInputPath { hand: Hand::Right, subpath: DynSubpath::Trigger, component: Some(DynComponent::Click) },
            ],
            (Profile::Knuckles, LegacyAction::SqueezeClick) => vec![
                DynInputPath { hand: Hand::Left, subpath: DynSubpath::Squeeze, component: Some(DynComponent::Value) },
                DynInputPath { hand: Hand::Right, subpath: DynSubpath::Squeeze, component: Some(DynComponent::Value) },
            ],
            (Profile::Knuckles, LegacyAction::Trigger) => vec![
                DynInputPath { hand: Hand::Left, subpath: DynSubpath::Trigger, component: Some(DynComponent::Value) },
                DynInputPath { hand: Hand::Right, subpath: DynSubpath::Trigger, component: Some(DynComponent::Value) },
            ],
            (Profile::Knuckles, LegacyAction::Squeeze) => vec![
                DynInputPath { hand: Hand::Left, subpath: DynSubpath::Squeeze, component: Some(DynComponent::Value) },
                DynInputPath { hand: Hand::Right, subpath: DynSubpath::Squeeze, component: Some(DynComponent::Value) },
            ],
            (Profile::Knuckles, LegacyAction::MainXy) => vec![
                DynInputPath { hand: Hand::Left, subpath: DynSubpath::Thumbstick, component: None },
                DynInputPath { hand: Hand::Right, subpath: DynSubpath::Thumbstick, component: None },
            ],
            (Profile::Knuckles, LegacyAction::MainXyTouch) => vec![
                DynInputPath { hand: Hand::Left, subpath: DynSubpath::Thumbstick, component: Some(DynComponent::Touch) },
                DynInputPath { hand: Hand::Right, subpath: DynSubpath::Thumbstick, component: Some(DynComponent::Touch) },
            ],
            (Profile::Knuckles, LegacyAction::MainXyClick) => vec![
                DynInputPath { hand: Hand::Left, subpath: DynSubpath::Thumbstick, component: Some(DynComponent::Click) },
                DynInputPath { hand: Hand::Right, subpath: DynSubpath::Thumbstick, component: Some(DynComponent::Click) },
            ],
            (Profile::OculusTouch, LegacyAction::AppMenu) => vec![
                DynInputPath { hand: Hand::Left, subpath: DynSubpath::Y, component: Some(DynComponent::Click) },
                DynInputPath { hand: Hand::Right, subpath: DynSubpath::B, component: Some(DynComponent::Click) },
            ],
            (Profile::OculusTouch, LegacyAction::A) => vec![
                DynInputPath { hand: Hand::Left, subpath: DynSubpath::X, component: Some(DynComponent::Click) },
                DynInputPath { hand: Hand::Right, subpath: DynSubpath::A, component: Some(DynComponent::Click) },
            ],
            (Profile::OculusTouch, LegacyAction::TriggerClick) => vec![
                DynInputPath { hand: Hand::Left, subpath: DynSubpath::Trigger, component: Some(DynComponent::Value) },
                DynInputPath { hand: Hand::Right, subpath: DynSubpath::Trigger, component: Some(DynComponent::Value) },
            ],
            (Profile::OculusTouch, LegacyAction::SqueezeClick) => vec![
                DynInputPath { hand: Hand::Left, subpath: DynSubpath::Squeeze, component: Some(DynComponent::Value) },
                DynInputPath { hand: Hand::Right, subpath: DynSubpath::Squeeze, component: Some(DynComponent::Value) },
            ],
            (Profile::OculusTouch, LegacyAction::Trigger) => vec![
                DynInputPath { hand: Hand::Left, subpath: DynSubpath::Trigger, component: Some(DynComponent::Value) },
                DynInputPath { hand: Hand::Right, subpath: DynSubpath::Trigger, component: Some(DynComponent::Value) },
            ],
            (Profile::OculusTouch, LegacyAction::Squeeze) => vec![
                DynInputPath { hand: Hand::Left, subpath: DynSubpath::Squeeze, component: Some(DynComponent::Value) },
                DynInputPath { hand: Hand::Right, subpath: DynSubpath::Squeeze, component: Some(DynComponent::Value) },
            ],
            (Profile::OculusTouch, LegacyAction::MainXy) => vec![
                DynInputPath { hand: Hand::Left, subpath: DynSubpath::Thumbstick, component: None },
                DynInputPath { hand: Hand::Right, subpath: DynSubpath::Thumbstick, component: None },
            ],
            (Profile::OculusTouch, LegacyAction::MainXyTouch) => vec![
                DynInputPath { hand: Hand::Left, subpath: DynSubpath::Thumbstick, component: Some(DynComponent::Touch) },
                DynInputPath { hand: Hand::Right, subpath: DynSubpath::Thumbstick, component: Some(DynComponent::Touch) },
            ],
            (Profile::OculusTouch, LegacyAction::MainXyClick) => vec![
                DynInputPath { hand: Hand::Left, subpath: DynSubpath::Thumbstick, component: Some(DynComponent::Click) },
                DynInputPath { hand: Hand::Right, subpath: DynSubpath::Thumbstick, component: Some(DynComponent::Click) },
            ],
            (Profile::ViveFocus3, LegacyAction::AppMenu) => vec![
                DynInputPath { hand: Hand::Left, subpath: DynSubpath::Y, component: Some(DynComponent::Click) },
                DynInputPath { hand: Hand::Right, subpath: DynSubpath::B, component: Some(DynComponent::Click) },
            ],
            (Profile::ViveFocus3, LegacyAction::A) => vec![
                DynInputPath { hand: Hand::Left, subpath: DynSubpath::X, component: Some(DynComponent::Click) },
                DynInputPath { hand: Hand::Right, subpath: DynSubpath::A, component: Some(DynComponent::Click) },
            ],
            (Profile::ViveFocus3, LegacyAction::TriggerClick) => vec![
                DynInputPath { hand: Hand::Left, subpath: DynSubpath::Trigger, component: Some(DynComponent::Click) },
                DynInputPath { hand: Hand::Right, subpath: DynSubpath::Trigger, component: Some(DynComponent::Click) },
            ],
            (Profile::ViveFocus3, LegacyAction::SqueezeClick) => vec![
                DynInputPath { hand: Hand::Left, subpath: DynSubpath::Squeeze, component: Some(DynComponent::Click) },
                DynInputPath { hand: Hand::Right, subpath: DynSubpath::Squeeze, component: Some(DynComponent::Click) },
            ],
            (Profile::ViveFocus3, LegacyAction::Trigger) => vec![
                DynInputPath { hand: Hand::Left, subpath: DynSubpath::Trigger, component: Some(DynComponent::Value) },
                DynInputPath { hand: Hand::Right, subpath: DynSubpath::Trigger, component: Some(DynComponent::Value) },
            ],
            (Profile::ViveFocus3, LegacyAction::Squeeze) => vec![
                DynInputPath { hand: Hand::Left, subpath: DynSubpath::Squeeze, component: Some(DynComponent::Value) },
                DynInputPath { hand: Hand::Right, subpath: DynSubpath::Squeeze, component: Some(DynComponent::Value) },
            ],
            (Profile::ViveFocus3, LegacyAction::MainXy) => vec![
                DynInputPath { hand: Hand::Left, subpath: DynSubpath::Thumbstick, component: None },
                DynInputPath { hand: Hand::Right, subpath: DynSubpath::Thumbstick, component: None },
            ],
            (Profile::ViveFocus3, LegacyAction::MainXyTouch) => vec![
                DynInputPath { hand: Hand::Left, subpath: DynSubpath::Thumbstick, component: Some(DynComponent::Touch) },
                DynInputPath { hand: Hand::Right, subpath: DynSubpath::Thumbstick, component: Some(DynComponent::Touch) },
            ],
            (Profile::ViveFocus3, LegacyAction::MainXyClick) => vec![
                DynInputPath { hand: Hand::Left, subpath: DynSubpath::Thumbstick, component: Some(DynComponent::Click) },
                DynInputPath { hand: Hand::Right, subpath: DynSubpath::Thumbstick, component: Some(DynComponent::Click) },
            ],
            (Profile::SimpleController, LegacyAction::AppMenu) => vec![
                DynInputPath { hand: Hand::Left, subpath: DynSubpath::Menu, component: Some(DynComponent::Click) },
                DynInputPath { hand: Hand::Right, subpath: DynSubpath::Menu, component: Some(DynComponent::Click) },
            ],
            (Profile::SimpleController, LegacyAction::A) => Vec::new(),
            (Profile::SimpleController, LegacyAction::TriggerClick) => vec![
                DynInputPath { hand: Hand::Left, subpath: DynSubpath::Select, component: Some(DynComponent::Click) },
                DynInputPath { hand: Hand::Right, subpath: DynSubpath::Select, component: Some(DynComponent::Click) },
            ],
            (Profile::SimpleController, LegacyAction::SqueezeClick) => vec![
                DynInputPath { hand: Hand::Left, subpath: DynSubpath::Menu, component: Some(DynComponent::Click) },
                DynInputPath { hand: Hand::Right, subpath: DynSubpath::Menu, component: Some(DynComponent::Click) },
            ],
            (Profile::SimpleController, LegacyAction::Trigger) => vec![
                DynInputPath { hand: Hand::Left, subpath: DynSubpath::Select, component: Some(DynComponent::Click) },
                DynInputPath { hand: Hand::Right, subpath: DynSubpath::Select, component: Some(DynComponent::Click) },
            ],
            (Profile::SimpleController, LegacyAction::Squeeze) => vec![
                DynInputPath { hand: Hand::Left, subpath: DynSubpath::Menu, component: Some(DynComponent::Click) },
                DynInputPath { hand: Hand::Right, subpath: DynSubpath::Menu, component: Some(DynComponent::Click) },
            ],
            (Profile::SimpleController, LegacyAction::MainXy) => Vec::new(),
            (Profile::SimpleController, LegacyAction::MainXyTouch) => Vec::new(),
            (Profile::SimpleController, LegacyAction::MainXyClick) => Vec::new(),
            (Profile::ViveTracker, _) => Vec::new(),
        };
        proof {
            assert(v@ =~= legacy_binding_paths(self, action));
        }
        v
    }

    /// The inputs that feed a skeletal estimation action. The tracker
    /// profile has no skeletal bindings.
    pub fn skeletal_input_bindings(self, action: SkeletalAction) -> (r: Vec<DynInputPath>)
        requires
            self != Profile::ViveTracker,
        ensures
            r@ == skeletal_binding_paths(self, action),
    {
        let v = match (self, action) {
            (Profile::ViveWands, SkeletalAction::ThumbTouch) => vec![
                DynInputPath { hand: Hand::Left, subpath: DynSubpath::Trackpad, component: Some(DynComponent::Click) },
                DynInputPath { hand: Hand::Right, subpath: DynSubpath::Trackpad, component: Some(DynComponent::Click) },
                DynInputPath { hand: Hand::Left, subpath: DynSubpath::Trackpad, component: Some(DynComponent::Touch) },
                DynInputPath { hand: Hand::Right, subpath: DynSubpath::Trackpad, component: Some(DynComponent::Touch) },
            ],
            (Profile::ViveWands, SkeletalAction::IndexTouch) => vec![
                DynInputPath { hand: Hand::Left, subpath: DynSubpath::Trigger, component: Some(DynComponent::Click) },
                DynInputPath { hand: Hand::Right, subpath: DynSubpath::Trigger, component: Some(DynComponent::Click) },
            ],
            (Profile::ViveWands, SkeletalAction::IndexCurl) => vec![
                DynInputPath { hand: Hand::Left, subpath: DynSubpath::Trigger, component: Some(DynComponent::Value) },
                DynInputPath { hand: Hand::Right, subpath: DynSubpath::Trigger, component: Some(DynComponent::Value) },
            ],
            (Profile::ViveWands, SkeletalAction::RestCurl) => vec![
                DynInputPath { hand: Hand::Left, subpath: DynSubpath::Squeeze, component: Some(DynComponent::Click) },
                DynInputPath { hand: Hand::Right, subpath: DynSubpath::Squeeze, component: Some(DynComponent::Click) },
            ],
            (Profile::Knuckles, SkeletalAction::ThumbTouch) => vec![
                DynInputPath { hand: Hand::Left, subpath: DynSubpath::Thumbstick, component: Some(DynComponent::Touch) },
                DynInputPath { hand: Hand::Right, subpath: DynSubpath::Thumbstick, component: Some(DynComponent::Touch) },
                DynInputPath { hand: Hand::Left, subpath: DynSubpath::Trackpad, component: Some(DynComponent::Touch) },
                DynInputPath { hand: Hand::Right, subpath: DynSubpath::Trackpad, component: Some(DynComponent::Touch) },
                DynInputPath { hand: Hand::Left, subpath: DynSubpath::A, component: Some(DynComponent::Touch) },
                DynInputPath { hand: Hand::Right, subpath: DynSubpath::A, component: Some(DynComponent::Touch) },
                DynInputPath { hand: Hand::Left, subpath: DynSubpath::B, component: Some(DynComponent::Touch) },
                DynInputPath { hand: Hand::Right, subpath: DynSubpath::B, component: Some(DynComponent::Touch) },
            ],
            (Profile::Knuckles, SkeletalAction::IndexTouch) => vec![
                DynInputPath { hand: Hand::Left, subpath: DynSubpath::Trigger, component: Some(DynComponent::Touch) },
                DynInputPath { hand: Hand::Right, subpath: DynSubpath::Trigger, component: Some(DynComponent::Touch) },
            ],
            (Profile::Knuckles, SkeletalAction::IndexCurl) => vec![
                DynInputPath { hand: Hand::Left, subpath: DynSubpath::Trigger, component: Some(DynComponent::Value) },
                DynInputPath { hand: Hand::Right, subpath: DynSubpath::Trigger, component: Some(DynComponent::Value) },
            ],
            (Profile::Knuckles, SkeletalAction::RestCurl) => vec![
                DynInputPath { hand: Hand::Left, subpath: DynSubpath::Squeeze, component: Some(DynComponent::Value) },
                DynInputPath { hand: Hand::Right, subpath: DynSubpath::Squeeze, component: Some(DynComponent::Value) },
            ],
            (Profile::OculusTouch, SkeletalAction::ThumbTouch) => vec![
                DynInputPath { hand: Hand::Left, subpath: DynSubpath::Thumbstick, component: Some(DynComponent::Touch) },
                DynInputPath { hand: Hand::Right, subpath: DynSubpath::Thumbstick, component: Some(DynComponent::Touch) },
                DynInputPath { hand: Hand::Left, subpath: DynSubpath::X, component: Some(DynComponent::Touch) },
                DynInputPath { hand: Hand::Left, subpath: DynSubpath::Y, component: Some(DynComponent::Touch) },
                DynInputPath { hand: Hand::Right, subpath: DynSubpath::A, component: Some(DynComponent::Touch) },
                DynInputPath { hand: Hand::Right, subpath: DynSubpath::B, component: Some(DynComponent::Touch) },
                DynInputPath { hand: Hand::Left, subpath: DynSubpath::Thumbrest, component: Some(DynComponent::Touch) },
                DynInputPath { hand: Hand::Right, subpath: DynSubpath::Thumbrest, component: Some(DynComponent::Touch) },
            ],
            (Profile::OculusTouch, SkeletalAction::IndexTouch) => vec![
                DynInputPath { hand: Hand::Left, subpath: DynSubpath::Trigger, component: Some(DynComponent::Touch) },
                DynInputPath { hand: Hand::Right, subpath: DynSubpath::Trigger, component: Some(DynComponent::Touch) },
            ],
            (Profile::OculusTouch, SkeletalAction::IndexCurl) => vec![
                DynInputPath { hand: Hand::Left, subpath: DynSubpath::Trigger, component: Some(DynComponent::Value) },
                DynInputPath { hand: Hand::Right, subpath: DynSubpath::Trigger, component: Some(DynComponent::Value) },
            ],
            (Profile::OculusTouch, SkeletalAction::RestCurl) => vec![
                DynInputPath { hand: Hand::Left, subpath: DynSubpath::Squeeze, component: Some(DynComponent::Value) },
                DynInputPath { hand: Hand::Right, subpath: DynSubpath::Squeeze, component: Some(DynComponent::Value) },
            ],
            (Profile::ViveFocus3, SkeletalAction::ThumbTouch) => vec![
                DynInputPath { hand: Hand::Left, subpath: DynSubpath::Thumbstick, component: Some(DynComponent::Touch) },
                DynInputPath { hand: Hand::Right, subpath: DynSubpath::Thumbstick, component: Some(DynComponent::Touch) },
                DynInputPath { hand: Hand::Left, subpath: DynSubpath::X, component: Some(DynComponent::Click) },
                DynInputPath { hand: Hand::Left, subpath: DynSubpath::Y, component: Some(DynComponent::Click) },
                DynInputPath { hand: Hand::Right, subpath: DynSubpath::A, component: Some(DynComponent::Click) },
                DynInputPath { hand: Hand::Right, subpath: DynSubpath::B, component: Some(DynComponent::Click) },
                DynInputPath { hand: Hand::Left, subpath: DynSubpath::Thumbrest, component: Some(DynComponent::Touch) },
                DynInputPath { hand: Hand::Right, subpath: DynSubpath::Thumbrest, component: Some(DynComponent::Touch) },
            ],
            (Profile::ViveFocus3, SkeletalAction::IndexTouch) => vec![
                DynInputPath { hand: Hand::Left, subpath: DynSubpath::Trigger, component: Some(DynComponent::Touch) },
                DynInputPath { hand: Hand::Right, subpath: DynSubpath::Trigger, component: Some(DynComponent::Touch) },
            ],
            (Profile::ViveFocus3, SkeletalAction::IndexCurl) => vec![
                DynInputPath { hand: Hand::Left, subpath: DynSubpath::Trigger, component: Some(DynComponent::Value) },
                DynInputPath { hand: Hand::Right, subpath: DynSubpath::Trigger, component: Some(DynComponent::Value) },
            ],
            (Profile::ViveFocus3, SkeletalAction::RestCurl) => vec![
                DynInputPath { hand: Hand::Left, subpath: DynSubpath::Squeeze, component: Some(DynComponent::Value) },
                DynInputPath { hand: Hand::Right, subpath: DynSubpath::Squeeze, component: Some(DynComponent::Value) },
            ],
            (Profile::SimpleController, SkeletalAction::ThumbTouch) => Vec::new(),
            (Profile::SimpleController, SkeletalAction::IndexTouch) => vec![
                DynInputPath { hand: Hand::Left, subpath: DynSubpath::Select, component: Some(DynComponent::Click) },
                DynInputPath { hand: Hand::Right, subpath: DynSubpath::Select, component: Some(DynComponent::Click) },
            ],
            (Profile::SimpleController, SkeletalAction::IndexCurl) => vec![
                DynInputPath { hand: Hand::Left, subpath: DynSubpath::Select, component: Some(DynComponent::Click) },
                DynInputPath { hand: Hand::Right, subpath: DynSubpath::Select, component: Some(DynComponent::Click) },
            ],
            (Profile::SimpleController, SkeletalAction::RestCurl) => vec![
                DynInputPath { hand: Hand::Left, subpath: DynSubpath::Menu, component: Some(DynComponent::Click) },
                DynInputPath { hand: Hand::Right, subpath: DynSubpath::Menu, component: Some(DynComponent::Click) },
            ],
            (Profile::ViveTracker, _) => Vec::new(),
        };
        proof {
            assert(v@ =~= skeletal_binding_paths(self, action));
        }
        v
    }
}

/// Implemented by the marker type of every supported profile.
pub trait SupportedProfile {
    spec fn spec_profile() -> Profile;

    /// The profile this marker type stands for.
    fn profile() -> (p: Profile)
        ensures
            p == Self::spec_profile(),
    ;
}

/// The inputs that exist on the controllers of a profile.
pub trait LegalPathsT: SupportedProfile {
    /// Whether `path` exists on the controllers of this profile.
    fn is_legal(path: DynInputPath) -> (r: bool)
        ensures
            r == profile_path_is_legal(Self::spec_profile(), path),
    ;
}

/// Marker type of the `ViveWands` profile.
pub struct ViveWands;

impl SupportedProfile for ViveWands {
    open spec fn spec_profile() -> Profile {
        Profile::ViveWands
    }

    fn profile() -> (p: Profile) {
        Profile::ViveWands
    }
}

impl LegalPathsT for ViveWands {
    fn is_legal(path: DynInputPath) -> (r: bool) {
        Profile::ViveWands.is_legal(path)
    }
}

/// Marker type of the `Knuckles` profile.
pub struct Knuckles;

impl SupportedProfile for Knuckles {
    open spec fn spec_profile() -> Profile {
        Profile::Knuckles
    }

    fn profile() -> (p: Profile) {
        Profile::Knuckles
    }
}

impl LegalPathsT for Knuckles {
    fn is_legal(path: DynInputPath) -> (r: bool) {
        Profile::Knuckles.is_legal(path)
    }
}

/// Marker type of the `OculusTouch` profile.
pub struct OculusTouch;

impl SupportedProfile for OculusTouch {
    open spec fn spec_profile() -> Profile {
        Profile::OculusTouch
    }

    fn profile() -> (p: Profile) {
        Profile::OculusTouch
    }
}

impl LegalPathsT for OculusTouch {
    fn is_legal(path: DynInputPath) -> (r: bool) {
        Profile::OculusTouch.is_legal(path)
    }
}

/// Marker type of the `ViveFocus3` profile.
pub struct ViveFocus3;

impl SupportedProfile for ViveFocus3 {
    open spec fn spec_profile() -> Profile {
        Profile::ViveFocus3
    }

    fn profile() -> (p: Profile) {
        Profile::ViveFocus3
    }
}

impl LegalPathsT for ViveFocus3 {
    fn is_legal(path: DynInputPath) -> (r: bool) {
        Profile::ViveFocus3.is_legal(path)
    }
}

/// Marker type of the `SimpleController` profile.
pub struct SimpleController;

impl SupportedProfile for SimpleController {
    open spec fn spec_profile() -> Profile {
        Profile::SimpleController
    }

    fn profile() -> (p: Profile) {
        Profile::SimpleController
    }
}

impl LegalPathsT for SimpleController {
    fn is_legal(path: DynInputPath) -> (r: bool) {
        Profile::SimpleController.is_legal(path)
    }
}

/// Marker type of the `ViveTracker` profile.
pub struct ViveTracker;

impl SupportedProfile for ViveTracker {
    open spec fn spec_profile() -> Profile {
        Profile::ViveTracker
    }

    fn profile() -> (p: Profile) {
        Profile::ViveTracker
    }
}

impl LegalPathsT for ViveTracker {
    fn is_legal(path: DynInputPath) -> (r: bool) {
        Profile::ViveTracker.is_legal(path)
    }
}

/// A redirected input stays on the hand of the input it replaces.
pub proof fn lemma_translate_keeps_hand(profile: Profile, path: DynInputPath)
    ensures
        spec_translate_path(profile, path) matches Some(q) ==> q.hand == path.hand,
{
}

/// Whether a redirect on the Vive Focus 3 points at a face button that only
/// the other controller carries (A and B are on the right, X and Y on the
/// left).
pub open spec fn focus3_face_button_on_other_hand(path: DynInputPath) -> bool {
    (path.hand == Hand::Left && (path.subpath == DynSubpath::A || path.subpath == DynSubpath::B))
        || (path.hand == Hand::Right && (path.subpath == DynSubpath::X || path.subpath
        == DynSubpath::Y))
}

/// An input that a profile redirects to exists on that profile's
/// controllers, except for Vive Focus 3 face buttons named on the hand that
/// does not carry them.
pub proof fn lemma_translated_path_is_legal(profile: Profile, path: DynInputPath)
    requires
        !(profile == Profile::ViveFocus3 && focus3_face_button_on_other_hand(path)),
    ensures
        spec_translate_path(profile, path) matches Some(q) ==> profile_path_is_legal(profile, q),
{
}

/// Every input that a profile's legacy bindings name exists on its
/// controllers.
pub proof fn lemma_legacy_bindings_are_legal(profile: Profile, action: LegacyAction, i: int)
    requires
        0 <= i < legacy_binding_paths(profile, action).len(),
    ensures
        profile_path_is_legal(profile, legacy_binding_paths(profile, action)[i]),
{
}

/// Every input that a profile's skeletal bindings name exists on its
/// controllers.
pub proof fn lemma_skeletal_bindings_are_legal(profile: Profile, action: SkeletalAction, i: int)
    requires
        0 <= i < skeletal_binding_paths(profile, action).len(),
    ensures
        profile_path_is_legal(profile, skeletal_binding_paths(profile, action)[i]),
{
}

} // verus!
