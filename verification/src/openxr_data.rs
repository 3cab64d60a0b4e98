//! Session-level vocabulary: hands, controller roles, tracking origins and
//! the reference spaces they stand for.
use vstd::prelude::*;
use crate::text::{chars_of, chars_equal_str, parse_decimal, spec_parse_decimal, string_from_chars};

verus! {

/// A hand, numbered 1 (left) and 2 (right) as the OpenVR device role is.
#[derive(Copy, Clone, Debug, PartialEq, Eq, Structural)]
pub enum Hand {
    Left,
    Right,
}

/// The OpenVR controller role of a tracked device.
#[derive(Copy, Clone, Debug, PartialEq, Eq, Structural)]
pub enum ControllerRole {
    Invalid,
    LeftHand,
    RightHand,
    OptOut,
    Treadmill,
    Stylus,
}

impl Hand {
    /// The numeric value of the hand (`Left` is 1, `Right` is 2).
    pub fn as_u32(self) -> (n: u32)
        ensures
            n == (match self {
                Hand::Left => 1u32,
                Hand::Right => 2u32,
            }),
    {
        match self {
            Hand::Left => 1,
            Hand::Right => 2,
        }
    }

    /// The hand a controller role stands for, if any.
    pub fn try_from_role(role: ControllerRole) -> (r: Option<Hand>)
        ensures
            r == hand_of_role(role),
    {
        match role {
            ControllerRole::LeftHand => Some(Hand::Left),
            ControllerRole::RightHand => Some(Hand::Right),
            _ => None,
        }
    }

    /// The controller role of this hand.
    pub fn to_role(self) -> (r: ControllerRole)
        ensures
            r == role_of_hand(self),
    {
        match self {
            Hand::Left => ControllerRole::LeftHand,
            Hand::Right => ControllerRole::RightHand,
        }
    }
}

/// The controller role of a hand.
pub open spec fn role_of_hand(h: Hand) -> ControllerRole {
    match h {
        Hand::Left => ControllerRole::LeftHand,
        Hand::Right => ControllerRole::RightHand,
    }
}

/// The hand of a controller role, if it names one.
pub open spec fn hand_of_role(r: ControllerRole) -> Option<Hand> {
    match r {
        ControllerRole::LeftHand => Some(Hand::Left),
        ControllerRole::RightHand => Some(Hand::Right),
        _ => None,
    }
}

/// Converting a hand to its controller role and back gives the same hand.
pub proof fn lemma_hand_role_roundtrip(h: Hand)
    ensures
        hand_of_role(role_of_hand(h)) == Some(h),
{
}

/// The OpenVR tracking universe origins.
#[derive(Copy, Clone, Debug, PartialEq, Eq, Structural)]
pub enum TrackingOrigin {
    Seated,
    Standing,
    RawAndUncalibrated,
}

/// The OpenXR reference space types the runtime uses.
#[derive(Copy, Clone, Debug, PartialEq, Eq, Structural)]
pub enum ReferenceSpaceType {
    View,
    Local,
    Stage,
}

/// The spaces a session keeps: the view space, and the local and stage
/// spaces both as the runtime gives them (reference) and as re-centred by
/// the application (adjusted).
#[derive(Copy, Clone, Debug, PartialEq, Eq, Structural)]
pub enum SessionSpace {
    View,
    LocalReference,
    LocalAdjusted,
    StageReference,
    StageAdjusted,
}

/// The space poses are reported in for an origin: the adjusted local
/// space when seated, the adjusted stage when standing, and the stage as
/// given for the raw origin.
pub fn get_space_for_origin(origin: TrackingOrigin) -> (r: SessionSpace)
    ensures
        r == match origin {
            TrackingOrigin::Seated => SessionSpace::LocalAdjusted,
            TrackingOrigin::Standing => SessionSpace::StageAdjusted,
            TrackingOrigin::RawAndUncalibrated => SessionSpace::StageReference,
        },
{
    match origin {
        TrackingOrigin::Seated => SessionSpace::LocalAdjusted,
        TrackingOrigin::Standing => SessionSpace::StageAdjusted,
        TrackingOrigin::RawAndUncalibrated => SessionSpace::StageReference,
    }
}

/// The space of a reference space type.
pub fn get_space_from_type(ty: ReferenceSpaceType) -> (r: SessionSpace)
    ensures
        r == match ty {
            ReferenceSpaceType::View => SessionSpace::View,
            ReferenceSpaceType::Local => SessionSpace::LocalAdjusted,
            ReferenceSpaceType::Stage => SessionSpace::StageAdjusted,
        },
{
    match ty {
        ReferenceSpaceType::View => SessionSpace::View,
        ReferenceSpaceType::Local => SessionSpace::LocalAdjusted,
        ReferenceSpaceType::Stage => SessionSpace::StageAdjusted,
    }
}

/// The reference space type of an origin.
pub fn current_origin_as_reference_space(origin: TrackingOrigin) -> (r: ReferenceSpaceType)
    ensures
        r == match origin {
            TrackingOrigin::Seated => ReferenceSpaceType::Local,
            _ => ReferenceSpaceType::Stage,
        },
{
    match origin {
        TrackingOrigin::Seated => ReferenceSpaceType::Local,
        TrackingOrigin::Standing => ReferenceSpaceType::Stage,
        TrackingOrigin::RawAndUncalibrated => ReferenceSpaceType::Stage,
    }
}

/// What re-centring an origin does: the space located against, the space
/// replaced, and the type of the new space; the raw origin has no
/// calibration to reset.
pub fn reset_space_for(origin: TrackingOrigin) -> (r: Option<(SessionSpace, SessionSpace, ReferenceSpaceType)>)
    ensures
        r == match origin {
            TrackingOrigin::RawAndUncalibrated => None,
            TrackingOrigin::Standing => Some(
                (SessionSpace::StageReference, SessionSpace::StageAdjusted, ReferenceSpaceType::Stage),
            ),
            TrackingOrigin::Seated => Some(
                (SessionSpace::LocalReference, SessionSpace::LocalAdjusted, ReferenceSpaceType::Local),
            ),
        },
{
    match origin {
        TrackingOrigin::RawAndUncalibrated => None,
        TrackingOrigin::Standing => Some(
            (SessionSpace::StageReference, SessionSpace::StageAdjusted, ReferenceSpaceType::Stage),
        ),
        TrackingOrigin::Seated => Some(
            (SessionSpace::LocalReference, SessionSpace::LocalAdjusted, ReferenceSpaceType::Local),
        ),
    }
}

/// An origin is reported in the space that re-centring it replaces (the raw
/// origin, which is never re-centred, excepted).
pub proof fn lemma_reset_replaces_reported_space(origin: TrackingOrigin)
    requires
        origin != TrackingOrigin::RawAndUncalibrated,
    ensures
        ({
            let space = match origin {
                TrackingOrigin::Seated => SessionSpace::LocalAdjusted,
                TrackingOrigin::Standing => SessionSpace::StageAdjusted,
                TrackingOrigin::RawAndUncalibrated => SessionSpace::StageReference,
            };
            let ty = match origin {
                TrackingOrigin::Seated => ReferenceSpaceType::Local,
                _ => ReferenceSpaceType::Stage,
            };
            let reset = match origin {
                TrackingOrigin::RawAndUncalibrated => None,
                TrackingOrigin::Standing => Some(
                    (SessionSpace::StageReference, SessionSpace::StageAdjusted, ReferenceSpaceType::Stage),
                ),
                TrackingOrigin::Seated => Some(
                    (SessionSpace::LocalReference, SessionSpace::LocalAdjusted, ReferenceSpaceType::Local),
                ),
            };
            reset matches Some((_, adjusted, rty)) && adjusted == space && rty == ty
        }),
{
}

/// The swapchain format to use: the requested one when the session
/// supports it, else the first the session supports.
pub fn check_format(formats: &[u32], requested: u32) -> (r: u32)
    requires
        formats@.len() > 0 || formats@.contains(requested),
    ensures
        r == (if formats@.contains(requested) {
            requested
        } else {
            formats@[0]
        }),
{
    let mut i: usize = 0;
    while i < formats.len()
        invariant
            i <= formats@.len(),
            forall|k: int| 0 <= k < i ==> formats@[k] != requested,
        decreases formats@.len() - i,
    {
        if formats[i] == requested {
            return requested;
        }
        i = i + 1;
    }
    formats[0]
}

/// The runtime's version number, `major * 1000000 + minor * 1000 + patch`,
/// from the three parts of the package version (an unreadable part counts
/// as 0, the patch as 1).
pub open spec fn spec_make_version(major: Seq<char>, minor: Seq<char>, patch: Seq<char>) -> int {
    let ma = match spec_parse_decimal(major, u32::MAX as nat) {
        Some(v) => v,
        None => 0,
    };
    let mi = match spec_parse_decimal(minor, u32::MAX as nat) {
        Some(v) => v,
        None => 0,
    };
    let pa = match spec_parse_decimal(patch, u32::MAX as nat) {
        Some(v) => v,
        None => 1,
    };
    (ma * 1000000 + mi * 1000 + pa) as int
}

/// The version number of the runtime.
pub fn make_version(major: &str, minor: &str, patch: &str) -> (r: u32)
    requires
        spec_make_version(major@, minor@, patch@) <= u32::MAX,
    ensures
        r == spec_make_version(major@, minor@, patch@),
{
    let ma = match parse_decimal(major, u32::MAX) {
        Some(v) => v,
        None => 0,
    };
    let mi = match parse_decimal(minor, u32::MAX) {
        Some(v) => v,
        None => 0,
    };
    let pa = match parse_decimal(patch, u32::MAX) {
        Some(v) => v,
        None => 1,
    };
    assert(ma * 1000000 + mi * 1000 + pa <= u32::MAX);
    assert(ma * 1000000 <= u32::MAX) by (nonlinear_arith)
        requires
            ma * 1000000 + mi * 1000 + pa <= u32::MAX,
            mi * 1000 >= 0,
    ;
    ma * 1000000 + mi * 1000 + pa
}

/// A display time, in nanoseconds.
#[derive(Debug)]
pub struct AtomicXrTime {
    nanos: i64,
}

impl AtomicXrTime {
    pub closed spec fn nanos(&self) -> i64 {
        self.nanos
    }

    pub fn new(nanos: i64) -> (r: Self)
        ensures
            r.nanos() == nanos,
    {
        AtomicXrTime { nanos }
    }

    pub fn set(&mut self, nanos: i64)
        ensures
            final(self).nanos() == nanos,
    {
        self.nanos = nanos;
    }

    pub fn get(&self) -> (r: i64)
        ensures
            r == self.nanos(),
    {
        self.nanos
    }
}

/// The name of a program run by Wine, from its first argument: the last
/// piece of the Windows path, without `.exe`; none without a `\\`.
pub open spec fn spec_wine_exe_name(arg0: Seq<char>) -> Option<Seq<char>> {
    if !arg0.contains('\\') {
        None
    } else {
        let j = choose|j: int| 0 <= j < arg0.len() && arg0[j] == '\\' && forall|k: int|
            j < k < arg0.len() ==> arg0[k] != '\\';
        let name = arg0.subrange(j + 1, arg0.len() as int);
        if name.len() >= 4 && name.subrange(name.len() - 4, name.len() as int) == ".exe"@ {
            Some(name.subrange(0, name.len() - 4))
        } else {
            Some(name)
        }
    }
}

/// The name of a program run by Wine.
pub fn extract_wine_exe_name(arg0: &str) -> (r: Option<String>)
    ensures
        match spec_wine_exe_name(arg0@) {
            Some(n) => r matches Some(s) && s@ == n,
            None => r.is_none(),
        },
{
    let s = chars_of(arg0);
    let n = s.len();
    let mut j: usize = n;
    while j > 0 && s[j - 1] != '\\'
        invariant
            j <= n,
            n == s@.len(),
            s@ == arg0@,
            forall|k: int| j <= k < n ==> s@[k] != '\\',
        decreases j,
    {
        j = j - 1;
    }
    if j == 0 {
        proof {
            if s@.contains('\\') {
                let w = choose|w: int| 0 <= w < s@.len() && s@[w] == '\\';
                assert(s@[w] != '\\');
            }
        }
        return None;
    }
    let last = j - 1;
    proof {
        let c = choose|c: int| 0 <= c < s@.len() && s@[c] == '\\' && forall|k: int|
            c < k < s@.len() ==> s@[k] != '\\';
        assert(0 <= last < s@.len() && s@[last as int] == '\\');
        if c < last {
            assert(s@[last as int] != '\\');
        } else if c > last {
            assert(s@[c] != '\\');
        }
    }
    let mut name: Vec<char> = Vec::new();
    let mut k: usize = j;
    while k < n
        invariant
            j <= k <= n,
            n == s@.len(),
            name@ == s@.subrange(j as int, k as int),
        decreases n - k,
    {
        name.push(s[k]);
        k = k + 1;
        assert(name@ =~= s@.subrange(j as int, k as int));
    }
    let m = name.len();
    if m >= 4 {
        let tail: Vec<char> = vec![name[m - 4], name[m - 3], name[m - 2], name[m - 1]];
        assert(tail@ =~= name@.subrange(m - 4, m as int));
        if chars_equal_str(tail.as_slice(), ".exe") {
            let mut stem: Vec<char> = Vec::new();
            let mut q: usize = 0;
            while q < m - 4
                invariant
                    q <= m - 4,
                    m == name@.len(),
                    stem@ == name@.subrange(0, q as int),
                decreases m - 4 - q,
            {
                stem.push(name[q]);
                q = q + 1;
                assert(stem@ =~= name@.subrange(0, q as int));
            }
            return Some(string_from_chars(stem.as_slice()));
        }
    }
    Some(string_from_chars(name.as_slice()))
}

/// The application name given to the runtime: for a Wine preloader, the
/// program it runs (when its first argument names one), else the name of
/// the executable.
pub fn get_app_name(exe_basename: &str, arg0: Option<&str>) -> (r: String)
    ensures
        ({
            let wine = exe_basename@ == "wine64-preloader"@ || exe_basename@ == "wine-preloader"@;
            let from_wine = match arg0 {
                Some(a) => spec_wine_exe_name(a@),
                None => None,
            };
            if wine && from_wine.is_some() {
                r@ == from_wine.unwrap()
            } else {
                r@ == exe_basename@
            }
        }),
{
    let wine = crate::text::str_equal(exe_basename, "wine64-preloader") || crate::text::str_equal(
        exe_basename,
        "wine-preloader",
    );
    if wine {
        match arg0 {
            Some(a) => match extract_wine_exe_name(a) {
                Some(n) => {
                    return n;
                },
                None => {},
            },
            None => {},
        }
    }
    let cs = chars_of(exe_basename);
    string_from_chars(cs.as_slice())
}

/// The OpenXR session states.
#[derive(Copy, Clone, Debug, PartialEq, Eq, Structural)]
pub enum SessionState {
    Unknown,
    Idle,
    Ready,
    Synchronized,
    Visible,
    Focused,
    Stopping,
    LossPending,
    Exiting,
}

/// How far the ending of a session has come: the exit was requested and
/// the runtime must report `Stopping`; the session was ended and it must
/// report `Exiting`; it is over.
#[derive(Copy, Clone, Debug, PartialEq, Eq, Structural)]
pub enum EndSessionPhase {
    AwaitStopping,
    AwaitExiting,
    Done,
}

/// What the runtime does next while ending a session.
#[derive(Copy, Clone, Debug, PartialEq, Eq, Structural)]
pub enum EndSessionAction {
    /// Poll the runtime's events for a new session state.
    PollEvents,
    /// Call `xrEndSession`.
    EndSession,
    Finished,
}

/// One step of ending a session, given the latest session state.
pub fn end_session_step(phase: EndSessionPhase, state: SessionState) -> (r: (EndSessionPhase, EndSessionAction))
    ensures
        r == match phase {
            EndSessionPhase::AwaitStopping => if state == SessionState::Stopping {
                (EndSessionPhase::AwaitExiting, EndSessionAction::EndSession)
            } else {
                (EndSessionPhase::AwaitStopping, EndSessionAction::PollEvents)
            },
            EndSessionPhase::AwaitExiting => if state == SessionState::Exiting {
                (EndSessionPhase::Done, EndSessionAction::Finished)
            } else {
                (EndSessionPhase::AwaitExiting, EndSessionAction::PollEvents)
            },
            EndSessionPhase::Done => (EndSessionPhase::Done, EndSessionAction::Finished),
        },
{
    match phase {
        EndSessionPhase::AwaitStopping => if state == SessionState::Stopping {
            (EndSessionPhase::AwaitExiting, EndSessionAction::EndSession)
        } else {
            (EndSessionPhase::AwaitStopping, EndSessionAction::PollEvents)
        },
        EndSessionPhase::AwaitExiting => if state == SessionState::Exiting {
            (EndSessionPhase::Done, EndSessionAction::Finished)
        } else {
            (EndSessionPhase::AwaitExiting, EndSessionAction::PollEvents)
        },
        EndSessionPhase::Done => (EndSessionPhase::Done, EndSessionAction::Finished),
    }
}

/// An event of the runtime, as the session reads it.
#[derive(Copy, Clone, Debug, PartialEq, Eq, Structural)]
pub enum XrEvent {
    SessionStateChanged(SessionState),
    InteractionProfileChanged,
    Other,
}

/// Reading one event while polling: the latest session state seen so far,
/// and whether input must hear of a changed interaction profile.
pub fn poll_event_step(latest: Option<SessionState>, event: XrEvent) -> (r: (Option<SessionState>, bool))
    ensures
        r == match event {
            XrEvent::SessionStateChanged(s) => (Some(s), false),
            XrEvent::InteractionProfileChanged => (latest, true),
            XrEvent::Other => (latest, false),
        },
{
    match event {
        XrEvent::SessionStateChanged(s) => (Some(s), false),
        XrEvent::InteractionProfileChanged => (latest, true),
        XrEvent::Other => (latest, false),
    }
}

/// The OpenXR extensions the runtime uses, by whether a runtime offers
/// (or an instance enables) them.
#[derive(Copy, Clone, Debug, PartialEq, Eq, Structural)]
pub struct Extensions {
    pub khr_vulkan_enable: bool,
    pub khr_opengl_enable: bool,
    pub khr_convert_timespec_time: bool,
    pub ext_hand_tracking: bool,
    pub khr_visibility_mask: bool,
    pub khr_composition_layer_cylinder: bool,
    pub khr_composition_layer_equirect2: bool,
    pub khr_composition_layer_color_scale_bias: bool,
    pub htc_vive_focus3_controller_interaction: bool,
    pub fb_display_refresh_rate: bool,
    /// `XR_MNDX_xdev_space` (Monado's generic tracked devices).
    pub mndx_xdev_space: bool,
}

/// The extensions to enable: each one the runtime offers; the Monado
/// device extension only where the build supports generic trackers.
pub fn enabled_extensions(supported: Extensions, generic_trackers: bool) -> (r: Extensions)
    ensures
        r == (Extensions { mndx_xdev_space: supported.mndx_xdev_space && generic_trackers, ..supported }),
{
    Extensions { mndx_xdev_space: supported.mndx_xdev_space && generic_trackers, ..supported }
}

/// The display time before the first frame: the runtime's clock where it
/// can be read, else 1.
pub fn initial_display_time(extensions: Extensions, now: Option<i64>) -> (r: i64)
    ensures
        r == (if extensions.khr_convert_timespec_time {
            match now {
                Some(t) => t,
                None => 1i64,
            }
        } else {
            1i64
        }),
{
    if extensions.khr_convert_timespec_time {
        match now {
            Some(t) => t,
            None => 1,
        }
    } else {
        1
    }
}

} // verus!
