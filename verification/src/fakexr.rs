//! The parts of the test OpenXR runtime that decide: the user paths of the
//! two hands and the order in which a session's frames are waited for,
//! begun and ended.
use vstd::prelude::*;
use crate::text::chars_equal_str;

verus! {

/// A hand's user path.
#[derive(Copy, Clone, Debug, PartialEq, Eq, Structural)]
pub enum UserPath {
    /// `/user/hand/left`
    LeftHand,
    /// `/user/hand/right`
    RightHand,
}

pub open spec fn spec_user_path_str(u: UserPath) -> Seq<char> {
    match u {
        UserPath::LeftHand => "/user/hand/left"@,
        UserPath::RightHand => "/user/hand/right"@,
    }
}

pub open spec fn spec_user_path_from(s: Seq<char>) -> Option<UserPath> {
    if s == "/user/hand/left"@ {
        Some(UserPath::LeftHand)
    } else if s == "/user/hand/right"@ {
        Some(UserPath::RightHand)
    } else {
        None
    }
}

impl UserPath {
    /// The hand a user path names, if it names one.
    pub fn from_path(s: &str) -> (r: Option<Self>)
        ensures
            r == spec_user_path_from(s@),
    {
        let cs = crate::text::chars_of(s);
        if chars_equal_str(cs.as_slice(), "/user/hand/left") {
            Some(UserPath::LeftHand)
        } else if chars_equal_str(cs.as_slice(), "/user/hand/right") {
            Some(UserPath::RightHand)
        } else {
            None
        }
    }

    /// The user path of the hand.
    pub fn as_path(&self) -> (r: &'static str)
        ensures
            r@ == spec_user_path_str(*self),
    {
        match self {
            UserPath::LeftHand => "/user/hand/left",
            UserPath::RightHand => "/user/hand/right",
        }
    }
}

/// The two user paths differ.
proof fn lemma_user_paths_differ()
    ensures
        "/user/hand/left"@ != "/user/hand/right"@,
{
    reveal_strlit("/user/hand/left");
    reveal_strlit("/user/hand/right");
    assert("/user/hand/left"@[11] != "/user/hand/right"@[11]);
}

/// Reading back the path of a hand gives that hand.
pub proof fn lemma_user_path_roundtrip(u: UserPath)
    ensures
        spec_user_path_from(spec_user_path_str(u)) == Some(u),
{
    lemma_user_paths_differ();
}

/// Where a session is in its frame loop.
#[derive(Copy, Clone, Debug, PartialEq, Eq, Structural)]
pub enum FrameState {
    Waited,
    Begun,
    Ended,
}

/// The error of a frame call made out of order
/// (`XR_ERROR_CALL_ORDER_INVALID`).
#[derive(Copy, Clone, Debug, PartialEq, Eq, Structural)]
pub enum FrameOrderError {
    CallOrderInvalid,
}

/// The state a frame call moves the session to: a waited frame must be
/// begun, an ended one waited for; a begun frame accepts any call.
pub open spec fn spec_transition(old: FrameState, new: FrameState) -> Result<FrameState, FrameOrderError> {
    match old {
        FrameState::Waited => if new == FrameState::Begun {
            Ok(new)
        } else {
            Err(FrameOrderError::CallOrderInvalid)
        },
        FrameState::Begun => Ok(new),
        FrameState::Ended => if new == FrameState::Waited {
            Ok(new)
        } else {
            Err(FrameOrderError::CallOrderInvalid)
        },
    }
}

/// Moves the session's frame state for a frame call; a refused call leaves
/// it as it was.
pub fn transition_frame_state(state: &mut FrameState, new: FrameState) -> (r: Result<(), FrameOrderError>)
    ensures
        match spec_transition(*old(state), new) {
            Ok(s) => r == Ok::<(), FrameOrderError>(()) && *final(state) == s,
            Err(e) => r == Err::<(), FrameOrderError>(e) && *final(state) == *old(state),
        },
{
    let ok = match *state {
        FrameState::Waited => new == FrameState::Begun,
        FrameState::Begun => true,
        FrameState::Ended => new == FrameState::Waited,
    };
    if ok {
        *state = new;
        Ok(())
    } else {
        Err(FrameOrderError::CallOrderInvalid)
    }
}

/// From an ended frame, waiting, beginning and ending is accepted and ends
/// where it started; any call but a wait is refused there.
pub proof fn lemma_frame_cycle(new: FrameState)
    ensures
        spec_transition(FrameState::Ended, FrameState::Waited) == Ok::<FrameState, FrameOrderError>(
            FrameState::Waited,
        ),
        spec_transition(FrameState::Waited, FrameState::Begun) == Ok::<FrameState, FrameOrderError>(
            FrameState::Begun,
        ),
        spec_transition(FrameState::Begun, FrameState::Ended) == Ok::<FrameState, FrameOrderError>(
            FrameState::Ended,
        ),
        new != FrameState::Waited ==> spec_transition(FrameState::Ended, new) is Err,
        new != FrameState::Begun ==> spec_transition(FrameState::Waited, new) is Err,
{
}

} // verus!
