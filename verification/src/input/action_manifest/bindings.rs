//! The binding files of an action manifest: action paths, pose, skeleton
//! and haptic bindings, the binding modes of input sources with their
//! parameters, and what each source binding asks of the loading context.
use vstd::prelude::*;
use crate::openxr_data::Hand;
use crate::input::paths::{DynComponent, DynInputPath, InputPathError, InputPathErrorView, parse_input_path, display_path};
use crate::input::custom_bindings::DpadDirection;
use crate::input::profiles::{Profile, profile_path_is_legal, spec_translate_path};
use crate::text::{chars_of, chars_equal_str, string_from_chars, parse_decimal, spec_parse_decimal};

verus! {

/// ASCII lower case of a character; other characters are left alone.
pub open spec fn ascii_lower(c: char) -> char {
    if 'A' <= c && c <= 'Z' {
        ((c as u32) + 32) as char
    } else {
        c
    }
}

/// ASCII lower case of a text.
pub open spec fn ascii_lowercase(s: Seq<char>) -> Seq<char> {
    Seq::new(s.len(), |i: int| ascii_lower(s[i]))
}

fn lower_char(c: char) -> (r: char)
    ensures
        r == ascii_lower(c),
{
    if 'A' <= c && c <= 'Z' {
        let u = (c as u32) + 32;
        char_from_ascii(u)
    } else {
        c
    }
}

/// The character of an ASCII code.
fn char_from_ascii(u: u32) -> (c: char)
    requires
        u < 0x80,
    ensures
        c == u as char,
{
    let b = u as u8;
    b as char
}

/// The path of an action, as the manifest gives it but in lower case:
/// action handles are case insensitive.
#[derive(Debug)]
pub struct ActionPath {
    pub path: String,
}

/// The index of the last `/` of a text.
pub open spec fn is_last_slash(s: Seq<char>, j: int) -> bool {
    &&& 0 <= j < s.len()
    &&& s[j] == '/'
    &&& forall|k: int| j < k < s.len() ==> s[k] != '/'
}

/// Whether a character may stand in an OpenXR path name unchanged.
pub open spec fn is_path_name_char(c: char) -> bool {
    ('a' <= c && c <= 'z') || ('0' <= c && c <= '9') || c == '-' || c == '_' || c == '.' || c == '/'
}

/// A character of an OpenXR path name: itself where allowed, `_` otherwise.
pub open spec fn clean_char(c: char) -> char {
    if is_path_name_char(c) {
        c
    } else {
        '_'
    }
}

/// The action name of a path: what follows its last `/`, with every
/// character OpenXR does not allow in a path name made `_`.
pub open spec fn spec_cleaned_name(s: Seq<char>) -> Seq<char> {
    let j = choose|j: int| is_last_slash(s, j);
    Seq::new((s.len() - j - 1) as nat, |i: int| clean_char(s[j + 1 + i]))
}

/// The number of `/` in a text.
pub open spec fn slash_count(s: Seq<char>) -> nat
    decreases s.len(),
{
    if s.len() == 0 {
        0
    } else {
        slash_count(s.drop_last()) + if s.last() == '/' {
            1nat
        } else {
            0nat
        }
    }
}

/// The index of the third `/` of a text.
pub open spec fn is_third_slash(s: Seq<char>, j: int) -> bool {
    &&& 0 <= j < s.len()
    &&& s[j] == '/'
    &&& slash_count(s.subrange(0, j)) == 2
}

/// The action set of an action path: the text before its third `/`
/// (`/actions/<set>` of `/actions/<set>/in/<action>`).
pub open spec fn spec_action_set_name(s: Seq<char>) -> Seq<char> {
    let j = choose|j: int| is_third_slash(s, j);
    s.subrange(0, j)
}

proof fn lemma_slash_count_step(s: Seq<char>, j: int)
    requires
        0 <= j < s.len(),
    ensures
        slash_count(s.subrange(0, j + 1)) == slash_count(s.subrange(0, j)) + if s[j] == '/' {
            1nat
        } else {
            0nat
        },
{
    assert(s.subrange(0, j + 1).drop_last() =~= s.subrange(0, j));
}

proof fn lemma_slash_count_monotone(s: Seq<char>, a: int, b: int)
    requires
        0 <= a <= b <= s.len(),
    ensures
        slash_count(s.subrange(0, a)) <= slash_count(s.subrange(0, b)),
    decreases b - a,
{
    if a < b {
        lemma_slash_count_monotone(s, a, b - 1);
        lemma_slash_count_step(s, b - 1);
    }
}

proof fn lemma_third_slash_unique(s: Seq<char>, a: int, b: int)
    requires
        is_third_slash(s, a),
        is_third_slash(s, b),
    ensures
        a == b,
{
    if a < b {
        lemma_slash_count_step(s, a);
        lemma_slash_count_monotone(s, a + 1, b);
    } else if b < a {
        lemma_slash_count_step(s, b);
        lemma_slash_count_monotone(s, b + 1, a);
    }
}

impl ActionPath {
    /// An action path as a manifest names it, put in lower case.
    pub fn new(path: &str) -> (r: Self)
        ensures
            r.path@ == ascii_lowercase(path@),
    {
        let cs = chars_of(path);
        let mut out: Vec<char> = Vec::new();
        let mut i: usize = 0;
        while i < cs.len()
            invariant
                i <= cs@.len(),
                cs@ == path@,
                out@ == ascii_lowercase(cs@.subrange(0, i as int)),
            decreases cs@.len() - i,
        {
            let c = lower_char(cs[i]);
            out.push(c);
            i = i + 1;
            assert(out@ =~= ascii_lowercase(cs@.subrange(0, i as int)));
        }
        assert(cs@.subrange(0, cs@.len() as int) =~= cs@);
        ActionPath { path: string_from_chars(out.as_slice()) }
    }

    /// The action name of the path, cleaned for OpenXR. A path without a
    /// `/` has none.
    pub fn cleaned_name(&self) -> (r: String)
        requires
            self.path@.contains('/'),
        ensures
            r@ == spec_cleaned_name(self.path@),
    {
        let s = chars_of(self.path.as_str());
        let n = s.len();
        let mut j: usize = n;
        while j > 0 && s[j - 1] != '/'
            invariant
                j <= n,
                n == s@.len(),
                s@ == self.path@,
                forall|k: int| j <= k < n ==> s@[k] != '/',
            decreases j,
        {
            j = j - 1;
        }
        if j == 0 {
            proof {
                let w = choose|w: int| 0 <= w < s@.len() && s@[w] == '/';
                assert(s@[w] != '/');
            }
        }
        let last = j - 1;
        proof {
            assert(is_last_slash(s@, last as int));
            let c = choose|c: int| is_last_slash(s@, c);
            if c < last {
                assert(s@[last as int] != '/');
            } else if c > last {
                assert(s@[c] != '/');
            }
        }
        let mut out: Vec<char> = Vec::new();
        let mut k: usize = last + 1;
        while k < n
            invariant
                last + 1 <= k <= n,
                n == s@.len(),
                out@ =~= Seq::new((k - last - 1) as nat, |i: int| clean_char(s@[last + 1 + i])),
            decreases n - k,
        {
            let c = s[k];
            let cc = if ('a' <= c && c <= 'z') || ('0' <= c && c <= '9') || c == '-' || c == '_' || c
                == '.' || c == '/' {
                c
            } else {
                '_'
            };
            out.push(cc);
            k = k + 1;
        }
        string_from_chars(out.as_slice())
    }

    /// The action set of the path. A path with fewer than three `/` has
    /// none.
    pub fn action_set_name(&self) -> (r: String)
        requires
            slash_count(self.path@) >= 3,
        ensures
            r@ == spec_action_set_name(self.path@),
    {
        let s = chars_of(self.path.as_str());
        let n = s.len();
        let mut seen: usize = 0;
        let mut j: usize = 0;
        assert(s@.subrange(0, 0) =~= Seq::<char>::empty());
        while j < n
            invariant
                j <= n,
                n == s@.len(),
                s@ == self.path@,
                seen == slash_count(s@.subrange(0, j as int)),
                seen <= 2,
                slash_count(s@) >= 3,
            decreases n - j,
        {
            proof {
                lemma_slash_count_step(s@, j as int);
            }
            if s[j] == '/' {
                if seen == 2 {
                    proof {
                        assert(is_third_slash(s@, j as int));
                        let c = choose|c: int| is_third_slash(s@, c);
                        lemma_third_slash_unique(s@, c, j as int);
                    }
                    let mut out: Vec<char> = Vec::new();
                    let mut k: usize = 0;
                    while k < j
                        invariant
                            k <= j < n,
                            n == s@.len(),
                            out@ == s@.subrange(0, k as int),
                        decreases j - k,
                    {
                        out.push(s[k]);
                        k = k + 1;
                        assert(out@ =~= s@.subrange(0, k as int));
                    }
                    return string_from_chars(out.as_slice());
                }
                seen = seen + 1;
            }
            j = j + 1;
        }
        assert(s@.subrange(0, n as int) =~= s@);
        assert(false);
        String::new()
    }
}

/// How a pose action is bound: the raw grip pose, the tip pose, or the
/// pose of the GDC 2015 controller models.
#[derive(Copy, Clone, Debug, PartialEq, Eq, Structural)]
pub enum BoundPoseType {
    Raw,
    Tip,
    Gdc2015,
}

/// Why a pose binding path was refused.
#[derive(Copy, Clone, Debug, PartialEq, Eq, Structural)]
pub enum PoseBindingError {
    /// The path has no `/`.
    MissingSlash,
    /// The part before the pose name is neither hand's pose path.
    UnknownHand,
}

/// The hand and pose type of a pose binding path
/// `/user/hand/{left,right}/pose/<pose>`; an unknown pose name is bound
/// as the raw pose.
pub open spec fn spec_parse_pose_binding(s: Seq<char>) -> Result<(Hand, BoundPoseType), PoseBindingError> {
    if !s.contains('/') {
        Err(PoseBindingError::MissingSlash)
    } else {
        let j = choose|j: int| is_last_slash(s, j);
        let hand = s.subrange(0, j);
        let pose = s.subrange(j + 1, s.len() as int);
        if hand == "/user/hand/left/pose"@ || hand == "/user/hand/right/pose"@ {
            let h = if hand == "/user/hand/left/pose"@ {
                Hand::Left
            } else {
                Hand::Right
            };
            let p = if pose == "tip"@ {
                BoundPoseType::Tip
            } else if pose == "gdc2015"@ {
                BoundPoseType::Gdc2015
            } else {
                BoundPoseType::Raw
            };
            Ok((h, p))
        } else {
            Err(PoseBindingError::UnknownHand)
        }
    }
}

fn chars_range(s: &Vec<char>, a: usize, b: usize) -> (r: Vec<char>)
    requires
        a <= b <= s@.len(),
    ensures
        r@ == s@.subrange(a as int, b as int),
{
    let mut out: Vec<char> = Vec::new();
    let mut k: usize = a;
    while k < b
        invariant
            a <= k <= b <= s@.len(),
            out@ == s@.subrange(a as int, k as int),
        decreases b - k,
    {
        out.push(s[k]);
        k = k + 1;
        assert(out@ =~= s@.subrange(a as int, k as int));
    }
    out
}

/// Reads the path of a pose binding.
pub fn parse_pose_binding(path: &str) -> (r: Result<(Hand, BoundPoseType), PoseBindingError>)
    ensures
        r == spec_parse_pose_binding(path@),
{
    let s = chars_of(path);
    let n = s.len();
    let mut j: usize = n;
    while j > 0 && s[j - 1] != '/'
        invariant
            j <= n,
            n == s@.len(),
            s@ == path@,
            forall|k: int| j <= k < n ==> s@[k] != '/',
        decreases j,
    {
        j = j - 1;
    }
    if j == 0 {
        proof {
            if s@.contains('/') {
                let w = choose|w: int| 0 <= w < s@.len() && s@[w] == '/';
                assert(s@[w] != '/');
            }
        }
        return Err(PoseBindingError::MissingSlash);
    }
    let last = j - 1;
    proof {
        assert(is_last_slash(s@, last as int));
        let c = choose|c: int| is_last_slash(s@, c);
        if c < last {
            assert(s@[last as int] != '/');
        } else if c > last {
            assert(s@[c] != '/');
        }
    }
    let hand = chars_range(&s, 0, last);
    let pose = chars_range(&s, last + 1, n);
    let h = if chars_equal_str(hand.as_slice(), "/user/hand/left/pose") {
        Hand::Left
    } else if chars_equal_str(hand.as_slice(), "/user/hand/right/pose") {
        Hand::Right
    } else {
        return Err(PoseBindingError::UnknownHand);
    };
    let p = if chars_equal_str(pose.as_slice(), "raw") {
        BoundPoseType::Raw
    } else if chars_equal_str(pose.as_slice(), "tip") {
        BoundPoseType::Tip
    } else if chars_equal_str(pose.as_slice(), "gdc2015") {
        BoundPoseType::Gdc2015
    } else {
        BoundPoseType::Raw
    };
    proof {
        reveal_strlit("/user/hand/left/pose");
        reveal_strlit("/user/hand/right/pose");
        reveal_strlit("raw");
        reveal_strlit("tip");
        reveal_strlit("gdc2015");
        assert("/user/hand/left/pose"@[11] != "/user/hand/right/pose"@[11]);
        assert("raw"@[0] != "tip"@[0]);
        assert("raw"@.len() != "gdc2015"@.len());
    }
    Ok((h, p))
}

/// The path of a source binding, kept even when it does not parse (a
/// binding file may name inputs this runtime does not know).
#[derive(Debug)]
pub enum MaybeInputPath {
    Valid(DynInputPath),
    Invalid { path: String, error: InputPathError },
}

impl MaybeInputPath {
    /// Reads a binding path.
    pub fn from_string(value: String) -> (r: Self)
        ensures
            match parse_input_path(value@) {
                Ok(p) => r == MaybeInputPath::Valid(p),
                Err(e) => r matches MaybeInputPath::Invalid { path, error } && path@ == value@
                    && error@ == e,
            },
    {
        match DynInputPath::from_str(value.as_str()) {
            Ok(p) => MaybeInputPath::Valid(p),
            Err(error) => MaybeInputPath::Invalid { path: value, error },
        }
    }
}

/// A source binding: its path, its inputs and its parameters.
#[derive(Debug)]
pub struct ActionBindingData<Inputs, Parameters> {
    pub path: MaybeInputPath,
    pub inputs: Inputs,
    pub parameters: Option<Parameters>,
}

/// A source binding whose path parsed.
pub struct ValidActionBindingData<'a, Inputs, Parameters> {
    pub path: DynInputPath,
    pub inputs: &'a Inputs,
    pub parameters: Option<&'a Parameters>,
}

impl<Inputs, Parameters> ActionBindingData<Inputs, Parameters> {
    /// The binding with its parsed path, or nothing when the path did not
    /// parse.
    pub fn validate_path(&self) -> (r: Option<ValidActionBindingData<'_, Inputs, Parameters>>)
        ensures
            match self.path {
                MaybeInputPath::Valid(p) => r matches Some(v) && v.path == p && *v.inputs
                    == self.inputs && v.parameters == match self.parameters {
                    Some(x) => Some(&x),
                    None => None::<&Parameters>,
                },
                MaybeInputPath::Invalid { .. } => r.is_none(),
            },
    {
        match &self.path {
            MaybeInputPath::Valid(path) => Some(
                ValidActionBindingData {
                    path: *path,
                    inputs: &self.inputs,
                    parameters: self.parameters.as_ref(),
                },
            ),
            MaybeInputPath::Invalid { .. } => None,
        }
    }
}

/// Which input a button's click binding reads (`force_input`).
#[derive(Copy, Clone, Debug, PartialEq, Eq, Structural)]
pub enum ButtonForceInput {
    Click,
    Value,
    Force,
    Position,
}

/// Why a `force_input` value was refused.
#[derive(Copy, Clone, Debug, PartialEq, Eq, Structural)]
pub enum ForceInputError {
    UnknownVariant,
}

/// The `force_input` of a button's parameters: absent stays absent, the
/// empty string means the click, and otherwise one of the four lower-case
/// names.
pub open spec fn spec_force_input(s: Option<Seq<char>>) -> Result<Option<ButtonForceInput>, ForceInputError> {
    match s {
        None => Ok(None),
        Some(t) => if t.len() == 0 || t == "click"@ {
            Ok(Some(ButtonForceInput::Click))
        } else if t == "value"@ {
            Ok(Some(ButtonForceInput::Value))
        } else if t == "force"@ {
            Ok(Some(ButtonForceInput::Force))
        } else if t == "position"@ {
            Ok(Some(ButtonForceInput::Position))
        } else {
            Err(ForceInputError::UnknownVariant)
        },
    }
}

impl ButtonForceInput {
    /// Reads the `force_input` parameter.
    pub fn default_deserialize(s: Option<&str>) -> (r: Result<Option<ButtonForceInput>, ForceInputError>)
        ensures
            r == spec_force_input(
                match s {
                    Some(t) => Some(t@),
                    None => None,
                },
            ),
    {
        match s {
            None => Ok(None),
            Some(t) => {
                let cs = chars_of(t);
                if cs.len() == 0 || chars_equal_str(cs.as_slice(), "click") {
                    Ok(Some(ButtonForceInput::Click))
                } else if chars_equal_str(cs.as_slice(), "value") {
                    Ok(Some(ButtonForceInput::Value))
                } else if chars_equal_str(cs.as_slice(), "force") {
                    Ok(Some(ButtonForceInput::Force))
                } else if chars_equal_str(cs.as_slice(), "position") {
                    Ok(Some(ButtonForceInput::Position))
                } else {
                    Err(ForceInputError::UnknownVariant)
                }
            },
        }
    }
}

/// Whether a dpad direction fires on a click or on a touch of the pad.
#[derive(Copy, Clone, Debug, PartialEq, Eq, Structural)]
pub enum DpadSubMode {
    Click,
    Touch,
}

/// A value that a binding file writes as a string.
#[derive(Copy, Clone, Debug)]
pub struct FromString<T>(pub T);

impl<T> FromString<T> {
    pub fn from(t: T) -> (r: Self)
        ensures
            r.0 == t,
    {
        FromString(t)
    }
}

/// The `u8` a string spells as `u8::from_str` reads it: decimal digits,
/// optionally after a `+`, of a value that fits.
pub open spec fn spec_parse_u8(s: Seq<char>) -> Option<u8> {
    match spec_parse_decimal(s, 255) {
        Some(v) => Some(v as u8),
        None => None,
    }
}

/// The `bool` a string spells as `bool::from_str` reads it.
pub open spec fn spec_parse_bool(s: Seq<char>) -> Option<bool> {
    if s == "true"@ {
        Some(true)
    } else if s == "false"@ {
        Some(false)
    } else {
        None
    }
}

impl FromString<u8> {
    /// Reads a `u8` written as a string.
    pub fn parse(s: &str) -> (r: Option<Self>)
        ensures
            match spec_parse_u8(s@) {
                Some(v) => r matches Some(x) && x.0 == v,
                None => r.is_none(),
            },
    {
        match parse_decimal(s, 255) {
            Some(v) => Some(FromString(v as u8)),
            None => None,
        }
    }
}

impl FromString<bool> {
    /// Reads a `bool` written as a string.
    pub fn parse(s: &str) -> (r: Option<Self>)
        ensures
            match spec_parse_bool(s@) {
                Some(v) => r matches Some(x) && x.0 == v,
                None => r.is_none(),
            },
    {
        if crate::text::str_equal(s, "true") {
            Some(FromString(true))
        } else if crate::text::str_equal(s, "false") {
            Some(FromString(false))
        } else {
            None
        }
    }
}

/// The parameters of a dpad binding.
#[derive(Copy, Clone, Debug)]
pub struct DpadParameters {
    pub sub_mode: DpadSubMode,
    pub deadzone_pct: FromString<u8>,
    pub overlap_pct: FromString<u8>,
    pub sticky: FromString<bool>,
}

impl Default for DpadParameters {
    /// Touch mode, a 50% dead zone and overlap, not sticky.
    fn default() -> (r: Self)
        ensures
            r.sub_mode == DpadSubMode::Touch,
            r.deadzone_pct.0 == 50,
            r.overlap_pct.0 == 50,
            r.sticky.0 == false,
    {
        DpadParameters {
            sub_mode: DpadSubMode::Touch,
            deadzone_pct: FromString(50),
            overlap_pct: FromString(50),
            sticky: FromString(false),
        }
    }
}

/// What kind of action the application declared.
#[derive(Copy, Clone, Debug, PartialEq, Eq, Structural)]
pub enum ActionKind {
    Boolean,
    Vector1,
    Vector2,
    Pose,
    Skeleton(Hand),
    Haptic,
}

/// An action of the manifest: its (lower-case) path and its kind.
#[derive(Debug)]
pub struct LoadedAction {
    pub name: String,
    pub kind: ActionKind,
}

/// The kind of the first action named `name`, if there is one.
pub open spec fn spec_action_kind(actions: Seq<LoadedAction>, name: Seq<char>) -> Option<ActionKind>
    decreases actions.len(),
{
    if actions.len() == 0 {
        None
    } else if actions[0].name@ == name {
        Some(actions[0].kind)
    } else {
        spec_action_kind(actions.drop_first(), name)
    }
}

/// The kind of the action named `name`, if the manifest has one.
pub fn find_action(actions: &Vec<LoadedAction>, name: &str) -> (r: Option<ActionKind>)
    ensures
        r == spec_action_kind(actions@, name@),
{
    let mut i: usize = 0;
    assert(actions@.subrange(0, actions@.len() as int) =~= actions@);
    while i < actions.len()
        invariant
            i <= actions@.len(),
            spec_action_kind(actions@, name@) == spec_action_kind(
                actions@.subrange(i as int, actions@.len() as int),
                name@,
            ),
        decreases actions@.len() - i,
    {
        assert(actions@.subrange(i as int, actions@.len() as int).drop_first() =~= actions@.subrange(
            i + 1,
            actions@.len() as int,
        ));
        if crate::text::str_equal(actions[i].name.as_str(), name) {
            return Some(actions[i].kind);
        }
        i = i + 1;
    }
    None
}

/// Whether the manifest has an action at `a`.
pub open spec fn has_action(actions: Seq<LoadedAction>, a: ActionPath) -> bool {
    spec_action_kind(actions, a.path@).is_some()
}

/// Decides which input path a binding may use on the profile being loaded:
/// the path itself or a stand-in, or none when the profile lacks it.
pub trait PathValidator {
    spec fn spec_validate(&self, path: DynInputPath) -> Option<DynInputPath>;

    fn validate(&self, path: DynInputPath) -> (r: Option<DynInputPath>)
        ensures
            r == self.spec_validate(path),
    ;
}

/// The validator of an interaction profile: a path is first translated to
/// the profile's stand-in for it, where it has one, and is kept when the
/// profile has that input.
#[derive(Copy, Clone, Debug)]
pub struct ProfileValidator {
    pub profile: Profile,
}

pub open spec fn profile_validate(profile: Profile, path: DynInputPath) -> Option<DynInputPath> {
    let p = match spec_translate_path(profile, path) {
        Some(t) => t,
        None => path,
    };
    if profile_path_is_legal(profile, p) {
        Some(p)
    } else {
        None
    }
}

impl PathValidator for ProfileValidator {
    open spec fn spec_validate(&self, path: DynInputPath) -> Option<DynInputPath> {
        profile_validate(self.profile, path)
    }

    fn validate(&self, path: DynInputPath) -> (r: Option<DynInputPath>) {
        let p = match self.profile.translate_path(path) {
            Some(t) => t,
            None => path,
        };
        if self.profile.is_legal(p) {
            Some(p)
        } else {
            None
        }
    }
}

/// The inputs of a button (and of a toggle button).
#[derive(Debug)]
pub struct ButtonInput {
    pub touch: Option<ActionPath>,
    /// Click can be read from another component through `force_input`.
    pub click: Option<ActionPath>,
    pub double: Option<ActionPath>,
}

/// The parameters of a button that decide where it is bound (its click
/// thresholds only tune the binding).
#[derive(Copy, Clone, Debug)]
pub struct ButtonParameters {
    pub force_input: Option<ButtonForceInput>,
}

/// The five actions of a dpad.
#[derive(Debug)]
pub struct DpadInput {
    pub east: Option<ActionPath>,
    pub south: Option<ActionPath>,
    pub north: Option<ActionPath>,
    pub west: Option<ActionPath>,
    pub center: Option<ActionPath>,
}

#[derive(Debug)]
pub struct TriggerInput {
    pub pull: Option<ActionPath>,
    pub touch: Option<ActionPath>,
    pub click: Option<ActionPath>,
}

#[derive(Debug)]
pub struct ScalarConstantInput {
    pub value: ActionPath,
}

#[derive(Debug)]
pub struct ForceSensorInput {
    pub force: ActionPath,
}

#[derive(Debug)]
pub struct GrabInput {
    pub grab: ActionPath,
}

#[derive(Debug)]
pub struct ScrollInput {
    pub scroll: ActionPath,
}

/// The inputs of a trackpad or joystick.
#[derive(Debug)]
pub struct Vector2Input {
    pub position: Option<ActionPath>,
    pub click: Option<ActionPath>,
    pub touch: Option<ActionPath>,
}

/// A source binding by its mode. The modes whose parameters only tune
/// thresholds carry none here.
#[derive(Debug)]
pub enum ActionBinding {
    /// Mode `none`: the source is left unbound.
    Ignored,
    Button(ActionBindingData<ButtonInput, ButtonParameters>),
    ToggleButton(ActionBindingData<ButtonInput, ()>),
    Dpad(ActionBindingData<DpadInput, DpadParameters>),
    Trigger(ActionBindingData<TriggerInput, ()>),
    ScalarConstant(ActionBindingData<ScalarConstantInput, ()>),
    ForceSensor(ActionBindingData<ForceSensorInput, ()>),
    Grab(ActionBindingData<GrabInput, ()>),
    Scroll(ActionBindingData<ScrollInput, ()>),
    Trackpad(ActionBindingData<Vector2Input, ()>),
    Joystick(ActionBindingData<Vector2Input, ()>),
}

/// Which input of a source binding an action is bound from.
#[derive(Copy, Clone, Debug, PartialEq, Eq, Structural)]
pub enum InputSlot {
    Touch,
    Click,
    Double,
    Pull,
    Value,
    Force,
    Grab,
    Scroll,
    Position,
}

/// The type of action a suggested binding feeds.
#[derive(Copy, Clone, Debug, PartialEq, Eq, Structural)]
pub enum OutputKind {
    Boolean,
    Float,
    Vector2,
}

/// Which thresholds a threshold binding uses: those of its binding, or the
/// low ones that turn a trigger pull into a touch.
#[derive(Copy, Clone, Debug, PartialEq, Eq, Structural)]
pub enum ThresholdParams {
    FromBinding,
    TouchConversion,
}

/// The directions of a dpad that are bound to an action of the manifest.
#[derive(Copy, Clone, Debug, PartialEq, Eq, Structural)]
pub struct DpadBound {
    pub north: bool,
    pub east: bool,
    pub south: bool,
    pub west: bool,
    pub center: bool,
}

/// What loading a source binding asks of the binding context, for the
/// source at index `source` of the list.
#[derive(Copy, Clone, Debug, PartialEq, Eq, Structural)]
pub enum BindingOp {
    /// Suggest the action of `slot` for `path` directly.
    Suggest { source: usize, slot: InputSlot, path: DynInputPath, output: OutputKind },
    /// Bind the click action through a toggle.
    Toggle { source: usize, hand: Hand, path: DynInputPath },
    /// Bind the double-tap action to the click input.
    DoubleTap { source: usize, hand: Hand, path: DynInputPath },
    /// Bind the action of `slot` through a threshold on a float (or, with
    /// `vector2`, on a 2D) input.
    Threshold {
        source: usize,
        slot: InputSlot,
        hand: Hand,
        path: DynInputPath,
        vector2: bool,
        params: ThresholdParams,
    },
    /// Bind the grab action to the force and value inputs.
    Grab { source: usize, hand: Hand, force_path: DynInputPath, value_path: DynInputPath },
    /// Bind the dpad directions that have actions to the pad at `path`.
    Dpad { source: usize, path: DynInputPath, bound: DpadBound },
}

pub open spec fn with_comp(path: DynInputPath, c: DynComponent) -> DynInputPath {
    DynInputPath { component: Some(c), ..path }
}

/// What binding an action directly to an input asks for: the partial path
/// completed with the action's component is validated and suggested.
pub open spec fn bind_op<V: PathValidator>(
    v: &V,
    source: usize,
    slot: InputSlot,
    partial: DynInputPath,
    component: Option<DynComponent>,
    output: OutputKind,
) -> Option<BindingOp> {
    let complete = match component {
        Some(c) => with_comp(partial, c),
        None => partial,
    };
    match v.spec_validate(complete) {
        Some(p) => Some(BindingOp::Suggest { source, slot, path: p, output }),
        None => None,
    }
}

pub open spec fn opt_op(o: Option<BindingOp>) -> Seq<BindingOp> {
    match o {
        Some(x) => seq![x],
        None => Seq::empty(),
    }
}

/// `bind_op` for an input the binding may leave out.
pub open spec fn bind_opt<V: PathValidator>(
    v: &V,
    present: bool,
    source: usize,
    slot: InputSlot,
    partial: DynInputPath,
    component: Option<DynComponent>,
    output: OutputKind,
) -> Seq<BindingOp> {
    if present {
        opt_op(bind_op(v, source, slot, partial, component, output))
    } else {
        Seq::empty()
    }
}

/// Binds an action to the input at `partial` completed with `component`:
/// the suggestion, or the invalid complete path.
pub fn try_bind_with_component<V: PathValidator>(
    v: &V,
    source: usize,
    slot: InputSlot,
    partial: DynInputPath,
    component: Option<DynComponent>,
    output: OutputKind,
) -> (r: Result<BindingOp, DynInputPath>)
    ensures
        match bind_op(v, source, slot, partial, component, output) {
            Some(op) => r == Ok::<BindingOp, DynInputPath>(op),
            None => r == Err::<BindingOp, DynInputPath>(
                match component {
                    Some(c) => with_comp(partial, c),
                    None => partial,
                },
            ),
        },
{
    let complete = match component {
        Some(c) => partial.with_component(c),
        None => partial,
    };
    match v.validate(complete) {
        Some(p) => Ok(BindingOp::Suggest { source, slot, path: p, output }),
        None => Err(complete),
    }
}

fn bind_opt_exec<V: PathValidator>(
    v: &V,
    present: bool,
    source: usize,
    slot: InputSlot,
    partial: DynInputPath,
    component: Option<DynComponent>,
    output: OutputKind,
) -> (r: Vec<BindingOp>)
    ensures
        r@ == bind_opt(v, present, source, slot, partial, component, output),
{
    let mut r: Vec<BindingOp> = Vec::new();
    if present {
        match try_bind_with_component(v, source, slot, partial, component, output) {
            Ok(op) => {
                r.push(op);
            },
            Err(_) => {},
        }
    }
    proof {
        assert(r@ =~= bind_opt(v, present, source, slot, partial, component, output));
    }
    r
}

/// What a toggle button asks for: its touch action bound directly, its
/// click action through a toggle on the click input.
pub open spec fn toggle_ops<V: PathValidator>(
    v: &V,
    actions: Seq<LoadedAction>,
    source: usize,
    path: DynInputPath,
    inputs: ButtonInput,
) -> Seq<BindingOp> {
    let touch = bind_opt(
        v,
        inputs.touch.is_some(),
        source,
        InputSlot::Touch,
        path,
        Some(DynComponent::Touch),
        OutputKind::Boolean,
    );
    let click = match inputs.click {
        Some(a) => match v.spec_validate(with_comp(path, DynComponent::Click)) {
            Some(cp) => if has_action(actions, a) {
                seq![BindingOp::Toggle { source, hand: path.hand, path: cp }]
            } else {
                Seq::empty()
            },
            None => Seq::empty(),
        },
        None => Seq::empty(),
    };
    touch + click
}

/// Where a button's click action is read: the component its `force_input`
/// names (the value by default, the click points of controllers differing
/// from SteamVR's), or the whole 2D input for `position`.
pub open spec fn button_click_path(path: DynInputPath, params: Option<ButtonParameters>) -> DynInputPath {
    let target = match params {
        Some(p) => match p.force_input {
            Some(t) => t,
            None => ButtonForceInput::Value,
        },
        None => ButtonForceInput::Value,
    };
    match target {
        ButtonForceInput::Click => with_comp(path, DynComponent::Click),
        ButtonForceInput::Value => with_comp(path, DynComponent::Value),
        ButtonForceInput::Force => with_comp(path, DynComponent::Force),
        ButtonForceInput::Position => path,
    }
}

/// What a button asks for: its touch action bound directly; its double
/// action through a double tap on the click input; its click action
/// through a threshold on the input `force_input` names, or directly on
/// the click input where that input is missing or is the click itself.
pub open spec fn button_ops<V: PathValidator>(
    v: &V,
    source: usize,
    path: DynInputPath,
    inputs: ButtonInput,
    params: Option<ButtonParameters>,
) -> Seq<BindingOp> {
    let touch = bind_opt(
        v,
        inputs.touch.is_some(),
        source,
        InputSlot::Touch,
        path,
        Some(DynComponent::Touch),
        OutputKind::Boolean,
    );
    let double = if inputs.double.is_some() {
        match v.spec_validate(with_comp(path, DynComponent::Click)) {
            Some(c) => seq![BindingOp::DoubleTap { source, hand: c.hand, path: c }],
            None => Seq::empty(),
        }
    } else {
        Seq::empty()
    };
    let fallback = opt_op(
        bind_op(v, source, InputSlot::Click, path, Some(DynComponent::Click), OutputKind::Boolean),
    );
    let click = if inputs.click.is_some() {
        match v.spec_validate(button_click_path(path, params)) {
            Some(p) => if p.component == Some(DynComponent::Click) {
                fallback
            } else {
                seq![
                    BindingOp::Threshold {
                        source,
                        slot: InputSlot::Click,
                        hand: p.hand,
                        path: p,
                        vector2: p.component.is_none(),
                        params: ThresholdParams::FromBinding,
                    },
                ]
            },
            None => fallback,
        }
    } else {
        Seq::empty()
    };
    touch + double + click
}

/// What a trigger asks for: pull, click and touch bound directly; a touch
/// the profile lacks is read as any pull of the trigger.
pub open spec fn trigger_ops<V: PathValidator>(
    v: &V,
    source: usize,
    path: DynInputPath,
    inputs: TriggerInput,
) -> Seq<BindingOp> {
    let pull = bind_opt(
        v,
        inputs.pull.is_some(),
        source,
        InputSlot::Pull,
        path,
        Some(DynComponent::Value),
        OutputKind::Float,
    );
    let click = bind_opt(
        v,
        inputs.click.is_some(),
        source,
        InputSlot::Click,
        path,
        Some(DynComponent::Click),
        OutputKind::Boolean,
    );
    let touch = if inputs.touch.is_some() {
        match bind_op(v, source, InputSlot::Touch, path, Some(DynComponent::Touch), OutputKind::Boolean) {
            Some(op) => seq![op],
            None => match v.spec_validate(with_comp(path, DynComponent::Value)) {
                Some(w) => seq![
                    BindingOp::Threshold {
                        source,
                        slot: InputSlot::Touch,
                        hand: w.hand,
                        path: w,
                        vector2: false,
                        params: ThresholdParams::TouchConversion,
                    },
                ],
                None => Seq::empty(),
            },
        }
    } else {
        Seq::empty()
    };
    pull + click + touch
}

/// The dpad directions whose actions the manifest has.
pub open spec fn dpad_bound(actions: Seq<LoadedAction>, inputs: DpadInput) -> DpadBound {
    DpadBound {
        north: inputs.north matches Some(a) && has_action(actions, a),
        east: inputs.east matches Some(a) && has_action(actions, a),
        south: inputs.south matches Some(a) && has_action(actions, a),
        west: inputs.west matches Some(a) && has_action(actions, a),
        center: inputs.center matches Some(a) && has_action(actions, a),
    }
}

pub open spec fn any_bound(b: DpadBound) -> bool {
    b.north || b.east || b.south || b.west || b.center
}

/// What a dpad asks for: its pad bound once for all directions that have
/// actions, when the profile has the pad and one direction has an action.
pub open spec fn dpad_ops<V: PathValidator>(
    v: &V,
    actions: Seq<LoadedAction>,
    source: usize,
    path: DynInputPath,
    inputs: DpadInput,
) -> Seq<BindingOp> {
    match v.spec_validate(path) {
        None => Seq::empty(),
        Some(_) => if any_bound(dpad_bound(actions, inputs)) {
            seq![BindingOp::Dpad { source, path, bound: dpad_bound(actions, inputs) }]
        } else {
            Seq::empty()
        },
    }
}

/// What a grab asks for: its action bound to the force and value inputs,
/// when the profile has both and the manifest has the action.
pub open spec fn grab_ops<V: PathValidator>(
    v: &V,
    actions: Seq<LoadedAction>,
    source: usize,
    path: DynInputPath,
    inputs: GrabInput,
) -> Seq<BindingOp> {
    match (
        v.spec_validate(with_comp(path, DynComponent::Force)),
        v.spec_validate(with_comp(path, DynComponent::Value)),
    ) {
        (Some(f), Some(val)) => if has_action(actions, inputs.grab) {
            seq![BindingOp::Grab { source, hand: path.hand, force_path: f, value_path: val }]
        } else {
            Seq::empty()
        },
        _ => Seq::empty(),
    }
}

/// What a trackpad or joystick asks for: click, touch and position bound
/// directly.
pub open spec fn vector2_ops<V: PathValidator>(
    v: &V,
    source: usize,
    path: DynInputPath,
    inputs: Vector2Input,
) -> Seq<BindingOp> {
    bind_opt(
        v,
        inputs.click.is_some(),
        source,
        InputSlot::Click,
        path,
        Some(DynComponent::Click),
        OutputKind::Boolean,
    ) + bind_opt(
        v,
        inputs.touch.is_some(),
        source,
        InputSlot::Touch,
        path,
        Some(DynComponent::Touch),
        OutputKind::Boolean,
    ) + bind_opt(
        v,
        inputs.position.is_some(),
        source,
        InputSlot::Position,
        path,
        None,
        OutputKind::Vector2,
    )
}

/// What the source binding at index `source` asks for; a binding whose
/// path does not parse asks for nothing.
pub open spec fn source_ops<V: PathValidator>(
    v: &V,
    actions: Seq<LoadedAction>,
    source: usize,
    b: ActionBinding,
) -> Seq<BindingOp> {
    match b {
        ActionBinding::Ignored => Seq::empty(),
        ActionBinding::ToggleButton(d) => match d.path {
            MaybeInputPath::Valid(p) => toggle_ops(v, actions, source, p, d.inputs),
            _ => Seq::empty(),
        },
        ActionBinding::Button(d) => match d.path {
            MaybeInputPath::Valid(p) => button_ops(v, source, p, d.inputs, d.parameters),
            _ => Seq::empty(),
        },
        ActionBinding::Dpad(d) => match d.path {
            MaybeInputPath::Valid(p) => dpad_ops(v, actions, source, p, d.inputs),
            _ => Seq::empty(),
        },
        ActionBinding::Trigger(d) => match d.path {
            MaybeInputPath::Valid(p) => trigger_ops(v, source, p, d.inputs),
            _ => Seq::empty(),
        },
        ActionBinding::ScalarConstant(d) => match d.path {
            MaybeInputPath::Valid(p) => opt_op(
                bind_op(v, source, InputSlot::Value, p, Some(DynComponent::Value), OutputKind::Float),
            ),
            _ => Seq::empty(),
        },
        ActionBinding::ForceSensor(d) => match d.path {
            MaybeInputPath::Valid(p) => opt_op(
                bind_op(v, source, InputSlot::Force, p, Some(DynComponent::Force), OutputKind::Float),
            ),
            _ => Seq::empty(),
        },
        ActionBinding::Grab(d) => match d.path {
            MaybeInputPath::Valid(p) => grab_ops(v, actions, source, p, d.inputs),
            _ => Seq::empty(),
        },
        ActionBinding::Scroll(d) => match d.path {
            MaybeInputPath::Valid(p) => opt_op(
                bind_op(v, source, InputSlot::Scroll, p, None, OutputKind::Vector2),
            ),
            _ => Seq::empty(),
        },
        ActionBinding::Trackpad(d) => match d.path {
            MaybeInputPath::Valid(p) => vector2_ops(v, source, p, d.inputs),
            _ => Seq::empty(),
        },
        ActionBinding::Joystick(d) => match d.path {
            MaybeInputPath::Valid(p) => vector2_ops(v, source, p, d.inputs),
            _ => Seq::empty(),
        },
    }
}

/// What all the source bindings of an action set ask for, in order.
pub open spec fn sources_ops<V: PathValidator>(
    v: &V,
    actions: Seq<LoadedAction>,
    sources: Seq<ActionBinding>,
) -> Seq<BindingOp>
    decreases sources.len(),
{
    if sources.len() == 0 {
        Seq::empty()
    } else {
        sources_ops(v, actions, sources.drop_last()) + source_ops(
            v,
            actions,
            (sources.len() - 1) as usize,
            sources.last(),
        )
    }
}

fn has_action_exec(actions: &Vec<LoadedAction>, a: &ActionPath) -> (r: bool)
    ensures
        r == has_action(actions@, *a),
{
    find_action(actions, a.path.as_str()).is_some()
}

fn toggle_ops_exec<V: PathValidator>(
    v: &V,
    actions: &Vec<LoadedAction>,
    source: usize,
    path: DynInputPath,
    inputs: &ButtonInput,
) -> (r: Vec<BindingOp>)
    ensures
        r@ == toggle_ops(v, actions@, source, path, *inputs),
{
    let mut r = bind_opt_exec(
        v,
        inputs.touch.is_some(),
        source,
        InputSlot::Touch,
        path,
        Some(DynComponent::Touch),
        OutputKind::Boolean,
    );
    let ghost touch = r@;
    match &inputs.click {
        Some(a) => match v.validate(path.with_component(DynComponent::Click)) {
            Some(cp) => {
                if has_action_exec(actions, a) {
                    r.push(BindingOp::Toggle { source, hand: path.hand, path: cp });
                }
            },
            None => {},
        },
        None => {},
    }
    proof {
        assert(r@ =~= toggle_ops(v, actions@, source, path, *inputs));
    }
    r
}

fn button_ops_exec<V: PathValidator>(
    v: &V,
    source: usize,
    path: DynInputPath,
    inputs: &ButtonInput,
    params: Option<&ButtonParameters>,
) -> (r: Vec<BindingOp>)
    ensures
        r@ == button_ops(
            v,
            source,
            path,
            *inputs,
            match params {
                Some(p) => Some(*p),
                None => None,
            },
        ),
{
    let ghost ps = match params {
        Some(p) => Some(*p),
        None => None::<ButtonParameters>,
    };
    let mut r = bind_opt_exec(
        v,
        inputs.touch.is_some(),
        source,
        InputSlot::Touch,
        path,
        Some(DynComponent::Touch),
        OutputKind::Boolean,
    );
    let ghost r1 = r@;
    let click_path = path.with_component(DynComponent::Click);
    if inputs.double.is_some() {
        match v.validate(click_path) {
            Some(c) => {
                r.push(BindingOp::DoubleTap { source, hand: c.hand, path: c });
            },
            None => {},
        }
    }
    let ghost r2 = r@;
    if inputs.click.is_some() {
        let target = match params {
            Some(p) => match p.force_input {
                Some(t) => t,
                None => ButtonForceInput::Value,
            },
            None => ButtonForceInput::Value,
        };
        let complete = match target {
            ButtonForceInput::Click => path.with_component(DynComponent::Click),
            ButtonForceInput::Value => path.with_component(DynComponent::Value),
            ButtonForceInput::Force => path.with_component(DynComponent::Force),
            ButtonForceInput::Position => path,
        };
        assert(complete == button_click_path(path, ps));
        let checked = v.validate(complete);
        let use_click = match checked {
            None => true,
            Some(p) => p.component == Some(DynComponent::Click),
        };
        if use_click {
            match try_bind_with_component(
                v,
                source,
                InputSlot::Click,
                path,
                Some(DynComponent::Click),
                OutputKind::Boolean,
            ) {
                Ok(op) => {
                    r.push(op);
                },
                Err(_) => {},
            }
        } else {
            let p = checked.unwrap();
            r.push(
                BindingOp::Threshold {
                    source,
                    slot: InputSlot::Click,
                    hand: p.hand,
                    path: p,
                    vector2: p.component.is_none(),
                    params: ThresholdParams::FromBinding,
                },
            );
        }
    }
    proof {
        assert(r@ =~= button_ops(v, source, path, *inputs, ps));
    }
    r
}

fn trigger_ops_exec<V: PathValidator>(v: &V, source: usize, path: DynInputPath, inputs: &TriggerInput) -> (r:
    Vec<BindingOp>)
    ensures
        r@ == trigger_ops(v, source, path, *inputs),
{
    let mut r = bind_opt_exec(
        v,
        inputs.pull.is_some(),
        source,
        InputSlot::Pull,
        path,
        Some(DynComponent::Value),
        OutputKind::Float,
    );
    let mut c = bind_opt_exec(
        v,
        inputs.click.is_some(),
        source,
        InputSlot::Click,
        path,
        Some(DynComponent::Click),
        OutputKind::Boolean,
    );
    r.append(&mut c);
    if inputs.touch.is_some() {
        match try_bind_with_component(
            v,
            source,
            InputSlot::Touch,
            path,
            Some(DynComponent::Touch),
            OutputKind::Boolean,
        ) {
            Ok(op) => {
                r.push(op);
            },
            Err(_) => {
                match v.validate(path.with_component(DynComponent::Value)) {
                    Some(w) => {
                        r.push(
                            BindingOp::Threshold {
                                source,
                                slot: InputSlot::Touch,
                                hand: w.hand,
                                path: w,
                                vector2: false,
                                params: ThresholdParams::TouchConversion,
                            },
                        );
                    },
                    None => {},
                }
            },
        }
    }
    proof {
        assert(r@ =~= trigger_ops(v, source, path, *inputs));
    }
    r
}

fn present_and_found(actions: &Vec<LoadedAction>, a: &Option<ActionPath>) -> (r: bool)
    ensures
        r == (*a matches Some(x) && has_action(actions@, x)),
{
    match a {
        Some(x) => has_action_exec(actions, x),
        None => false,
    }
}

/// The directions of a dpad that are bound to an action of the manifest.
pub fn dpad_bound_actions(actions: &Vec<LoadedAction>, inputs: &DpadInput) -> (r: DpadBound)
    ensures
        r == dpad_bound(actions@, *inputs),
{
    DpadBound {
        north: present_and_found(actions, &inputs.north),
        east: present_and_found(actions, &inputs.east),
        south: present_and_found(actions, &inputs.south),
        west: present_and_found(actions, &inputs.west),
        center: present_and_found(actions, &inputs.center),
    }
}

fn dpad_ops_exec<V: PathValidator>(
    v: &V,
    actions: &Vec<LoadedAction>,
    source: usize,
    path: DynInputPath,
    inputs: &DpadInput,
) -> (r: Vec<BindingOp>)
    ensures
        r@ == dpad_ops(v, actions@, source, path, *inputs),
{
    let mut r: Vec<BindingOp> = Vec::new();
    match v.validate(path) {
        None => {},
        Some(_) => {
            let b = dpad_bound_actions(actions, inputs);
            if b.north || b.east || b.south || b.west || b.center {
                r.push(BindingOp::Dpad { source, path, bound: b });
            }
        },
    }
    proof {
        assert(r@ =~= dpad_ops(v, actions@, source, path, *inputs));
    }
    r
}

fn grab_ops_exec<V: PathValidator>(
    v: &V,
    actions: &Vec<LoadedAction>,
    source: usize,
    path: DynInputPath,
    inputs: &GrabInput,
) -> (r: Vec<BindingOp>)
    ensures
        r@ == grab_ops(v, actions@, source, path, *inputs),
{
    let mut r: Vec<BindingOp> = Vec::new();
    let f = v.validate(path.with_component(DynComponent::Force));
    let val = v.validate(path.with_component(DynComponent::Value));
    match (f, val) {
        (Some(f), Some(val)) => {
            if has_action_exec(actions, &inputs.grab) {
                r.push(BindingOp::Grab { source, hand: path.hand, force_path: f, value_path: val });
            }
        },
        _ => {},
    }
    proof {
        assert(r@ =~= grab_ops(v, actions@, source, path, *inputs));
    }
    r
}

fn vector2_ops_exec<V: PathValidator>(v: &V, source: usize, path: DynInputPath, inputs: &Vector2Input) -> (r:
    Vec<BindingOp>)
    ensures
        r@ == vector2_ops(v, source, path, *inputs),
{
    let mut r = bind_opt_exec(
        v,
        inputs.click.is_some(),
        source,
        InputSlot::Click,
        path,
        Some(DynComponent::Click),
        OutputKind::Boolean,
    );
    let mut t = bind_opt_exec(
        v,
        inputs.touch.is_some(),
        source,
        InputSlot::Touch,
        path,
        Some(DynComponent::Touch),
        OutputKind::Boolean,
    );
    let mut q = bind_opt_exec(
        v,
        inputs.position.is_some(),
        source,
        InputSlot::Position,
        path,
        None,
        OutputKind::Vector2,
    );
    r.append(&mut t);
    r.append(&mut q);
    r
}

fn single_op_exec<V: PathValidator>(
    v: &V,
    source: usize,
    slot: InputSlot,
    path: DynInputPath,
    component: Option<DynComponent>,
    output: OutputKind,
) -> (r: Vec<BindingOp>)
    ensures
        r@ == opt_op(bind_op(v, source, slot, path, component, output)),
{
    bind_opt_exec(v, true, source, slot, path, component, output)
}

/// What the source binding at index `source` asks for.
pub fn handle_source<V: PathValidator>(
    v: &V,
    actions: &Vec<LoadedAction>,
    source: usize,
    b: &ActionBinding,
) -> (r: Vec<BindingOp>)
    ensures
        r@ == source_ops(v, actions@, source, *b),
{
    match b {
        ActionBinding::Ignored => Vec::new(),
        ActionBinding::ToggleButton(d) => match d.validate_path() {
            Some(x) => toggle_ops_exec(v, actions, source, x.path, x.inputs),
            None => Vec::new(),
        },
        ActionBinding::Button(d) => match d.validate_path() {
            Some(x) => button_ops_exec(v, source, x.path, x.inputs, x.parameters),
            None => Vec::new(),
        },
        ActionBinding::Dpad(d) => match d.validate_path() {
            Some(x) => dpad_ops_exec(v, actions, source, x.path, x.inputs),
            None => Vec::new(),
        },
        ActionBinding::Trigger(d) => match d.validate_path() {
            Some(x) => trigger_ops_exec(v, source, x.path, x.inputs),
            None => Vec::new(),
        },
        ActionBinding::ScalarConstant(d) => match d.validate_path() {
            Some(x) => single_op_exec(
                v,
                source,
                InputSlot::Value,
                x.path,
                Some(DynComponent::Value),
                OutputKind::Float,
            ),
            None => Vec::new(),
        },
        ActionBinding::ForceSensor(d) => match d.validate_path() {
            Some(x) => single_op_exec(
                v,
                source,
                InputSlot::Force,
                x.path,
                Some(DynComponent::Force),
                OutputKind::Float,
            ),
            None => Vec::new(),
        },
        ActionBinding::Grab(d) => match d.validate_path() {
            Some(x) => grab_ops_exec(v, actions, source, x.path, x.inputs),
            None => Vec::new(),
        },
        ActionBinding::Scroll(d) => match d.validate_path() {
            Some(x) => single_op_exec(v, source, InputSlot::Scroll, x.path, None, OutputKind::Vector2),
            None => Vec::new(),
        },
        ActionBinding::Trackpad(d) => match d.validate_path() {
            Some(x) => vector2_ops_exec(v, source, x.path, x.inputs),
            None => Vec::new(),
        },
        ActionBinding::Joystick(d) => match d.validate_path() {
            Some(x) => vector2_ops_exec(v, source, x.path, x.inputs),
            None => Vec::new(),
        },
    }
}

/// What the source bindings of an action set ask of the binding context,
/// in order: each op names the index of its source binding.
pub fn handle_sources<V: PathValidator>(v: &V, actions: &Vec<LoadedAction>, sources: &Vec<ActionBinding>) -> (r:
    Vec<BindingOp>)
    ensures
        r@ == sources_ops(v, actions@, sources@),
{
    let mut ops: Vec<BindingOp> = Vec::new();
    let mut i: usize = 0;
    assert(sources@.subrange(0, 0) =~= Seq::<ActionBinding>::empty());
    while i < sources.len()
        invariant
            i <= sources@.len(),
            ops@ == sources_ops(v, actions@, sources@.subrange(0, i as int)),
        decreases sources@.len() - i,
    {
        let mut more = handle_source(v, actions, i, &sources[i]);
        proof {
            let sub = sources@.subrange(0, i + 1);
            assert(sub.drop_last() =~= sources@.subrange(0, i as int));
            assert(sub.last() == sources@[i as int]);
        }
        ops.append(&mut more);
        i = i + 1;
    }
    assert(sources@.subrange(0, sources@.len() as int) =~= sources@);
    ops
}

/// A pose binding: the pose action and the hand and pose it is bound to.
#[derive(Debug)]
pub struct PoseBinding {
    pub output: ActionPath,
    pub path: (Hand, BoundPoseType),
}

/// A haptic or skeleton binding: an action and the path it is bound to.
#[derive(Debug)]
pub struct SimpleActionBinding {
    pub output: ActionPath,
    pub path: String,
}

/// The poses a pose action is bound to, per hand.
#[derive(Copy, Clone, Debug, PartialEq, Eq, Structural)]
pub struct BoundPose {
    pub left: Option<BoundPoseType>,
    pub right: Option<BoundPoseType>,
}

/// The bound poses of one pose action.
#[derive(Debug)]
pub struct PoseBindingEntry {
    pub action: String,
    pub pose: BoundPose,
}

/// The bound poses, by action name.
pub open spec fn pose_view(s: Seq<PoseBindingEntry>) -> Seq<(Seq<char>, BoundPose)> {
    Seq::new(s.len(), |i: int| (s[i].action@, s[i].pose))
}

/// The index of the first entry for `name`.
pub open spec fn first_entry(entries: Seq<(Seq<char>, BoundPose)>, name: Seq<char>) -> Option<int>
    decreases entries.len(),
{
    if entries.len() == 0 {
        None
    } else if entries.last().0 == name && first_entry(entries.drop_last(), name).is_none() {
        Some(entries.len() - 1)
    } else {
        first_entry(entries.drop_last(), name)
    }
}

/// The bound poses of the action `name`.
pub open spec fn pose_for(entries: Seq<(Seq<char>, BoundPose)>, name: Seq<char>) -> Option<BoundPose> {
    match first_entry(entries, name) {
        Some(i) => Some(entries[i].1),
        None => None,
    }
}

/// A bound pose with the pose of `hand` set.
pub open spec fn set_hand(b: BoundPose, hand: Hand, p: BoundPoseType) -> BoundPose {
    match hand {
        Hand::Left => BoundPose { left: Some(p), ..b },
        Hand::Right => BoundPose { right: Some(p), ..b },
    }
}

/// The entries after binding `hand` of the action `name` to the pose `p`:
/// its entry is updated, or made when it has none.
pub open spec fn bind_pose(entries: Seq<(Seq<char>, BoundPose)>, name: Seq<char>, hand: Hand, p: BoundPoseType) -> Seq<
    (Seq<char>, BoundPose),
> {
    match first_entry(entries, name) {
        Some(i) => entries.update(i, (name, set_hand(entries[i].1, hand, p))),
        None => entries.push((name, set_hand(BoundPose { left: None, right: None }, hand, p))),
    }
}

/// The entries after the pose bindings, those whose action the manifest
/// lacks being skipped.
pub open spec fn spec_pose_bindings(
    actions: Seq<LoadedAction>,
    entries: Seq<(Seq<char>, BoundPose)>,
    bindings: Seq<PoseBinding>,
) -> Seq<(Seq<char>, BoundPose)>
    decreases bindings.len(),
{
    if bindings.len() == 0 {
        entries
    } else {
        let before = spec_pose_bindings(actions, entries, bindings.drop_last());
        let b = bindings.last();
        if has_action(actions, b.output) {
            bind_pose(before, b.output.path@, b.path.0, b.path.1)
        } else {
            before
        }
    }
}

proof fn lemma_first_entry_props(entries: Seq<(Seq<char>, BoundPose)>, name: Seq<char>)
    ensures
        match first_entry(entries, name) {
            Some(i) => 0 <= i < entries.len() && entries[i].0 == name && forall|k: int|
                0 <= k < i ==> entries[k].0 != name,
            None => forall|k: int| 0 <= k < entries.len() ==> entries[k].0 != name,
        },
    decreases entries.len(),
{
    if entries.len() > 0 {
        let d = entries.drop_last();
        lemma_first_entry_props(d, name);
        match first_entry(d, name) {
            Some(i) => {
                assert(d[i] == entries[i]);
                assert forall|k: int| 0 <= k < i implies entries[k].0 != name by {
                    assert(d[k] == entries[k]);
                }
            },
            None => {
                assert forall|k: int| 0 <= k < entries.len() - 1 implies entries[k].0 != name by {
                    assert(d[k] == entries[k]);
                }
            },
        }
    }
}

proof fn lemma_first_entry_at(entries: Seq<(Seq<char>, BoundPose)>, name: Seq<char>, i: int)
    requires
        0 <= i < entries.len(),
        entries[i].0 == name,
        forall|k: int| 0 <= k < i ==> entries[k].0 != name,
    ensures
        first_entry(entries, name) == Some(i),
    decreases entries.len(),
{
    if i < entries.len() - 1 {
        lemma_first_entry_at(entries.drop_last(), name, i);
    } else {
        lemma_first_entry_props(entries.drop_last(), name);
    }
}

/// Finds the entry of an action.
fn find_pose_entry(entries: &Vec<PoseBindingEntry>, name: &str) -> (r: Option<usize>)
    ensures
        match r {
            Some(i) => first_entry(pose_view(entries@), name@) == Some(i as int),
            None => first_entry(pose_view(entries@), name@).is_none(),
        },
{
    let ghost ev = pose_view(entries@);
    let mut i: usize = 0;
    while i < entries.len()
        invariant
            i <= entries@.len(),
            ev == pose_view(entries@),
            forall|k: int| 0 <= k < i ==> ev[k].0 != name@,
        decreases entries@.len() - i,
    {
        if crate::text::str_equal(entries[i].action.as_str(), name) {
            proof {
                lemma_first_entry_at(ev, name@, i as int);
            }
            return Some(i);
        }
        i = i + 1;
    }
    proof {
        lemma_first_entry_props(ev, name@);
        if let Some(j) = first_entry(ev, name@) {
            assert(ev[j].0 == name@);
        }
    }
    None
}

/// Records the pose bindings: each binding whose action the manifest has
/// sets the pose of its hand for that action. The manifest declares each
/// bound action as a pose action.
pub fn handle_pose_bindings(
    actions: &Vec<LoadedAction>,
    pose_bindings: &mut Vec<PoseBindingEntry>,
    bindings: &Vec<PoseBinding>,
)
    requires
        forall|i: int|
            0 <= i < bindings@.len() && has_action(actions@, #[trigger] bindings@[i].output)
                ==> spec_action_kind(actions@, bindings@[i].output.path@) == Some(ActionKind::Pose),
    ensures
        pose_view(final(pose_bindings)@) == spec_pose_bindings(
            actions@,
            pose_view(old(pose_bindings)@),
            bindings@,
        ),
{
    let ghost start = pose_view(pose_bindings@);
    let mut i: usize = 0;
    assert(bindings@.subrange(0, 0) =~= Seq::<PoseBinding>::empty());
    while i < bindings.len()
        invariant
            i <= bindings@.len(),
            pose_view(pose_bindings@) == spec_pose_bindings(
                actions@,
                start,
                bindings@.subrange(0, i as int),
            ),
        decreases bindings@.len() - i,
    {
        let b = &bindings[i];
        proof {
            let sub = bindings@.subrange(0, i + 1);
            assert(sub.drop_last() =~= bindings@.subrange(0, i as int));
            assert(sub.last() == bindings@[i as int]);
        }
        if has_action_exec(actions, &b.output) {
            let (hand, pose_ty) = b.path;
            let ghost before = pose_view(pose_bindings@);
            match find_pose_entry(pose_bindings, b.output.path.as_str()) {
                Some(k) => {
                    proof {
                        lemma_first_entry_props(before, b.output.path@);
                    }
                    let old_pose = pose_bindings[k].pose;
                    let new_pose = match hand {
                        Hand::Left => BoundPose { left: Some(pose_ty), ..old_pose },
                        Hand::Right => BoundPose { right: Some(pose_ty), ..old_pose },
                    };
                    let name = pose_bindings[k].action.clone();
                    pose_bindings.set(k, PoseBindingEntry { action: name, pose: new_pose });
                    proof {
                        lemma_first_entry_props(before, b.output.path@);
                        assert(pose_view(pose_bindings@) =~= bind_pose(
                            before,
                            b.output.path@,
                            hand,
                            pose_ty,
                        ));
                    }
                },
                None => {
                    let new_pose = match hand {
                        Hand::Left => BoundPose { left: Some(pose_ty), right: None },
                        Hand::Right => BoundPose { left: None, right: Some(pose_ty) },
                    };
                    let name = b.output.path.clone();
                    pose_bindings.push(PoseBindingEntry { action: name, pose: new_pose });
                    proof {
                        assert(pose_view(pose_bindings@) =~= bind_pose(
                            before,
                            b.output.path@,
                            hand,
                            pose_ty,
                        ));
                    }
                },
            }
        }
        i = i + 1;
    }
    assert(bindings@.subrange(0, bindings@.len() as int) =~= bindings@);
}

/// Binding a hand of an action to a pose sets that hand's pose of the
/// action and leaves its other hand, and every other action, as they were.
pub proof fn lemma_bind_pose_sets_only_its_hand(
    entries: Seq<(Seq<char>, BoundPose)>,
    name: Seq<char>,
    hand: Hand,
    p: BoundPoseType,
    other: Seq<char>,
)
    ensures
        pose_for(bind_pose(entries, name, hand, p), name) == Some(
            set_hand(
                match pose_for(entries, name) {
                    Some(b) => b,
                    None => BoundPose { left: None, right: None },
                },
                hand,
                p,
            ),
        ),
        other != name ==> pose_for(bind_pose(entries, name, hand, p), other) == pose_for(
            entries,
            other,
        ),
{
    let after = bind_pose(entries, name, hand, p);
    lemma_first_entry_props(entries, name);
    lemma_first_entry_props(entries, other);
    match first_entry(entries, name) {
        Some(i) => {
            lemma_first_entry_at(after, name, i);
            if other != name {
                match first_entry(entries, other) {
                    Some(j) => {
                        lemma_first_entry_at(after, other, j);
                    },
                    None => {
                        lemma_first_entry_props(after, other);
                        if let Some(j) = first_entry(after, other) {
                            assert(after[j].0 == other);
                            assert(entries[j].0 == other || j == i);
                        }
                    },
                }
            }
        },
        None => {
            lemma_first_entry_at(after, name, entries.len() as int);
            if other != name {
                match first_entry(entries, other) {
                    Some(j) => {
                        lemma_first_entry_at(after, other, j);
                    },
                    None => {
                        lemma_first_entry_props(after, other);
                        if let Some(j) = first_entry(after, other) {
                            assert(after[j].0 == other);
                        }
                    },
                }
            }
        },
    }
}

/// What became of a skeleton binding.
#[derive(Copy, Clone, Debug, PartialEq, Eq, Structural)]
pub enum SkeletonBindingCheck {
    /// The manifest has no such action; the binding is skipped.
    NoAction,
    /// The path is neither hand's skeleton.
    InvalidPath,
    /// The action was declared for one hand and is bound to the other.
    HandMismatch { declared: Hand, bound: Hand },
    /// The action is bound to the skeleton of its hand.
    Bound(Hand),
}

pub open spec fn spec_skeleton_check(actions: Seq<LoadedAction>, b: SimpleActionBinding) -> SkeletonBindingCheck {
    match spec_action_kind(actions, b.output.path@) {
        Some(ActionKind::Skeleton(h)) => {
            if b.path@ == "/user/hand/left/input/skeleton/left"@ || b.path@
                == "/user/hand/right/input/skeleton/right"@ {
                let bound = if b.path@ == "/user/hand/left/input/skeleton/left"@ {
                    Hand::Left
                } else {
                    Hand::Right
                };
                if bound != h {
                    SkeletonBindingCheck::HandMismatch { declared: h, bound }
                } else {
                    SkeletonBindingCheck::Bound(h)
                }
            } else {
                SkeletonBindingCheck::InvalidPath
            }
        },
        _ => SkeletonBindingCheck::NoAction,
    }
}

/// Checks the skeleton bindings, each against the hand its action was
/// declared for. The manifest declares each bound action as a skeleton
/// action.
pub fn handle_skeleton_bindings(actions: &Vec<LoadedAction>, bindings: &Vec<SimpleActionBinding>) -> (r: Vec<
    SkeletonBindingCheck,
>)
    requires
        forall|i: int|
            0 <= i < bindings@.len() && has_action(actions@, #[trigger] bindings@[i].output)
                ==> spec_action_kind(actions@, bindings@[i].output.path@) matches Some(
                ActionKind::Skeleton(_),
            ),
    ensures
        r@.len() == bindings@.len(),
        forall|i: int|
            0 <= i < bindings@.len() ==> r@[i] == spec_skeleton_check(actions@, #[trigger] bindings@[i]),
{
    let mut r: Vec<SkeletonBindingCheck> = Vec::new();
    let mut i: usize = 0;
    while i < bindings.len()
        invariant
            i <= bindings@.len(),
            r@.len() == i,
            forall|k: int|
                0 <= k < i ==> r@[k] == spec_skeleton_check(actions@, #[trigger] bindings@[k]),
            forall|k: int|
                0 <= k < bindings@.len() && has_action(actions@, #[trigger] bindings@[k].output)
                    ==> spec_action_kind(actions@, bindings@[k].output.path@) matches Some(
                    ActionKind::Skeleton(_),
                ),
        decreases bindings@.len() - i,
    {
        let b = &bindings[i];
        let check = match find_action(actions, b.output.path.as_str()) {
            None => SkeletonBindingCheck::NoAction,
            Some(kind) => {
                assert(has_action(actions@, bindings@[i as int].output));
                let h = match kind {
                    ActionKind::Skeleton(h) => h,
                    _ => {
                        assert(false);
                        Hand::Left
                    },
                };
                if crate::text::str_equal(b.path.as_str(), "/user/hand/left/input/skeleton/left") {
                    if h != Hand::Left {
                        SkeletonBindingCheck::HandMismatch { declared: h, bound: Hand::Left }
                    } else {
                        SkeletonBindingCheck::Bound(h)
                    }
                } else if crate::text::str_equal(
                    b.path.as_str(),
                    "/user/hand/right/input/skeleton/right",
                ) {
                    if h != Hand::Right {
                        SkeletonBindingCheck::HandMismatch { declared: h, bound: Hand::Right }
                    } else {
                        SkeletonBindingCheck::Bound(h)
                    }
                } else {
                    SkeletonBindingCheck::InvalidPath
                }
            },
        };
        r.push(check);
        i = i + 1;
    }
    r
}

/// Whether a path is one of the two haptic outputs.
pub open spec fn is_haptic_path(p: Seq<char>) -> bool {
    p == "/user/hand/left/output/haptic"@ || p == "/user/hand/right/output/haptic"@
}

/// The indices of the haptic bindings that are pushed: those on a haptic
/// output whose action the manifest has, in order.
pub open spec fn spec_haptic_pushes(actions: Seq<LoadedAction>, bindings: Seq<SimpleActionBinding>) -> Seq<usize>
    decreases bindings.len(),
{
    if bindings.len() == 0 {
        Seq::empty()
    } else {
        let b = bindings.last();
        spec_haptic_pushes(actions, bindings.drop_last()) + if is_haptic_path(b.path@) && has_action(
            actions,
            b.output,
        ) {
            seq![(bindings.len() - 1) as usize]
        } else {
            Seq::empty()
        }
    }
}

/// The haptic bindings to push, by index. The manifest declares each bound
/// action as a haptic action.
pub fn handle_haptic_bindings(actions: &Vec<LoadedAction>, bindings: &Vec<SimpleActionBinding>) -> (r: Vec<usize>)
    requires
        forall|i: int|
            0 <= i < bindings@.len() && is_haptic_path(bindings@[i].path@) && has_action(
                actions@,
                #[trigger] bindings@[i].output,
            ) ==> spec_action_kind(actions@, bindings@[i].output.path@) == Some(ActionKind::Haptic),
    ensures
        r@ == spec_haptic_pushes(actions@, bindings@),
{
    let mut r: Vec<usize> = Vec::new();
    let mut i: usize = 0;
    assert(bindings@.subrange(0, 0) =~= Seq::<SimpleActionBinding>::empty());
    while i < bindings.len()
        invariant
            i <= bindings@.len(),
            r@ == spec_haptic_pushes(actions@, bindings@.subrange(0, i as int)),
        decreases bindings@.len() - i,
    {
        let b = &bindings[i];
        proof {
            let sub = bindings@.subrange(0, i + 1);
            assert(sub.drop_last() =~= bindings@.subrange(0, i as int));
            assert(sub.last() == bindings@[i as int]);
        }
        let haptic = crate::text::str_equal(b.path.as_str(), "/user/hand/left/output/haptic")
            || crate::text::str_equal(b.path.as_str(), "/user/hand/right/output/haptic");
        if haptic && has_action_exec(actions, &b.output) {
            r.push(i);
        }
        i = i + 1;
    }
    assert(bindings@.subrange(0, bindings@.len() as int) =~= bindings@);
    r
}

/// The extra actions the runtime makes beside an application's action to
/// carry a custom binding.
#[derive(Copy, Clone, Debug, PartialEq, Eq, Structural)]
pub enum ExtraActionType {
    /// The float or 2D action a threshold binding reads.
    Analog,
    /// The value action of a grab binding.
    GrabTouch,
    /// The force action of a grab binding.
    GrabForce,
    /// The 2D action of a dpad's pad.
    DpadDirection,
    ToggleAction,
    Double,
}

/// The extra actions a binding op makes: none for a direct suggestion.
pub open spec fn spec_extra_actions(op: BindingOp) -> Seq<ExtraActionType> {
    match op {
        BindingOp::Suggest { .. } => Seq::empty(),
        BindingOp::Toggle { .. } => seq![ExtraActionType::ToggleAction],
        BindingOp::DoubleTap { .. } => seq![ExtraActionType::Double],
        BindingOp::Threshold { .. } => seq![ExtraActionType::Analog],
        BindingOp::Grab { .. } => seq![ExtraActionType::GrabForce, ExtraActionType::GrabTouch],
        BindingOp::Dpad { .. } => seq![ExtraActionType::DpadDirection],
    }
}

/// The extra actions a binding op makes.
pub fn extra_actions_for(op: &BindingOp) -> (r: Vec<ExtraActionType>)
    ensures
        r@ == spec_extra_actions(*op),
{
    let r = match op {
        BindingOp::Suggest { .. } => Vec::new(),
        BindingOp::Toggle { .. } => vec![ExtraActionType::ToggleAction],
        BindingOp::DoubleTap { .. } => vec![ExtraActionType::Double],
        BindingOp::Threshold { .. } => vec![ExtraActionType::Analog],
        BindingOp::Grab { .. } => vec![ExtraActionType::GrabForce, ExtraActionType::GrabTouch],
        BindingOp::Dpad { .. } => vec![ExtraActionType::DpadDirection],
    };
    proof {
        assert(r@ =~= spec_extra_actions(*op));
    }
    r
}

/// Whether a path is one the validator gives for some path.
pub open spec fn is_validated<V: PathValidator>(v: &V, p: DynInputPath) -> bool {
    exists|q: DynInputPath| v.spec_validate(q) == Some(p)
}

/// The source binding an op comes from.
pub open spec fn op_source(op: BindingOp) -> usize {
    match op {
        BindingOp::Suggest { source, .. } => source,
        BindingOp::Toggle { source, .. } => source,
        BindingOp::DoubleTap { source, .. } => source,
        BindingOp::Threshold { source, .. } => source,
        BindingOp::Grab { source, .. } => source,
        BindingOp::Dpad { source, .. } => source,
    }
}

/// Whether the paths an op binds are ones the validator accepted: the
/// inputs it binds come out of the validator, and a dpad's pad passed it.
pub open spec fn op_paths_validated<V: PathValidator>(v: &V, op: BindingOp) -> bool {
    match op {
        BindingOp::Suggest { path, .. } => is_validated(v, path),
        BindingOp::Toggle { path, .. } => is_validated(v, path),
        BindingOp::DoubleTap { path, .. } => is_validated(v, path),
        BindingOp::Threshold { path, .. } => is_validated(v, path),
        BindingOp::Grab { force_path, value_path, .. } => is_validated(v, force_path) && is_validated(
            v,
            value_path,
        ),
        BindingOp::Dpad { path, .. } => v.spec_validate(path).is_some(),
    }
}

/// Every op in `ops` comes from source `source` and binds validated paths.
pub open spec fn ops_from<V: PathValidator>(v: &V, ops: Seq<BindingOp>, source: usize) -> bool {
    forall|k: int| 0 <= k < ops.len() ==> op_source(#[trigger] ops[k]) == source && op_paths_validated(v, ops[k])
}

proof fn lemma_ops_from_concat<V: PathValidator>(v: &V, a: Seq<BindingOp>, b: Seq<BindingOp>, source: usize)
    requires
        ops_from(v, a, source),
        ops_from(v, b, source),
    ensures
        ops_from(v, a + b, source),
{
    assert forall|k: int| 0 <= k < (a + b).len() implies op_source(#[trigger] (a + b)[k]) == source
        && op_paths_validated(v, (a + b)[k]) by {
        if k < a.len() {
            assert((a + b)[k] == a[k]);
        } else {
            assert((a + b)[k] == b[k - a.len()]);
        }
    }
}

proof fn lemma_bind_op_from<V: PathValidator>(
    v: &V,
    present: bool,
    source: usize,
    slot: InputSlot,
    partial: DynInputPath,
    component: Option<DynComponent>,
    output: OutputKind,
)
    ensures
        ops_from(v, opt_op(bind_op(v, source, slot, partial, component, output)), source),
        ops_from(v, bind_opt(v, present, source, slot, partial, component, output), source),
{
    let complete = match component {
        Some(c) => with_comp(partial, c),
        None => partial,
    };
    if let Some(p) = v.spec_validate(complete) {
        assert(v.spec_validate(complete) == Some(p));
        assert(is_validated(v, p));
    }
}

proof fn lemma_toggle_ops_from<V: PathValidator>(
    v: &V,
    actions: Seq<LoadedAction>,
    source: usize,
    p: DynInputPath,
    i: ButtonInput,
)
    ensures
        ops_from(v, toggle_ops(v, actions, source, p, i), source),
{
    lemma_bind_op_from(v, i.touch.is_some(), source, InputSlot::Touch, p, Some(DynComponent::Touch), OutputKind::Boolean);
    let cp = with_comp(p, DynComponent::Click);
    if let Some(c) = v.spec_validate(cp) {
        assert(v.spec_validate(cp) == Some(c));
        assert(is_validated(v, c));
    }
    let touch = bind_opt(v, i.touch.is_some(), source, InputSlot::Touch, p, Some(DynComponent::Touch), OutputKind::Boolean);
    let all = toggle_ops(v, actions, source, p, i);
    let click = all.subrange(touch.len() as int, all.len() as int);
    assert(all =~= touch + click);
    lemma_ops_from_concat(v, touch, click, source);
}

proof fn lemma_button_ops_from<V: PathValidator>(
    v: &V,
    source: usize,
    p: DynInputPath,
    i: ButtonInput,
    params: Option<ButtonParameters>,
)
    ensures
        ops_from(v, button_ops(v, source, p, i, params), source),
{
    lemma_bind_op_from(v, i.touch.is_some(), source, InputSlot::Touch, p, Some(DynComponent::Touch), OutputKind::Boolean);
    lemma_bind_op_from(v, true, source, InputSlot::Click, p, Some(DynComponent::Click), OutputKind::Boolean);
    let cp = with_comp(p, DynComponent::Click);
    if let Some(c) = v.spec_validate(cp) {
        assert(v.spec_validate(cp) == Some(c));
        assert(is_validated(v, c));
    }
    let bp = button_click_path(p, params);
    if let Some(c) = v.spec_validate(bp) {
        assert(v.spec_validate(bp) == Some(c));
        assert(is_validated(v, c));
    }
    let touch = bind_opt(v, i.touch.is_some(), source, InputSlot::Touch, p, Some(DynComponent::Touch), OutputKind::Boolean);
    let double: Seq<BindingOp> = if i.double.is_some() {
        match v.spec_validate(cp) {
            Some(c) => seq![BindingOp::DoubleTap { source, hand: c.hand, path: c }],
            None => Seq::empty(),
        }
    } else {
        Seq::empty()
    };
    let all = button_ops(v, source, p, i, params);
    let click = all.subrange((touch.len() + double.len()) as int, all.len() as int);
    assert(all =~= touch + double + click);
    lemma_ops_from_concat(v, touch, double, source);
    lemma_ops_from_concat(v, touch + double, click, source);
}

proof fn lemma_trigger_ops_from<V: PathValidator>(v: &V, source: usize, p: DynInputPath, i: TriggerInput)
    ensures
        ops_from(v, trigger_ops(v, source, p, i), source),
{
    lemma_bind_op_from(v, i.pull.is_some(), source, InputSlot::Pull, p, Some(DynComponent::Value), OutputKind::Float);
    lemma_bind_op_from(v, i.click.is_some(), source, InputSlot::Click, p, Some(DynComponent::Click), OutputKind::Boolean);
    lemma_bind_op_from(v, true, source, InputSlot::Touch, p, Some(DynComponent::Touch), OutputKind::Boolean);
    let wp = with_comp(p, DynComponent::Value);
    if let Some(c) = v.spec_validate(wp) {
        assert(v.spec_validate(wp) == Some(c));
        assert(is_validated(v, c));
    }
    let pull = bind_opt(v, i.pull.is_some(), source, InputSlot::Pull, p, Some(DynComponent::Value), OutputKind::Float);
    let click = bind_opt(v, i.click.is_some(), source, InputSlot::Click, p, Some(DynComponent::Click), OutputKind::Boolean);
    let all = trigger_ops(v, source, p, i);
    let touch = all.subrange((pull.len() + click.len()) as int, all.len() as int);
    assert(all =~= pull + click + touch);
    lemma_ops_from_concat(v, pull, click, source);
    lemma_ops_from_concat(v, pull + click, touch, source);
}

proof fn lemma_grab_ops_from<V: PathValidator>(
    v: &V,
    actions: Seq<LoadedAction>,
    source: usize,
    p: DynInputPath,
    i: GrabInput,
)
    ensures
        ops_from(v, grab_ops(v, actions, source, p, i), source),
{
    let fp = with_comp(p, DynComponent::Force);
    let vp = with_comp(p, DynComponent::Value);
    if let (Some(f), Some(val)) = (v.spec_validate(fp), v.spec_validate(vp)) {
        assert(v.spec_validate(fp) == Some(f));
        assert(v.spec_validate(vp) == Some(val));
        assert(is_validated(v, f));
        assert(is_validated(v, val));
    }
}

proof fn lemma_vector2_ops_from<V: PathValidator>(v: &V, source: usize, p: DynInputPath, i: Vector2Input)
    ensures
        ops_from(v, vector2_ops(v, source, p, i), source),
{
    lemma_bind_op_from(v, i.click.is_some(), source, InputSlot::Click, p, Some(DynComponent::Click), OutputKind::Boolean);
    lemma_bind_op_from(v, i.touch.is_some(), source, InputSlot::Touch, p, Some(DynComponent::Touch), OutputKind::Boolean);
    lemma_bind_op_from(v, i.position.is_some(), source, InputSlot::Position, p, None, OutputKind::Vector2);
    let a = bind_opt(v, i.click.is_some(), source, InputSlot::Click, p, Some(DynComponent::Click), OutputKind::Boolean);
    let t = bind_opt(v, i.touch.is_some(), source, InputSlot::Touch, p, Some(DynComponent::Touch), OutputKind::Boolean);
    let q = bind_opt(v, i.position.is_some(), source, InputSlot::Position, p, None, OutputKind::Vector2);
    lemma_ops_from_concat(v, a, t, source);
    lemma_ops_from_concat(v, a + t, q, source);
}

proof fn lemma_source_ops_from<V: PathValidator>(
    v: &V,
    actions: Seq<LoadedAction>,
    source: usize,
    b: ActionBinding,
)
    ensures
        ops_from(v, source_ops(v, actions, source, b), source),
{
    match b {
        ActionBinding::Ignored => {},
        ActionBinding::ToggleButton(d) => {
            if let MaybeInputPath::Valid(p) = d.path {
                lemma_toggle_ops_from(v, actions, source, p, d.inputs);
            }
        },
        ActionBinding::Button(d) => {
            if let MaybeInputPath::Valid(p) = d.path {
                lemma_button_ops_from(v, source, p, d.inputs, d.parameters);
            }
        },
        ActionBinding::Dpad(d) => {},
        ActionBinding::Trigger(d) => {
            if let MaybeInputPath::Valid(p) = d.path {
                lemma_trigger_ops_from(v, source, p, d.inputs);
            }
        },
        ActionBinding::ScalarConstant(d) => {
            if let MaybeInputPath::Valid(p) = d.path {
                lemma_bind_op_from(v, true, source, InputSlot::Value, p, Some(DynComponent::Value), OutputKind::Float);
            }
        },
        ActionBinding::ForceSensor(d) => {
            if let MaybeInputPath::Valid(p) = d.path {
                lemma_bind_op_from(v, true, source, InputSlot::Force, p, Some(DynComponent::Force), OutputKind::Float);
            }
        },
        ActionBinding::Grab(d) => {
            if let MaybeInputPath::Valid(p) = d.path {
                lemma_grab_ops_from(v, actions, source, p, d.inputs);
            }
        },
        ActionBinding::Scroll(d) => {
            if let MaybeInputPath::Valid(p) = d.path {
                lemma_bind_op_from(v, true, source, InputSlot::Scroll, p, None, OutputKind::Vector2);
            }
        },
        ActionBinding::Trackpad(d) => {
            if let MaybeInputPath::Valid(p) = d.path {
                lemma_vector2_ops_from(v, source, p, d.inputs);
            }
        },
        ActionBinding::Joystick(d) => {
            if let MaybeInputPath::Valid(p) = d.path {
                lemma_vector2_ops_from(v, source, p, d.inputs);
            }
        },
    }
}

/// Loading source bindings only ever binds inputs that the validator gave
/// (and a dpad's pad only when the validator accepts it), and every op
/// names the source binding it comes from, in the order of the sources.
pub proof fn lemma_sources_bind_validated_paths<V: PathValidator>(
    v: &V,
    actions: Seq<LoadedAction>,
    sources: Seq<ActionBinding>,
)
    requires
        sources.len() <= usize::MAX,
    ensures
        forall|k: int|
            0 <= k < sources_ops(v, actions, sources).len() ==> op_source(
                #[trigger] sources_ops(v, actions, sources)[k],
            ) < sources.len() && op_paths_validated(v, sources_ops(v, actions, sources)[k]),
        forall|j: int, k: int|
            0 <= j <= k < sources_ops(v, actions, sources).len() ==> op_source(
                #[trigger] sources_ops(v, actions, sources)[j],
            ) <= op_source(#[trigger] sources_ops(v, actions, sources)[k]),
    decreases sources.len(),
{
    if sources.len() > 0 {
        let init = sources.drop_last();
        let n = (sources.len() - 1) as usize;
        lemma_sources_bind_validated_paths(v, actions, init);
        lemma_source_ops_from(v, actions, n, sources.last());
        let a = sources_ops(v, actions, init);
        let b = source_ops(v, actions, n, sources.last());
        let all = sources_ops(v, actions, sources);
        assert(all == a + b);
        assert forall|k: int| 0 <= k < all.len() implies op_source(#[trigger] all[k]) < sources.len()
            && op_paths_validated(v, all[k]) by {
            if k < a.len() {
                assert(all[k] == a[k]);
            } else {
                assert(all[k] == b[k - a.len()]);
            }
        }
        assert forall|j: int, k: int| 0 <= j <= k < all.len() implies op_source(#[trigger] all[j])
            <= op_source(#[trigger] all[k]) by {
            if k < a.len() {
                assert(all[j] == a[j] && all[k] == a[k]);
            } else if j < a.len() {
                assert(all[j] == a[j] && all[k] == b[k - a.len()]);
            } else {
                assert(all[j] == b[j - a.len()] && all[k] == b[k - a.len()]);
            }
        }
    }
}

/// The ops among `ops` that come from the source binding at index `source`,
/// in order.
pub open spec fn ops_of_source(ops: Seq<BindingOp>, source: usize) -> Seq<BindingOp> {
    ops.filter(|op: BindingOp| op_source(op) == source)
}

proof fn lemma_filter_keeps_all(ops: Seq<BindingOp>, source: usize)
    requires
        forall|k: int| 0 <= k < ops.len() ==> op_source(#[trigger] ops[k]) == source,
    ensures
        ops_of_source(ops, source) == ops,
    decreases ops.len(),
{
    reveal(Seq::filter);
    if ops.len() > 0 {
        assert forall|k: int| 0 <= k < ops.drop_last().len() implies op_source(
            #[trigger] ops.drop_last()[k],
        ) == source by {
            assert(ops.drop_last()[k] == ops[k]);
        }
        lemma_filter_keeps_all(ops.drop_last(), source);
        assert(op_source(ops[ops.len() - 1]) == source);
        assert(ops.drop_last().push(ops.last()) =~= ops);
    }
}

proof fn lemma_filter_keeps_none(ops: Seq<BindingOp>, source: usize)
    requires
        forall|k: int| 0 <= k < ops.len() ==> op_source(#[trigger] ops[k]) != source,
    ensures
        ops_of_source(ops, source) == Seq::<BindingOp>::empty(),
    decreases ops.len(),
{
    reveal(Seq::filter);
    if ops.len() > 0 {
        assert forall|k: int| 0 <= k < ops.drop_last().len() implies op_source(
            #[trigger] ops.drop_last()[k],
        ) != source by {
            assert(ops.drop_last()[k] == ops[k]);
        }
        lemma_filter_keeps_none(ops.drop_last(), source);
        assert(op_source(ops[ops.len() - 1]) != source);
    }
}

/// Source bindings are bound independently of each other: what the
/// bindings of an action set ask for, taken for one source binding, is
/// exactly what that binding asks for on its own, whatever the other
/// source bindings hold.
pub proof fn lemma_sources_independent<V: PathValidator>(
    v: &V,
    actions: Seq<LoadedAction>,
    sources: Seq<ActionBinding>,
    source: usize,
)
    requires
        sources.len() <= usize::MAX,
        source < sources.len(),
    ensures
        ops_of_source(sources_ops(v, actions, sources), source) == source_ops(
            v,
            actions,
            source,
            sources[source as int],
        ),
    decreases sources.len(),
{
    let init = sources.drop_last();
    let n = (sources.len() - 1) as usize;
    let a = sources_ops(v, actions, init);
    let b = source_ops(v, actions, n, sources.last());
    assert(sources_ops(v, actions, sources) == a + b);
    Seq::filter_distributes_over_add(a, b, |op: BindingOp| op_source(op) == source);
    lemma_source_ops_from(v, actions, n, sources.last());
    lemma_sources_bind_validated_paths(v, actions, init);
    if source == n {
        lemma_filter_keeps_none(a, source);
        assert forall|k: int| 0 <= k < b.len() implies op_source(#[trigger] b[k]) == source by {}
        lemma_filter_keeps_all(b, source);
        assert(Seq::<BindingOp>::empty() + b =~= b);
    } else {
        assert forall|k: int| 0 <= k < b.len() implies op_source(#[trigger] b[k]) != source by {}
        lemma_filter_keeps_none(b, source);
        lemma_sources_independent(v, actions, init, source);
        assert(init[source as int] == sources[source as int]);
        assert(ops_of_source(a, source) + Seq::<BindingOp>::empty() =~= ops_of_source(a, source));
    }
}

/// The path a source binding names, for the modes that name one.
pub open spec fn source_path(b: ActionBinding) -> Option<MaybeInputPath> {
    match b {
        ActionBinding::Ignored => None,
        ActionBinding::Button(d) => Some(d.path),
        ActionBinding::ToggleButton(d) => Some(d.path),
        ActionBinding::Dpad(d) => Some(d.path),
        ActionBinding::Trigger(d) => Some(d.path),
        ActionBinding::ScalarConstant(d) => Some(d.path),
        ActionBinding::ForceSensor(d) => Some(d.path),
        ActionBinding::Grab(d) => Some(d.path),
        ActionBinding::Scroll(d) => Some(d.path),
        ActionBinding::Trackpad(d) => Some(d.path),
        ActionBinding::Joystick(d) => Some(d.path),
    }
}

/// A source binding that cannot be bound: its path did not parse, or it is
/// a grab whose force or value input the validator refuses or whose grab
/// action is not loaded.
pub open spec fn is_unbindable_source<V: PathValidator>(
    v: &V,
    actions: Seq<LoadedAction>,
    b: ActionBinding,
) -> bool {
    ||| source_path(b) matches Some(MaybeInputPath::Invalid { .. })
    ||| b matches ActionBinding::Grab(d) && d.path matches MaybeInputPath::Valid(p) && (v.spec_validate(
        with_comp(p, DynComponent::Force),
    ).is_none() || v.spec_validate(with_comp(p, DynComponent::Value)).is_none() || !has_action(
        actions,
        d.inputs.grab,
    ))
}

/// A source binding that cannot be bound asks for nothing.
pub proof fn lemma_unbindable_source_binds_nothing<V: PathValidator>(
    v: &V,
    actions: Seq<LoadedAction>,
    source: usize,
    b: ActionBinding,
)
    requires
        is_unbindable_source(v, actions, b),
    ensures
        source_ops(v, actions, source, b) == Seq::<BindingOp>::empty(),
{
}

/// One source binding that cannot be bound never stops the others: the
/// bindings of the action set ask for exactly what they would ask for were
/// that source left unbound (mode `none`).
pub proof fn lemma_unbindable_source_stops_nothing<V: PathValidator>(
    v: &V,
    actions: Seq<LoadedAction>,
    sources: Seq<ActionBinding>,
    k: int,
)
    requires
        0 <= k < sources.len(),
        is_unbindable_source(v, actions, sources[k]),
    ensures
        sources_ops(v, actions, sources.update(k, ActionBinding::Ignored)) == sources_ops(
            v,
            actions,
            sources,
        ),
    decreases sources.len(),
{
    let u = sources.update(k, ActionBinding::Ignored);
    assert(u.drop_last().len() == sources.drop_last().len());
    if k == sources.len() - 1 {
        assert(u.drop_last() =~= sources.drop_last());
        lemma_unbindable_source_binds_nothing(v, actions, (sources.len() - 1) as usize, sources.last());
    } else {
        assert(u.drop_last() =~= sources.drop_last().update(k, ActionBinding::Ignored));
        lemma_unbindable_source_stops_nothing(v, actions, sources.drop_last(), k);
        assert(u.last() == sources.last());
    }
}

/// With a profile's validator, every input an op binds exists on the
/// profile's controllers.
pub proof fn lemma_profile_validated_paths_are_legal(profile: Profile, p: DynInputPath)
    requires
        is_validated(&ProfileValidator { profile }, p),
    ensures
        profile_path_is_legal(profile, p),
{
    let q = choose|q: DynInputPath| (ProfileValidator { profile }).spec_validate(q) == Some(p);
    assert(profile_validate(profile, q) == Some(p));
}

/// The name of the pad action a dpad's directions share, per action set:
/// the pad's path, `-`, and the action set.
pub fn dpad_parent_key(parent_path: DynInputPath, action_set_name: &str) -> (r: String)
    ensures
        r@ == display_path(parent_path) + "-"@ + action_set_name@,
{
    let mut key = parent_path.to_path_string();
    key.append("-");
    key.append(action_set_name);
    key
}

} // verus!
