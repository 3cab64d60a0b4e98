//! The grammar of OpenXR input paths such as
//! `/user/hand/left/input/trigger/click`, as read from OpenVR binding files
//! and written back for OpenXR.
use vstd::prelude::*;
use crate::openxr_data::Hand;
use crate::text::{chars_of, chars_equal_str, string_from_chars};

verus! {

/// The final component of an input path: the `click` in
/// `/user/hand/left/input/a/click`.
#[derive(Copy, Clone, Debug, PartialEq, Eq, Structural)]
pub enum DynComponent {
    Click,
    Touch,
    Value,
    Force,
    Vec2X,
    Vec2Y,
}

/// The input named by a path: the `a` in `/user/hand/left/input/a/click`.
#[derive(Copy, Clone, Debug, PartialEq, Eq, Structural)]
pub enum DynSubpath {
    A,
    B,
    X,
    Y,
    Menu,
    Select,
    Trigger,
    Squeeze,
    Thumbstick,
    Trackpad,
    Thumbrest,
}

/// A hand, an input on it and an optional final component.
/// Nothing guarantees that the combination exists on any controller.
#[derive(Copy, Clone, Debug, PartialEq, Eq, Structural)]
pub struct DynInputPath {
    pub hand: Hand,
    pub subpath: DynSubpath,
    pub component: Option<DynComponent>,
}

/// The OpenXR spelling of a component.
pub open spec fn component_name(c: DynComponent) -> Seq<char> {
    match c {
        DynComponent::Click => "click"@,
        DynComponent::Touch => "touch"@,
        DynComponent::Value => "value"@,
        DynComponent::Force => "force"@,
        DynComponent::Vec2X => "x"@,
        DynComponent::Vec2Y => "y"@,
    }
}

/// The OpenXR spelling of an input: its name in lower case.
pub open spec fn subpath_name(s: DynSubpath) -> Seq<char> {
    match s {
        DynSubpath::A => "a"@,
        DynSubpath::B => "b"@,
        DynSubpath::X => "x"@,
        DynSubpath::Y => "y"@,
        DynSubpath::Menu => "menu"@,
        DynSubpath::Select => "select"@,
        DynSubpath::Trigger => "trigger"@,
        DynSubpath::Squeeze => "squeeze"@,
        DynSubpath::Thumbstick => "thumbstick"@,
        DynSubpath::Trackpad => "trackpad"@,
        DynSubpath::Thumbrest => "thumbrest"@,
    }
}

/// The component an OpenVR binding file names: `click`, `touch`, and
/// `value` or `pull`.
pub open spec fn component_from_openvr(s: Seq<char>) -> Option<DynComponent> {
    if s == "click"@ {
        Some(DynComponent::Click)
    } else if s == "touch"@ {
        Some(DynComponent::Touch)
    } else if s == "value"@ || s == "pull"@ {
        Some(DynComponent::Value)
    } else {
        None
    }
}

/// The input an OpenVR binding file names.
pub open spec fn subpath_from_openvr(s: Seq<char>) -> Option<DynSubpath> {
    if s == "a"@ {
        Some(DynSubpath::A)
    } else if s == "b"@ {
        Some(DynSubpath::B)
    } else if s == "x"@ {
        Some(DynSubpath::X)
    } else if s == "y"@ {
        Some(DynSubpath::Y)
    } else if s == "application_menu"@ {
        Some(DynSubpath::Menu)
    } else if s == "trigger"@ {
        Some(DynSubpath::Trigger)
    } else if s == "grip"@ {
        Some(DynSubpath::Squeeze)
    } else if s == "thumbstick"@ || s == "joystick"@ {
        Some(DynSubpath::Thumbstick)
    } else if s == "trackpad"@ {
        Some(DynSubpath::Trackpad)
    } else {
        None
    }
}

/// `/user/hand/left` or `/user/hand/right`.
pub open spec fn hand_path(h: Hand) -> Seq<char> {
    match h {
        Hand::Left => "/user/hand/left"@,
        Hand::Right => "/user/hand/right"@,
    }
}

/// The written form of a path: hand, `/input/`, input, then `/` and the
/// component when there is one.
pub open spec fn display_path(p: DynInputPath) -> Seq<char> {
    let base = hand_path(p.hand) + "/input/"@ + subpath_name(p.subpath);
    match p.component {
        Some(c) => base + "/"@ + component_name(c),
        None => base,
    }
}

/// The pieces of `s` between occurrences of `sep`, as `str::split` gives
/// them (an empty string gives one empty piece).
pub open spec fn split_seq(s: Seq<char>, sep: char) -> Seq<Seq<char>>
    decreases s.len(),
{
    if s.len() == 0 {
        seq![Seq::<char>::empty()]
    } else {
        let prev = split_seq(s.drop_last(), sep);
        if s.last() == sep {
            prev.push(Seq::<char>::empty())
        } else {
            prev.update(prev.len() - 1, prev.last().push(s.last()))
        }
    }
}

/// The literal piece that a path was expected to hold at some position.
#[derive(Copy, Clone, Debug, PartialEq, Eq, Structural)]
pub enum PathSegment {
    /// The empty piece before the leading `/`.
    Root,
    User,
    Hand,
    Input,
}

/// Why a string is not an input path.
#[derive(Debug)]
pub enum InputPathError {
    /// The path ended where the given piece was expected.
    MissingSegment(PathSegment),
    /// A piece other than the expected one stood at its position.
    UnexpectedSegment(PathSegment, String),
    /// The path ended before the hand.
    MissingHand,
    /// The hand piece was neither `left` nor `right`.
    InvalidHand(String),
    /// The input piece was missing or unknown.
    InvalidSubpath(Option<String>),
    /// The component piece (first field) is unknown; the second field is
    /// the input piece before it.
    InvalidComponent(String, String),
}

/// An [`InputPathError`] with its strings as character sequences.
pub enum InputPathErrorView {
    MissingSegment(PathSegment),
    UnexpectedSegment(PathSegment, Seq<char>),
    MissingHand,
    InvalidHand(Seq<char>),
    InvalidSubpath(Option<Seq<char>>),
    InvalidComponent(Seq<char>, Seq<char>),
}

impl View for InputPathError {
    type V = InputPathErrorView;

    open spec fn view(&self) -> InputPathErrorView {
        match self {
            InputPathError::MissingSegment(s) => InputPathErrorView::MissingSegment(*s),
            InputPathError::UnexpectedSegment(s, g) => InputPathErrorView::UnexpectedSegment(
                *s,
                g@,
            ),
            InputPathError::MissingHand => InputPathErrorView::MissingHand,
            InputPathError::InvalidHand(g) => InputPathErrorView::InvalidHand(g@),
            InputPathError::InvalidSubpath(g) => InputPathErrorView::InvalidSubpath(
                match g {
                    Some(x) => Some(x@),
                    None => None,
                },
            ),
            InputPathError::InvalidComponent(c, s) => InputPathErrorView::InvalidComponent(
                c@,
                s@,
            ),
        }
    }
}

/// The literal a path must hold at the position of `seg`.
pub open spec fn segment_literal(seg: PathSegment) -> Seq<char> {
    match seg {
        PathSegment::Root => Seq::<char>::empty(),
        PathSegment::User => "user"@,
        PathSegment::Hand => "hand"@,
        PathSegment::Input => "input"@,
    }
}

/// What reading `s` as an input path gives. Pieces after the component are
/// ignored.
pub open spec fn parse_input_path(s: Seq<char>) -> Result<DynInputPath, InputPathErrorView> {
    let segs = split_seq(s, '/');
    if segs.len() < 1 {
        Err(InputPathErrorView::MissingSegment(PathSegment::Root))
    } else if segs[0] != segment_literal(PathSegment::Root) {
        Err(InputPathErrorView::UnexpectedSegment(PathSegment::Root, segs[0]))
    } else if segs.len() < 2 {
        Err(InputPathErrorView::MissingSegment(PathSegment::User))
    } else if segs[1] != segment_literal(PathSegment::User) {
        Err(InputPathErrorView::UnexpectedSegment(PathSegment::User, segs[1]))
    } else if segs.len() < 3 {
        Err(InputPathErrorView::MissingSegment(PathSegment::Hand))
    } else if segs[2] != segment_literal(PathSegment::Hand) {
        Err(InputPathErrorView::UnexpectedSegment(PathSegment::Hand, segs[2]))
    } else if segs.len() < 4 {
        Err(InputPathErrorView::MissingHand)
    } else if segs[3] != "left"@ && segs[3] != "right"@ {
        Err(InputPathErrorView::InvalidHand(segs[3]))
    } else if segs.len() < 5 {
        Err(InputPathErrorView::MissingSegment(PathSegment::Input))
    } else if segs[4] != segment_literal(PathSegment::Input) {
        Err(InputPathErrorView::UnexpectedSegment(PathSegment::Input, segs[4]))
    } else if segs.len() < 6 {
        Err(InputPathErrorView::InvalidSubpath(None))
    } else if subpath_from_openvr(segs[5]).is_none() {
        Err(InputPathErrorView::InvalidSubpath(Some(segs[5])))
    } else {
        let hand = if segs[3] == "left"@ {
            Hand::Left
        } else {
            Hand::Right
        };
        let subpath = subpath_from_openvr(segs[5]).unwrap();
        if segs.len() < 7 {
            Ok(DynInputPath { hand, subpath, component: None })
        } else {
            match component_from_openvr(segs[6]) {
                Some(c) => Ok(DynInputPath { hand, subpath, component: Some(c) }),
                None => Err(InputPathErrorView::InvalidComponent(segs[6], segs[5])),
            }
        }
    }
}

pub proof fn lemma_split_nonempty(s: Seq<char>, sep: char)
    ensures
        split_seq(s, sep).len() >= 1,
    decreases s.len(),
{
    if s.len() > 0 {
        lemma_split_nonempty(s.drop_last(), sep);
    }
}

/// Splits `s` at every `sep`.
pub fn split_chars(s: &Vec<char>, sep: char) -> (r: Vec<Vec<char>>)
    ensures
        r@.len() == split_seq(s@, sep).len(),
        forall|i: int| 0 <= i < r@.len() ==> #[trigger] r@[i]@ == split_seq(s@, sep)[i],
{
    let mut done: Vec<Vec<char>> = Vec::new();
    let mut cur: Vec<char> = Vec::new();
    let mut i: usize = 0;
    while i < s.len()
        invariant
            i <= s@.len(),
            done@.len() + 1 == split_seq(s@.subrange(0, i as int), sep).len(),
            forall|j: int|
                0 <= j < done@.len() ==> #[trigger] done@[j]@ == split_seq(
                    s@.subrange(0, i as int),
                    sep,
                )[j],
            cur@ == split_seq(s@.subrange(0, i as int), sep).last(),
        decreases s@.len() - i,
    {
        let ghost pre = s@.subrange(0, i as int);
        let ghost post = s@.subrange(0, i + 1);
        assert(post.drop_last() =~= pre);
        assert(post.last() == s@[i as int]);
        proof {
            lemma_split_nonempty(pre, sep);
        }
        let c = s[i];
        if c == sep {
            let finished = cur;
            done.push(finished);
            cur = Vec::new();
            assert(cur@ =~= Seq::<char>::empty());
        } else {
            cur.push(c);
        }
        i = i + 1;
    }
    assert(s@.subrange(0, s@.len() as int) =~= s@);
    proof {
        lemma_split_nonempty(s@, sep);
    }
    let ghost last = cur@;
    done.push(cur);
    assert forall|j: int| 0 <= j < done@.len() implies #[trigger] done@[j]@ == split_seq(
        s@,
        sep,
    )[j] by {}
    done
}

impl DynComponent {
    /// The component an OpenVR binding file names with these characters.
    pub fn from_openvr_chars(s: &[char]) -> (r: Option<Self>)
        ensures
            r == component_from_openvr(s@),
    {
        if chars_equal_str(s, "click") {
            Some(DynComponent::Click)
        } else if chars_equal_str(s, "touch") {
            Some(DynComponent::Touch)
        } else if chars_equal_str(s, "value") || chars_equal_str(s, "pull") {
            Some(DynComponent::Value)
        } else {
            None
        }
    }

    /// The component an OpenVR binding file names: `click`, `touch`, and
    /// `value` or `pull`.
    pub fn from_openvr_str(s: &str) -> (r: Option<Self>)
        ensures
            r == component_from_openvr(s@),
    {
        let v = chars_of(s);
        Self::from_openvr_chars(v.as_slice())
    }

    /// The OpenXR spelling of the component.
    pub fn name(self) -> (s: &'static str)
        ensures
            s@ == component_name(self),
    {
        match self {
            DynComponent::Click => "click",
            DynComponent::Touch => "touch",
            DynComponent::Value => "value",
            DynComponent::Force => "force",
            DynComponent::Vec2X => "x",
            DynComponent::Vec2Y => "y",
        }
    }
}

impl DynSubpath {
    /// The input an OpenVR binding file names with these characters.
    pub fn from_openvr_chars(s: &[char]) -> (r: Option<Self>)
        ensures
            r == subpath_from_openvr(s@),
    {
        if chars_equal_str(s, "a") {
            Some(DynSubpath::A)
        } else if chars_equal_str(s, "b") {
            Some(DynSubpath::B)
        } else if chars_equal_str(s, "x") {
            Some(DynSubpath::X)
        } else if chars_equal_str(s, "y") {
            Some(DynSubpath::Y)
        } else if chars_equal_str(s, "application_menu") {
            Some(DynSubpath::Menu)
        } else if chars_equal_str(s, "trigger") {
            Some(DynSubpath::Trigger)
        } else if chars_equal_str(s, "grip") {
            Some(DynSubpath::Squeeze)
        } else if chars_equal_str(s, "thumbstick") || chars_equal_str(s, "joystick") {
            Some(DynSubpath::Thumbstick)
        } else if chars_equal_str(s, "trackpad") {
            Some(DynSubpath::Trackpad)
        } else {
            None
        }
    }

    /// The input an OpenVR binding file names: `a`, `b`, `x`, `y`,
    /// `application_menu`, `trigger`, `grip`, `thumbstick` or `joystick`,
    /// and `trackpad`.
    pub fn from_openvr_str(s: &str) -> (r: Option<Self>)
        ensures
            r == subpath_from_openvr(s@),
    {
        let v = chars_of(s);
        Self::from_openvr_chars(v.as_slice())
    }

    /// The OpenXR spelling of the input.
    pub fn name(self) -> (s: &'static str)
        ensures
            s@ == subpath_name(self),
    {
        match self {
            DynSubpath::A => "a",
            DynSubpath::B => "b",
            DynSubpath::X => "x",
            DynSubpath::Y => "y",
            DynSubpath::Menu => "menu",
            DynSubpath::Select => "select",
            DynSubpath::Trigger => "trigger",
            DynSubpath::Squeeze => "squeeze",
            DynSubpath::Thumbstick => "thumbstick",
            DynSubpath::Trackpad => "trackpad",
            DynSubpath::Thumbrest => "thumbrest",
        }
    }
}

impl DynInputPath {
    /// The same path with its component replaced by `component`.
    pub fn with_component(self, component: DynComponent) -> (r: Self)
        ensures
            r == (DynInputPath { component: Some(component), ..self }),
    {
        DynInputPath { component: Some(component), ..self }
    }

    /// The written form of the path, e.g. `/user/hand/left/input/a/click`.
    pub fn to_path_string(&self) -> (s: String)
        ensures
            s@ == display_path(*self),
    {
        let mut s = String::from_str(
            match self.hand {
                Hand::Left => "/user/hand/left",
                Hand::Right => "/user/hand/right",
            },
        );
        s.append("/input/");
        s.append(self.subpath.name());
        match self.component {
            Some(c) => {
                s.append("/");
                s.append(c.name());
            },
            None => {},
        }
        s
    }

    /// Reads an input path. Pieces after the component are ignored.
    pub fn from_str(s: &str) -> (r: Result<DynInputPath, InputPathError>)
        ensures
            match r {
                Ok(p) => parse_input_path(s@) == Ok::<DynInputPath, InputPathErrorView>(p),
                Err(e) => parse_input_path(s@) == Err::<DynInputPath, InputPathErrorView>(e@),
            },
    {
        let chars = chars_of(s);
        let segs = split_chars(&chars, '/');
        proof {
            lemma_split_nonempty(s@, '/');
            reveal_strlit("");
            assert(""@ =~= Seq::<char>::empty());
            assert(segs@[0]@ == split_seq(s@, '/')[0]);
        }
        let n = segs.len();
        if !chars_equal_str(segs[0].as_slice(), "") {
            return Err(
                InputPathError::UnexpectedSegment(
                    PathSegment::Root,
                    string_from_chars(segs[0].as_slice()),
                ),
            );
        }
        if n < 2 {
            return Err(InputPathError::MissingSegment(PathSegment::User));
        }
        if !chars_equal_str(segs[1].as_slice(), "user") {
            return Err(
                InputPathError::UnexpectedSegment(
                    PathSegment::User,
                    string_from_chars(segs[1].as_slice()),
                ),
            );
        }
        if n < 3 {
            return Err(InputPathError::MissingSegment(PathSegment::Hand));
        }
        if !chars_equal_str(segs[2].as_slice(), "hand") {
            return Err(
                InputPathError::UnexpectedSegment(
                    PathSegment::Hand,
                    string_from_chars(segs[2].as_slice()),
                ),
            );
        }
        if n < 4 {
            return Err(InputPathError::MissingHand);
        }
        let hand = if chars_equal_str(segs[3].as_slice(), "left") {
            Hand::Left
        } else if chars_equal_str(segs[3].as_slice(), "right") {
            Hand::Right
        } else {
            return Err(InputPathError::InvalidHand(string_from_chars(segs[3].as_slice())));
        };
        if n < 5 {
            return Err(InputPathError::MissingSegment(PathSegment::Input));
        }
        if !chars_equal_str(segs[4].as_slice(), "input") {
            return Err(
                InputPathError::UnexpectedSegment(
                    PathSegment::Input,
                    string_from_chars(segs[4].as_slice()),
                ),
            );
        }
        if n < 6 {
            return Err(InputPathError::InvalidSubpath(None));
        }
        let subpath = match DynSubpath::from_openvr_chars(segs[5].as_slice()) {
            Some(sp) => sp,
            None => {
                return Err(
                    InputPathError::InvalidSubpath(Some(string_from_chars(segs[5].as_slice()))),
                );
            },
        };
        if n < 7 {
            return Ok(DynInputPath { hand, subpath, component: None });
        }
        match DynComponent::from_openvr_chars(segs[6].as_slice()) {
            Some(c) => Ok(DynInputPath { hand, subpath, component: Some(c) }),
            None => Err(
                InputPathError::InvalidComponent(
                    string_from_chars(segs[6].as_slice()),
                    string_from_chars(segs[5].as_slice()),
                ),
            ),
        }
    }
}


/// The pieces `parts` written one after another with `sep` between them.
pub open spec fn join_seq(parts: Seq<Seq<char>>, sep: char) -> Seq<char>
    decreases parts.len(),
{
    if parts.len() <= 1 {
        if parts.len() == 1 {
            parts[0]
        } else {
            Seq::<char>::empty()
        }
    } else {
        join_seq(parts.drop_last(), sep) + seq![sep] + parts.last()
    }
}

proof fn lemma_split_no_sep(s: Seq<char>, sep: char)
    requires
        !s.contains(sep),
    ensures
        split_seq(s, sep) =~= seq![s],
    decreases s.len(),
{
    if s.len() > 0 {
        assert(!s.drop_last().contains(sep)) by {
            if s.drop_last().contains(sep) {
                let i = choose|i: int| 0 <= i < s.drop_last().len() && s.drop_last()[i] == sep;
                assert(s[i] == sep);
            }
        }
        lemma_split_no_sep(s.drop_last(), sep);
        assert(s.last() != sep) by {
            assert(s[s.len() - 1] == s.last());
        }
        let prev = split_seq(s.drop_last(), sep);
        assert(prev.len() == 1);
        assert(prev.last() == s.drop_last());
        assert(s.drop_last().push(s.last()) =~= s);
        assert(prev.update(0, s) =~= seq![s]);
    } else {
        assert(s =~= Seq::<char>::empty());
    }
}

proof fn lemma_split_concat(a: Seq<char>, sep: char, b: Seq<char>)
    ensures
        split_seq(a + seq![sep] + b, sep) =~= split_seq(a, sep) + split_seq(b, sep),
    decreases b.len(),
{
    let x = a + seq![sep] + b;
    if b.len() == 0 {
        assert(x.drop_last() =~= a);
        assert(x.last() == sep);
    } else {
        assert(x.drop_last() =~= a + seq![sep] + b.drop_last());
        assert(x.last() == b.last());
        lemma_split_concat(a, sep, b.drop_last());
        lemma_split_nonempty(b.drop_last(), sep);
        lemma_split_nonempty(a, sep);
    }
}

proof fn lemma_split_join(parts: Seq<Seq<char>>, sep: char)
    requires
        parts.len() >= 1,
        forall|i: int| 0 <= i < parts.len() ==> !(#[trigger] parts[i]).contains(sep),
    ensures
        split_seq(join_seq(parts, sep), sep) =~= parts,
    decreases parts.len(),
{
    if parts.len() == 1 {
        lemma_split_no_sep(parts[0], sep);
    } else {
        let init = parts.drop_last();
        assert forall|i: int| 0 <= i < init.len() implies !(#[trigger] init[i]).contains(sep) by {
            assert(init[i] == parts[i]);
        }
        lemma_split_join(init, sep);
        lemma_split_concat(join_seq(init, sep), sep, parts.last());
        assert(!parts[parts.len() - 1].contains(sep));
        lemma_split_no_sep(parts.last(), sep);
        assert(init.push(parts.last()) =~= parts);
    }
}

/// Whether OpenVR binding files spell this input the way OpenXR does.
pub open spec fn subpath_spelled_alike(s: DynSubpath) -> bool {
    match s {
        DynSubpath::A | DynSubpath::B | DynSubpath::X | DynSubpath::Y | DynSubpath::Trigger
        | DynSubpath::Thumbstick | DynSubpath::Trackpad => true,
        _ => false,
    }
}

/// Whether OpenVR binding files spell this component the way OpenXR does.
pub open spec fn component_spelled_alike(c: Option<DynComponent>) -> bool {
    match c {
        None | Some(DynComponent::Click) | Some(DynComponent::Touch) | Some(
            DynComponent::Value,
        ) => true,
        _ => false,
    }
}

/// The characters of the literals that the path grammar uses.
pub proof fn lemma_path_literals()
    ensures
        ""@ =~= Seq::<char>::empty(),
        "/"@ =~= seq!['/'],
        "/input/"@ =~= seq!['/', 'i', 'n', 'p', 'u', 't', '/'],
        "/user/hand/left"@ =~= seq!['/', 'u', 's', 'e', 'r', '/', 'h', 'a', 'n', 'd', '/', 'l', 'e', 'f', 't'],
        "/user/hand/right"@ =~= seq!['/', 'u', 's', 'e', 'r', '/', 'h', 'a', 'n', 'd', '/', 'r', 'i', 'g', 'h', 't'],
        "user"@ =~= seq!['u', 's', 'e', 'r'],
        "hand"@ =~= seq!['h', 'a', 'n', 'd'],
        "left"@ =~= seq!['l', 'e', 'f', 't'],
        "right"@ =~= seq!['r', 'i', 'g', 'h', 't'],
        "input"@ =~= seq!['i', 'n', 'p', 'u', 't'],
        "a"@ =~= seq!['a'],
        "b"@ =~= seq!['b'],
        "x"@ =~= seq!['x'],
        "y"@ =~= seq!['y'],
        "menu"@ =~= seq!['m', 'e', 'n', 'u'],
        "select"@ =~= seq!['s', 'e', 'l', 'e', 'c', 't'],
        "trigger"@ =~= seq!['t', 'r', 'i', 'g', 'g', 'e', 'r'],
        "squeeze"@ =~= seq!['s', 'q', 'u', 'e', 'e', 'z', 'e'],
        "thumbstick"@ =~= seq!['t', 'h', 'u', 'm', 'b', 's', 't', 'i', 'c', 'k'],
        "trackpad"@ =~= seq!['t', 'r', 'a', 'c', 'k', 'p', 'a', 'd'],
        "thumbrest"@ =~= seq!['t', 'h', 'u', 'm', 'b', 'r', 'e', 's', 't'],
        "application_menu"@ =~= seq!['a', 'p', 'p', 'l', 'i', 'c', 'a', 't', 'i', 'o', 'n', '_', 'm', 'e', 'n', 'u'],
        "grip"@ =~= seq!['g', 'r', 'i', 'p'],
        "joystick"@ =~= seq!['j', 'o', 'y', 's', 't', 'i', 'c', 'k'],
        "click"@ =~= seq!['c', 'l', 'i', 'c', 'k'],
        "touch"@ =~= seq!['t', 'o', 'u', 'c', 'h'],
        "value"@ =~= seq!['v', 'a', 'l', 'u', 'e'],
        "pull"@ =~= seq!['p', 'u', 'l', 'l'],
        "force"@ =~= seq!['f', 'o', 'r', 'c', 'e'],
{
    reveal_strlit("");
    reveal_strlit("/");
    reveal_strlit("/input/");
    reveal_strlit("/user/hand/left");
    reveal_strlit("/user/hand/right");
    reveal_strlit("user");
    reveal_strlit("hand");
    reveal_strlit("left");
    reveal_strlit("right");
    reveal_strlit("input");
    reveal_strlit("a");
    reveal_strlit("b");
    reveal_strlit("x");
    reveal_strlit("y");
    reveal_strlit("menu");
    reveal_strlit("select");
    reveal_strlit("trigger");
    reveal_strlit("squeeze");
    reveal_strlit("thumbstick");
    reveal_strlit("trackpad");
    reveal_strlit("thumbrest");
    reveal_strlit("application_menu");
    reveal_strlit("grip");
    reveal_strlit("joystick");
    reveal_strlit("click");
    reveal_strlit("touch");
    reveal_strlit("value");
    reveal_strlit("pull");
    reveal_strlit("force");
}

/// The pieces of the written form of a path.
pub open spec fn path_parts(p: DynInputPath) -> Seq<Seq<char>> {
    let hand_name: Seq<char> = match p.hand {
        Hand::Left => "left"@,
        Hand::Right => "right"@,
    };
    let head: Seq<Seq<char>> = seq![
        Seq::<char>::empty(),
        "user"@,
        "hand"@,
        hand_name,
        "input"@,
        subpath_name(p.subpath),
    ];
    match p.component {
        Some(c) => head.push(component_name(c)),
        None => head,
    }
}

proof fn lemma_join_parts(
    a: Seq<char>,
    b: Seq<char>,
    c: Seq<char>,
    d: Seq<char>,
    e: Seq<char>,
    f: Seq<char>,
    g: Seq<char>,
    sep: char,
)
    ensures
        join_seq(seq![a, b, c, d, e, f], sep) =~= a + seq![sep] + b + seq![sep] + c + seq![sep]
            + d + seq![sep] + e + seq![sep] + f,
        join_seq(seq![a, b, c, d, e, f, g], sep) =~= a + seq![sep] + b + seq![sep] + c + seq![
            sep,
        ] + d + seq![sep] + e + seq![sep] + f + seq![sep] + g,
{
    reveal_with_fuel(join_seq, 8);
    let s7 = seq![a, b, c, d, e, f, g];
    let s6 = seq![a, b, c, d, e, f];
    let s5 = seq![a, b, c, d, e];
    let s4 = seq![a, b, c, d];
    let s3 = seq![a, b, c];
    let s2 = seq![a, b];
    let s1 = seq![a];
    assert(s7.drop_last() =~= s6);
    assert(s6.drop_last() =~= s5);
    assert(s5.drop_last() =~= s4);
    assert(s4.drop_last() =~= s3);
    assert(s3.drop_last() =~= s2);
    assert(s2.drop_last() =~= s1);
}

proof fn lemma_path_parts_join(p: DynInputPath)
    ensures
        join_seq(path_parts(p), '/') =~= display_path(p),
{
    lemma_path_literals();

    let hand_name: Seq<char> = match p.hand {
        Hand::Left => "left"@,
        Hand::Right => "right"@,
    };
    let c = match p.component {
        Some(c) => component_name(c),
        None => Seq::<char>::empty(),
    };
    lemma_join_parts(
        Seq::<char>::empty(),
        "user"@,
        "hand"@,
        hand_name,
        "input"@,
        subpath_name(p.subpath),
        c,
        '/',
    );
    let hp = hand_path(p.hand);
    assert(hp =~= Seq::<char>::empty() + seq!['/'] + "user"@ + seq!['/'] + "hand"@ + seq!['/']
        + hand_name);
    assert("/input/"@ =~= seq!['/'] + "input"@ + seq!['/']);
    let base = hp + "/input/"@ + subpath_name(p.subpath);
    assert(base =~= Seq::<char>::empty() + seq!['/'] + "user"@ + seq!['/'] + "hand"@ + seq!['/']
        + hand_name + seq!['/'] + "input"@ + seq!['/'] + subpath_name(p.subpath));
    match p.component {
        Some(cc) => {
            assert(path_parts(p) =~= seq![Seq::<char>::empty(), "user"@, "hand"@, hand_name,
                "input"@, subpath_name(p.subpath), c]);
            assert(display_path(p) == base + "/"@ + component_name(cc));
            assert(display_path(p) =~= base + seq!['/'] + c);
        },
        None => {
            assert(path_parts(p) =~= seq![Seq::<char>::empty(), "user"@, "hand"@, hand_name,
                "input"@, subpath_name(p.subpath)]);
            assert(display_path(p) == base);
        },
    }
}

proof fn lemma_path_parts_no_slash(p: DynInputPath)
    ensures
        forall|i: int|
            0 <= i < path_parts(p).len() ==> !(#[trigger] path_parts(p)[i]).contains('/'),
{
    lemma_path_literals();

    let parts = path_parts(p);
    assert forall|i: int| 0 <= i < parts.len() implies !(#[trigger] parts[i]).contains('/') by {
        if parts[i].contains('/') {
            let j = choose|j: int| 0 <= j < parts[i].len() && parts[i][j] == '/';
            assert(parts[i][j] == '/');
        }
    }
}

proof fn lemma_parse_spelled_alike(p: DynInputPath)
    requires
        subpath_spelled_alike(p.subpath),
        component_spelled_alike(p.component),
    ensures
        subpath_from_openvr(subpath_name(p.subpath)) == Some(p.subpath),
        p.component matches Some(c) ==> component_from_openvr(component_name(c)) == Some(c),
        "left"@ != "right"@,
        Seq::<char>::empty() == segment_literal(PathSegment::Root),
{
    lemma_path_literals();
    match p.subpath {
        DynSubpath::A => {
            assert(subpath_from_openvr(subpath_name(DynSubpath::A)) == Some(DynSubpath::A));
        },
        DynSubpath::B => {
            assert("b"@[0] != "a"@[0]);
            assert(subpath_from_openvr(subpath_name(DynSubpath::B)) == Some(DynSubpath::B));
        },
        DynSubpath::X => {
            assert("x"@[0] != "a"@[0] && "x"@[0] != "b"@[0]);
            assert(subpath_from_openvr(subpath_name(DynSubpath::X)) == Some(DynSubpath::X));
        },
        DynSubpath::Y => {
            assert("y"@[0] != "a"@[0] && "y"@[0] != "b"@[0] && "y"@[0] != "x"@[0]);
            assert(subpath_from_openvr(subpath_name(DynSubpath::Y)) == Some(DynSubpath::Y));
        },
        DynSubpath::Trigger => {
            assert(subpath_from_openvr(subpath_name(DynSubpath::Trigger)) == Some(DynSubpath::Trigger));
        },
        DynSubpath::Thumbstick => {
            assert(subpath_from_openvr(subpath_name(DynSubpath::Thumbstick)) == Some(DynSubpath::Thumbstick));
        },
        DynSubpath::Trackpad => {
            assert(subpath_from_openvr(subpath_name(DynSubpath::Trackpad)) == Some(DynSubpath::Trackpad));
        },
        _ => {},
    }

    assert(""@ =~= Seq::<char>::empty());
}

/// A written path reads back as the same path, for every input and
/// component that binding files spell as OpenXR does (`menu`, `squeeze`,
/// `force` and a few others are spelled differently and are left out).
pub proof fn lemma_display_parse_roundtrip(p: DynInputPath)
    requires
        subpath_spelled_alike(p.subpath),
        component_spelled_alike(p.component),
    ensures
        parse_input_path(display_path(p)) == Ok::<DynInputPath, InputPathErrorView>(p),
{
    lemma_path_parts_join(p);
    lemma_path_parts_no_slash(p);
    lemma_split_join(path_parts(p), '/');
    lemma_parse_spelled_alike(p);
    assert(split_seq(display_path(p), '/') =~= path_parts(p));
}

} // verus!
