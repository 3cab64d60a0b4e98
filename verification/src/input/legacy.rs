//! The legacy (pre-action-manifest) controller interface: button masks,
//! per-frame controller state and its button events.
use vstd::prelude::*;
use crate::openxr_data::Hand;

verus! {

/// The OpenVR button identifiers that the legacy interface reports.
#[derive(Copy, Clone, Debug, PartialEq, Eq, Structural)]
pub enum ButtonId {
    System,
    ApplicationMenu,
    Grip,
    DPadLeft,
    DPadUp,
    DPadRight,
    DPadDown,
    A,
    ProximitySensor,
    Axis0,
    Axis1,
    Axis2,
    Axis3,
    Axis4,
}

/// The number OpenVR gives a button (`SteamVR_Touchpad` is `Axis0`,
/// `SteamVR_Trigger` is `Axis1`).
pub open spec fn button_number(id: ButtonId) -> u32 {
    match id {
        ButtonId::System => 0,
        ButtonId::ApplicationMenu => 1,
        ButtonId::Grip => 2,
        ButtonId::DPadLeft => 3,
        ButtonId::DPadUp => 4,
        ButtonId::DPadRight => 5,
        ButtonId::DPadDown => 6,
        ButtonId::A => 7,
        ButtonId::ProximitySensor => 31,
        ButtonId::Axis0 => 32,
        ButtonId::Axis1 => 33,
        ButtonId::Axis2 => 34,
        ButtonId::Axis3 => 35,
        ButtonId::Axis4 => 36,
    }
}

/// The mask bit of a button: bit `n` for button number `n`.
pub open spec fn button_mask(id: ButtonId) -> u64 {
    1u64 << button_number(id)
}

impl ButtonId {
    /// The number OpenVR gives this button.
    pub fn number(self) -> (n: u32)
        ensures
            n == button_number(self),
            n < 64,
    {
        match self {
            ButtonId::System => 0,
            ButtonId::ApplicationMenu => 1,
            ButtonId::Grip => 2,
            ButtonId::DPadLeft => 3,
            ButtonId::DPadUp => 4,
            ButtonId::DPadRight => 5,
            ButtonId::DPadDown => 6,
            ButtonId::A => 7,
            ButtonId::ProximitySensor => 31,
            ButtonId::Axis0 => 32,
            ButtonId::Axis1 => 33,
            ButtonId::Axis2 => 34,
            ButtonId::Axis3 => 35,
            ButtonId::Axis4 => 36,
        }
    }
}

/// The mask bit of a button, as `ButtonMaskFromId` in openvr.h computes it.
pub fn button_mask_from_id(id: ButtonId) -> (m: u64)
    ensures
        m == button_mask(id),
{
    let n = id.number();
    1u64 << n
}

/// Per-frame bookkeeping of the legacy interface: the packet number and,
/// per hand, whether that hand's state was already read this frame.
#[derive(Copy, Clone, Debug, PartialEq, Eq, Structural)]
pub struct LegacyState {
    pub packet_num: u32,
    pub got_state_left: bool,
    pub got_state_right: bool,
}

/// The state after an action sync: the packet number advances (wrapping)
/// and no hand has been read.
pub open spec fn legacy_sync_step(s: LegacyState) -> LegacyState {
    LegacyState {
        packet_num: if s.packet_num == u32::MAX {
            0
        } else {
            (s.packet_num + 1) as u32
        },
        got_state_left: false,
        got_state_right: false,
    }
}

/// The state after reading `hand`, and whether that read was the first of
/// the hand in the frame.
pub open spec fn legacy_claim_step(s: LegacyState, hand: Hand) -> (LegacyState, bool) {
    match hand {
        Hand::Left => (LegacyState { got_state_left: true, ..s }, !s.got_state_left),
        Hand::Right => (LegacyState { got_state_right: true, ..s }, !s.got_state_right),
    }
}

impl LegacyState {
    pub fn new() -> (r: Self)
        ensures
            r == (LegacyState { packet_num: 0, got_state_left: false, got_state_right: false }),
    {
        LegacyState { packet_num: 0, got_state_left: false, got_state_right: false }
    }

    /// Starts a new frame: the packet number advances (wrapping) and no
    /// hand has been read.
    pub fn on_action_sync(&mut self)
        ensures
            *final(self) == legacy_sync_step(*old(self)),
    {
        self.packet_num = if self.packet_num == u32::MAX {
            0
        } else {
            self.packet_num + 1
        };
        self.got_state_left = false;
        self.got_state_right = false;
    }

    /// Notes that `hand` is being read this frame; true when this is the
    /// first read of that hand in the frame, so its button events are due.
    pub fn claim_events(&mut self, hand: Hand) -> (first: bool)
        ensures
            (*final(self), first) == legacy_claim_step(*old(self), hand),
    {
        match hand {
            Hand::Left => {
                let first = !self.got_state_left;
                self.got_state_left = true;
                first
            },
            Hand::Right => {
                let first = !self.got_state_right;
                self.got_state_right = true;
                first
            },
        }
    }
}

/// Button events of a hand are delivered once per frame: after a sync the
/// first read of a hand claims them, a second read of the same hand in the
/// frame does not, reading one hand leaves the other's events due, and the
/// next sync makes them due again.
pub proof fn lemma_events_once_per_frame(s: LegacyState, hand: Hand, other: Hand)
    requires
        other != hand,
    ensures
        ({
            let synced = legacy_sync_step(s);
            let (after_first, first) = legacy_claim_step(synced, hand);
            let (after_second, second) = legacy_claim_step(after_first, hand);
            &&& first
            &&& !second
            &&& legacy_claim_step(after_first, other).1
            &&& legacy_claim_step(legacy_sync_step(after_second), hand).1
        }),
{
}

/// What one legacy button reads this frame: its click action and, for
/// buttons with one, its touch action.
#[derive(Copy, Clone, Debug, PartialEq, Eq, Structural)]
pub struct ButtonReading {
    pub id: ButtonId,
    pub pressed: bool,
    pub press_changed: bool,
    pub touch: Option<TouchReading>,
}

#[derive(Copy, Clone, Debug, PartialEq, Eq, Structural)]
pub struct TouchReading {
    pub touched: bool,
    pub changed: bool,
}

/// The kinds of button events of the legacy interface.
#[derive(Copy, Clone, Debug, PartialEq, Eq, Structural)]
pub enum ButtonEventType {
    ButtonPress,
    ButtonUnpress,
    ButtonTouch,
    ButtonUntouch,
}

/// A button event for the application's event queue.
#[derive(Copy, Clone, Debug, PartialEq, Eq, Structural)]
pub struct InputEvent {
    pub ty: ButtonEventType,
    pub index: u32,
    pub button: u32,
}

/// The buttons of a legacy controller state, as `ulButtonPressed` and
/// `ulButtonTouched` report them, with the events the reading produced.
#[derive(Clone, Debug)]
pub struct LegacyButtons {
    pub packet_num: u32,
    pub pressed: u64,
    pub touched: u64,
    pub events: Vec<InputEvent>,
}

pub open spec fn pressed_mask(rs: Seq<ButtonReading>) -> u64
    decreases rs.len(),
{
    if rs.len() == 0 {
        0
    } else {
        pressed_mask(rs.drop_last()) | (if rs.last().pressed {
            button_mask(rs.last().id)
        } else {
            0
        })
    }
}

pub open spec fn touched_mask(rs: Seq<ButtonReading>) -> u64
    decreases rs.len(),
{
    if rs.len() == 0 {
        0
    } else {
        touched_mask(rs.drop_last()) | (if rs.last().touch matches Some(t) && t.touched {
            button_mask(rs.last().id)
        } else {
            0
        })
    }
}

/// The events of one button: touch or untouch when the touch changed, then
/// press or unpress when the click changed.
pub open spec fn button_events(r: ButtonReading, index: u32) -> Seq<InputEvent> {
    let touch_events = match r.touch {
        Some(t) => if t.changed {
            seq![
                InputEvent {
                    ty: if t.touched {
                        ButtonEventType::ButtonTouch
                    } else {
                        ButtonEventType::ButtonUntouch
                    },
                    index,
                    button: button_number(r.id),
                },
            ]
        } else {
            Seq::<InputEvent>::empty()
        },
        None => Seq::<InputEvent>::empty(),
    };
    let press_events = if r.press_changed {
        seq![
            InputEvent {
                ty: if r.pressed {
                    ButtonEventType::ButtonPress
                } else {
                    ButtonEventType::ButtonUnpress
                },
                index,
                button: button_number(r.id),
            },
        ]
    } else {
        Seq::<InputEvent>::empty()
    };
    touch_events + press_events
}

pub open spec fn all_button_events(rs: Seq<ButtonReading>, index: u32) -> Seq<InputEvent>
    decreases rs.len(),
{
    if rs.len() == 0 {
        Seq::<InputEvent>::empty()
    } else {
        all_button_events(rs.drop_last(), index) + button_events(rs.last(), index)
    }
}

/// The buttons the legacy state reports, in the order they are read: the
/// main axis click (with its touch), the trigger click, the application
/// menu, A, and the squeeze click as both grip and third axis.
pub open spec fn legacy_button_order() -> Seq<ButtonId> {
    seq![
        ButtonId::Axis0,
        ButtonId::Axis1,
        ButtonId::ApplicationMenu,
        ButtonId::A,
        ButtonId::Grip,
        ButtonId::Axis2,
    ]
}

/// Assembles the button part of a legacy controller state from this frame's
/// readings; the events are produced only when `emit_events` is set (the
/// first read of the hand in the frame).
pub fn legacy_buttons(
    packet_num: u32,
    device_index: u32,
    readings: &Vec<ButtonReading>,
    emit_events: bool,
) -> (r: LegacyButtons)
    ensures
        r.packet_num == packet_num,
        r.pressed == pressed_mask(readings@),
        r.touched == touched_mask(readings@),
        r.events@ == (if emit_events {
            all_button_events(readings@, device_index)
        } else {
            Seq::<InputEvent>::empty()
        }),
{
    let mut pressed: u64 = 0;
    let mut touched: u64 = 0;
    let mut events: Vec<InputEvent> = Vec::new();
    let mut i: usize = 0;
    while i < readings.len()
        invariant
            i <= readings@.len(),
            pressed == pressed_mask(readings@.subrange(0, i as int)),
            touched == touched_mask(readings@.subrange(0, i as int)),
            events@ == (if emit_events {
                all_button_events(readings@.subrange(0, i as int), device_index)
            } else {
                Seq::<InputEvent>::empty()
            }),
        decreases readings@.len() - i,
    {
        let ghost pre = readings@.subrange(0, i as int);
        let ghost post = readings@.subrange(0, i + 1);
        assert(post.drop_last() =~= pre);
        let r = readings[i];
        assert(post.last() == r);
        let mask = button_mask_from_id(r.id);
        let number = r.id.number();
        if r.pressed {
            pressed = pressed | mask;
        } else {
            pressed = pressed | 0;
        }
        let is_touched = match r.touch {
            Some(t) => t.touched,
            None => false,
        };
        if is_touched {
            touched = touched | mask;
        } else {
            touched = touched | 0;
        }
        if emit_events {
            let ghost before = events@;
            match r.touch {
                Some(t) => {
                    if t.changed {
                        events.push(
                            InputEvent {
                                ty: if t.touched {
                                    ButtonEventType::ButtonTouch
                                } else {
                                    ButtonEventType::ButtonUntouch
                                },
                                index: device_index,
                                button: number,
                            },
                        );
                    }
                },
                None => {},
            }
            if r.press_changed {
                events.push(
                    InputEvent {
                        ty: if r.pressed {
                            ButtonEventType::ButtonPress
                        } else {
                            ButtonEventType::ButtonUnpress
                        },
                        index: device_index,
                        button: number,
                    },
                );
            }
            assert(events@ =~= before + button_events(r, device_index));
        }
        i = i + 1;
    }
    assert(readings@.subrange(0, readings@.len() as int) =~= readings@);
    LegacyButtons { packet_num, pressed, touched, events }
}

/// Where a legacy haptic pulse goes.
#[derive(Copy, Clone, Debug, PartialEq, Eq, Structural)]
pub enum HapticRoute {
    /// The device is not a controller, or no actions are ready: nothing.
    Ignore,
    /// An action manifest is loaded: its haptic action.
    Manifest,
    /// The legacy haptic action.
    Legacy,
}

/// Where a legacy haptic pulse for a device goes.
pub fn legacy_haptic_route(hand: Option<Hand>, manifest_loaded: bool, legacy_ready: bool) -> (r:
    HapticRoute)
    ensures
        r == (if hand.is_none() {
            HapticRoute::Ignore
        } else if manifest_loaded {
            HapticRoute::Manifest
        } else if legacy_ready {
            HapticRoute::Legacy
        } else {
            HapticRoute::Ignore
        }),
{
    if hand.is_none() {
        HapticRoute::Ignore
    } else if manifest_loaded {
        HapticRoute::Manifest
    } else if legacy_ready {
        HapticRoute::Legacy
    } else {
        HapticRoute::Ignore
    }
}

/// The length in nanoseconds of a legacy pulse given in microseconds.
pub fn legacy_haptic_duration_nanos(duration_us: u16) -> (r: i64)
    ensures
        r == duration_us * 1000,
{
    (duration_us as i64) * 1000
}

/// How a legacy controller state request is answered.
#[derive(Copy, Clone, Debug, PartialEq, Eq, Structural)]
pub enum LegacyStateAnswer {
    /// The state has the wrong size or there is nowhere to write it:
    /// nothing is written and the request fails.
    NotWritten,
    /// The request fails, but the caller's state is still overwritten with
    /// the zeroed default (see [`LegacyButtons::zeroed`]; the axes at rest).
    Zeroed,
    /// The hand's buttons and axes are read and the request succeeds.
    Read(Hand),
}

impl LegacyStateAnswer {
    /// Whether the request reports success.
    pub fn succeeded(self) -> (b: bool)
        ensures
            b == (self is Read),
    {
        match self {
            LegacyStateAnswer::Read(_) => true,
            _ => false,
        }
    }
}

impl LegacyButtons {
    /// The button part of the zeroed default state: packet number 0, nothing
    /// pressed or touched, no events.
    pub fn zeroed() -> (r: LegacyButtons)
        ensures
            r.packet_num == 0,
            r.pressed == 0,
            r.touched == 0,
            r.events@.len() == 0,
    {
        LegacyButtons { packet_num: 0, pressed: 0, touched: 0, events: Vec::new() }
    }
}

/// How a legacy controller state request is answered. A state of the wrong
/// size or a missing state is refused before anything is written; past
/// those checks the state is always written, zeroed unless no action
/// manifest is loaded, the legacy actions are ready and the device is a
/// controller, in which case the hand is read.
pub fn legacy_state_available(
    size_matches: bool,
    state_present: bool,
    manifest_loaded: bool,
    legacy_ready: bool,
    hand: Option<Hand>,
) -> (r: LegacyStateAnswer)
    ensures
        r == (if !size_matches || !state_present {
            LegacyStateAnswer::NotWritten
        } else if manifest_loaded || !legacy_ready || hand.is_none() {
            LegacyStateAnswer::Zeroed
        } else {
            LegacyStateAnswer::Read(hand.unwrap())
        }),
{
    if !size_matches || !state_present {
        return LegacyStateAnswer::NotWritten;
    }
    if manifest_loaded || !legacy_ready {
        return LegacyStateAnswer::Zeroed;
    }
    match hand {
        Some(h) => LegacyStateAnswer::Read(h),
        None => LegacyStateAnswer::Zeroed,
    }
}


/// The legacy buttons carry OpenVR's `EVRButtonId` numbers (openvr.h):
/// System 0, ApplicationMenu 1, Grip 2, the dpad 3 to 6 (left, up, right,
/// down), A 7, ProximitySensor 31 and the axes 32 to 36; the mask of a
/// button is the single bit of its number (so the grip is bit 2, 4), and
/// different buttons have different bits.
pub proof fn lemma_button_ids_are_openvr_numbers(a: ButtonId, b: ButtonId)
    ensures
        button_number(ButtonId::System) == 0,
        button_number(ButtonId::ApplicationMenu) == 1,
        button_number(ButtonId::Grip) == 2,
        button_number(ButtonId::DPadLeft) == 3,
        button_number(ButtonId::DPadUp) == 4,
        button_number(ButtonId::DPadRight) == 5,
        button_number(ButtonId::DPadDown) == 6,
        button_number(ButtonId::A) == 7,
        button_number(ButtonId::ProximitySensor) == 31,
        button_number(ButtonId::Axis0) == 32,
        button_number(ButtonId::Axis1) == 33,
        button_number(ButtonId::Axis2) == 34,
        button_number(ButtonId::Axis3) == 35,
        button_number(ButtonId::Axis4) == 36,
        button_mask(ButtonId::Grip) == 4,
        button_mask(ButtonId::ApplicationMenu) == 2,
        button_mask(ButtonId::A) == 128,
        button_mask(a) == 1u64 << button_number(a),
        a != b ==> button_mask(a) != button_mask(b),
{
    assert((1u64 << 2u32) == 4u64) by (bit_vector);
    assert((1u64 << 1u32) == 2u64) by (bit_vector);
    assert((1u64 << 7u32) == 128u64) by (bit_vector);
    let n = button_number(a);
    let m = button_number(b);
    assert(forall|x: u32, y: u32| x < 64 && y < 64 && x != y ==> (1u64 << x) != (1u64 << y))
        by (bit_vector);
}
} // verus!
