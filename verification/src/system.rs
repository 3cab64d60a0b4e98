//! The tracked-device queries of the OpenVR system interface: connection,
//! class, role, activity and the property getters with their error codes.
use vstd::prelude::*;
use crate::openxr_data::{ControllerRole, Hand, hand_of_role, role_of_hand};
use crate::input::devices::{
    DeviceClass, DeviceProperty, TrackedDeviceList, TrackedDeviceType, controller_hand,
    first_controller_index, int_property, string_property, uint_property,
};

verus! {

/// The index of the HMD (`k_unTrackedDeviceIndex_Hmd`).
pub const HMD_INDEX: u32 = 0;

/// The index reported when there is no device (`k_unTrackedDeviceIndexInvalid`).
pub const INVALID_DEVICE_INDEX: u32 = 0xFFFF_FFFF;

/// The OpenVR property errors (`ETrackedPropertyError`).
#[derive(Copy, Clone, Debug, PartialEq, Eq, Structural)]
pub enum PropertyError {
    Success,
    WrongDataType,
    WrongDeviceClass,
    BufferTooSmall,
    UnknownProperty,
    InvalidDevice,
}

/// The OpenVR device activity levels.
#[derive(Copy, Clone, Debug, PartialEq, Eq, Structural)]
pub enum ActivityLevel {
    Unknown,
    Idle,
    UserInteraction,
    UserInteractionTimeout,
    Standby,
}

/// Whether a device is connected: the HMD always is, other devices when
/// input is set up and lists them as connected.
pub open spec fn spec_device_connected(input: Option<&TrackedDeviceList>, index: u32) -> bool {
    index == HMD_INDEX || match input {
        Some(l) => index < l.devices().len() && l.devices()[index as int].connected,
        None => false,
    }
}

/// The hand of the device at `index`, when input is set up and the device
/// is a controller.
pub open spec fn spec_device_hand(input: Option<&TrackedDeviceList>, index: u32) -> Option<Hand> {
    match input {
        Some(l) => if index < l.devices().len() {
            controller_hand(l.devices()[index as int])
        } else {
            None
        },
        None => None,
    }
}

/// `IsTrackedDeviceConnected`.
pub fn is_tracked_device_connected(input: Option<&TrackedDeviceList>, index: u32) -> (r: bool)
    ensures
        r == spec_device_connected(input, index),
{
    if index == HMD_INDEX {
        return true;
    }
    match input {
        Some(l) => l.is_device_connected(index),
        None => false,
    }
}

/// `GetTrackedDeviceClass`: the HMD at index 0, the listed class of other
/// devices, `Invalid` otherwise.
pub fn get_tracked_device_class(input: Option<&TrackedDeviceList>, index: u32) -> (r: DeviceClass)
    ensures
        index == HMD_INDEX ==> r == DeviceClass::Hmd,
        index != HMD_INDEX ==> r == match input {
            Some(l) => if index < l.devices().len() {
                match l.devices()[index as int].device_type {
                    TrackedDeviceType::Hmd => DeviceClass::Hmd,
                    TrackedDeviceType::Controller { .. } => DeviceClass::Controller,
                    TrackedDeviceType::GenericTracker { .. } => DeviceClass::GenericTracker,
                }
            } else {
                DeviceClass::Invalid
            },
            None => DeviceClass::Invalid,
        },
{
    if index == HMD_INDEX {
        return DeviceClass::Hmd;
    }
    match input {
        Some(l) => match l.device_index_to_tracked_device_class(index) {
            Some(c) => c,
            None => DeviceClass::Invalid,
        },
        None => DeviceClass::Invalid,
    }
}

/// `GetControllerRoleForTrackedDeviceIndex`.
pub fn get_controller_role_for_tracked_device_index(
    input: Option<&TrackedDeviceList>,
    index: u32,
) -> (r: ControllerRole)
    ensures
        r == match spec_device_hand(input, index) {
            Some(h) => role_of_hand(h),
            None => ControllerRole::Invalid,
        },
{
    match input {
        Some(l) => match l.device_index_to_hand(index) {
            Some(h) => h.to_role(),
            None => ControllerRole::Invalid,
        },
        None => ControllerRole::Invalid,
    }
}

/// `GetTrackedDeviceIndexForControllerRole`.
pub fn get_tracked_device_index_for_controller_role(
    input: Option<&TrackedDeviceList>,
    role: ControllerRole,
) -> (r: u32)
    requires
        input matches Some(l) ==> l.wf(),
    ensures
        r == match (input, hand_of_role(role)) {
            (Some(l), Some(h)) => match first_controller_index(l.devices(), h) {
                Some(i) => i as u32,
                None => INVALID_DEVICE_INDEX,
            },
            _ => INVALID_DEVICE_INDEX,
        },
{
    match input {
        Some(l) => match Hand::try_from_role(role) {
            Some(h) => match l.get_controller_index(h) {
                Some(i) => i,
                None => INVALID_DEVICE_INDEX,
            },
            None => INVALID_DEVICE_INDEX,
        },
        None => INVALID_DEVICE_INDEX,
    }
}

/// `GetTrackedDeviceActivityLevel`: the HMD is always in use, a controller
/// while connected.
pub fn get_tracked_device_activity_level(input: Option<&TrackedDeviceList>, index: u32) -> (r:
    ActivityLevel)
    ensures
        r == (if index == HMD_INDEX {
            ActivityLevel::UserInteraction
        } else if spec_device_hand(input, index).is_some() && spec_device_connected(input, index) {
            ActivityLevel::UserInteraction
        } else {
            ActivityLevel::Unknown
        }),
{
    if index == HMD_INDEX {
        return ActivityLevel::UserInteraction;
    }
    let is_controller = match input {
        Some(l) => l.device_index_to_hand(index).is_some(),
        None => false,
    };
    if is_controller {
        if is_tracked_device_connected(input, index) {
            ActivityLevel::UserInteraction
        } else {
            ActivityLevel::Unknown
        }
    } else {
        ActivityLevel::Unknown
    }
}

/// The string the HMD reports for a property: `<unknown>` for the three
/// properties applications insist on, nothing for the others.
pub open spec fn hmd_string_property(prop: DeviceProperty) -> Option<Seq<char>> {
    match prop {
        DeviceProperty::SerialNumberString | DeviceProperty::ManufacturerNameString
        | DeviceProperty::ControllerTypeString => Some("<unknown>"@),
        _ => None,
    }
}

/// What a string property request answers: the error code, the length of
/// the property with its terminating NUL (0 on error), and the bytes to
/// copy into the caller's buffer when they fit.
#[derive(Debug)]
pub struct StringPropertyResult {
    pub error: PropertyError,
    pub len: u32,
    pub bytes: Option<Vec<u8>>,
}

/// The string a device reports for a property, if any.
pub open spec fn spec_string_property_value(
    input: Option<&TrackedDeviceList>,
    index: u32,
    prop: DeviceProperty,
) -> Option<Seq<char>> {
    if index == HMD_INDEX {
        hmd_string_property(prop)
    } else {
        match input {
            Some(l) => if index < l.devices().len() {
                string_property(l.devices()[index as int], prop)
            } else {
                None
            },
            None => None,
        }
    }
}

/// What a string property request answers: the error, the size of the
/// property with its NUL (0 on error), and the bytes copied into the
/// caller's buffer of `buffer_len` bytes when they fit.
pub open spec fn spec_string_property_answer(
    input: Option<&TrackedDeviceList>,
    index: u32,
    prop: DeviceProperty,
    buffer_len: u32,
) -> (PropertyError, u32, Option<Seq<u8>>) {
    if !spec_device_connected(input, index) {
        (PropertyError::InvalidDevice, 0u32, None)
    } else {
        match spec_string_property_value(input, index, prop) {
            None => (PropertyError::UnknownProperty, 0u32, None),
            Some(v) => {
                let b = crate::text::utf8_with_nul(v);
                if buffer_len < b.len() {
                    (PropertyError::BufferTooSmall, b.len() as u32, None)
                } else {
                    (PropertyError::Success, b.len() as u32, Some(b))
                }
            },
        }
    }
}

/// Asking with no buffer gives the size a property needs, and asking again
/// with a buffer of that size copies it; a missing device or property
/// answers the same error either way.
pub proof fn lemma_string_property_size_then_copy(
    input: Option<&TrackedDeviceList>,
    index: u32,
    prop: DeviceProperty,
)
    requires
        spec_string_property_value(input, index, prop) matches Some(v) ==> crate::text::utf8_with_nul(
            v,
        ).len() <= u32::MAX,
    ensures
        ({
            let first = spec_string_property_answer(input, index, prop, 0);
            let second = spec_string_property_answer(input, index, prop, first.1);
            if first.0 == PropertyError::BufferTooSmall {
                &&& second.0 == PropertyError::Success
                &&& second.1 == first.1
                &&& second.2 == Some(crate::text::utf8_with_nul(spec_string_property_value(input, index, prop).unwrap()))
            } else {
                second == first
            }
        }),
{
}

/// `GetStringTrackedDeviceProperty`: `buffer_len` is the size of the
/// caller's buffer (0 when it gave none).
pub fn get_string_tracked_device_property(
    input: Option<&TrackedDeviceList>,
    index: u32,
    prop: DeviceProperty,
    buffer_len: u32,
) -> (r: StringPropertyResult)
    requires
        index != HMD_INDEX ==> (input matches Some(l) ==> (index < l.devices().len() ==> !(
        l.devices()[index as int].device_type is Hmd && l.devices()[index as int].profile.is_some()
            && prop == DeviceProperty::SerialNumberString))),
    ensures
        ({
            let (error, len, bytes) = spec_string_property_answer(input, index, prop, buffer_len);
            &&& r.error == error
            &&& r.len == len
            &&& match r.bytes {
                Some(b) => bytes == Some(b@),
                None => bytes.is_none(),
            }
        }),
{
    if !is_tracked_device_connected(input, index) {
        return StringPropertyResult { error: PropertyError::InvalidDevice, len: 0, bytes: None };
    }
    let data: Option<String> = if index == HMD_INDEX {
        match prop {
            DeviceProperty::SerialNumberString | DeviceProperty::ManufacturerNameString
            | DeviceProperty::ControllerTypeString => Some(String::from_str("<unknown>")),
            _ => None,
        }
    } else {
        match input {
            Some(l) => l.get_device_string_tracked_property(index, prop),
            None => None,
        }
    };
    let data = match data {
        Some(d) => d,
        None => {
            return StringPropertyResult {
                error: PropertyError::UnknownProperty,
                len: 0,
                bytes: None,
            };
        },
    };
    let bytes = crate::text::bytes_with_nul(data.as_str());
    let len = bytes.len() as u32;
    assert(len == bytes@.len() as u32);
    if (buffer_len as usize) < bytes.len() {
        StringPropertyResult { error: PropertyError::BufferTooSmall, len, bytes: None }
    } else {
        StringPropertyResult { error: PropertyError::Success, len, bytes: Some(bytes) }
    }
}

/// The 64-bit unsigned property a device reports, when input is set up.
pub open spec fn spec_uint_property_value(
    input: Option<&TrackedDeviceList>,
    index: u32,
    prop: DeviceProperty,
) -> Option<u64> {
    match input {
        Some(l) => if index < l.devices().len() {
            uint_property(l.devices()[index as int], prop)
        } else {
            None
        },
        None => None,
    }
}

/// The 32-bit integer property a device reports, when input is set up.
pub open spec fn spec_int_property_value(
    input: Option<&TrackedDeviceList>,
    index: u32,
    prop: DeviceProperty,
) -> Option<i32> {
    match input {
        Some(l) => if index < l.devices().len() {
            int_property(l.devices()[index as int], prop)
        } else {
            None
        },
        None => None,
    }
}

/// `GetUint64TrackedDeviceProperty`: the value and the error code.
pub fn get_uint64_tracked_device_property(
    input: Option<&TrackedDeviceList>,
    index: u32,
    prop: DeviceProperty,
) -> (r: (u64, PropertyError))
    ensures
        !spec_device_connected(input, index) ==> r == (0u64, PropertyError::InvalidDevice),
        spec_device_connected(input, index) ==> r == match spec_uint_property_value(
            input,
            index,
            prop,
        ) {
            Some(v) => (v, PropertyError::Success),
            None => (0u64, PropertyError::UnknownProperty),
        },
{
    if !is_tracked_device_connected(input, index) {
        return (0, PropertyError::InvalidDevice);
    }
    let v = match input {
        Some(l) => l.get_device_uint_tracked_property(index, prop),
        None => None,
    };
    match v {
        Some(v) => (v, PropertyError::Success),
        None => (0, PropertyError::UnknownProperty),
    }
}

/// `GetInt32TrackedDeviceProperty`: the value and the error code.
pub fn get_int32_tracked_device_property(
    input: Option<&TrackedDeviceList>,
    index: u32,
    prop: DeviceProperty,
) -> (r: (i32, PropertyError))
    ensures
        !spec_device_connected(input, index) ==> r == (0i32, PropertyError::InvalidDevice),
        spec_device_connected(input, index) ==> r == match spec_int_property_value(
            input,
            index,
            prop,
        ) {
            Some(v) => (v, PropertyError::Success),
            None => (0i32, PropertyError::UnknownProperty),
        },
{
    if !is_tracked_device_connected(input, index) {
        return (0, PropertyError::InvalidDevice);
    }
    let v = match input {
        Some(l) => l.get_device_int_tracked_property(index, prop),
        None => None,
    };
    match v {
        Some(v) => (v, PropertyError::Success),
        None => (0, PropertyError::UnknownProperty),
    }
}

/// `GetMatrix34TrackedDeviceProperty`: no device reports a matrix, so the
/// error is `InvalidDevice` for a missing device and `UnknownProperty`
/// otherwise (the value is all zeros either way).
pub fn matrix34_property_error(input: Option<&TrackedDeviceList>, index: u32) -> (r: PropertyError)
    ensures
        r == (if spec_device_connected(input, index) {
            PropertyError::UnknownProperty
        } else {
            PropertyError::InvalidDevice
        }),
{
    if is_tracked_device_connected(input, index) {
        PropertyError::UnknownProperty
    } else {
        PropertyError::InvalidDevice
    }
}

/// Where the value of a float property comes from.
#[derive(Copy, Clone, Debug, PartialEq, Eq, Structural)]
pub enum FloatPropertySource {
    /// The distance between the two eye views.
    Ipd,
    /// The display refresh rate.
    RefreshRate,
    /// No such property: the answer is 0 with `UnknownProperty`.
    Unknown,
}

/// `GetFloatTrackedDeviceProperty`: only the HMD has float properties, its
/// IPD and its refresh rate.
pub fn float_property_source(index: u32, prop: DeviceProperty) -> (r: FloatPropertySource)
    ensures
        r == (if index != HMD_INDEX {
            FloatPropertySource::Unknown
        } else {
            match prop {
                DeviceProperty::UserIpdMetersFloat => FloatPropertySource::Ipd,
                DeviceProperty::DisplayFrequencyFloat => FloatPropertySource::RefreshRate,
                _ => FloatPropertySource::Unknown,
            }
        }),
{
    if index != HMD_INDEX {
        return FloatPropertySource::Unknown;
    }
    match prop {
        DeviceProperty::UserIpdMetersFloat => FloatPropertySource::Ipd,
        DeviceProperty::DisplayFrequencyFloat => FloatPropertySource::RefreshRate,
        _ => FloatPropertySource::Unknown,
    }
}

/// The vertices of a hidden area mesh, one per index, and its triangle
/// count: the runtime hands out an indexed mesh, OpenVR wants a plain
/// triangle list.
pub fn hidden_area_triangles<T: Copy>(indices: &[u32], vertices: &[T]) -> (r: (Vec<T>, u32))
    requires
        forall|k: int| 0 <= k < indices@.len() ==> (#[trigger] indices@[k]) < vertices@.len(),
        indices@.len() / 3 <= u32::MAX,
    ensures
        r.0@.len() == indices@.len(),
        forall|k: int| 0 <= k < indices@.len() ==> r.0@[k] == vertices@[#[trigger] indices@[k] as int],
        r.1 == indices@.len() / 3,
{
    let mut out: Vec<T> = Vec::new();
    let mut k: usize = 0;
    while k < indices.len()
        invariant
            k <= indices@.len(),
            out@.len() == k,
            forall|j: int| 0 <= j < indices@.len() ==> (#[trigger] indices@[j]) < vertices@.len(),
            forall|j: int| 0 <= j < k ==> out@[j] == vertices@[#[trigger] indices@[j] as int],
        decreases indices@.len() - k,
    {
        let i = indices[k];
        out.push(vertices[i as usize]);
        k = k + 1;
    }
    let count = (out.len() / 3) as u32;
    (out, count)
}

/// `VREvent_ButtonPress`.
pub const EVENT_BUTTON_PRESS: u32 = 200;
/// `VREvent_ButtonUnpress`.
pub const EVENT_BUTTON_UNPRESS: u32 = 201;
/// `VREvent_ButtonTouch`.
pub const EVENT_BUTTON_TOUCH: u32 = 202;
/// `VREvent_ButtonUntouch`.
pub const EVENT_BUTTON_UNTOUCH: u32 = 203;

/// Whether an event polled for an application of the 0.9.12 interface can
/// be handed to it: that layout carries only the controller data of the
/// button events, so any other event makes the poll report nothing.
pub fn deliver_event_0_9_12(got_event: bool, event_type: u32) -> (r: bool)
    ensures
        r == (got_event && (event_type == EVENT_BUTTON_PRESS || event_type
            == EVENT_BUTTON_UNPRESS || event_type == EVENT_BUTTON_TOUCH || event_type
            == EVENT_BUTTON_UNTOUCH)),
{
    if !got_event {
        return false;
    }
    event_type == EVENT_BUTTON_PRESS || event_type == EVENT_BUTTON_UNPRESS || event_type
        == EVENT_BUTTON_TOUCH || event_type == EVENT_BUTTON_UNTOUCH
}

} // verus!
