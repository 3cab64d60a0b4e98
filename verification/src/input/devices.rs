//! The tracked device list: the HMD at index 0, controllers and generic
//! trackers after it, and the OpenVR properties each device reports.
use vstd::prelude::*;
use crate::openxr_data::Hand;
use crate::input::profiles::{
    MainAxisType, Profile, ProfileProperties, property_for, spec_profile_properties,
};
use crate::input::paths::split_seq;
use crate::text::{chars_of, string_from_chars, str_equal};
use crate::input::paths::split_chars;

verus! {

/// The most devices OpenVR can report (`k_unMaxTrackedDeviceCount`).
pub const MAX_TRACKED_DEVICE_COUNT: u32 = 64;

/// What kind of device a list entry is.
#[derive(Debug)]
pub enum TrackedDeviceType {
    Hmd,
    Controller { hand: Hand },
    GenericTracker { serial: String },
}

/// The OpenVR device classes.
#[derive(Copy, Clone, Debug, PartialEq, Eq, Structural)]
pub enum DeviceClass {
    Invalid,
    Hmd,
    Controller,
    GenericTracker,
}

/// The OpenVR device properties that devices answer.
#[derive(Copy, Clone, Debug, PartialEq, Eq, Structural)]
pub enum DeviceProperty {
    ControllerTypeString,
    ModelNumberString,
    RenderModelNameString,
    RegisteredDeviceTypeString,
    TrackingSystemNameString,
    SerialNumberString,
    ManufacturerNameString,
    Axis0TypeInt32,
    Axis1TypeInt32,
    Axis2TypeInt32,
    Axis3TypeInt32,
    Axis4TypeInt32,
    SupportedButtonsUint64,
    UserIpdMetersFloat,
    DisplayFrequencyFloat,
    /// Any other property, by its OpenVR number.
    Other(u32),
}

/// The OpenVR axis types (`EVRControllerAxisType`) by number.
pub const AXIS_TYPE_NONE: i32 = 0;
pub const AXIS_TYPE_TRACKPAD: i32 = 1;
pub const AXIS_TYPE_JOYSTICK: i32 = 2;
pub const AXIS_TYPE_TRIGGER: i32 = 3;

/// A device in the list.
#[derive(Debug)]
pub struct TrackedDevice {
    pub device_type: TrackedDeviceType,
    /// The interaction profile the device reports its properties for.
    pub profile: Option<Profile>,
    /// The interaction profile path (0 when there is none).
    pub profile_path: u64,
    pub connected: bool,
    pub previous_connected: bool,
}

pub open spec fn is_hmd(d: TrackedDevice) -> bool {
    d.device_type is Hmd
}

pub open spec fn is_generic_tracker(d: TrackedDevice) -> bool {
    d.device_type is GenericTracker
}

/// The hand of a device, when it is a controller.
pub open spec fn controller_hand(d: TrackedDevice) -> Option<Hand> {
    match d.device_type {
        TrackedDeviceType::Controller { hand } => Some(hand),
        _ => None,
    }
}

/// The string property a device reports, where it has one.
pub open spec fn string_property(d: TrackedDevice, prop: DeviceProperty) -> Option<Seq<char>> {
    let hand = match controller_hand(d) {
        Some(h) => h,
        None => Hand::Left,
    };
    match d.profile {
        None => None,
        Some(p) => {
            let data = spec_profile_properties(p);
            match prop {
                DeviceProperty::ControllerTypeString => Some(data.openvr_controller_type@),
                DeviceProperty::ModelNumberString => Some(property_for(data.model, hand)@),
                DeviceProperty::RenderModelNameString => Some(
                    property_for(data.render_model_name, hand)@,
                ),
                DeviceProperty::RegisteredDeviceTypeString => Some(
                    property_for(data.registered_device_type, hand)@,
                ),
                DeviceProperty::TrackingSystemNameString => Some(data.tracking_system_name@),
                DeviceProperty::SerialNumberString => match d.device_type {
                    TrackedDeviceType::GenericTracker { serial } => Some(serial@),
                    _ => Some(property_for(data.serial_number, hand)@),
                },
                DeviceProperty::ManufacturerNameString => Some(data.manufacturer_name@),
                _ => None,
            }
        },
    }
}

/// The 32-bit integer property a device reports: the axis types of a
/// controller.
pub open spec fn int_property(d: TrackedDevice, prop: DeviceProperty) -> Option<i32> {
    if controller_hand(d).is_none() || d.profile.is_none() {
        None
    } else {
        let data = spec_profile_properties(d.profile.unwrap());
        match prop {
            DeviceProperty::Axis0TypeInt32 => Some(
                match data.main_axis {
                    MainAxisType::Thumbstick => AXIS_TYPE_JOYSTICK,
                    MainAxisType::Trackpad => AXIS_TYPE_TRACKPAD,
                },
            ),
            DeviceProperty::Axis1TypeInt32 | DeviceProperty::Axis2TypeInt32 => Some(
                AXIS_TYPE_TRIGGER,
            ),
            DeviceProperty::Axis3TypeInt32 | DeviceProperty::Axis4TypeInt32 => Some(AXIS_TYPE_NONE),
            _ => None,
        }
    }
}

/// The 64-bit unsigned property a device reports: the buttons of a
/// controller.
pub open spec fn uint_property(d: TrackedDevice, prop: DeviceProperty) -> Option<u64> {
    if controller_hand(d).is_none() || d.profile.is_none() {
        None
    } else {
        match prop {
            DeviceProperty::SupportedButtonsUint64 => Some(
                spec_profile_properties(d.profile.unwrap()).legacy_buttons_mask,
            ),
            _ => None,
        }
    }
}

impl TrackedDevice {
    /// A device with the given type and profile; only the HMD starts
    /// connected.
    pub fn new(device_type: TrackedDeviceType, profile_path: Option<u64>, profile: Option<Profile>) -> (r:
        Self)
        ensures
            r.device_type == device_type,
            r.profile == profile,
            r.profile_path == (match profile_path {
                Some(p) => p,
                None => 0,
            }),
            r.connected == (device_type is Hmd),
            !r.previous_connected,
    {
        let connected = match device_type {
            TrackedDeviceType::Hmd => true,
            _ => false,
        };
        TrackedDevice {
            device_type,
            profile,
            profile_path: match profile_path {
                Some(p) => p,
                None => 0,
            },
            connected,
            previous_connected: false,
        }
    }

    /// Whether the connection state changed since the last call; the
    /// change is acknowledged.
    pub fn has_connected_changed(&mut self) -> (r: bool)
        ensures
            r == (old(self).previous_connected != old(self).connected),
            final(self).previous_connected == old(self).connected,
            final(self).connected == old(self).connected,
            final(self).device_type == old(self).device_type,
            final(self).profile == old(self).profile,
            final(self).profile_path == old(self).profile_path,
    {
        if self.previous_connected != self.connected {
            self.previous_connected = self.connected;
            true
        } else {
            false
        }
    }

    /// The hand of the device, when it is a controller.
    pub fn get_controller_hand(&self) -> (r: Option<Hand>)
        ensures
            r == controller_hand(*self),
    {
        match self.device_type {
            TrackedDeviceType::Controller { hand } => Some(hand),
            _ => None,
        }
    }

    /// The OpenVR class of the device.
    pub fn device_class(&self) -> (r: DeviceClass)
        ensures
            r == (match self.device_type {
                TrackedDeviceType::Hmd => DeviceClass::Hmd,
                TrackedDeviceType::Controller { .. } => DeviceClass::Controller,
                TrackedDeviceType::GenericTracker { .. } => DeviceClass::GenericTracker,
            }),
    {
        match self.device_type {
            TrackedDeviceType::Hmd => DeviceClass::Hmd,
            TrackedDeviceType::Controller { .. } => DeviceClass::Controller,
            TrackedDeviceType::GenericTracker { .. } => DeviceClass::GenericTracker,
        }
    }

    /// The string property the device reports, where it has one. An HMD
    /// with a profile has no serial number to report.
    pub fn get_string_property(&self, prop: DeviceProperty) -> (r: Option<String>)
        requires
            !(self.device_type is Hmd && self.profile.is_some() && prop
                == DeviceProperty::SerialNumberString),
        ensures
            match r {
                Some(s) => string_property(*self, prop) == Some(s@),
                None => string_property(*self, prop).is_none(),
            },
    {
        let hand = match self.device_type {
            TrackedDeviceType::Controller { hand } => hand,
            _ => Hand::Left,
        };
        let profile = match self.profile {
            Some(p) => p,
            None => {
                return None;
            },
        };
        let data = profile.properties();
        let s: &str = match prop {
            DeviceProperty::ControllerTypeString => data.openvr_controller_type,
            DeviceProperty::ModelNumberString => *data.model.get(hand),
            DeviceProperty::RenderModelNameString => *data.render_model_name.get(hand),
            DeviceProperty::RegisteredDeviceTypeString => *data.registered_device_type.get(hand),
            DeviceProperty::TrackingSystemNameString => data.tracking_system_name,
            DeviceProperty::SerialNumberString => {
                match &self.device_type {
                    TrackedDeviceType::GenericTracker { serial } => {
                        return Some(serial.clone());
                    },
                    _ => *data.serial_number.get(hand),
                }
            },
            DeviceProperty::ManufacturerNameString => data.manufacturer_name,
            _ => {
                return None;
            },
        };
        Some(String::from_str(s))
    }

    /// The 32-bit integer property the device reports, where it has one.
    pub fn get_int_property(&self, prop: DeviceProperty) -> (r: Option<i32>)
        ensures
            r == int_property(*self, prop),
    {
        match self.device_type {
            TrackedDeviceType::Controller { .. } => {},
            _ => {
                return None;
            },
        }
        let profile = match self.profile {
            Some(p) => p,
            None => {
                return None;
            },
        };
        let data = profile.properties();
        match prop {
            DeviceProperty::Axis0TypeInt32 => Some(
                match data.main_axis {
                    MainAxisType::Thumbstick => AXIS_TYPE_JOYSTICK,
                    MainAxisType::Trackpad => AXIS_TYPE_TRACKPAD,
                },
            ),
            DeviceProperty::Axis1TypeInt32 | DeviceProperty::Axis2TypeInt32 => Some(
                AXIS_TYPE_TRIGGER,
            ),
            DeviceProperty::Axis3TypeInt32 | DeviceProperty::Axis4TypeInt32 => Some(AXIS_TYPE_NONE),
            _ => None,
        }
    }

    /// The 64-bit unsigned property the device reports, where it has one.
    pub fn get_uint_property(&self, prop: DeviceProperty) -> (r: Option<u64>)
        ensures
            r == uint_property(*self, prop),
    {
        match self.device_type {
            TrackedDeviceType::Controller { .. } => {},
            _ => {
                return None;
            },
        }
        let profile = match self.profile {
            Some(p) => p,
            None => {
                return None;
            },
        };
        match prop {
            DeviceProperty::SupportedButtonsUint64 => Some(profile.properties().legacy_buttons_mask),
            _ => None,
        }
    }
}

/// The OpenVR input errors the device list can give.
#[derive(Copy, Clone, Debug, PartialEq, Eq, Structural)]
pub enum InputError {
    MaxCapacityReached,
}

/// The devices with the generic trackers taken out, in order.
pub open spec fn without_trackers(s: Seq<TrackedDevice>) -> Seq<TrackedDevice>
    decreases s.len(),
{
    if s.len() == 0 {
        Seq::<TrackedDevice>::empty()
    } else if is_generic_tracker(s.last()) {
        without_trackers(s.drop_last())
    } else {
        without_trackers(s.drop_last()).push(s.last())
    }
}

/// The first index holding the controller of `hand`, if any.
pub open spec fn first_controller_index(s: Seq<TrackedDevice>, hand: Hand) -> Option<int>
    decreases s.len(),
{
    if s.len() == 0 {
        None
    } else {
        match first_controller_index(s.drop_last(), hand) {
            Some(i) => Some(i),
            None => if controller_hand(s.last()) == Some(hand) {
                Some(s.len() - 1)
            } else {
                None
            },
        }
    }
}

/// A new generic tracker, connected, reporting the tracker profile.
pub open spec fn new_tracker(serial: String) -> TrackedDevice {
    TrackedDevice {
        device_type: TrackedDeviceType::GenericTracker { serial },
        profile: Some(Profile::ViveTracker),
        profile_path: 0,
        connected: true,
        previous_connected: false,
    }
}

/// The devices known to the runtime, indexed as OpenVR sees them.
#[derive(Debug)]
pub struct TrackedDeviceList {
    devices: Vec<TrackedDevice>,
}

impl TrackedDeviceList {
    /// The devices, in index order.
    pub closed spec fn devices(&self) -> Seq<TrackedDevice> {
        self.devices@
    }

    /// The list holds the HMD at index 0 and at most
    /// `MAX_TRACKED_DEVICE_COUNT` devices.
    pub open spec fn wf(&self) -> bool {
        &&& 1 <= self.devices().len() <= MAX_TRACKED_DEVICE_COUNT
        &&& is_hmd(self.devices()[0])
    }

    /// A list holding only the HMD: connected, with no profile.
    pub fn new() -> (r: Self)
        ensures
            r.wf(),
            r.devices() == seq![
                TrackedDevice {
                    device_type: TrackedDeviceType::Hmd,
                    profile: None,
                    profile_path: 0,
                    connected: true,
                    previous_connected: false,
                },
            ],
    {
        let hmd = TrackedDevice::new(TrackedDeviceType::Hmd, None, None);
        let v = vec![hmd];
        proof {
            assert(v@ =~= seq![
                TrackedDevice {
                    device_type: TrackedDeviceType::Hmd,
                    profile: None,
                    profile_path: 0,
                    connected: true,
                    previous_connected: false,
                },
            ]);
        }
        TrackedDeviceList { devices: v }
    }

    pub fn len(&self) -> (n: usize)
        ensures
            n == self.devices().len(),
    {
        self.devices.len()
    }

    /// The device at `device_index`, if there is one.
    pub fn get_device(&self, device_index: u32) -> (r: Option<&TrackedDevice>)
        ensures
            match r {
                Some(d) => device_index < self.devices().len() && *d == self.devices()[device_index as int],
                None => device_index >= self.devices().len(),
            },
    {
        if (device_index as usize) < self.devices.len() {
            Some(&self.devices[device_index as usize])
        } else {
            None
        }
    }

    /// Appends a device and gives its index, unless the list is full.
    pub fn push_device(&mut self, device: TrackedDevice) -> (r: Result<u32, InputError>)
        requires
            old(self).wf(),
        ensures
            final(self).wf(),
            match r {
                Ok(i) => {
                    &&& i == old(self).devices().len()
                    &&& final(self).devices() == old(self).devices().push(device)
                },
                Err(e) => {
                    &&& e == InputError::MaxCapacityReached
                    &&& old(self).devices().len() >= MAX_TRACKED_DEVICE_COUNT
                    &&& final(self).devices() == old(self).devices()
                },
            },
    {
        let index = self.devices.len() as u32;
        if index >= MAX_TRACKED_DEVICE_COUNT {
            return Err(InputError::MaxCapacityReached);
        }
        self.devices.push(device);
        Ok(index)
    }

    /// The index of the controller of `hand`: the first one in the list.
    pub fn get_controller_index(&self, hand: Hand) -> (r: Option<u32>)
        requires
            self.wf(),
        ensures
            match r {
                Some(i) => first_controller_index(self.devices(), hand) == Some(i as int),
                None => first_controller_index(self.devices(), hand).is_none(),
            },
    {
        let mut i: usize = 0;
        while i < self.devices.len()
            invariant
                i <= self.devices@.len() <= MAX_TRACKED_DEVICE_COUNT,
                first_controller_index(self.devices@.subrange(0, i as int), hand).is_none(),
            decreases self.devices@.len() - i,
        {
            let ghost pre = self.devices@.subrange(0, i as int);
            let ghost post = self.devices@.subrange(0, i + 1);
            assert(post.drop_last() =~= pre);
            if self.devices[i].get_controller_hand() == Some(hand) {
                proof {
                    lemma_first_controller_extends(self.devices@, i as int + 1, hand);
                }
                return Some(i as u32);
            }
            i = i + 1;
        }
        assert(self.devices@.subrange(0, self.devices@.len() as int) =~= self.devices@);
        None
    }

    /// The controller of `hand`, if there is one.
    pub fn get_controller(&self, hand: Hand) -> (r: Option<&TrackedDevice>)
        requires
            self.wf(),
        ensures
            match r {
                Some(d) => first_controller_index(self.devices(), hand) matches Some(i) && *d
                    == self.devices()[i],
                None => first_controller_index(self.devices(), hand).is_none(),
            },
    {
        match self.get_controller_index(hand) {
            Some(i) => {
                proof {
                    lemma_first_controller_in_range(self.devices(), hand);
                }
                self.get_device(i)
            },
            None => None,
        }
    }

    /// Records whether the device at `device_index` is connected.
    pub fn set_connected(&mut self, device_index: u32, connected: bool)
        requires
            old(self).wf(),
            device_index < old(self).devices().len(),
        ensures
            final(self).wf(),
            final(self).devices().len() == old(self).devices().len(),
            final(self).devices()[device_index as int].connected == connected,
            final(self).devices()[device_index as int].device_type == old(self).devices()[device_index as int].device_type,
            final(self).devices()[device_index as int].previous_connected == old(self).devices()[device_index as int].previous_connected,
            forall|j: int|
                0 <= j < final(self).devices().len() && j != device_index ==> final(self).devices()[j] == old(self).devices()[j],
    {
        let i = device_index as usize;
        let mut d = self.devices.remove(i);
        d.connected = connected;
        self.devices.insert(i, d);
        proof {
            assert(self.devices@[0].device_type == old(self).devices()[0].device_type);
        }
    }

    /// Whether the connection of the device at `device_index` changed since
    /// the last call; the change is acknowledged.
    pub fn take_connected_change(&mut self, device_index: u32) -> (r: bool)
        requires
            old(self).wf(),
            device_index < old(self).devices().len(),
        ensures
            final(self).wf(),
            final(self).devices().len() == old(self).devices().len(),
            r == (old(self).devices()[device_index as int].previous_connected != old(self).devices()[device_index as int].connected),
            final(self).devices()[device_index as int].previous_connected == old(self).devices()[device_index as int].connected,
            final(self).devices()[device_index as int].connected == old(self).devices()[device_index as int].connected,
            forall|j: int|
                0 <= j < final(self).devices().len() && j != device_index ==> final(self).devices()[j] == old(self).devices()[j],
    {
        let i = device_index as usize;
        let mut d = self.devices.remove(i);
        let r = d.has_connected_changed();
        self.devices.insert(i, d);
        r
    }

    /// Replaces the generic trackers by new ones with the given serials,
    /// as many as the list has room for.
    pub fn replace_generic_trackers(&mut self, serials: Vec<String>)
        requires
            old(self).wf(),
        ensures
            final(self).wf(),
            ({
                let kept = without_trackers(old(self).devices());
                let room = MAX_TRACKED_DEVICE_COUNT - kept.len();
                let n = if serials@.len() < room {
                    serials@.len() as int
                } else {
                    room
                };
                &&& final(self).devices().len() == kept.len() + n
                &&& final(self).devices().subrange(0, kept.len() as int) == kept
                &&& forall|j: int|
                    0 <= j < n ==> #[trigger] final(self).devices()[kept.len() + j] == new_tracker(
                        serials@[j],
                    )
            }),
    {
        let ghost orig = self.devices@;
        let mut old_devices: Vec<TrackedDevice> = Vec::new();
        std::mem::swap(&mut old_devices, &mut self.devices);
        let mut kept: Vec<TrackedDevice> = Vec::new();
        let ghost total = old_devices@.len();
        let mut k: usize = 0;
        while old_devices.len() > 0
            invariant
                orig.len() == total,
                total <= MAX_TRACKED_DEVICE_COUNT,
                k + old_devices@.len() == total,
                old_devices@ == orig.subrange(k as int, total as int),
                kept@ == without_trackers(orig.subrange(0, k as int)),
            decreases old_devices@.len(),
        {
            let ghost pre = orig.subrange(0, k as int);
            let ghost post = orig.subrange(0, k + 1);
            assert(post.drop_last() =~= pre);
            assert(post.last() == old_devices@[0]);
            let d = old_devices.remove(0);
            let tracker = match d.device_type {
                TrackedDeviceType::GenericTracker { .. } => true,
                _ => false,
            };
            if !tracker {
                kept.push(d);
            }
            k = k + 1;
            assert(old_devices@ =~= orig.subrange(k as int, total as int));
        }
        assert(orig.subrange(0, total as int) =~= orig);
        proof {
            lemma_without_trackers_keeps_hmd(orig);
        }
        let room: usize = (MAX_TRACKED_DEVICE_COUNT as usize) - kept.len();
        let ghost kept0 = kept@;
        let mut serials = serials;
        let ghost all = serials@;
        let mut j: usize = 0;
        while j < room && serials.len() > 0
            invariant
                kept0.len() + room == MAX_TRACKED_DEVICE_COUNT,
                j <= room,
                kept@.len() == kept0.len() + j,
                kept@.subrange(0, kept0.len() as int) == kept0,
                serials@ == all.subrange(j as int, all.len() as int),
                j <= all.len(),
                forall|i: int| 0 <= i < j ==> #[trigger] kept@[kept0.len() + i] == new_tracker(all[i]),
            decreases room - j,
        {
            let serial = serials.remove(0);
            let t = TrackedDevice {
                device_type: TrackedDeviceType::GenericTracker { serial },
                profile: Some(Profile::ViveTracker),
                profile_path: 0,
                connected: true,
                previous_connected: false,
            };
            kept.push(t);
            j = j + 1;
            assert(serials@ =~= all.subrange(j as int, all.len() as int));
            assert(kept@.subrange(0, kept0.len() as int) =~= kept0);
        }
        self.devices = kept;
    }
}

impl TrackedDeviceList {
    /// Whether there is a device at `index` and it is connected.
    pub fn is_device_connected(&self, index: u32) -> (r: bool)
        ensures
            r == (index < self.devices().len() && self.devices()[index as int].connected),
    {
        match self.get_device(index) {
            Some(d) => d.connected,
            None => false,
        }
    }

    /// The class of the device at `index`, if there is one.
    pub fn device_index_to_tracked_device_class(&self, index: u32) -> (r: Option<DeviceClass>)
        ensures
            match r {
                Some(c) => index < self.devices().len() && c == (match self.devices()[index as int].device_type {
                    TrackedDeviceType::Hmd => DeviceClass::Hmd,
                    TrackedDeviceType::Controller { .. } => DeviceClass::Controller,
                    TrackedDeviceType::GenericTracker { .. } => DeviceClass::GenericTracker,
                }),
                None => index >= self.devices().len(),
            },
    {
        match self.get_device(index) {
            Some(d) => Some(d.device_class()),
            None => None,
        }
    }

    /// The hand of the device at `index`, if it is a controller.
    pub fn device_index_to_hand(&self, index: u32) -> (r: Option<Hand>)
        ensures
            r == (if index < self.devices().len() {
                controller_hand(self.devices()[index as int])
            } else {
                None
            }),
    {
        match self.get_device(index) {
            Some(d) => d.get_controller_hand(),
            None => None,
        }
    }

    /// The string property of the device at `index`, if it has one.
    pub fn get_device_string_tracked_property(&self, index: u32, prop: DeviceProperty) -> (r:
        Option<String>)
        requires
            index < self.devices().len() ==> !(self.devices()[index as int].device_type is Hmd
                && self.devices()[index as int].profile.is_some() && prop
                == DeviceProperty::SerialNumberString),
        ensures
            match r {
                Some(s) => index < self.devices().len() && string_property(
                    self.devices()[index as int],
                    prop,
                ) == Some(s@),
                None => index >= self.devices().len() || string_property(
                    self.devices()[index as int],
                    prop,
                ).is_none(),
            },
    {
        match self.get_device(index) {
            Some(d) => d.get_string_property(prop),
            None => None,
        }
    }

    /// The 32-bit integer property of the device at `index`, if it has one.
    pub fn get_device_int_tracked_property(&self, index: u32, prop: DeviceProperty) -> (r: Option<
        i32,
    >)
        ensures
            r == (if index < self.devices().len() {
                int_property(self.devices()[index as int], prop)
            } else {
                None
            }),
    {
        match self.get_device(index) {
            Some(d) => d.get_int_property(prop),
            None => None,
        }
    }

    /// The 64-bit unsigned property of the device at `index`, if it has one.
    pub fn get_device_uint_tracked_property(&self, index: u32, prop: DeviceProperty) -> (r:
        Option<u64>)
        ensures
            r == (if index < self.devices().len() {
                uint_property(self.devices()[index as int], prop)
            } else {
                None
            }),
    {
        match self.get_device(index) {
            Some(d) => d.get_uint_property(prop),
            None => None,
        }
    }
}

/// The characters of each string.
pub open spec fn string_views(s: Seq<String>) -> Seq<Seq<char>> {
    s.map_values(|x: String| x@)
}

/// A device the runtime's device-enumeration extension lists.
#[derive(Debug)]
pub struct XDevInfo {
    pub name: String,
    pub serial: String,
    pub can_create_space: bool,
}

/// The lower-case form of a string as `str::to_lowercase` gives it (full
/// Unicode case mapping).
pub uninterp spec fn lowercase(s: Seq<char>) -> Seq<char>;

/// `str::to_lowercase`.
#[verifier::external_body]
fn to_lowercase(s: &str) -> (r: String)
    ensures
        r@ == lowercase(s@),
{
    s.to_lowercase()
}

/// Whether `needle` occurs in `hay`.
pub open spec fn contains_chars(hay: Seq<char>, needle: Seq<char>) -> bool {
    exists|i: int| 0 <= i && i + needle.len() <= hay.len() && #[trigger] hay.subrange(i, i + needle.len()) == needle
}

/// Whether `needle` occurs in `hay`.
pub fn find_chars(hay: &Vec<char>, needle: &Vec<char>) -> (r: bool)
    ensures
        r == contains_chars(hay@, needle@),
{
    if needle.len() > hay.len() {
        return false;
    }
    if needle.len() == 0 {
        assert(hay@.subrange(0int, 0int + needle@.len()) =~= needle@);
        return true;
    }
    let hl = hay.len();
    let last = hl - needle.len();
    let mut i: usize = 0;
    while i <= last
        invariant
            last + needle@.len() == hay@.len(),
            hl == hay@.len(),
            needle@.len() > 0,
            i <= last + 1,
            forall|k: int| 0 <= k < i ==> #[trigger] hay@.subrange(k, k + needle@.len()) != needle@,
        decreases last + 1 - i,
    {
        let mut j: usize = 0;
        let mut same = true;
        while j < needle.len()
            invariant
                i <= last,
                hl == hay@.len(),
                last + needle@.len() == hay@.len(),
                j <= needle@.len(),
                same == forall|m: int| 0 <= m < j ==> hay@[i + m] == needle@[m],
            decreases needle@.len() - j,
        {
            if hay[i + j] != needle[j] {
                same = false;
            }
            j = j + 1;
        }
        if same {
            assert(hay@.subrange(i as int, i + needle@.len()) =~= needle@);
            return true;
        }
        assert(hay@.subrange(i as int, i + needle@.len()) != needle@) by {
            let k = choose|m: int| 0 <= m < needle@.len() && hay@[i + m] != needle@[m];
            assert(hay@.subrange(i as int, i + needle@.len())[k] == hay@[i + k]);
        }
        i = i + 1;
    }
    assert forall|k: int| 0 <= k && k + needle@.len() <= hay@.len() implies #[trigger] hay@.subrange(
        k,
        k + needle@.len(),
    ) != needle@ by {}
    false
}

/// Whether a listed device becomes a generic tracker: it can be tracked,
/// and its lower-cased name mentions "tracker" or its serial is one of the
/// extra serials.
pub open spec fn xdev_is_tracker(x: XDevInfo, extra_serials: Seq<Seq<char>>) -> bool {
    x.can_create_space && (contains_chars(lowercase(x.name@), "tracker"@) || extra_serials.contains(
        x.serial@,
    ))
}

/// The indices of the listed devices that become generic trackers, in order.
pub open spec fn tracker_indices(xs: Seq<XDevInfo>, extra_serials: Seq<Seq<char>>) -> Seq<int>
    decreases xs.len(),
{
    if xs.len() == 0 {
        Seq::<int>::empty()
    } else if xdev_is_tracker(xs.last(), extra_serials) {
        tracker_indices(xs.drop_last(), extra_serials).push(xs.len() - 1)
    } else {
        tracker_indices(xs.drop_last(), extra_serials)
    }
}

/// The indices of the listed devices that become generic trackers, in order.
pub fn select_generic_trackers(xdevs: &Vec<XDevInfo>, extra_serials: &Vec<String>) -> (r: Vec<usize>)
    ensures
        r@.len() == tracker_indices(xdevs@, string_views(extra_serials@)).len(),
        forall|i: int|
            0 <= i < r@.len() ==> r@[i] as int == #[trigger] tracker_indices(
                xdevs@,
                string_views(extra_serials@),
            )[i],
{
    let ghost extras = string_views(extra_serials@);
    let tracker = chars_of("tracker");
    let mut r: Vec<usize> = Vec::new();
    let mut i: usize = 0;
    while i < xdevs.len()
        invariant
            i <= xdevs@.len(),
            tracker@ == "tracker"@,
            extras == string_views(extra_serials@),
            r@.len() == tracker_indices(xdevs@.subrange(0, i as int), extras).len(),
            forall|k: int|
                0 <= k < r@.len() ==> r@[k] as int == #[trigger] tracker_indices(
                    xdevs@.subrange(0, i as int),
                    extras,
                )[k],
        decreases xdevs@.len() - i,
    {
        let ghost pre = xdevs@.subrange(0, i as int);
        let ghost post = xdevs@.subrange(0, i + 1);
        assert(post.drop_last() =~= pre);
        let x = &xdevs[i];
        let mut selected = false;
        if x.can_create_space {
            let lower = to_lowercase(x.name.as_str());
            let lower_chars = chars_of(lower.as_str());
            if find_chars(&lower_chars, &tracker) {
                selected = true;
            } else {
                let mut j: usize = 0;
                while j < extra_serials.len()
                    invariant
                        j <= extra_serials@.len(),
                        extras == string_views(extra_serials@),
                        !selected ==> forall|m: int| 0 <= m < j ==> extras[m] != x.serial@,
                        selected ==> extras.contains(x.serial@),
                    decreases extra_serials@.len() - j,
                {
                    if str_equal(extra_serials[j].as_str(), x.serial.as_str()) {
                        selected = true;
                        assert(extras[j as int] == x.serial@);
                    }
                    j = j + 1;
                }
            }
        }
        assert(selected == xdev_is_tracker(*x, extras));
        if selected {
            r.push(i);
        }
        i = i + 1;
    }
    assert(xdevs@.subrange(0, xdevs@.len() as int) =~= xdevs@);
    r
}

/// The serials listed in a `;`-separated list, as `str::split` gives them.
pub fn parse_tracker_serials(list: &str) -> (r: Vec<String>)
    ensures
        string_views(r@) == split_seq(list@, ';'),
{
    let chars = chars_of(list);
    let pieces = split_chars(&chars, ';');
    let mut r: Vec<String> = Vec::new();
    let mut i: usize = 0;
    while i < pieces.len()
        invariant
            i <= pieces@.len(),
            pieces@.len() == split_seq(chars@, ';').len(),
            chars@ == list@,
            forall|k: int| 0 <= k < pieces@.len() ==> #[trigger] pieces@[k]@ == split_seq(chars@, ';')[k],
            r@.len() == i,
            forall|k: int| 0 <= k < i ==> #[trigger] r@[k]@ == pieces@[k]@,
        decreases pieces@.len() - i,
    {
        let s = string_from_chars(pieces[i].as_slice());
        r.push(s);
        i = i + 1;
    }
    assert(string_views(r@) =~= split_seq(list@, ';'));
    r
}

/// The serials of the generic trackers that setting up trackers from the
/// listed devices creates: those of the devices that are trackers, in
/// order, as many as `room` allows.
pub open spec fn tracker_serials_to_create(
    xs: Seq<XDevInfo>,
    extra_serials: Seq<Seq<char>>,
    room: int,
) -> Seq<String> {
    let sel = tracker_indices(xs, extra_serials);
    let n = if sel.len() < room {
        sel.len() as int
    } else {
        room
    };
    Seq::new(n as nat, |j: int| xs[sel[j]].serial)
}

impl TrackedDeviceList {
    /// Sets up the generic trackers from the devices that the runtime's
    /// device-enumeration extension lists, when that extension is enabled:
    /// the generic trackers leave the list, and the listed devices that are
    /// trackers join it in order, connected, as many as the list has room
    /// for. Gives the indices of the listed devices that became trackers
    /// (in the order of the new trackers), or `None`, with the list
    /// unchanged, when the extension is not enabled.
    pub fn create_monado_generic_trackers(
        &mut self,
        xdev_extension_enabled: bool,
        xdevs: &Vec<XDevInfo>,
        extra_serials: &Vec<String>,
    ) -> (r: Option<Vec<usize>>)
        requires
            old(self).wf(),
        ensures
            final(self).wf(),
            !xdev_extension_enabled ==> r.is_none() && final(self).devices() == old(self).devices(),
            xdev_extension_enabled ==> ({
                let kept = without_trackers(old(self).devices());
                let room = MAX_TRACKED_DEVICE_COUNT - kept.len();
                let sel = tracker_indices(xdevs@, string_views(extra_serials@));
                let serials = tracker_serials_to_create(xdevs@, string_views(extra_serials@), room);
                &&& r matches Some(v) && v@.len() == serials.len() && forall|j: int|
                    0 <= j < v@.len() ==> #[trigger] v@[j] as int == sel[j]
                &&& final(self).devices().len() == kept.len() + serials.len()
                &&& final(self).devices().subrange(0, kept.len() as int) == kept
                &&& forall|j: int|
                    0 <= j < serials.len() ==> #[trigger] final(self).devices()[kept.len() + j]
                        == new_tracker(serials[j])
            }),
    {
        if !xdev_extension_enabled {
            return None;
        }
        let ghost kept = without_trackers(self.devices@);
        proof {
            lemma_without_trackers_keeps_hmd(self.devices@);
        }
        let kept_len = self.count_non_trackers();
        let room: usize = (MAX_TRACKED_DEVICE_COUNT as usize) - kept_len;
        let ghost extras = string_views(extra_serials@);
        let ghost sel = tracker_indices(xdevs@, extras);
        let selected = select_generic_trackers(xdevs, extra_serials);
        let mut chosen: Vec<usize> = Vec::new();
        let mut serials: Vec<String> = Vec::new();
        let mut j: usize = 0;
        while j < selected.len() && j < room
            invariant
                selected@.len() == sel.len(),
                forall|i: int| 0 <= i < selected@.len() ==> #[trigger] selected@[i] as int == sel[i],
                sel == tracker_indices(xdevs@, extras),
                j <= selected@.len(),
                j <= room,
                serials@.len() == j,
                chosen@.len() == j,
                forall|i: int| 0 <= i < j ==> #[trigger] serials@[i] == xdevs@[sel[i]].serial,
                forall|i: int| 0 <= i < j ==> #[trigger] chosen@[i] as int == sel[i],
            decreases selected@.len() - j,
        {
            proof {
                lemma_tracker_indices_in_range(xdevs@, extras, j as int);
            }
            let idx = selected[j];
            chosen.push(idx);
            serials.push(xdevs[idx].serial.clone());
            j = j + 1;
        }
        let ghost all = serials@;
        proof {
            let want = tracker_serials_to_create(xdevs@, extras, room as int);
            assert(want =~= all);
        }
        self.replace_generic_trackers(serials);
        Some(chosen)
    }

    /// The number of devices that are not generic trackers.
    fn count_non_trackers(&self) -> (n: usize)
        requires
            self.wf(),
        ensures
            n == without_trackers(self.devices()).len(),
    {
        let mut n: usize = 0;
        let mut i: usize = 0;
        while i < self.devices.len()
            invariant
                i <= self.devices@.len(),
                self.devices@.len() <= MAX_TRACKED_DEVICE_COUNT,
                n == without_trackers(self.devices@.subrange(0, i as int)).len(),
            decreases self.devices@.len() - i,
        {
            proof {
                let pre = self.devices@.subrange(0, i as int);
                let post = self.devices@.subrange(0, i + 1);
                assert(post.drop_last() =~= pre);
                lemma_without_trackers_len(pre);
            }
            let tracker = match self.devices[i].device_type {
                TrackedDeviceType::GenericTracker { .. } => true,
                _ => false,
            };
            if !tracker {
                n = n + 1;
            }
            i = i + 1;
        }
        assert(self.devices@.subrange(0, self.devices@.len() as int) =~= self.devices@);
        n
    }
}

/// The indices of the listed devices that are trackers lie in the list.
proof fn lemma_tracker_indices_in_range(xs: Seq<XDevInfo>, extra_serials: Seq<Seq<char>>, j: int)
    requires
        0 <= j < tracker_indices(xs, extra_serials).len(),
    ensures
        0 <= tracker_indices(xs, extra_serials)[j] < xs.len(),
    decreases xs.len(),
{
    if xs.len() > 0 {
        let rest = tracker_indices(xs.drop_last(), extra_serials);
        if j < rest.len() {
            lemma_tracker_indices_in_range(xs.drop_last(), extra_serials, j);
        }
    }
}

proof fn lemma_first_controller_extends(s: Seq<TrackedDevice>, n: int, hand: Hand)
    requires
        1 <= n <= s.len(),
        first_controller_index(s.subrange(0, n - 1), hand).is_none(),
        controller_hand(s[n - 1]) == Some(hand),
    ensures
        first_controller_index(s, hand) == Some(n - 1),
    decreases s.len() - n,
{
    let t = s.subrange(0, n);
    assert(t.drop_last() =~= s.subrange(0, n - 1));
    if n < s.len() {
        lemma_first_controller_prefix(s, n, hand);
    } else {
        assert(t =~= s);
    }
}

proof fn lemma_first_controller_prefix(s: Seq<TrackedDevice>, n: int, hand: Hand)
    requires
        0 <= n <= s.len(),
        first_controller_index(s.subrange(0, n), hand).is_some(),
    ensures
        first_controller_index(s, hand) == first_controller_index(s.subrange(0, n), hand),
    decreases s.len() - n,
{
    if n < s.len() {
        let t = s.subrange(0, n + 1);
        assert(t.drop_last() =~= s.subrange(0, n));
        lemma_first_controller_prefix(s, n + 1, hand);
    } else {
        assert(s.subrange(0, n) =~= s);
    }
}

proof fn lemma_first_controller_in_range(s: Seq<TrackedDevice>, hand: Hand)
    ensures
        first_controller_index(s, hand) matches Some(i) ==> 0 <= i < s.len() && controller_hand(
            s[i],
        ) == Some(hand),
    decreases s.len(),
{
    if s.len() > 0 {
        lemma_first_controller_in_range(s.drop_last(), hand);
    }
}

proof fn lemma_without_trackers_len(s: Seq<TrackedDevice>)
    ensures
        without_trackers(s).len() <= s.len(),
    decreases s.len(),
{
    if s.len() > 0 {
        lemma_without_trackers_len(s.drop_last());
    }
}

proof fn lemma_without_trackers_keeps_hmd(s: Seq<TrackedDevice>)
    requires
        s.len() >= 1,
        is_hmd(s[0]),
    ensures
        without_trackers(s).len() >= 1,
        is_hmd(without_trackers(s)[0]),
        without_trackers(s).len() <= s.len(),
    decreases s.len(),
{
    lemma_without_trackers_len(s);
    if s.len() > 1 {
        assert(s.drop_last()[0] == s[0]);
        lemma_without_trackers_keeps_hmd(s.drop_last());
    } else {
        assert(s.drop_last().len() == 0);
    }
}

/// A device pushed onto the list is found at the index the push gave.
pub proof fn lemma_push_then_get(l: Seq<TrackedDevice>, d: TrackedDevice)
    ensures
        l.push(d)[l.len() as int] == d,
        forall|j: int| 0 <= j < l.len() ==> l.push(d)[j] == l[j],
{
}

/// The index found for a hand holds that hand's controller, and no
/// earlier device is a controller of that hand.
pub proof fn lemma_controller_index_is_first(s: Seq<TrackedDevice>, hand: Hand)
    ensures
        first_controller_index(s, hand) matches Some(i) ==> {
            &&& 0 <= i < s.len()
            &&& controller_hand(s[i]) == Some(hand)
            &&& forall|j: int| 0 <= j < i ==> controller_hand(#[trigger] s[j]) != Some(hand)
        },
    decreases s.len(),
{
    if s.len() > 0 {
        lemma_controller_index_is_first(s.drop_last(), hand);
        lemma_first_controller_in_range(s, hand);
        match first_controller_index(s.drop_last(), hand) {
            Some(i) => {
                assert forall|j: int| 0 <= j < i implies controller_hand(#[trigger] s[j]) != Some(
                    hand,
                ) by {
                    assert(s.drop_last()[j] == s[j]);
                }
            },
            None => {
                if controller_hand(s.last()) == Some(hand) {
                    assert forall|j: int| 0 <= j < s.len() - 1 implies controller_hand(
                        #[trigger] s[j],
                    ) != Some(hand) by {
                        lemma_no_controller_before(s.drop_last(), hand, j);
                        assert(s.drop_last()[j] == s[j]);
                    }
                }
            },
        }
    }
}

proof fn lemma_no_controller_before(s: Seq<TrackedDevice>, hand: Hand, j: int)
    requires
        first_controller_index(s, hand).is_none(),
        0 <= j < s.len(),
    ensures
        controller_hand(s[j]) != Some(hand),
    decreases s.len(),
{
    if j < s.len() - 1 {
        assert(s.drop_last()[j] == s[j]);
        lemma_no_controller_before(s.drop_last(), hand, j);
    }
}


/// A controller with a profile reports OpenVR's axis types
/// (`EVRControllerAxisType` in openvr.h: none 0, trackpad 1, joystick 2,
/// trigger 3): axis 0 is its main axis (a joystick or a trackpad), axes 1
/// and 2 (trigger and grip) are trigger axes, and only axes 3 and 4 are
/// absent.
pub proof fn lemma_controller_axis_types(d: TrackedDevice)
    requires
        controller_hand(d).is_some(),
        d.profile.is_some(),
    ensures
        int_property(d, DeviceProperty::Axis0TypeInt32) matches Some(t) && (t == 1 || t == 2),
        int_property(d, DeviceProperty::Axis1TypeInt32) == Some(3i32),
        int_property(d, DeviceProperty::Axis2TypeInt32) == Some(3i32),
        int_property(d, DeviceProperty::Axis2TypeInt32) == int_property(d, DeviceProperty::Axis1TypeInt32),
        int_property(d, DeviceProperty::Axis3TypeInt32) == Some(0i32),
        int_property(d, DeviceProperty::Axis4TypeInt32) == Some(0i32),
{
}
} // verus!
