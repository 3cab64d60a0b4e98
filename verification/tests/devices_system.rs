use xrizer::input::devices::{
    parse_tracker_serials, select_generic_trackers, DeviceClass, DeviceProperty, InputError,
    TrackedDevice, TrackedDeviceList, TrackedDeviceType, XDevInfo, AXIS_TYPE_JOYSTICK,
    AXIS_TYPE_TRIGGER, MAX_TRACKED_DEVICE_COUNT,
};
use xrizer::input::legacy::{
    button_mask_from_id, legacy_buttons, legacy_haptic_route, legacy_haptic_duration_nanos,
    legacy_state_available, ButtonEventType, LegacyButtons, LegacyStateAnswer, ButtonId, ButtonReading, HapticRoute, LegacyState,
    TouchReading,
};
use xrizer::input::profiles::Profile;
use xrizer::openxr_data::{ControllerRole, Hand};
use xrizer::system::{
    deliver_event_0_9_12, float_property_source, get_controller_role_for_tracked_device_index,
    get_int32_tracked_device_property, get_string_tracked_device_property,
    get_tracked_device_activity_level, get_tracked_device_class,
    get_tracked_device_index_for_controller_role, get_uint64_tracked_device_property,
    hidden_area_triangles, is_tracked_device_connected, matrix34_property_error, ActivityLevel,
    FloatPropertySource, PropertyError, EVENT_BUTTON_PRESS, INVALID_DEVICE_INDEX,
};

fn controllers(profile: Profile) -> TrackedDeviceList {
    let mut l = TrackedDeviceList::new();
    let left = TrackedDevice::new(TrackedDeviceType::Controller { hand: Hand::Left }, Some(7), Some(profile));
    let right = TrackedDevice::new(TrackedDeviceType::Controller { hand: Hand::Right }, Some(7), Some(profile));
    assert_eq!(l.push_device(left).unwrap(), 1);
    assert_eq!(l.push_device(right).unwrap(), 2);
    l
}

#[test]
fn unity_required_properties() {
    let test_prop = |prop: DeviceProperty| {
        let r = get_string_tracked_device_property(None, 0, prop, 0);
        assert_eq!(r.error, PropertyError::BufferTooSmall);
        assert!(r.len > 0);
        let r2 = get_string_tracked_device_property(None, 0, prop, r.len);
        assert_eq!(r2.error, PropertyError::Success);
        assert_eq!(r2.len, r.len);
        assert_eq!(r2.bytes.unwrap(), b"<unknown>\0".to_vec());
    };
    test_prop(DeviceProperty::SerialNumberString);
    test_prop(DeviceProperty::ManufacturerNameString);
    test_prop(DeviceProperty::ControllerTypeString);
}

#[test]
fn string_property_errors() {
    let l = controllers(Profile::Knuckles);
    let r = get_string_tracked_device_property(Some(&l), 5, DeviceProperty::ModelNumberString, 64);
    assert_eq!(r.error, PropertyError::InvalidDevice);
    assert_eq!(r.len, 0);
    // not yet connected
    let r = get_string_tracked_device_property(Some(&l), 1, DeviceProperty::ModelNumberString, 64);
    assert_eq!(r.error, PropertyError::InvalidDevice);
    let r = get_string_tracked_device_property(None, 0, DeviceProperty::ModelNumberString, 64);
    assert_eq!(r.error, PropertyError::UnknownProperty);
}

#[test]
fn controller_string_properties() {
    let mut l = controllers(Profile::Knuckles);
    l.set_connected(1, true);
    let r = get_string_tracked_device_property(Some(&l), 1, DeviceProperty::ModelNumberString, 64);
    assert_eq!(r.error, PropertyError::Success);
    assert_eq!(r.bytes.unwrap(), b"Knuckles Left\0".to_vec());
    assert_eq!(r.len, 14);
    let r = get_string_tracked_device_property(Some(&l), 1, DeviceProperty::SerialNumberString, 3);
    assert_eq!(r.error, PropertyError::BufferTooSmall);
    assert_eq!(r.len, 13);
    assert!(r.bytes.is_none());
}

#[test]
fn int_and_uint_properties() {
    let mut l = controllers(Profile::Knuckles);
    l.set_connected(2, true);
    assert_eq!(get_int32_tracked_device_property(Some(&l), 2, DeviceProperty::Axis0TypeInt32), (AXIS_TYPE_JOYSTICK, PropertyError::Success));
    assert_eq!(get_int32_tracked_device_property(Some(&l), 2, DeviceProperty::Axis1TypeInt32), (AXIS_TYPE_TRIGGER, PropertyError::Success));
    assert_eq!(get_int32_tracked_device_property(Some(&l), 1, DeviceProperty::Axis0TypeInt32), (0, PropertyError::InvalidDevice));
    assert_eq!(get_int32_tracked_device_property(Some(&l), 0, DeviceProperty::Axis0TypeInt32), (0, PropertyError::UnknownProperty));
    let expected = button_mask_from_id(ButtonId::System)
        | button_mask_from_id(ButtonId::ApplicationMenu)
        | button_mask_from_id(ButtonId::Grip)
        | button_mask_from_id(ButtonId::A)
        | button_mask_from_id(ButtonId::Axis0)
        | button_mask_from_id(ButtonId::Axis1)
        | button_mask_from_id(ButtonId::Axis2);
    assert_eq!(get_uint64_tracked_device_property(Some(&l), 2, DeviceProperty::SupportedButtonsUint64), (expected, PropertyError::Success));
    assert_eq!(get_uint64_tracked_device_property(None, 2, DeviceProperty::SupportedButtonsUint64), (0, PropertyError::InvalidDevice));
}

#[test]
fn matrix_and_float_properties() {
    assert_eq!(matrix34_property_error(None, 0), PropertyError::UnknownProperty);
    assert_eq!(matrix34_property_error(None, 3), PropertyError::InvalidDevice);
    assert_eq!(float_property_source(0, DeviceProperty::UserIpdMetersFloat), FloatPropertySource::Ipd);
    assert_eq!(float_property_source(0, DeviceProperty::DisplayFrequencyFloat), FloatPropertySource::RefreshRate);
    assert_eq!(float_property_source(1, DeviceProperty::DisplayFrequencyFloat), FloatPropertySource::Unknown);
    assert_eq!(float_property_source(0, DeviceProperty::Other(1000)), FloatPropertySource::Unknown);
}

#[test]
fn device_queries() {
    let mut l = controllers(Profile::OculusTouch);
    assert!(is_tracked_device_connected(None, 0));
    assert!(!is_tracked_device_connected(Some(&l), 1));
    l.set_connected(1, true);
    assert!(is_tracked_device_connected(Some(&l), 1));
    assert_eq!(get_tracked_device_class(Some(&l), 0), DeviceClass::Hmd);
    assert_eq!(get_tracked_device_class(Some(&l), 2), DeviceClass::Controller);
    assert_eq!(get_tracked_device_class(Some(&l), 9), DeviceClass::Invalid);
    assert_eq!(get_tracked_device_class(None, 2), DeviceClass::Invalid);
    assert_eq!(get_controller_role_for_tracked_device_index(Some(&l), 2), ControllerRole::RightHand);
    assert_eq!(get_controller_role_for_tracked_device_index(Some(&l), 0), ControllerRole::Invalid);
    assert_eq!(get_tracked_device_index_for_controller_role(Some(&l), ControllerRole::LeftHand), 1);
    assert_eq!(get_tracked_device_index_for_controller_role(Some(&l), ControllerRole::Treadmill), INVALID_DEVICE_INDEX);
    assert_eq!(get_tracked_device_index_for_controller_role(None, ControllerRole::LeftHand), INVALID_DEVICE_INDEX);
    assert_eq!(get_tracked_device_activity_level(Some(&l), 0), ActivityLevel::UserInteraction);
    assert_eq!(get_tracked_device_activity_level(Some(&l), 1), ActivityLevel::UserInteraction);
    assert_eq!(get_tracked_device_activity_level(Some(&l), 2), ActivityLevel::Unknown);
}

#[test]
fn push_then_get_and_capacity() {
    let mut l = TrackedDeviceList::new();
    assert_eq!(l.len(), 1);
    for i in 1..MAX_TRACKED_DEVICE_COUNT {
        let d = TrackedDevice::new(TrackedDeviceType::GenericTracker { serial: format!("s{i}") }, None, None);
        assert_eq!(l.push_device(d).unwrap(), i);
        assert!(matches!(l.get_device(i).unwrap().device_type, TrackedDeviceType::GenericTracker { .. }));
    }
    let d = TrackedDevice::new(TrackedDeviceType::Controller { hand: Hand::Left }, None, None);
    assert!(matches!(l.push_device(d), Err(InputError::MaxCapacityReached)));
    assert_eq!(l.len(), MAX_TRACKED_DEVICE_COUNT as usize);
}

#[test]
fn first_controller_of_a_hand_wins() {
    let mut l = controllers(Profile::Knuckles);
    let extra = TrackedDevice::new(TrackedDeviceType::Controller { hand: Hand::Left }, None, None);
    assert_eq!(l.push_device(extra).unwrap(), 3);
    assert_eq!(l.get_controller_index(Hand::Left), Some(1));
    assert_eq!(l.get_controller_index(Hand::Right), Some(2));
}

#[test]
fn connection_changes_are_reported_once() {
    let mut l = controllers(Profile::Knuckles);
    assert!(!l.take_connected_change(1));
    l.set_connected(1, true);
    assert!(l.take_connected_change(1));
    assert!(!l.take_connected_change(1));
}

#[test]
fn generic_trackers_are_replaced() {
    let mut l = controllers(Profile::Knuckles);
    l.replace_generic_trackers(vec!["A".to_string(), "B".to_string()]);
    assert_eq!(l.len(), 5);
    assert_eq!(l.device_index_to_tracked_device_class(3), Some(DeviceClass::GenericTracker));
    l.replace_generic_trackers(vec!["C".to_string()]);
    assert_eq!(l.len(), 4);
    assert_eq!(l.device_index_to_hand(1), Some(Hand::Left));
}

#[test]
fn tracker_selection() {
    let xdevs = vec![
        XDevInfo { name: "Vive Tracker 3.0".to_string(), serial: "X1".to_string(), can_create_space: true },
        XDevInfo { name: "Left controller".to_string(), serial: "X2".to_string(), can_create_space: true },
        XDevInfo { name: "Strap".to_string(), serial: "X3".to_string(), can_create_space: true },
        XDevInfo { name: "TRACKER".to_string(), serial: "X4".to_string(), can_create_space: false },
    ];
    assert_eq!(select_generic_trackers(&xdevs, &vec!["X3".to_string()]), vec![0, 2]);
    assert_eq!(select_generic_trackers(&xdevs, &vec![]), vec![0]);
}

#[test]
fn monado_generic_trackers_created() {
    let xdevs = vec![
        XDevInfo { name: "Vive Tracker 3.0".to_string(), serial: "X1".to_string(), can_create_space: true },
        XDevInfo { name: "Left controller".to_string(), serial: "X2".to_string(), can_create_space: true },
        XDevInfo { name: "Strap".to_string(), serial: "X3".to_string(), can_create_space: true },
    ];
    let extra = vec!["X3".to_string()];
    let mut l = controllers(Profile::Knuckles);
    l.replace_generic_trackers(vec!["OLD".to_string()]);
    assert_eq!(l.len(), 4);
    // Without the extension nothing changes.
    assert_eq!(l.create_monado_generic_trackers(false, &xdevs, &extra), None);
    assert_eq!(l.len(), 4);
    assert_eq!(l.get_device_string_tracked_property(3, DeviceProperty::SerialNumberString).unwrap(), "OLD");
    // With it, the old tracker leaves and the two listed trackers join.
    assert_eq!(l.create_monado_generic_trackers(true, &xdevs, &extra), Some(vec![0, 2]));
    assert_eq!(l.len(), 5);
    assert_eq!(l.get_device_string_tracked_property(3, DeviceProperty::SerialNumberString).unwrap(), "X1");
    assert_eq!(l.get_device_string_tracked_property(4, DeviceProperty::SerialNumberString).unwrap(), "X3");
    assert!(l.is_device_connected(4));
    assert_eq!(l.device_index_to_tracked_device_class(4), Some(DeviceClass::GenericTracker));
}

#[test]
fn monado_generic_trackers_limited_by_room() {
    let xdevs: Vec<XDevInfo> = (0..70)
        .map(|i| XDevInfo { name: "tracker".to_string(), serial: format!("T{i}"), can_create_space: true })
        .collect();
    let mut l = controllers(Profile::Knuckles);
    let chosen = l.create_monado_generic_trackers(true, &xdevs, &vec![]).unwrap();
    assert_eq!(l.len(), MAX_TRACKED_DEVICE_COUNT as usize);
    assert_eq!(chosen, (0..(MAX_TRACKED_DEVICE_COUNT as usize - 3)).collect::<Vec<_>>());
}

#[test]
fn get_tracker_serial() {
    // The runtime lists one tracker; with the left controller connected it
    // becomes device 2.
    let mut l = TrackedDeviceList::new();
    let left = TrackedDevice::new(TrackedDeviceType::Controller { hand: Hand::Left }, Some(7), Some(Profile::Knuckles));
    assert_eq!(l.push_device(left).unwrap(), 1);
    assert!(l.device_index_to_tracked_device_class(2).is_none());
    let xdevs = vec![XDevInfo { name: "Fake Tracker".to_string(), serial: "FAKEXR-SERIAL".to_string(), can_create_space: true }];
    assert_eq!(l.create_monado_generic_trackers(true, &xdevs, &vec![]), Some(vec![0]));
    assert_eq!(l.device_index_to_tracked_device_class(2), Some(DeviceClass::GenericTracker));
    assert_eq!(l.get_device_string_tracked_property(2, DeviceProperty::SerialNumberString).unwrap(), "FAKEXR-SERIAL");
}

#[test]
fn tracker_serial_list() {
    assert_eq!(parse_tracker_serials("a;b;;c"), vec!["a", "b", "", "c"]);
    assert_eq!(parse_tracker_serials(""), vec![""]);
}

#[test]
fn legacy_events_once_per_frame() {
    let mut s = LegacyState::new();
    s.on_action_sync();
    assert_eq!(s.packet_num, 1);
    assert!(s.claim_events(Hand::Left));
    assert!(!s.claim_events(Hand::Left));
    assert!(s.claim_events(Hand::Right));
    s.on_action_sync();
    assert!(s.claim_events(Hand::Left));
    let mut w = LegacyState { packet_num: u32::MAX, got_state_left: true, got_state_right: true };
    w.on_action_sync();
    assert_eq!(w.packet_num, 0);
}

#[test]
fn legacy_button_masks_and_events() {
    let readings = vec![
        ButtonReading { id: ButtonId::Axis0, pressed: true, press_changed: true, touch: Some(TouchReading { touched: true, changed: true }) },
        ButtonReading { id: ButtonId::Axis1, pressed: false, press_changed: true, touch: None },
        ButtonReading { id: ButtonId::A, pressed: false, press_changed: false, touch: None },
    ];
    let b = legacy_buttons(4, 1, &readings, true);
    assert_eq!(b.packet_num, 4);
    assert_eq!(b.pressed, 1u64 << 32);
    assert_eq!(b.touched, 1u64 << 32);
    let tys: Vec<(ButtonEventType, u32)> = b.events.iter().map(|e| (e.ty, e.button)).collect();
    assert_eq!(tys, vec![(ButtonEventType::ButtonTouch, 32), (ButtonEventType::ButtonPress, 32), (ButtonEventType::ButtonUnpress, 33)]);
    assert!(b.events.iter().all(|e| e.index == 1));
    let b = legacy_buttons(4, 1, &readings, false);
    assert!(b.events.is_empty());
    assert_eq!(b.pressed, 1u64 << 32);
}

#[test]
fn no_legacy_input_before_session_setup() {
    let a = legacy_state_available(true, true, false, false, Some(Hand::Left));
    assert_eq!(a, LegacyStateAnswer::Zeroed);
    assert!(!a.succeeded());
    let a = legacy_state_available(true, true, false, true, Some(Hand::Left));
    assert_eq!(a, LegacyStateAnswer::Read(Hand::Left));
    assert!(a.succeeded());
}

#[test]
fn no_legacy_input_with_manifest() {
    assert_eq!(legacy_state_available(true, true, true, true, Some(Hand::Left)), LegacyStateAnswer::Zeroed);
}

#[test]
fn init_controller_state_on_failure() {
    // Actions loaded, device 0 (the headset): the request fails but the
    // zeroed state is written.
    let l = controllers(Profile::SimpleController);
    let a = legacy_state_available(true, true, true, false, l.device_index_to_hand(0));
    assert_eq!(a, LegacyStateAnswer::Zeroed);
    assert!(!a.succeeded());
    let z = LegacyButtons::zeroed();
    assert_eq!(z.pressed, 0);
    assert_eq!(z.touched, 0);
    assert_eq!(z.packet_num, 0);
    assert!(z.events.is_empty());
    // No legacy actions and device 0 is no controller: zeroed as well.
    assert_eq!(legacy_state_available(true, true, false, true, l.device_index_to_hand(0)), LegacyStateAnswer::Zeroed);
    // A wrong size or a missing state: nothing is written.
    assert_eq!(legacy_state_available(false, true, true, false, Some(Hand::Left)), LegacyStateAnswer::NotWritten);
    assert_eq!(legacy_state_available(true, false, false, true, Some(Hand::Left)), LegacyStateAnswer::NotWritten);
}

#[test]
fn legacy_haptic() {
    let l = controllers(Profile::SimpleController);
    assert_eq!(legacy_haptic_route(l.device_index_to_hand(1), false, true), HapticRoute::Legacy);
    assert_eq!(legacy_haptic_route(l.device_index_to_hand(2), false, true), HapticRoute::Legacy);
    assert_eq!(legacy_haptic_route(l.device_index_to_hand(0), false, true), HapticRoute::Ignore);
    assert_eq!(legacy_haptic_duration_nanos(3000), 3_000_000);
}

#[test]
fn legacy_haptic_with_action_manifest() {
    let l = controllers(Profile::SimpleController);
    assert_eq!(legacy_haptic_route(l.device_index_to_hand(1), true, true), HapticRoute::Manifest);
    assert_eq!(legacy_haptic_route(l.device_index_to_hand(2), true, false), HapticRoute::Manifest);
}

#[test]
fn hidden_area_expansion() {
    let (v, n) = hidden_area_triangles(&[0, 1, 2, 2, 1, 3], &['a', 'b', 'c', 'd']);
    assert_eq!(v, vec!['a', 'b', 'c', 'c', 'b', 'd']);
    assert_eq!(n, 2);
}

#[test]
fn events_for_old_interface() {
    assert!(deliver_event_0_9_12(true, EVENT_BUTTON_PRESS));
    assert!(deliver_event_0_9_12(true, 203));
    assert!(!deliver_event_0_9_12(true, 100));
    assert!(!deliver_event_0_9_12(false, EVENT_BUTTON_PRESS));
}
