use xrizer::fakexr::{transition_frame_state, FrameOrderError, FrameState, UserPath};
use xrizer::input::skeletal::{bone_parent, finger_of_bone, joint_of_bone, Finger, BONE_COUNT, WRIST};
use xrizer::openxr_data::{
    check_format, current_origin_as_reference_space, end_session_step, extract_wine_exe_name,
    get_app_name, get_space_for_origin, get_space_from_type, make_version, poll_event_step,
    reset_space_for, AtomicXrTime, ControllerRole, EndSessionAction, EndSessionPhase, Hand,
    ReferenceSpaceType, SessionSpace, SessionState, TrackingOrigin, XrEvent,
};
use xrizer::text::parse_decimal;
use xrizer::openxr_data::{enabled_extensions, initial_display_time, Extensions};

#[test]
fn version_number() {
    assert_eq!(make_version("0", "1", "0"), 1000);
    assert_eq!(make_version("1", "2", "3"), 1_002_003);
    assert_eq!(make_version("x", "", "y"), 1);
}

#[test]
fn decimal_parsing_matches_std() {
    for s in ["0", "4294967295", "4294967296", "+1", "-1", "", "12a", "0007"] {
        assert_eq!(parse_decimal(s, u32::MAX), s.parse::<u32>().ok(), "{s}");
    }
}

#[test]
fn wine_program_names() {
    assert_eq!(extract_wine_exe_name("C:\\Games\\Beat Saber.exe").as_deref(), Some("Beat Saber"));
    assert_eq!(extract_wine_exe_name("Z:\\bin\\tool").as_deref(), Some("tool"));
    assert_eq!(extract_wine_exe_name("game.exe"), None);
    assert_eq!(extract_wine_exe_name("C:\\x\\.exe").as_deref(), Some(""));
    assert_eq!(get_app_name("wine64-preloader", Some("C:\\a\\b.exe")), "b");
    assert_eq!(get_app_name("wine-preloader", Some("b.exe")), "wine-preloader");
    assert_eq!(get_app_name("hellovr", Some("C:\\a\\b.exe")), "hellovr");
    assert_eq!(get_app_name("wine64-preloader", None), "wine64-preloader");
}

#[test]
fn spaces_of_origins() {
    assert_eq!(get_space_for_origin(TrackingOrigin::Seated), SessionSpace::LocalAdjusted);
    assert_eq!(get_space_for_origin(TrackingOrigin::Standing), SessionSpace::StageAdjusted);
    assert_eq!(get_space_for_origin(TrackingOrigin::RawAndUncalibrated), SessionSpace::StageReference);
    assert_eq!(current_origin_as_reference_space(TrackingOrigin::Seated), ReferenceSpaceType::Local);
    assert_eq!(current_origin_as_reference_space(TrackingOrigin::RawAndUncalibrated), ReferenceSpaceType::Stage);
    assert_eq!(get_space_from_type(ReferenceSpaceType::View), SessionSpace::View);
    assert_eq!(reset_space_for(TrackingOrigin::RawAndUncalibrated), None);
    for o in [TrackingOrigin::Seated, TrackingOrigin::Standing] {
        let (_, adjusted, ty) = reset_space_for(o).unwrap();
        assert_eq!(adjusted, get_space_for_origin(o));
        assert_eq!(ty, current_origin_as_reference_space(o));
    }
}

#[test]
fn swapchain_format_choice() {
    assert_eq!(check_format(&[37, 43, 50], 43), 43);
    assert_eq!(check_format(&[37, 43, 50], 44), 37);
    assert_eq!(check_format(&[9], 9), 9);
}

#[test]
fn ending_a_session() {
    let mut phase = EndSessionPhase::AwaitStopping;
    let mut actions = vec![];
    for s in [SessionState::Focused, SessionState::Visible, SessionState::Stopping, SessionState::Stopping, SessionState::Idle, SessionState::Exiting] {
        let (p, a) = end_session_step(phase, s);
        phase = p;
        actions.push(a);
    }
    assert_eq!(actions, vec![
        EndSessionAction::PollEvents,
        EndSessionAction::PollEvents,
        EndSessionAction::EndSession,
        EndSessionAction::PollEvents,
        EndSessionAction::PollEvents,
        EndSessionAction::Finished,
    ]);
    assert_eq!(phase, EndSessionPhase::Done);
}

#[test]
fn polling_keeps_latest_state() {
    let events = [
        XrEvent::SessionStateChanged(SessionState::Ready),
        XrEvent::InteractionProfileChanged,
        XrEvent::SessionStateChanged(SessionState::Synchronized),
        XrEvent::Other,
    ];
    let mut latest = None;
    let mut notified = 0;
    for e in events {
        let (l, n) = poll_event_step(latest, e);
        latest = l;
        notified += n as u32;
    }
    assert_eq!(latest, Some(SessionState::Synchronized));
    assert_eq!(notified, 1);
}

#[test]
fn display_time() {
    let mut t = AtomicXrTime::new(5);
    assert_eq!(t.get(), 5);
    t.set(-3);
    assert_eq!(t.get(), -3);
}

#[test]
fn hand_roles() {
    assert_eq!(Hand::Left.to_role(), ControllerRole::LeftHand);
    assert_eq!(Hand::try_from_role(Hand::Right.to_role()), Some(Hand::Right));
    assert_eq!(Hand::try_from_role(ControllerRole::Stylus), None);
    assert_eq!(Hand::Left.as_u32(), 1);
    assert_eq!(Hand::Right.as_u32(), 2);
}

#[test]
fn user_paths_roundtrip() {
    for u in [UserPath::LeftHand, UserPath::RightHand] {
        assert_eq!(UserPath::from_path(u.as_path()), Some(u));
    }
    assert_eq!(UserPath::LeftHand.as_path(), "/user/hand/left");
    assert_eq!(UserPath::from_path("/user/head"), None);
}

#[test]
fn frame_cycle() {
    let mut s = FrameState::Ended;
    assert_eq!(transition_frame_state(&mut s, FrameState::Begun), Err(FrameOrderError::CallOrderInvalid));
    assert_eq!(s, FrameState::Ended);
    assert_eq!(transition_frame_state(&mut s, FrameState::Waited), Ok(()));
    assert_eq!(transition_frame_state(&mut s, FrameState::Ended), Err(FrameOrderError::CallOrderInvalid));
    assert_eq!(transition_frame_state(&mut s, FrameState::Begun), Ok(()));
    assert_eq!(transition_frame_state(&mut s, FrameState::Ended), Ok(()));
    assert_eq!(s, FrameState::Ended);
}

#[test]
fn skeleton_bones() {
    assert_eq!(finger_of_bone(0), None);
    assert_eq!(finger_of_bone(1), None);
    assert_eq!(finger_of_bone(5), Some(Finger::Thumb));
    assert_eq!(finger_of_bone(6), Some(Finger::Index));
    assert_eq!(finger_of_bone(25), Some(Finger::Pinky));
    assert_eq!(finger_of_bone(28), Some(Finger::Middle));
    assert_eq!(finger_of_bone(31), None);
    assert_eq!(bone_parent(2), Some(WRIST));
    assert_eq!(bone_parent(3), Some(2));
    assert_eq!(bone_parent(11), Some(WRIST));
    assert_eq!(bone_parent(26), None);
    assert_eq!(joint_of_bone(0), None);
    assert_eq!(joint_of_bone(27), Some(9));
    for b in 0..BONE_COUNT {
        if let Some(p) = bone_parent(b) {
            assert!(p < b);
        }
    }
}

#[test]
fn extensions_and_first_display_time() {
    let offered = Extensions {
        khr_vulkan_enable: true,
        khr_opengl_enable: false,
        khr_convert_timespec_time: true,
        ext_hand_tracking: false,
        khr_visibility_mask: true,
        khr_composition_layer_cylinder: false,
        khr_composition_layer_equirect2: false,
        khr_composition_layer_color_scale_bias: false,
        htc_vive_focus3_controller_interaction: true,
        fb_display_refresh_rate: false,
        mndx_xdev_space: true,
    };
    let e = enabled_extensions(offered, false);
    assert!(!e.mndx_xdev_space);
    assert_eq!(Extensions { mndx_xdev_space: true, ..e }, offered);
    assert!(enabled_extensions(offered, true).mndx_xdev_space);
    assert_eq!(initial_display_time(offered, Some(42)), 42);
    assert_eq!(initial_display_time(offered, None), 1);
    assert_eq!(initial_display_time(Extensions { khr_convert_timespec_time: false, ..offered }, Some(42)), 1);
}

