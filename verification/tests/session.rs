use scrcpy_masker::codec::{MotionEventAction, ScrcpyControlMsg, ScrcpyDeviceMsg};
use scrcpy_masker::config::LocalConfig;
use scrcpy_masker::connection::{
    control_reader_step, control_writer_step, parse_device_metadata, RecvOutcome, WriterStep,
};
use scrcpy_masker::controller::ControllerCommand;
use scrcpy_masker::mapping::config::{default_mapping_config, ActiveMappingConfig, MappingType};
use scrcpy_masker::mapping::utils::PRESSURE_ONE_BITS;
use scrcpy_masker::mask::{
    activate_mapping, device_connection_change, get_active_mapping, mask_win_move_helper,
    win_move_size, CursorState, MappingState,
};
use scrcpy_masker::registry::ControlledDevice;
use scrcpy_masker::web::{
    is_safe_file_name, plan_control_device, plan_decontrol_device, relate_to_root_path,
    start_scrcpy_server, WebServerError,
};

#[test]
fn device_metadata_drops_padding_and_decodes_the_name() {
    let mut buf = b"Pixel 8".to_vec();
    buf.extend_from_slice(&[0u8; 57]);
    let (name, ok) = parse_device_metadata(&buf);
    assert!(ok);
    assert_eq!(name, "Pixel 8");
}

#[test]
fn invalid_device_names_are_replaced_by_the_marker() {
    let buf = vec![0xff, 0xfe, 0x00, 0x00];
    let (name, ok) = parse_device_metadata(&buf);
    assert!(!ok);
    assert_eq!(name, "INVALID_NAME");
}

#[test]
fn a_lagging_subscriber_never_stops_the_writer_loop() {
    // lag is tolerated: the loop continues and later messages still go out
    assert!(matches!(
        control_writer_step(RecvOutcome::Lagged(17), 1080, 2400),
        WriterStep::Continue
    ));
    let msg = ScrcpyControlMsg::InjectTouchEvent {
        action: MotionEventAction::Down,
        pointer_id: 1,
        x: 640,
        y: 360,
        w: 1280,
        h: 720,
        pressure: PRESSURE_ONE_BITS,
        action_button: 1,
        buttons: 1,
    };
    match control_writer_step(RecvOutcome::Msg(msg), 2560, 1440) {
        WriterStep::Write(data) => {
            assert_eq!(data.len(), 32);
            // the coordinates were rescaled into the device frame
            assert_eq!(&data[10..14], &[0, 0, 0x05, 0x00]); // x = 1280
            assert_eq!(&data[14..18], &[0, 0, 0x02, 0xd0]); // y = 720
        },
        _ => panic!("a message must be written"),
    }
    // only a closed channel stops the loop
    assert!(matches!(control_writer_step(RecvOutcome::Closed, 0, 0), WriterStep::Stop));
}

#[test]
fn reader_step_tracks_rotation_and_forwards_only_the_main_device() {
    let rotation = ScrcpyDeviceMsg::Rotation {
        rotation: 1,
        width: 2400,
        height: 1080,
        scid: "10111111".to_string(),
    };
    assert_eq!(control_reader_step(&rotation, true), (Some((2400, 1080)), true));
    assert_eq!(control_reader_step(&ScrcpyDeviceMsg::Unknown, false), (None, false));
}

#[test]
fn mask_window_follows_the_device_orientation() {
    let config = LocalConfig::default();
    // landscape: the configured width (1280) governs; 1280 * 1080 / 2400 = 576
    let (l, t, r, b) = mask_win_move_helper(2400, 1080, &config);
    assert_eq!((l, t), (100, 100));
    assert_eq!((r - l, b - t), (1280, 576));
    // portrait: the configured height (720) governs; 720 * 1080 / 2400 = 324
    let (l, t, r, b) = mask_win_move_helper(1080, 2400, &config);
    assert_eq!((l, t), (100, 100));
    assert_eq!((r - l, b - t), (324, 720));
    assert_eq!(win_move_size(l, t, r, b), (324, 720));
}

#[test]
fn mapping_activation_is_atomic() {
    let mut active = ActiveMappingConfig { config: None, file_name: String::new() };
    let config = default_mapping_config();
    let n = config.mappings.len();
    assert!(activate_mapping(&mut active, config, "default.json".to_string()).is_ok());
    assert_eq!(get_active_mapping(&active), "default.json");
    assert_eq!(active.config.as_ref().unwrap().mappings.len(), n);

    // an invalid configuration leaves the active one untouched
    let mut broken = default_mapping_config();
    if let MappingType::SingleTap(m) = &mut broken.mappings[0] {
        m.bind = scrcpy_masker::mapping::config::InputBinding::Pulse(
            scrcpy_masker::mapping::config::ButtonBinding::new(vec!["KeyX".to_string()]),
        );
    }
    let errs = activate_mapping(&mut active, broken, "broken.json".to_string()).unwrap_err();
    assert_eq!(errs.len(), 1);
    assert_eq!(get_active_mapping(&active), "default.json");
}

#[test]
fn connection_change_drives_the_engine_states() {
    assert_eq!(
        device_connection_change(true),
        (MappingState::Normal, CursorState::Normal, true)
    );
    assert_eq!(
        device_connection_change(false),
        (MappingState::Stop, CursorState::Normal, false)
    );
}

#[test]
fn file_name_safety_rejects_traversal_and_separators() {
    assert!(is_safe_file_name("default.json"));
    assert!(is_safe_file_name("my mapping 2.json"));
    assert!(!is_safe_file_name(""));
    assert!(!is_safe_file_name("."));
    assert!(!is_safe_file_name(".."));
    assert!(!is_safe_file_name("../secret"));
    assert!(!is_safe_file_name("a/b"));
    assert!(!is_safe_file_name("a\\b"));
    assert!(!is_safe_file_name("a:b"));
    assert!(!is_safe_file_name("a*b"));
    assert!(!is_safe_file_name("a\u{0}b"));
}

#[test]
fn paths_join_under_the_root() {
    let segments = vec!["local".to_string(), "mapping".to_string(), "default.json".to_string()];
    assert_eq!(
        relate_to_root_path("/opt/app", &segments),
        "/opt/app/local/mapping/default.json"
    );
    assert_eq!(relate_to_root_path("base", &Vec::new()), "base");
}

#[test]
fn controlling_the_main_device_plans_its_sockets_in_order() {
    let scid = "10123456".to_string();
    let (ids, commands) = plan_control_device(&scid, true, true, true);
    assert_eq!(ids, vec!["main_video", "main_audio", "main_control"]);
    assert!(matches!(&commands[0], ControllerCommand::ConnectMainVideo(s) if *s == scid));
    assert!(matches!(&commands[1], ControllerCommand::ConnectMainAudio(s) if *s == scid));
    assert!(matches!(&commands[2], ControllerCommand::ConnectMainControl(s) if *s == scid));
    let (ids, commands) = plan_control_device(&scid, false, true, false);
    assert_eq!(ids, vec!["sub_control_10123456"]);
    assert!(matches!(&commands[0], ControllerCommand::ConnectSubControl(s) if *s == scid));
}

#[test]
fn the_daemon_launch_command_is_assembled_exactly() {
    let scid = "10123456".to_string();
    let args = start_scrcpy_server(&scid, "2.4", true, false);
    assert_eq!(
        args,
        vec![
            "CLASSPATH=/data/local/tmp/scrcpy-server.jar",
            "app_process",
            "/",
            "com.genymobile.scrcpy.Server",
            "2.4",
            "scid=10123456",
            "video=true",
            "audio=false",
        ]
    );
}

#[test]
fn decontrol_finds_the_device_and_picks_the_right_shutdown() {
    let mut reg = ControlledDevice::new();
    reg.add_device("dev-main".to_string(), "10000001".to_string(), true, Vec::new());
    reg.add_device("dev-sub".to_string(), "10000002".to_string(), false, Vec::new());
    match plan_decontrol_device(&reg, &"dev-main".to_string()) {
        Some(ControllerCommand::ShutdownMain(s)) => assert_eq!(s, "10000001"),
        _ => panic!("the main device tears everything down"),
    }
    match plan_decontrol_device(&reg, &"dev-sub".to_string()) {
        Some(ControllerCommand::ShutdownSub(s)) => assert_eq!(s, "10000002"),
        _ => panic!("an auxiliary device only stops its control session"),
    }
    assert!(plan_decontrol_device(&reg, &"dev-unknown".to_string()).is_none());
}

#[test]
fn web_errors_carry_their_status_codes() {
    let e = WebServerError::internal_error("boom".to_string());
    assert_eq!(e.code(), 500);
    assert_eq!(e.1, "boom");
    let e = WebServerError::bad_request("nope".to_string());
    assert_eq!(e.code(), 400);
}

#[test]
fn local_config_defaults_match_a_fresh_installation() {
    let c = LocalConfig::default();
    assert_eq!(c.web_port, 27799);
    assert_eq!(c.controller_port, 27798);
    assert_eq!(c.adb_path, "adb");
    assert_eq!(c.horizontal_mask_width, 1280);
    assert_eq!(c.vertical_mask_height, 720);
    assert_eq!(c.active_mapping_file, "default.json");
    assert!(c.get_clipboard_sync());
}
