use scrcpy_masker::controller::{
    Controller, ControllerAction, ControllerCommand, SocketId,
};
use scrcpy_masker::registry::{AdbPath, ControlledDevice, ScrcpyDevice};

fn registry_with(scid: &str) -> ControlledDevice {
    let mut reg = ControlledDevice::new();
    reg.add_device("emulator-5554".to_string(), scid.to_string(), true, Vec::new());
    reg
}

#[test]
fn shutdown_of_an_absent_main_session_is_a_reported_no_op() {
    let mut controller = Controller::new();
    let mut reg = registry_with("10345678");
    let act = controller.handle_command(
        ControllerCommand::ShutdownMain("10345678".to_string()),
        &mut reg,
    );
    assert!(matches!(act, ControllerAction::NotFound));
    assert_eq!(controller.sessions.len(), 0);
    // the no-op leaves the directory untouched as well
    assert!(reg.is_scid_controlled(&"10345678".to_string()));
}

#[test]
fn shutdown_of_an_absent_sub_session_is_a_reported_no_op() {
    let mut controller = Controller::new();
    let mut reg = registry_with("10345678");
    // a live main control session, but no sub session for this id
    controller.handle_command(
        ControllerCommand::ConnectMainControl("10345678".to_string()),
        &mut reg,
    );
    let act = controller.handle_command(
        ControllerCommand::ShutdownSub("10999999".to_string()),
        &mut reg,
    );
    assert!(matches!(act, ControllerAction::NotFound));
    assert_eq!(controller.sessions.len(), 1);
}

#[test]
fn main_shutdown_cancels_its_trio_and_spares_auxiliary_sessions() {
    let scid = "10345678".to_string();
    let mut reg = registry_with(&scid);
    reg.add_device("sub-dev".to_string(), "10222222".to_string(), false, Vec::new());
    let mut controller = Controller::new();
    let act = controller.handle_command(ControllerCommand::ConnectMainVideo(scid.clone()), &mut reg);
    match act {
        ControllerAction::Accept { socket_id, scid: s, main } => {
            assert!(matches!(socket_id, SocketId::MainVideo));
            assert_eq!(s, scid);
            assert!(main);
        },
        _ => panic!("expected an accept action"),
    }
    controller.handle_command(ControllerCommand::ConnectMainControl(scid.clone()), &mut reg);
    controller.handle_command(ControllerCommand::ConnectMainAudio(scid.clone()), &mut reg);
    controller.handle_command(
        ControllerCommand::ConnectSubControl("10222222".to_string()),
        &mut reg,
    );
    assert_eq!(controller.sessions.len(), 4);
    let act = controller.handle_command(ControllerCommand::ShutdownMain(scid.clone()), &mut reg);
    match act {
        ControllerAction::CancelSessions { socket_ids } => {
            // only the main device's control, video and audio are cancelled
            assert_eq!(socket_ids.len(), 3);
            assert!(socket_ids.iter().all(|s| !s.same(&SocketId::SubControl(
                "10222222".to_string()
            ))));
        },
        _ => panic!("expected a cancel action"),
    }
    // the auxiliary device's control session survives the main shutdown
    assert_eq!(controller.sessions.len(), 1);
    assert!(controller.contains_session(&SocketId::SubControl("10222222".to_string())));
    // the main device left the directory; the auxiliary one is still there
    assert!(!reg.is_scid_controlled(&scid));
    assert!(reg.is_scid_controlled(&"10222222".to_string()));
}

#[test]
fn sub_shutdown_cancels_only_its_own_session() {
    let mut reg = registry_with("10333333");
    reg.add_device("sub-dev".to_string(), "10444444".to_string(), false, Vec::new());
    let mut controller = Controller::new();
    controller.handle_command(
        ControllerCommand::ConnectMainControl("10333333".to_string()),
        &mut reg,
    );
    controller.handle_command(
        ControllerCommand::ConnectSubControl("10444444".to_string()),
        &mut reg,
    );
    let act = controller.handle_command(
        ControllerCommand::ShutdownSub("10444444".to_string()),
        &mut reg,
    );
    match act {
        ControllerAction::CancelSessions { socket_ids } => {
            assert_eq!(socket_ids.len(), 1);
            assert!(socket_ids[0].same(&SocketId::SubControl("10444444".to_string())));
        },
        _ => panic!("expected a cancel action"),
    }
    assert_eq!(controller.sessions.len(), 1);
    assert!(controller.contains_session(&SocketId::MainControl));
    // the auxiliary device left the directory; the main one is still there
    assert!(!reg.is_scid_controlled(&"10444444".to_string()));
    assert!(reg.is_scid_controlled(&"10333333".to_string()));
}

#[test]
fn accept_failure_rolls_back_session_and_device() {
    let scid = "10555555".to_string();
    let mut reg = registry_with(&scid);
    let mut controller = Controller::new();
    controller.handle_command(ControllerCommand::ConnectMainControl(scid.clone()), &mut reg);
    controller.accept_failed(&SocketId::MainControl, &scid, &mut reg);
    assert!(!controller.contains_session(&SocketId::MainControl));
    assert!(!reg.is_scid_controlled(&scid));
}

#[test]
fn registry_tracks_names_sizes_and_removal() {
    let mut reg = ControlledDevice::new();
    assert!(!reg.is_any_device_controlled());
    reg.add_device("dev-a".to_string(), "10000001".to_string(), true, vec![
        "main_control".to_string(),
    ]);
    reg.add_device("dev-b".to_string(), "10000002".to_string(), false, Vec::new());
    assert!(reg.is_any_device_controlled());
    assert!(reg.is_scid_controlled(&"10000001".to_string()));
    assert!(!reg.is_scid_controlled(&"10999999".to_string()));

    reg.update_device_name(&"10000001".to_string(), "Pixel".to_string());
    reg.update_device_size(&"10000001".to_string(), (1080, 2400));
    let list = reg.get_device_list();
    assert_eq!(list.len(), 2);
    assert_eq!(list[0].name, "Pixel");
    assert_eq!(list[0].device_size, (1080, 2400));
    assert_eq!(list[1].name, "Unknow");

    let main = reg.get_main_device().expect("one main device");
    assert_eq!(main.device_id, "dev-a");

    reg.remove_device(&"10000001".to_string());
    assert_eq!(reg.get_device_list().len(), 1);
    assert!(!reg.is_scid_controlled(&"10000001".to_string()));
    // removing an unknown id changes nothing
    reg.remove_device(&"10000001".to_string());
    assert_eq!(reg.get_device_list().len(), 1);
}

#[test]
fn fresh_device_starts_unnamed_and_unsized() {
    let d = ScrcpyDevice::new("id".to_string(), "10000009".to_string(), false, Vec::new());
    assert_eq!(d.name, "Unknow");
    assert_eq!(d.device_size, (0, 0));
    assert!(!d.main);
}

#[test]
fn adb_path_holder_defaults_and_updates() {
    let mut p = AdbPath::new();
    assert_eq!(p.get(), "adb");
    p.set("/usr/bin/adb".to_string());
    assert_eq!(p.get(), "/usr/bin/adb");
}
