use scrcpy_masker::codec::{MotionEventAction, ScrcpyControlMsg};
use scrcpy_masker::mapping::cursor::handle_left_click;
use scrcpy_masker::mapping::cast_spell::{
    handle_cancel_cast, handle_mouse_cast_spell, handle_mouse_cast_spell_trigger,
    handle_pad_cast_spell,
};
use scrcpy_masker::mapping::config::{
    default_mapping_config, validate_mapping_config, BindMappingConfig, BindingKind,
    ButtonBinding, GestureFamily, InputBinding, MappingCancelCast, MappingConfig,
    MappingDirectionPad, MappingMouseCastSpell, MappingMultipleTap, MappingMultipleTapItem,
    MappingObservation, MappingPadCastSpell, MappingRawInput, MappingScript, MappingSingleTap,
    MappingSwipe, MappingType, MouseCastReleaseMode, PadCastReleaseMode,
};
use scrcpy_masker::mapping::joystick::{handle_joystick, scale_direction_2d_state, PadState};
use scrcpy_masker::mapping::observation::{
    handle_fps, handle_observation, handle_observation_trigger,
};
use scrcpy_masker::mapping::script::{handle_raw_input, handle_script, ScriptHook, ScriptState};
use scrcpy_masker::mapping::swipe::handle_swipe;
use scrcpy_masker::mapping::tap::{
    handle_multiple_tap, handle_repeat_tap, handle_repeat_tap_trigger, handle_single_tap,
    RepeatTapState,
};
use scrcpy_masker::mapping::utils::{ButtonEdge, Position, Size, TimedMsg};

fn hold(key: &str) -> InputBinding {
    InputBinding::Continuous(ButtonBinding::new(vec![key.to_string()]))
}

fn pulse(key: &str) -> InputBinding {
    InputBinding::Pulse(ButtonBinding::new(vec![key.to_string()]))
}

fn frame() -> Size {
    Size { width: 2560, height: 1440 }
}

fn touch_fields(m: &TimedMsg) -> (MotionEventAction, u64, i32, i32, u64) {
    match &m.msg {
        ScrcpyControlMsg::InjectTouchEvent { action, pointer_id, x, y, .. } => {
            (*action, *pointer_id, *x, *y, m.delay_ms)
        },
        _ => panic!("not a touch event"),
    }
}

#[test]
fn validate_accepts_exactly_the_well_bound_configs() {
    // the default configuration is valid
    assert!(validate_mapping_config(&default_mapping_config()).is_ok());

    // one entry with the wrong binding kind: one message
    let config = MappingConfig {
        version: "1".to_string(),
        original_size: frame(),
        mappings: vec![MappingType::SingleTap(MappingSingleTap {
            position: Position { x: 0, y: 0 },
            note: String::new(),
            pointer_id: 1,
            duration: 10,
            sync: false,
            bind: pulse("KeyA"), // SingleTap requires Continuous
        })],
    };
    let errs = validate_mapping_config(&config).unwrap_err();
    assert_eq!(errs.len(), 1);
}

#[test]
fn validate_reports_one_message_per_violation() {
    // 33 cancel casts: the 33rd overflows its family's slots; give the 33rd
    // a wrong binding kind too, so it alone carries two messages
    let mut mappings = Vec::new();
    for _ in 0..32 {
        mappings.push(MappingType::CancelCast(MappingCancelCast {
            note: String::new(),
            position: Position { x: 0, y: 0 },
            bind: pulse("Space"),
        }));
    }
    mappings.push(MappingType::CancelCast(MappingCancelCast {
        note: String::new(),
        position: Position { x: 0, y: 0 },
        bind: hold("Space"), // wrong kind as well
    }));
    let config = MappingConfig {
        version: "1".to_string(),
        original_size: frame(),
        mappings,
    };
    let errs = validate_mapping_config(&config).unwrap_err();
    assert_eq!(errs.len(), 2);
    assert_eq!(
        errs[0],
        "CancelCast has more entries than its gesture family has slots"
    );
    assert_eq!(errs[1], "CancelCast entry has a binding of the wrong kind");
}

#[test]
fn binding_slots_count_per_family() {
    let config = default_mapping_config();
    assert_eq!(config.mappings.len(), 20);
    let bound = BindMappingConfig::from_config(config);
    // the first three entries are all single taps: slots 1, 2 and 3
    assert_eq!(bound.mappings[0].0.family, GestureFamily::SingleTap);
    assert_eq!(bound.mappings[0].0.slot, 1);
    assert_eq!(bound.mappings[1].0.family, GestureFamily::SingleTap);
    assert_eq!(bound.mappings[1].0.slot, 2);
    assert_eq!(bound.mappings[2].0.family, GestureFamily::SingleTap);
    assert_eq!(bound.mappings[2].0.slot, 3);
    assert_eq!(bound.mappings[3].0.family, GestureFamily::RepeatTap);
    assert_eq!(bound.mappings[3].0.slot, 1);
    assert_eq!(bound.mappings[4].0.family, GestureFamily::RepeatTap);
    assert_eq!(bound.mappings[4].0.slot, 2);
}

#[test]
fn constructors_check_the_binding_kind() {
    assert!(MappingSingleTap::new(Position { x: 0, y: 0 }, "", 1, 5, false, hold("KeyA")).is_ok());
    assert!(MappingSingleTap::new(Position { x: 0, y: 0 }, "", 1, 5, false, pulse("KeyA")).is_err());
    assert!(MappingSwipe::new("", 1, vec![Position { x: 0, y: 0 }], 100, pulse("KeyB")).is_ok());
    assert!(MappingSwipe::new("", 1, Vec::new(), 100, pulse("KeyB")).is_err());
    assert!(MappingSwipe::new("", 1, vec![Position { x: 0, y: 0 }], 100, hold("KeyB")).is_err());
    assert!(MappingObservation::new("", 1, Position { x: 0, y: 0 }, 500, 500, hold("KeyC")).is_ok());
    assert!(MappingMultipleTap::new("", 1, Vec::new(), hold("KeyD")).is_err());
    assert!(MappingDirectionPad::new("", 9, Position { x: 0, y: 0 }, 100, 100, 100, hold("KeyW")).is_err());
}

#[test]
fn unsynchronized_tap_schedules_its_up_after_the_duration() {
    let mapping = MappingSingleTap {
        position: Position { x: 100, y: 100 },
        note: String::new(),
        pointer_id: 1,
        duration: 500,
        sync: false,
        bind: hold("Digit1"),
    };
    // activation at the tick: Down now, Up at t = 500
    let out = handle_single_tap(&mapping, frame(), ButtonEdge::Pressed);
    assert_eq!(out.len(), 2);
    let (a0, p0, x0, y0, t0) = touch_fields(&out[0]);
    assert!(matches!(a0, MotionEventAction::Down));
    assert_eq!((p0, x0, y0, t0), (1, 100, 100, 0));
    let (a1, _, x1, y1, t1) = touch_fields(&out[1]);
    assert!(matches!(a1, MotionEventAction::Up));
    assert_eq!((x1, y1, t1), (100, 100, 500));
    // a deactivation before the timer fires adds no further Up
    let out = handle_single_tap(&mapping, frame(), ButtonEdge::Released);
    assert!(out.is_empty());
}

#[test]
fn synchronized_tap_follows_the_physical_button() {
    let mapping = MappingSingleTap {
        position: Position { x: 7, y: 9 },
        note: String::new(),
        pointer_id: 4,
        duration: 0,
        sync: true,
        bind: hold("Digit2"),
    };
    let down = handle_single_tap(&mapping, frame(), ButtonEdge::Pressed);
    assert_eq!(down.len(), 1);
    assert!(matches!(touch_fields(&down[0]).0, MotionEventAction::Down));
    let up = handle_single_tap(&mapping, frame(), ButtonEdge::Released);
    assert_eq!(up.len(), 1);
    assert!(matches!(touch_fields(&up[0]).0, MotionEventAction::Up));
}

#[test]
fn repeat_tap_fires_once_per_interval() {
    let mapping = scrcpy_masker::mapping::config::MappingRepeatTap {
        position: Position { x: 10, y: 20 },
        note: String::new(),
        pointer_id: 2,
        duration: 30,
        interval: 100,
        bind: hold("Digit3"),
    };
    let mut state: Option<RepeatTapState> = None;
    handle_repeat_tap(&mapping, frame(), ButtonEdge::Pressed, &mut state);
    // the fresh timer is ripe: the first trigger tick fires immediately
    let out = handle_repeat_tap_trigger(&mut state, 16);
    assert_eq!(out.len(), 2);
    assert!(matches!(touch_fields(&out[0]).0, MotionEventAction::Down));
    assert_eq!(touch_fields(&out[1]).4, 30);
    // then nothing until the interval has elapsed again
    let out = handle_repeat_tap_trigger(&mut state, 50);
    assert!(out.is_empty());
    let out = handle_repeat_tap_trigger(&mut state, 60);
    assert_eq!(out.len(), 2);
    // release stops the timer
    handle_repeat_tap(&mapping, frame(), ButtonEdge::Released, &mut state);
    let out = handle_repeat_tap_trigger(&mut state, 1000);
    assert!(out.is_empty());
}

#[test]
fn multiple_tap_runs_the_whole_sequence_with_cumulative_delays() {
    let mapping = MappingMultipleTap {
        note: String::new(),
        pointer_id: 1,
        items: vec![
            MappingMultipleTapItem { position: Position { x: 100, y: 100 }, duration: 500, wait: 0 },
            MappingMultipleTapItem { position: Position { x: 200, y: 200 }, duration: 500, wait: 1000 },
        ],
        bind: pulse("Digit4"),
    };
    assert!(handle_multiple_tap(&mapping, frame(), false).is_empty());
    let out = handle_multiple_tap(&mapping, frame(), true);
    assert_eq!(out.len(), 4);
    let expected = [
        (MotionEventAction::Down, 100, 0u64),
        (MotionEventAction::Up, 100, 500),
        (MotionEventAction::Down, 200, 1500),
        (MotionEventAction::Up, 200, 2000),
    ];
    for (msg, (action, x, t)) in out.iter().zip(expected.iter()) {
        let (a, _, mx, _, mt) = touch_fields(msg);
        assert_eq!(std::mem::discriminant(&a), std::mem::discriminant(action));
        assert_eq!(mx, *x);
        assert_eq!(mt, *t);
    }
}

#[test]
fn swipe_moves_monotonically_and_reaches_the_last_waypoint() {
    let mapping = MappingSwipe {
        note: String::new(),
        pointer_id: 1,
        positions: vec![Position { x: 0, y: 0 }, Position { x: 100, y: 100 }],
        interval: 1000,
        bind: pulse("Digit5"),
    };
    assert!(handle_swipe(&mapping, frame(), false).is_empty());
    let out = handle_swipe(&mapping, frame(), true);
    // Down, 20 interpolation steps (1000 ms / 50 ms), Up
    assert_eq!(out.len(), 22);
    let (a, _, x, y, t) = touch_fields(&out[0]);
    assert!(matches!(a, MotionEventAction::Down));
    assert_eq!((x, y, t), (0, 0, 0));
    let mut last = (0, 0);
    for k in 1..=20 {
        let (a, _, x, y, t) = touch_fields(&out[k]);
        assert!(matches!(a, MotionEventAction::Move));
        assert!(x >= last.0 && y >= last.1, "eased motion never backtracks");
        assert!(x <= 100 && y <= 100);
        assert_eq!(t, 50 * (k as u64 - 1));
        last = (x, y);
    }
    // the cumulative eased progress reaches the target by the interval's end
    assert_eq!(last, (100, 100));
    let (a, _, x, y, t) = touch_fields(&out[21]);
    assert!(matches!(a, MotionEventAction::Up));
    assert_eq!((x, y), (100, 100));
    assert_eq!(t, 1000);
}

fn pad() -> MappingDirectionPad {
    MappingDirectionPad {
        note: String::new(),
        pointer_id: 9,
        position: Position { x: 300, y: 1000 },
        initial_duration: 100,
        max_offset_x: 100,
        max_offset_y: 100,
        bind: InputBinding::DualAxis(scrcpy_masker::mapping::config::DirectionBinding::JoyStick {
            x: "LeftStickX".to_string(),
            y: "LeftStickY".to_string(),
        }),
    }
}

#[test]
fn pad_offset_is_clipped_to_the_ellipse() {
    let mapping = pad();
    // an over-deflected axis (2.0, 0.0): the offset may not exceed 100
    let (x, y) = scale_direction_2d_state(2000, 0, &mapping);
    assert_eq!((x, y), (100, 0));
    // a diagonal over-deflection keeps the ellipse constraint
    let (x, y) = scale_direction_2d_state(2000, 2000, &mapping);
    let (xi, yi) = (x as i64, y as i64);
    assert!(xi * xi * 100 * 100 + yi * yi * 100 * 100 <= 100i64 * 100 * 100 * 100);
    assert!(x <= 100 && y <= 100);
    // a deflection inside the unit circle scales linearly
    let (x, y) = scale_direction_2d_state(500, 0, &mapping);
    assert_eq!((x, y), (50, 0));
    // rest maps to the zero offset
    assert_eq!(scale_direction_2d_state(0, 0, &mapping), (0, 0));
}

#[test]
fn pad_engagement_ramps_in_and_release_lifts() {
    let mapping = pad();
    let mut state: Option<PadState> = None;
    // engage with full deflection to the right
    let out = handle_joystick(&mapping, frame(), 1000, 0, &mut state);
    // Down plus 2 ramp steps (100 ms / 50 ms)
    assert_eq!(out.len(), 3);
    let (a, _, x, y, t) = touch_fields(&out[0]);
    assert!(matches!(a, MotionEventAction::Down));
    assert_eq!((x, y, t), (300, 1000, 0));
    let (a1, _, x1, _, t1) = touch_fields(&out[1]);
    assert!(matches!(a1, MotionEventAction::Move));
    assert_eq!(t1, 0);
    assert!(x1 > 300 && x1 < 400);
    let (_, _, x2, y2, t2) = touch_fields(&out[2]);
    assert_eq!((x2, y2), (400, 1000), "the ramp ends at the clipped offset");
    assert_eq!(t2, 50);
    assert_eq!(state, Some(PadState { offset_x: 100, offset_y: 0 }));
    // unchanged deflection emits nothing
    let out = handle_joystick(&mapping, frame(), 1000, 0, &mut state);
    assert!(out.is_empty());
    // release lifts at the held offset and drops the state
    let out = handle_joystick(&mapping, frame(), 0, 0, &mut state);
    assert_eq!(out.len(), 1);
    let (a, _, x, y, _) = touch_fields(&out[0]);
    assert!(matches!(a, MotionEventAction::Up));
    assert_eq!((x, y), (400, 1000));
    assert!(state.is_none());
}

#[test]
fn observation_anchors_moves_and_releases_with_the_cursor() {
    let mapping = MappingObservation {
        note: String::new(),
        pointer_id: 4,
        position: Position { x: 2000, y: 300 },
        sensitivity_x: 500,
        sensitivity_y: 500,
        bind: hold("MouseForward"),
    };
    let original = frame();
    let mask = Size { width: 1280, height: 720 };
    let mut state = None;
    let out = handle_observation(
        &mapping,
        original,
        mask,
        Position { x: 50, y: 60 },
        ButtonEdge::Pressed,
        &mut state,
    );
    assert_eq!(out.len(), 1);
    let (a, _, x, y, _) = touch_fields(&out[0]);
    assert!(matches!(a, MotionEventAction::Down));
    // the anchor is the entry position rescaled into the mask frame
    assert_eq!((x, y), (1000, 150));
    // a cursor travel of (+100, -40) moves by half of it
    let out = handle_observation_trigger(&state, mask, Position { x: 150, y: 20 });
    assert_eq!(out.len(), 1);
    let (a, _, x, y, _) = touch_fields(&out[0]);
    assert!(matches!(a, MotionEventAction::Move));
    assert_eq!((x, y), (1050, 130));
    let out = handle_observation(
        &mapping,
        original,
        mask,
        Position { x: 150, y: 20 },
        ButtonEdge::Released,
        &mut state,
    );
    assert_eq!(out.len(), 1);
    let (a, _, x, y, _) = touch_fields(&out[0]);
    assert!(matches!(a, MotionEventAction::Up));
    assert_eq!((x, y), (1050, 130));
    assert!(state.is_none());
}

#[test]
fn fps_pulse_toggles_the_aim_drag() {
    let mapping = scrcpy_masker::mapping::config::MappingFps {
        note: String::new(),
        pointer_id: 0,
        position: Position { x: 1280, y: 720 },
        sensitivity_x: 1200,
        sensitivity_y: 1000,
        bind: pulse("Backquote"),
    };
    let mask = Size { width: 1280, height: 720 };
    let mut state = None;
    let out = handle_fps(&mapping, frame(), mask, Position { x: 0, y: 0 }, true, &mut state);
    assert_eq!(out.len(), 1);
    assert!(matches!(touch_fields(&out[0]).0, MotionEventAction::Down));
    assert!(state.is_some());
    let out = handle_fps(&mapping, frame(), mask, Position { x: 10, y: 10 }, true, &mut state);
    assert_eq!(out.len(), 1);
    assert!(matches!(touch_fields(&out[0]).0, MotionEventAction::Up));
    assert!(state.is_none());
}

fn mouse_cast(mode: MouseCastReleaseMode, no_direction: bool) -> MappingMouseCastSpell {
    MappingMouseCastSpell {
        note: String::new(),
        pointer_id: 3,
        position: Position { x: 1900, y: 1150 },
        center: Position { x: 1280, y: 815 },
        horizontal_scale_factor: 7000,
        vertical_scale_factor: 10000,
        drag_radius: 150,
        cast_radius: 625,
        release_mode: mode,
        cast_no_direction: no_direction,
        bind: hold("KeyE"),
    }
}

#[test]
fn cast_on_release_holds_aims_and_lifts() {
    let mapping = mouse_cast(MouseCastReleaseMode::OnRelease, false);
    let mut casting = false;
    let cursor = Position { x: 1290, y: 815 };
    let out = handle_mouse_cast_spell(&mapping, frame(), cursor, ButtonEdge::Pressed, &mut casting);
    assert_eq!(out.len(), 1);
    assert!(matches!(touch_fields(&out[0]).0, MotionEventAction::Down));
    assert!(casting);
    // the aim offset is the cursor's distance from the center, scaled 7x,
    // clamped into the drag radius
    let out = handle_mouse_cast_spell_trigger(&mapping, frame(), cursor, casting);
    assert_eq!(out.len(), 1);
    let (_, _, x, y, _) = touch_fields(&out[0]);
    assert_eq!((x, y), (1970, 1150));
    // far cursor: the offset saturates at the drag radius
    let far = Position { x: 2560, y: 1440 };
    let out = handle_mouse_cast_spell_trigger(&mapping, frame(), far, casting);
    let (_, _, x, y, _) = touch_fields(&out[0]);
    assert_eq!((x, y), (2050, 1300));
    let out = handle_mouse_cast_spell(&mapping, frame(), cursor, ButtonEdge::Released, &mut casting);
    assert_eq!(out.len(), 1);
    assert!(matches!(touch_fields(&out[0]).0, MotionEventAction::Up));
    assert!(!casting);
}

#[test]
fn cast_on_press_fires_instantly_and_second_press_toggles() {
    let mapping = mouse_cast(MouseCastReleaseMode::OnPress, true);
    let mut casting = false;
    let out = handle_mouse_cast_spell(
        &mapping,
        frame(),
        Position { x: 0, y: 0 },
        ButtonEdge::Pressed,
        &mut casting,
    );
    assert_eq!(out.len(), 2);
    assert!(matches!(touch_fields(&out[0]).0, MotionEventAction::Down));
    assert!(matches!(touch_fields(&out[1]).0, MotionEventAction::Up));
    assert!(!casting);

    let mapping = mouse_cast(MouseCastReleaseMode::OnSecondPress, true);
    let mut casting = false;
    let out = handle_mouse_cast_spell(
        &mapping,
        frame(),
        Position { x: 0, y: 0 },
        ButtonEdge::Pressed,
        &mut casting,
    );
    assert_eq!(out.len(), 1);
    assert!(matches!(touch_fields(&out[0]).0, MotionEventAction::Down));
    assert!(casting);
    let out = handle_mouse_cast_spell(
        &mapping,
        frame(),
        Position { x: 0, y: 0 },
        ButtonEdge::Pressed,
        &mut casting,
    );
    assert_eq!(out.len(), 1);
    assert!(matches!(touch_fields(&out[0]).0, MotionEventAction::Up));
    assert!(!casting);
}

#[test]
fn cast_aim_is_clamped_by_cast_and_drag_radius() {
    // a low scale factor makes the cast-radius clamp visible: the cursor sits
    // 1280 right of the center, the cast radius cuts that to 625, a 0.1
    // factor scales it to 62 — inside the drag radius
    let mut mapping = mouse_cast(MouseCastReleaseMode::OnRelease, false);
    mapping.horizontal_scale_factor = 100;
    mapping.vertical_scale_factor = 100;
    let mut casting = true;
    let far = Position { x: 2560, y: 815 };
    let out = handle_mouse_cast_spell_trigger(&mapping, frame(), far, casting);
    let (_, _, x, y, _) = touch_fields(&out[0]);
    assert_eq!((x, y), (1900 + 62, 1150));
    // with the default factors the drag radius is the binding clamp
    let mapping = mouse_cast(MouseCastReleaseMode::OnRelease, false);
    let out = handle_mouse_cast_spell_trigger(&mapping, frame(), far, casting);
    let (_, _, x, y, _) = touch_fields(&out[0]);
    assert_eq!((x, y), (2050, 1150));
    casting = false;
    assert!(handle_mouse_cast_spell_trigger(&mapping, frame(), far, casting).is_empty());
}

#[test]
fn pad_cast_aims_with_its_companion_pad() {
    let mapping = MappingPadCastSpell {
        note: String::new(),
        pointer_id: 3,
        position: Position { x: 2000, y: 750 },
        release_mode: PadCastReleaseMode::OnRelease,
        drag_radius: 150,
        block_direction_pad: true,
        pad_bind: scrcpy_masker::mapping::config::DirectionBinding::JoyStick {
            x: "RightStickX".to_string(),
            y: "RightStickY".to_string(),
        },
        bind: hold("KeyJ"),
    };
    let mut casting = false;
    let out = handle_pad_cast_spell(&mapping, frame(), 0, 0, ButtonEdge::Pressed, &mut casting);
    assert_eq!(out.len(), 1);
    assert!(matches!(touch_fields(&out[0]).0, MotionEventAction::Down));
    // release with full right deflection: the Up lands at the drag radius
    let out = handle_pad_cast_spell(&mapping, frame(), 1000, 0, ButtonEdge::Released, &mut casting);
    assert_eq!(out.len(), 1);
    let (a, _, x, y, _) = touch_fields(&out[0]);
    assert!(matches!(a, MotionEventAction::Up));
    assert_eq!((x, y), (2150, 750));
}

#[test]
fn cancel_cast_taps_once() {
    let mapping = MappingCancelCast {
        note: String::new(),
        position: Position { x: 2200, y: 175 },
        bind: pulse("Space"),
    };
    assert!(handle_cancel_cast(&mapping, frame(), false).is_empty());
    let out = handle_cancel_cast(&mapping, frame(), true);
    assert_eq!(out.len(), 2);
    assert!(matches!(touch_fields(&out[0]).0, MotionEventAction::Down));
    assert!(matches!(touch_fields(&out[1]).0, MotionEventAction::Up));
}

#[test]
fn raw_input_passes_the_key_through() {
    let mapping = MappingRawInput {
        note: String::new(),
        position: Position { x: 0, y: 0 },
        bind: pulse("Enter"),
    };
    assert!(handle_raw_input(&mapping, 66, false).is_empty());
    let out = handle_raw_input(&mapping, 66, true);
    assert_eq!(out.len(), 2);
    match (&out[0].msg, &out[1].msg) {
        (
            ScrcpyControlMsg::InjectKeycode { action: a0, keycode: k0, .. },
            ScrcpyControlMsg::InjectKeycode { action: a1, keycode: k1, .. },
        ) => {
            assert!(matches!(a0, scrcpy_masker::codec::KeyEventAction::Down));
            assert!(matches!(a1, scrcpy_masker::codec::KeyEventAction::Up));
            assert_eq!((*k0, *k1), (66, 66));
        },
        _ => panic!("raw input must inject key events"),
    }
}

#[test]
fn script_hooks_fire_on_the_right_transitions() {
    let mapping = MappingScript {
        position: Position { x: 0, y: 0 },
        note: String::new(),
        activated_script: String::new(),
        deactivated_script: String::new(),
        activating_script: String::new(),
        interval: 100,
        bind: hold("Tab"),
    };
    let mut state: Option<ScriptState> = None;
    assert_eq!(
        handle_script(&mapping, ButtonEdge::Pressed, 16, &mut state),
        Some(ScriptHook::Activated)
    );
    assert_eq!(handle_script(&mapping, ButtonEdge::Held, 60, &mut state), None);
    assert_eq!(
        handle_script(&mapping, ButtonEdge::Held, 60, &mut state),
        Some(ScriptHook::Activating)
    );
    assert_eq!(
        handle_script(&mapping, ButtonEdge::Released, 16, &mut state),
        Some(ScriptHook::Deactivated)
    );
    assert!(state.is_none());
    assert_eq!(handle_script(&mapping, ButtonEdge::Released, 16, &mut state), None);
}

#[test]
fn label_info_joins_chords_and_anchors_sequences() {
    let config = MappingConfig {
        version: "1".to_string(),
        original_size: frame(),
        mappings: vec![
            MappingType::SingleTap(MappingSingleTap {
                position: Position { x: 11, y: 22 },
                note: String::new(),
                pointer_id: 1,
                duration: 10,
                sync: false,
                bind: InputBinding::Continuous(ButtonBinding::new(vec![
                    "ControlLeft".to_string(),
                    "Digit3".to_string(),
                ])),
            }),
            MappingType::MultipleTap(MappingMultipleTap {
                note: String::new(),
                pointer_id: 1,
                items: vec![MappingMultipleTapItem {
                    position: Position { x: 33, y: 44 },
                    duration: 1,
                    wait: 0,
                }],
                bind: pulse("Digit4"),
            }),
            MappingType::DirectionPad(pad()),
        ],
    };
    let bound = BindMappingConfig::from_config(config);
    let info = bound.get_mapping_label_info();
    assert_eq!(info.len(), 3);
    assert_eq!(info[0].0, "ControlLeft+Digit3");
    assert_eq!((info[0].1.x, info[0].1.y), (11, 22));
    assert_eq!(info[0].2, frame());
    assert_eq!(info[1].0, "Digit4");
    assert_eq!((info[1].1.x, info[1].1.y), (33, 44));
    assert_eq!(info[2].0, "", "two-axis bindings draw their directions separately");
}

#[test]
fn validate_checks_binding_kinds_and_slots_only() {
    // a swipe without waypoints is stopped at construction, but a loaded
    // configuration holding one still validates: validation checks exactly
    // the binding kinds and the slot counts
    let config = MappingConfig {
        version: "1".to_string(),
        original_size: frame(),
        mappings: vec![MappingType::Swipe(MappingSwipe {
            note: String::new(),
            pointer_id: 1,
            positions: Vec::new(),
            interval: 100,
            bind: pulse("Digit5"),
        })],
    };
    assert!(validate_mapping_config(&config).is_ok());
}

#[test]
fn binding_kind_helpers_agree() {
    assert_eq!(hold("KeyA").kind(), BindingKind::Continuous);
    assert_eq!(pulse("KeyA").kind(), BindingKind::Pulse);
}

#[test]
fn raw_cursor_clicks_pass_through_as_pointer_zero() {
    let mask = Size { width: 1280, height: 720 };
    let mut down = false;
    let out = handle_left_click(ButtonEdge::Pressed, Position { x: 5, y: 6 }, mask, &mut down);
    assert_eq!(out.len(), 1);
    let (a, p, x, y, _) = touch_fields(&out[0]);
    assert!(matches!(a, MotionEventAction::Down));
    assert_eq!((p, x, y), (0, 5, 6));
    assert!(down);
    let out = handle_left_click(ButtonEdge::Held, Position { x: 7, y: 8 }, mask, &mut down);
    assert!(matches!(touch_fields(&out[0]).0, MotionEventAction::Move));
    let out = handle_left_click(ButtonEdge::Released, Position { x: 7, y: 8 }, mask, &mut down);
    assert!(matches!(touch_fields(&out[0]).0, MotionEventAction::Up));
    assert!(!down);
    // a release without a press emits nothing
    let out = handle_left_click(ButtonEdge::Released, Position { x: 7, y: 8 }, mask, &mut down);
    assert!(out.is_empty());
}
