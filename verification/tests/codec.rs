use scrcpy_masker::codec::{
    decode_device_msg, decode_touch, encode, finish_device_stream, msg_wf, DecodeError,
    DeviceDecodeOutcome,
    KeyEventAction, MotionEventAction, ScrcpyControlMsg, ScrcpyDeviceMsg,
    CONTROL_MSG_TYPE_INJECT_TOUCH_EVENT, MOTION_EVENT_BUTTON_PRIMARY,
};
use scrcpy_masker::mapping::utils::PRESSURE_ONE_BITS;

fn sample_touch() -> ScrcpyControlMsg {
    ScrcpyControlMsg::InjectTouchEvent {
        action: MotionEventAction::Down,
        pointer_id: 0x0102030405060708,
        x: -5,
        y: 77,
        w: 1280,
        h: 720,
        pressure: PRESSURE_ONE_BITS,
        action_button: MOTION_EVENT_BUTTON_PRIMARY,
        buttons: MOTION_EVENT_BUTTON_PRIMARY,
    }
}

#[test]
fn touch_encoding_is_bit_exact() {
    let data = encode(&sample_touch());
    let expected: Vec<u8> = vec![
        CONTROL_MSG_TYPE_INJECT_TOUCH_EVENT,
        0, // Down
        1, 2, 3, 4, 5, 6, 7, 8, // pointer id
        0xff, 0xff, 0xff, 0xfb, // x = -5 in two's complement
        0x00, 0x00, 0x00, 0x4d, // y = 77
        0x05, 0x00, // w = 1280
        0x02, 0xd0, // h = 720
        0x3c, 0x00, // pressure 1.0 as half float
        0, 0, 0, 1, // action button
        0, 0, 0, 1, // buttons
    ];
    assert_eq!(data, expected);
}

#[test]
fn touch_round_trip_reproduces_every_field() {
    let msg = sample_touch();
    let encoded = encode(&msg);
    let decoded = decode_touch(&encoded).expect("a touch frame must decode");
    match decoded {
        ScrcpyControlMsg::InjectTouchEvent {
            action,
            pointer_id,
            x,
            y,
            w,
            h,
            pressure,
            action_button,
            buttons,
        } => {
            assert!(matches!(action, MotionEventAction::Down));
            assert_eq!(pointer_id, 0x0102030405060708);
            assert_eq!(x, -5);
            assert_eq!(y, 77);
            assert_eq!(w, 1280);
            assert_eq!(h, 720);
            assert_eq!(pressure, PRESSURE_ONE_BITS);
            assert_eq!(action_button, 1);
            assert_eq!(buttons, 1);
        },
        _ => panic!("decoded into the wrong variant"),
    }
}

#[test]
fn decode_touch_rejects_foreign_frames() {
    let msg = ScrcpyControlMsg::SetDisplayPower { mode: true };
    let encoded = encode(&msg);
    assert!(decode_touch(&encoded).is_none());
    assert!(decode_touch(&vec![2u8; 31]).is_none());
}

#[test]
fn pressure_constant_matches_half_precision_one() {
    assert_eq!(PRESSURE_ONE_BITS, half::f16::from_f32(1.0).to_bits());
}

#[test]
fn keycode_and_display_power_encodings() {
    let key = ScrcpyControlMsg::InjectKeycode {
        action: KeyEventAction::Up,
        keycode: 0x0000_0103,
        repeat: 2,
        metastate: 0,
    };
    assert_eq!(
        encode(&key),
        vec![0u8, 1, 0, 0, 1, 3, 0, 0, 0, 2, 0, 0, 0, 0]
    );
    let power = ScrcpyControlMsg::SetDisplayPower { mode: false };
    assert_eq!(encode(&power), vec![10u8, 0]);
}

#[test]
fn clipboard_encoding_carries_length_prefixed_utf8() {
    let msg = ScrcpyControlMsg::set_clipboard(7, true, "hi".to_string()).unwrap();
    let data = encode(&msg);
    assert_eq!(
        data,
        vec![9u8, 0, 0, 0, 0, 0, 0, 0, 7, 1, 0, 0, 0, 2, b'h', b'i']
    );
}

#[test]
fn oversized_clipboard_is_rejected_at_construction() {
    let long = "x".repeat(262_131);
    assert!(ScrcpyControlMsg::set_clipboard(0, false, long).is_err());
    let fitting = "x".repeat(262_130);
    let msg = ScrcpyControlMsg::set_clipboard(0, false, fitting).unwrap();
    assert!(msg_wf(&msg));
}

#[test]
fn device_clipboard_frame_decodes_text() {
    let scid = "10111111".to_string();
    // tag 0, length 5, "héllo" is 6 UTF-8 bytes — use a 2-byte char to see decoding
    let text = "h\u{e9}llo"; // 6 bytes in UTF-8
    let mut frame = vec![0u8, 0, 0, 0, text.len() as u8];
    frame.extend_from_slice(text.as_bytes());
    match decode_device_msg(&frame, &scid).unwrap() {
        DeviceDecodeOutcome::Msg { msg, consumed } => {
            assert_eq!(consumed, 5 + text.len());
            match msg {
                ScrcpyDeviceMsg::Clipboard { length, text: t } => {
                    assert_eq!(length as usize, text.len());
                    assert_eq!(t, text);
                },
                _ => panic!("wrong variant"),
            }
        },
        DeviceDecodeOutcome::NeedMore => panic!("frame was complete"),
    }
}

#[test]
fn device_clipboard_frame_with_invalid_utf8_is_an_error() {
    let scid = "10111111".to_string();
    let frame = vec![0u8, 0, 0, 0, 2, 0xff, 0xfe];
    assert!(matches!(
        decode_device_msg(&frame, &scid),
        Err(DecodeError::InvalidClipboardText)
    ));
}

#[test]
fn short_frames_ask_for_more_bytes() {
    let scid = "10111111".to_string();
    // empty buffer
    assert!(matches!(
        decode_device_msg(&Vec::new(), &scid).unwrap(),
        DeviceDecodeOutcome::NeedMore
    ));
    // clipboard header present, payload truncated
    let frame = vec![0u8, 0, 0, 0, 5, b'h', b'i'];
    assert!(matches!(
        decode_device_msg(&frame, &scid).unwrap(),
        DeviceDecodeOutcome::NeedMore
    ));
    // rotation frame one byte short
    let frame = vec![3u8, 1, 0, 0, 4, 0, 0, 0, 7];
    assert!(matches!(
        decode_device_msg(&frame, &scid).unwrap(),
        DeviceDecodeOutcome::NeedMore
    ));
}

#[test]
fn rotation_frame_decodes_and_carries_the_session_id() {
    let scid = "10222222".to_string();
    let frame = vec![3u8, 1, 0, 0, 4, 0x38, 0, 0, 7, 0x80];
    match decode_device_msg(&frame, &scid).unwrap() {
        DeviceDecodeOutcome::Msg { msg, consumed } => {
            assert_eq!(consumed, 10);
            match msg {
                ScrcpyDeviceMsg::Rotation { rotation, width, height, scid: s } => {
                    assert_eq!(rotation, 1);
                    assert_eq!(width, 0x438);
                    assert_eq!(height, 0x780);
                    assert_eq!(s, scid);
                },
                _ => panic!("wrong variant"),
            }
        },
        _ => panic!("frame was complete"),
    }
}

#[test]
fn ack_and_uhid_frames_decode() {
    let scid = "1".to_string();
    let frame = vec![1u8, 0, 0, 0, 0, 0, 0, 0, 42];
    match decode_device_msg(&frame, &scid).unwrap() {
        DeviceDecodeOutcome::Msg { msg, consumed } => {
            assert_eq!(consumed, 9);
            assert!(matches!(msg, ScrcpyDeviceMsg::AckClipboard { sequence: 42 }));
        },
        _ => panic!("frame was complete"),
    }
    let frame = vec![2u8, 0, 3, 0, 2, 0xaa, 0xbb];
    match decode_device_msg(&frame, &scid).unwrap() {
        DeviceDecodeOutcome::Msg { msg, consumed } => {
            assert_eq!(consumed, 7);
            match msg {
                ScrcpyDeviceMsg::UhidOutput { id, data } => {
                    assert_eq!(id, 3);
                    assert_eq!(data, vec![0xaa, 0xbb]);
                },
                _ => panic!("wrong variant"),
            }
        },
        _ => panic!("frame was complete"),
    }
}

#[test]
fn a_stream_closing_mid_frame_is_a_distinct_error() {
    assert!(finish_device_stream(&Vec::new()).is_ok());
    assert!(matches!(
        finish_device_stream(&vec![0u8, 0, 0]),
        Err(DecodeError::TruncatedFrame)
    ));
}

#[test]
fn unknown_tags_decode_to_unknown_and_drain_the_buffer() {
    let scid = "1".to_string();
    let frame = vec![99u8, 1, 2, 3];
    match decode_device_msg(&frame, &scid).unwrap() {
        DeviceDecodeOutcome::Msg { msg, consumed } => {
            assert_eq!(consumed, 4);
            assert!(matches!(msg, ScrcpyDeviceMsg::Unknown));
        },
        _ => panic!("frame was complete"),
    }
}
