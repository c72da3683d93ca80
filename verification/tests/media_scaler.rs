use scrcpy_masker::codec::{MotionEventAction, ScrcpyControlMsg};
use scrcpy_masker::mapping::utils::PRESSURE_ONE_BITS;
use scrcpy_masker::media::{
    must_merge_config_packet, parse_media_meta, parse_packet_header, process_media_packet,
    MediaPacket, PacketMerger, VideoCodec, SC_CODEC_ID_H265,
};
use scrcpy_masker::scaler::{rescale_control_msg, scale_coord};

#[test]
fn media_meta_parses_codec_and_dimensions() {
    // "h264" as big-endian bytes, then 1920 x 1080
    let buf = vec![0x68, 0x32, 0x36, 0x34, 0, 0, 0x07, 0x80, 0, 0, 0x04, 0x38];
    let meta = parse_media_meta(&buf).unwrap();
    assert_eq!(meta.codec, VideoCodec::H264);
    assert_eq!(meta.width, 1920);
    assert_eq!(meta.height, 1080);
    assert!(must_merge_config_packet(meta.codec));
    let mut h265 = buf.clone();
    h265[3] = 0x35;
    assert_eq!(parse_media_meta(&h265).unwrap().codec, VideoCodec::H265);
    assert_eq!(u32::from_be_bytes([h265[0], h265[1], h265[2], h265[3]]), SC_CODEC_ID_H265);
    // "av1" with a leading zero byte
    let av1 = vec![0x00, 0x61, 0x76, 0x31, 0, 0, 0, 1, 0, 0, 0, 1];
    assert_eq!(parse_media_meta(&av1).unwrap().codec, VideoCodec::AV1);
    assert!(!must_merge_config_packet(VideoCodec::AV1));
}

#[test]
fn unknown_codec_id_is_reported() {
    let buf = vec![0xde, 0xad, 0xbe, 0xef, 0, 0, 0, 1, 0, 0, 0, 1];
    assert_eq!(parse_media_meta(&buf), Err(0xdeadbeef));
}

#[test]
fn packet_header_separates_config_key_and_pts() {
    // config packet: top bit set
    let buf = vec![0x80, 0, 0, 0, 0, 0, 0, 0, 0, 0, 0, 9];
    let (pts, key, len) = parse_packet_header(&buf);
    assert!(pts.is_none());
    assert!(!key);
    assert_eq!(len, 9);
    // key frame with pts 5
    let buf = vec![0x40, 0, 0, 0, 0, 0, 0, 5, 0, 0, 1, 0];
    let (pts, key, len) = parse_packet_header(&buf);
    assert_eq!(pts, Some(5));
    assert!(key);
    assert_eq!(len, 256);
}

#[test]
fn config_packet_is_held_back_and_merged_into_the_key_frame() {
    let mut merger = PacketMerger::new();
    let config = MediaPacket { pts: None, key_frame: false, data: vec![1, 2, 3] };
    assert!(process_media_packet(&mut merger, true, config).is_none());
    let frame = MediaPacket { pts: Some(100), key_frame: true, data: vec![4, 5] };
    let out = process_media_packet(&mut merger, true, frame).unwrap();
    assert_eq!(out.pts, Some(100));
    assert!(out.key_frame);
    assert_eq!(out.data, vec![1, 2, 3, 4, 5]);
    // the next frame passes through untouched
    let frame = MediaPacket { pts: Some(133), key_frame: false, data: vec![9] };
    let out = process_media_packet(&mut merger, true, frame).unwrap();
    assert_eq!(out.data, vec![9]);
}

#[test]
fn codecs_without_separate_config_packets_skip_the_merge() {
    let mut merger = PacketMerger::new();
    let frame = MediaPacket { pts: Some(1), key_frame: false, data: vec![7, 8] };
    let out = process_media_packet(&mut merger, false, frame).unwrap();
    assert_eq!(out.data, vec![7, 8]);
}

fn touch(x: i32, y: i32, w: u16, h: u16) -> ScrcpyControlMsg {
    ScrcpyControlMsg::InjectTouchEvent {
        action: MotionEventAction::Move,
        pointer_id: 2,
        x,
        y,
        w,
        h,
        pressure: PRESSURE_ONE_BITS,
        action_button: 1,
        buttons: 1,
    }
}

#[test]
fn scaling_through_equal_frames_is_the_identity() {
    // authoring -> window with window == authoring, then window -> device with
    // device == window: the position comes back unchanged
    let x1 = scale_coord(123, 1280, 1280);
    let y1 = scale_coord(456, 720, 720);
    assert_eq!((x1, y1), (123, 456));
    let msg = touch(x1, y1, 1280, 720);
    match rescale_control_msg(msg, 1280, 720) {
        ScrcpyControlMsg::InjectTouchEvent { x, y, w, h, .. } => {
            assert_eq!((x, y), (123, 456));
            assert_eq!((w, h), (1280, 720));
        },
        _ => panic!("wrong variant"),
    }
}

#[test]
fn rescaling_maps_into_the_device_frame() {
    let msg = touch(640, 360, 1280, 720);
    match rescale_control_msg(msg, 2560, 1440) {
        ScrcpyControlMsg::InjectTouchEvent { x, y, w, h, .. } => {
            assert_eq!((x, y), (1280, 720));
            assert_eq!((w, h), (2560, 1440));
        },
        _ => panic!("wrong variant"),
    }
}

#[test]
fn unknown_device_size_passes_messages_through() {
    let msg = touch(640, 360, 1280, 720);
    match rescale_control_msg(msg, 0, 0) {
        ScrcpyControlMsg::InjectTouchEvent { x, y, w, h, .. } => {
            assert_eq!((x, y, w, h), (640, 360, 1280, 720));
        },
        _ => panic!("wrong variant"),
    }
}

#[test]
fn negative_coordinates_scale_toward_zero() {
    // -5 * 2560 / 1280 = -10 exactly; -3 * 100 / 1000 truncates toward zero
    assert_eq!(scale_coord(-5, 1280, 2560), -10);
    assert_eq!(scale_coord(-3, 1000, 100), 0);
    assert_eq!(scale_coord(3, 1000, 100), 0);
}
