//! Bit-exact codec for the mirroring daemon's wire protocol: serialization of
//! outgoing control messages and deserialization of incoming device messages.
//!
//! Every control message starts with a one-byte type tag followed by
//! fixed-width big-endian fields; the touch pressure travels as the raw bits
//! of a 16-bit half-precision float. Device messages carry a one-byte tag and
//! a type-specific payload; an unrecognized tag decodes to `Unknown` so the
//! reader loop can continue.
use vstd::prelude::*;

use vstd::utf8::encode_utf8;

use crate::bytes::{
    copy_range, i32_of_u32, lemma_be16_roundtrip, lemma_be32_roundtrip, lemma_be64_roundtrip,
    lemma_i32_roundtrip, push_be16, push_be32, push_be64, read_be16, read_be32, read_be64,
    spec_be16, spec_be32, spec_be64, spec_combine16, spec_combine32, spec_combine64,
    spec_i32_of_u32, spec_u32_of_i32, u32_of_i32,
};

verus! {

/// Control message type tag: inject a key event.
pub const CONTROL_MSG_TYPE_INJECT_KEYCODE: u8 = 0;

/// Control message type tag: inject a touch event.
pub const CONTROL_MSG_TYPE_INJECT_TOUCH_EVENT: u8 = 2;

/// Control message type tag: inject a scroll event.
pub const CONTROL_MSG_TYPE_INJECT_SCROLL_EVENT: u8 = 3;

/// Control message type tag: set the device clipboard.
pub const CONTROL_MSG_TYPE_SET_CLIPBOARD: u8 = 9;

/// Control message type tag: switch the display on or off.
pub const CONTROL_MSG_TYPE_SET_DISPLAY_POWER: u8 = 10;

/// Device message type tag: clipboard content pushed by the device.
pub const DEVICE_MSG_TYPE_CLIPBOARD: u8 = 0;

/// Device message type tag: acknowledgement of a clipboard set request.
pub const DEVICE_MSG_TYPE_ACK_CLIPBOARD: u8 = 1;

/// Device message type tag: UHID output report.
pub const DEVICE_MSG_TYPE_UHID_OUTPUT: u8 = 2;

/// Device message type tag: the device screen rotated to a new size.
pub const DEVICE_MSG_TYPE_ROTATION: u8 = 3;

/// The primary button bit in a motion event button mask.
pub const MOTION_EVENT_BUTTON_PRIMARY: u32 = 1;

/// Longest clipboard text, in UTF-8 bytes, that a set-clipboard message may
/// carry; longer texts are rejected when the message is constructed.
pub const CLIPBOARD_TEXT_MAX_LENGTH: usize = 262130;

/// Touch (motion) event action transmitted in an inject-touch message.
#[derive(Clone, Copy, Debug, PartialEq, Eq, Structural)]
pub enum MotionEventAction {
    Down,
    Up,
    Move,
}

/// The wire byte of a motion event action.
pub open spec fn spec_action_byte(a: MotionEventAction) -> u8 {
    match a {
        MotionEventAction::Down => 0,
        MotionEventAction::Up => 1,
        MotionEventAction::Move => 2,
    }
}

/// Key event action transmitted in an inject-keycode message.
#[derive(Clone, Copy, Debug, PartialEq, Eq, Structural)]
pub enum KeyEventAction {
    Down,
    Up,
}

/// The wire byte of a key event action.
pub open spec fn spec_key_action_byte(a: KeyEventAction) -> u8 {
    match a {
        KeyEventAction::Down => 0,
        KeyEventAction::Up => 1,
    }
}

/// An outgoing control message, fully populated and ready to encode.
#[derive(Clone, Debug)]
pub enum ScrcpyControlMsg {
    InjectKeycode { action: KeyEventAction, keycode: u32, repeat: u32, metastate: u32 },
    InjectTouchEvent {
        action: MotionEventAction,
        pointer_id: u64,
        x: i32,
        y: i32,
        w: u16,
        h: u16,
        pressure: u16,
        action_button: u32,
        buttons: u32,
    },
    InjectScrollEvent { x: i32, y: i32, w: u16, h: u16, hscroll: i32, vscroll: i32, buttons: u32 },
    SetClipboard { sequence: u64, paste: bool, text: String },
    SetDisplayPower { mode: bool },
}

impl ScrcpyControlMsg {
    /// A message is well formed when every variable-length field fits the
    /// width its wire encoding declares for it.
    pub open spec fn wf(self) -> bool {
        match self {
            ScrcpyControlMsg::SetClipboard { text, .. } => encode_utf8(text@).len()
                <= CLIPBOARD_TEXT_MAX_LENGTH,
            _ => true,
        }
    }

    /// Builds a set-clipboard message, rejecting oversized text at
    /// construction so that encoding never fails.
    pub fn set_clipboard(sequence: u64, paste: bool, text: String) -> (r: Result<
        ScrcpyControlMsg,
        String,
    >)
        ensures
            encode_utf8(text@).len() <= CLIPBOARD_TEXT_MAX_LENGTH <==> r is Ok,
            r matches Ok(m) ==> m == (ScrcpyControlMsg::SetClipboard { sequence, paste, text }),
            r matches Err(e) ==> e@ == "clipboard text is too long"@,
    {
        let text_bytes = text.as_str().as_bytes_vec();
        if text_bytes.len() <= CLIPBOARD_TEXT_MAX_LENGTH {
            Ok(ScrcpyControlMsg::SetClipboard { sequence, paste, text })
        } else {
            Err("clipboard text is too long".to_owned())
        }
    }
}

/// Exec check of [`ScrcpyControlMsg::wf`].
pub fn msg_wf(msg: &ScrcpyControlMsg) -> (r: bool)
    ensures
        r == msg.wf(),
{
    match msg {
        ScrcpyControlMsg::SetClipboard { text, .. } => {
            let text_bytes = text.as_str().as_bytes_vec();
            text_bytes.len() <= CLIPBOARD_TEXT_MAX_LENGTH
        },
        _ => true,
    }
}

/// The byte encoding of a control message: a type tag followed by big-endian
/// fixed-width fields, with clipboard text carried as a 4-byte length prefix
/// and its UTF-8 bytes.
pub open spec fn spec_encode(msg: ScrcpyControlMsg) -> Seq<u8> {
    match msg {
        ScrcpyControlMsg::InjectKeycode { action, keycode, repeat, metastate } => seq![
            CONTROL_MSG_TYPE_INJECT_KEYCODE,
            spec_key_action_byte(action),
        ] + spec_be32(keycode) + spec_be32(repeat) + spec_be32(metastate),
        ScrcpyControlMsg::InjectTouchEvent {
            action,
            pointer_id,
            x,
            y,
            w,
            h,
            pressure,
            action_button,
            buttons,
        } => seq![CONTROL_MSG_TYPE_INJECT_TOUCH_EVENT, spec_action_byte(action)] + spec_be64(
            pointer_id,
        ) + spec_be32(spec_u32_of_i32(x)) + spec_be32(spec_u32_of_i32(y)) + spec_be16(w)
            + spec_be16(h) + spec_be16(pressure) + spec_be32(action_button) + spec_be32(buttons),
        ScrcpyControlMsg::InjectScrollEvent { x, y, w, h, hscroll, vscroll, buttons } => seq![
            CONTROL_MSG_TYPE_INJECT_SCROLL_EVENT,
        ] + spec_be32(spec_u32_of_i32(x)) + spec_be32(spec_u32_of_i32(y)) + spec_be16(w)
            + spec_be16(h) + spec_be32(spec_u32_of_i32(hscroll)) + spec_be32(
            spec_u32_of_i32(vscroll),
        ) + spec_be32(buttons),
        ScrcpyControlMsg::SetClipboard { sequence, paste, text } => seq![
            CONTROL_MSG_TYPE_SET_CLIPBOARD,
        ] + spec_be64(sequence) + seq![if paste { 1u8 } else { 0u8 }] + spec_be32(
            encode_utf8(text@).len() as u32,
        ) + encode_utf8(text@),
        ScrcpyControlMsg::SetDisplayPower { mode } => seq![
            CONTROL_MSG_TYPE_SET_DISPLAY_POWER,
            if mode { 1u8 } else { 0u8 },
        ],
    }
}

/// Encodes a control message into the exact byte sequence the daemon expects.
pub fn encode(msg: &ScrcpyControlMsg) -> (out: Vec<u8>)
    requires
        msg.wf(),
    ensures
        out@ == spec_encode(*msg),
{
    let mut out: Vec<u8> = Vec::new();
    match msg {
        ScrcpyControlMsg::InjectKeycode { action, keycode, repeat, metastate } => {
            out.push(CONTROL_MSG_TYPE_INJECT_KEYCODE);
            out.push(
                match action {
                    KeyEventAction::Down => 0,
                    KeyEventAction::Up => 1,
                },
            );
            push_be32(&mut out, *keycode);
            push_be32(&mut out, *repeat);
            push_be32(&mut out, *metastate);
        },
        ScrcpyControlMsg::InjectTouchEvent {
            action,
            pointer_id,
            x,
            y,
            w,
            h,
            pressure,
            action_button,
            buttons,
        } => {
            out.push(CONTROL_MSG_TYPE_INJECT_TOUCH_EVENT);
            out.push(
                match action {
                    MotionEventAction::Down => 0,
                    MotionEventAction::Up => 1,
                    MotionEventAction::Move => 2,
                },
            );
            push_be64(&mut out, *pointer_id);
            push_be32(&mut out, u32_of_i32(*x));
            push_be32(&mut out, u32_of_i32(*y));
            push_be16(&mut out, *w);
            push_be16(&mut out, *h);
            push_be16(&mut out, *pressure);
            push_be32(&mut out, *action_button);
            push_be32(&mut out, *buttons);
        },
        ScrcpyControlMsg::InjectScrollEvent { x, y, w, h, hscroll, vscroll, buttons } => {
            out.push(CONTROL_MSG_TYPE_INJECT_SCROLL_EVENT);
            push_be32(&mut out, u32_of_i32(*x));
            push_be32(&mut out, u32_of_i32(*y));
            push_be16(&mut out, *w);
            push_be16(&mut out, *h);
            push_be32(&mut out, u32_of_i32(*hscroll));
            push_be32(&mut out, u32_of_i32(*vscroll));
            push_be32(&mut out, *buttons);
        },
        ScrcpyControlMsg::SetClipboard { sequence, paste, text } => {
            out.push(CONTROL_MSG_TYPE_SET_CLIPBOARD);
            push_be64(&mut out, *sequence);
            out.push(if *paste { 1 } else { 0 });
            let mut text_bytes = text.as_str().as_bytes_vec();
            push_be32(&mut out, text_bytes.len() as u32);
            out.append(&mut text_bytes);
        },
        ScrcpyControlMsg::SetDisplayPower { mode } => {
            out.push(CONTROL_MSG_TYPE_SET_DISPLAY_POWER);
            out.push(if *mode { 1 } else { 0 });
        },
    }
    assert(out@ =~= spec_encode(*msg));
    out
}

/// The inject-touch message encoded in a 32-byte buffer, if the buffer is
/// one; the decoder symmetric to `spec_encode` on the touch variant.
pub open spec fn spec_decode_touch(data: Seq<u8>) -> Option<ScrcpyControlMsg> {
    if data.len() == 32 && data[0] == CONTROL_MSG_TYPE_INJECT_TOUCH_EVENT && data[1] <= 2 {
        Some(
            ScrcpyControlMsg::InjectTouchEvent {
                action: if data[1] == 0 {
                    MotionEventAction::Down
                } else if data[1] == 1 {
                    MotionEventAction::Up
                } else {
                    MotionEventAction::Move
                },
                pointer_id: spec_combine64(
                    data[2],
                    data[3],
                    data[4],
                    data[5],
                    data[6],
                    data[7],
                    data[8],
                    data[9],
                ),
                x: spec_i32_of_u32(spec_combine32(data[10], data[11], data[12], data[13])),
                y: spec_i32_of_u32(spec_combine32(data[14], data[15], data[16], data[17])),
                w: spec_combine16(data[18], data[19]),
                h: spec_combine16(data[20], data[21]),
                pressure: spec_combine16(data[22], data[23]),
                action_button: spec_combine32(data[24], data[25], data[26], data[27]),
                buttons: spec_combine32(data[28], data[29], data[30], data[31]),
            },
        )
    } else {
        None
    }
}

/// Decodes a 32-byte inject-touch frame back into the message it encodes.
pub fn decode_touch(data: &Vec<u8>) -> (r: Option<ScrcpyControlMsg>)
    ensures
        r == spec_decode_touch(data@),
{
    if data.len() != 32 {
        return None;
    }
    if data[0] != CONTROL_MSG_TYPE_INJECT_TOUCH_EVENT || data[1] > 2 {
        return None;
    }
    let action = if data[1] == 0 {
        MotionEventAction::Down
    } else if data[1] == 1 {
        MotionEventAction::Up
    } else {
        MotionEventAction::Move
    };
    Some(
        ScrcpyControlMsg::InjectTouchEvent {
            action,
            pointer_id: read_be64(data, 2),
            x: i32_of_u32(read_be32(data, 10)),
            y: i32_of_u32(read_be32(data, 14)),
            w: read_be16(data, 18),
            h: read_be16(data, 20),
            pressure: read_be16(data, 22),
            action_button: read_be32(data, 24),
            buttons: read_be32(data, 28),
        },
    )
}

/// Law: decoding the encoding of an inject-touch message gives the message
/// back, field for field — the wire format loses nothing.
pub proof fn lemma_inject_touch_roundtrip(msg: ScrcpyControlMsg)
    requires
        msg is InjectTouchEvent,
    ensures
        spec_decode_touch(spec_encode(msg)) == Some(msg),
{
    let e = spec_encode(msg);
    match msg {
        ScrcpyControlMsg::InjectTouchEvent {
            action,
            pointer_id,
            x,
            y,
            w,
            h,
            pressure,
            action_button,
            buttons,
        } => {
            assert(e.len() == 32);
            assert(e[0] == CONTROL_MSG_TYPE_INJECT_TOUCH_EVENT);
            assert(e[1] == spec_action_byte(action));
            assert(e[2] == spec_be64(pointer_id)[0] && e[3] == spec_be64(pointer_id)[1] && e[4]
                == spec_be64(pointer_id)[2] && e[5] == spec_be64(pointer_id)[3] && e[6]
                == spec_be64(pointer_id)[4] && e[7] == spec_be64(pointer_id)[5] && e[8]
                == spec_be64(pointer_id)[6] && e[9] == spec_be64(pointer_id)[7]);
            lemma_be64_roundtrip(pointer_id);
            let xw = spec_u32_of_i32(x);
            assert(e[10] == spec_be32(xw)[0] && e[11] == spec_be32(xw)[1] && e[12] == spec_be32(
                xw,
            )[2] && e[13] == spec_be32(xw)[3]);
            lemma_be32_roundtrip(xw);
            lemma_i32_roundtrip(x);
            let yw = spec_u32_of_i32(y);
            assert(e[14] == spec_be32(yw)[0] && e[15] == spec_be32(yw)[1] && e[16] == spec_be32(
                yw,
            )[2] && e[17] == spec_be32(yw)[3]);
            lemma_be32_roundtrip(yw);
            lemma_i32_roundtrip(y);
            assert(e[18] == spec_be16(w)[0] && e[19] == spec_be16(w)[1]);
            lemma_be16_roundtrip(w);
            assert(e[20] == spec_be16(h)[0] && e[21] == spec_be16(h)[1]);
            lemma_be16_roundtrip(h);
            assert(e[22] == spec_be16(pressure)[0] && e[23] == spec_be16(pressure)[1]);
            lemma_be16_roundtrip(pressure);
            assert(e[24] == spec_be32(action_button)[0] && e[25] == spec_be32(action_button)[1]
                && e[26] == spec_be32(action_button)[2] && e[27] == spec_be32(action_button)[3]);
            lemma_be32_roundtrip(action_button);
            assert(e[28] == spec_be32(buttons)[0] && e[29] == spec_be32(buttons)[1] && e[30]
                == spec_be32(buttons)[2] && e[31] == spec_be32(buttons)[3]);
            lemma_be32_roundtrip(buttons);
        },
        _ => {},
    }
}

/// An incoming message read from the device's control socket.
#[derive(Clone, Debug)]
pub enum ScrcpyDeviceMsg {
    Clipboard { length: u32, text: String },
    AckClipboard { sequence: u64 },
    UhidOutput { id: u16, data: Vec<u8> },
    Rotation { rotation: u8, width: u32, height: u32, scid: String },
    Unknown,
}

/// Why a device frame could not be decoded.
#[derive(Clone, Copy, Debug, PartialEq, Eq, Structural)]
pub enum DecodeError {
    /// A clipboard frame carried bytes that are not valid UTF-8.
    InvalidClipboardText,
    /// The stream closed in the middle of a frame.
    TruncatedFrame,
}

/// What one decoding step produced: a complete message together with how many
/// bytes of the buffer it consumed, or a request for more bytes because the
/// buffer ends in the middle of a frame.
#[derive(Clone, Debug)]
pub enum DeviceDecodeOutcome {
    Msg { msg: ScrcpyDeviceMsg, consumed: usize },
    NeedMore,
}

/// Relies on std::str::from_utf8: it succeeds exactly on valid UTF-8 input,
/// and the string it returns is the UTF-8 decoding of the bytes.
#[verifier::external_body]
pub(crate) fn utf8_to_string(data: &Vec<u8>) -> (r: Option<String>)
    ensures
        r is Some <==> vstd::utf8::valid_utf8(data@),
        r matches Some(s) ==> s@ == vstd::utf8::decode_utf8(data@),
{
    match std::str::from_utf8(data.as_slice()) {
        Ok(s) => Some(s.to_owned()),
        Err(_) => None,
    }
}

/// Judges the end of a device message stream: a stream that closes between
/// frames ended cleanly; one that closes with bytes still buffered closed in
/// the middle of a frame, which is the distinct, fatal protocol error.
pub fn finish_device_stream(buf: &Vec<u8>) -> (r: Result<(), DecodeError>)
    ensures
        buf@.len() == 0 <==> r is Ok,
        buf@.len() > 0 ==> r == Err::<(), DecodeError>(DecodeError::TruncatedFrame),
{
    if buf.len() == 0 {
        Ok(())
    } else {
        Err(DecodeError::TruncatedFrame)
    }
}

/// Decodes the device message at the front of `buf`.
///
/// A frame shorter than its declared length yields `NeedMore`, never a
/// partial message; the caller reads more bytes and retries, and treats
/// `NeedMore` at end of stream as a truncated frame. An unrecognized type
/// tag yields `Unknown` and consumes the buffer, so the reader loop can
/// continue. The `scid` is the session id stamped onto rotation messages.
pub fn decode_device_msg(buf: &Vec<u8>, scid: &String) -> (r: Result<
    DeviceDecodeOutcome,
    DecodeError,
>)
    ensures
        buf@.len() == 0 ==> (r matches Ok(o) && o is NeedMore),
        buf@.len() > 0 && buf@[0] == DEVICE_MSG_TYPE_CLIPBOARD ==> ({
            if buf@.len() < 5 {
                r matches Ok(o) && o is NeedMore
            } else {
                let n = spec_combine32(buf@[1], buf@[2], buf@[3], buf@[4]) as int;
                if buf@.len() < 5 + n {
                    r matches Ok(o) && o is NeedMore
                } else if vstd::utf8::valid_utf8(buf@.subrange(5, 5 + n)) {
                    r matches Ok(DeviceDecodeOutcome::Msg { msg, consumed })
                        && msg matches ScrcpyDeviceMsg::Clipboard { length, text }
                        && length as int == n && text@ == vstd::utf8::decode_utf8(
                        buf@.subrange(5, 5 + n),
                    ) && consumed as int == 5 + n
                } else {
                    r matches Err(e) && e == DecodeError::InvalidClipboardText
                }
            }
        }),
        buf@.len() > 0 && buf@[0] == DEVICE_MSG_TYPE_ACK_CLIPBOARD ==> ({
            if buf@.len() < 9 {
                r matches Ok(o) && o is NeedMore
            } else {
                r matches Ok(DeviceDecodeOutcome::Msg { msg, consumed })
                    && msg matches ScrcpyDeviceMsg::AckClipboard { sequence } && sequence
                    == spec_combine64(
                    buf@[1],
                    buf@[2],
                    buf@[3],
                    buf@[4],
                    buf@[5],
                    buf@[6],
                    buf@[7],
                    buf@[8],
                ) && consumed == 9
            }
        }),
        buf@.len() > 0 && buf@[0] == DEVICE_MSG_TYPE_UHID_OUTPUT ==> ({
            if buf@.len() < 5 {
                r matches Ok(o) && o is NeedMore
            } else {
                let n = spec_combine16(buf@[3], buf@[4]) as int;
                if buf@.len() < 5 + n {
                    r matches Ok(o) && o is NeedMore
                } else {
                    r matches Ok(DeviceDecodeOutcome::Msg { msg, consumed })
                        && msg matches ScrcpyDeviceMsg::UhidOutput { id, data } && id
                        == spec_combine16(buf@[1], buf@[2]) && data@ == buf@.subrange(5, 5 + n)
                        && consumed as int == 5 + n
                }
            }
        }),
        buf@.len() > 0 && buf@[0] == DEVICE_MSG_TYPE_ROTATION ==> ({
            if buf@.len() < 10 {
                r matches Ok(o) && o is NeedMore
            } else {
                r matches Ok(DeviceDecodeOutcome::Msg { msg, consumed })
                    && msg matches ScrcpyDeviceMsg::Rotation { rotation, width, height, scid: s }
                    && rotation == buf@[1] && width == spec_combine32(
                    buf@[2],
                    buf@[3],
                    buf@[4],
                    buf@[5],
                ) && height == spec_combine32(buf@[6], buf@[7], buf@[8], buf@[9]) && s@ == scid@
                    && consumed == 10
            }
        }),
        buf@.len() > 0 && buf@[0] != DEVICE_MSG_TYPE_CLIPBOARD && buf@[0]
            != DEVICE_MSG_TYPE_ACK_CLIPBOARD && buf@[0] != DEVICE_MSG_TYPE_UHID_OUTPUT && buf@[0]
            != DEVICE_MSG_TYPE_ROTATION ==> (r matches Ok(DeviceDecodeOutcome::Msg {
            msg,
            consumed,
        }) && msg is Unknown && consumed == buf@.len()),
{
    let buf_len: usize = buf.len();
    if buf_len == 0 {
        return Ok(DeviceDecodeOutcome::NeedMore);
    }
    let tag = buf[0];
    if tag == DEVICE_MSG_TYPE_CLIPBOARD {
        if buf_len < 5 {
            return Ok(DeviceDecodeOutcome::NeedMore);
        }
        let n = read_be32(buf, 1);
        if (buf_len as u64) < 5 + (n as u64) {
            return Ok(DeviceDecodeOutcome::NeedMore);
        }
        let end: usize = 5 + (n as usize);
        let text_bytes = copy_range(buf, 5, end);
        match utf8_to_string(&text_bytes) {
            Some(text) => Ok(
                DeviceDecodeOutcome::Msg {
                    msg: ScrcpyDeviceMsg::Clipboard { length: n, text },
                    consumed: end,
                },
            ),
            None => Err(DecodeError::InvalidClipboardText),
        }
    } else if tag == DEVICE_MSG_TYPE_ACK_CLIPBOARD {
        if buf_len < 9 {
            return Ok(DeviceDecodeOutcome::NeedMore);
        }
        Ok(
            DeviceDecodeOutcome::Msg {
                msg: ScrcpyDeviceMsg::AckClipboard { sequence: read_be64(buf, 1) },
                consumed: 9,
            },
        )
    } else if tag == DEVICE_MSG_TYPE_UHID_OUTPUT {
        if buf_len < 5 {
            return Ok(DeviceDecodeOutcome::NeedMore);
        }
        let id = read_be16(buf, 1);
        let n = read_be16(buf, 3);
        if (buf_len as u64) < 5 + (n as u64) {
            return Ok(DeviceDecodeOutcome::NeedMore);
        }
        let end: usize = 5 + (n as usize);
        let data = copy_range(buf, 5, end);
        Ok(
            DeviceDecodeOutcome::Msg {
                msg: ScrcpyDeviceMsg::UhidOutput { id, data },
                consumed: end,
            },
        )
    } else if tag == DEVICE_MSG_TYPE_ROTATION {
        if buf_len < 10 {
            return Ok(DeviceDecodeOutcome::NeedMore);
        }
        Ok(
            DeviceDecodeOutcome::Msg {
                msg: ScrcpyDeviceMsg::Rotation {
                    rotation: buf[1],
                    width: read_be32(buf, 2),
                    height: read_be32(buf, 6),
                    scid: scid.clone(),
                },
                consumed: 10,
            },
        )
    } else {
        Ok(DeviceDecodeOutcome::Msg { msg: ScrcpyDeviceMsg::Unknown, consumed: buf_len })
    }
}

} // verus!
