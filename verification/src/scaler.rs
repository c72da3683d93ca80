//! Pure, stateless transforms between the three coordinate spaces a touch
//! position travels through: the mapping's authoring resolution, the live
//! mask-window pixel size, and the current device resolution. A transform
//! whose target dimension is still unknown (zero) is the identity, so no
//! division by zero can occur.
use vstd::prelude::*;

use vstd::arithmetic::div_mod::lemma_div_multiples_vanish;

use crate::codec::ScrcpyControlMsg;

verus! {

/// A coordinate scaled from one frame length to another, rounding toward
/// zero as the original integer arithmetic does.
pub open spec fn spec_scale_coord(v: int, from: int, to: int) -> int
    recommends
        from > 0,
{
    if v >= 0 {
        v * to / from
    } else {
        -((-v) * to / from)
    }
}

/// A value clamped into the range of a 32-bit signed integer.
pub open spec fn spec_clamp_i32(v: int) -> int {
    if v > 0x7fff_ffff {
        0x7fff_ffff
    } else if v < -0x8000_0000 {
        -0x8000_0000
    } else {
        v
    }
}

/// Scales one coordinate from a frame `from` units long to a frame `to`
/// units long, clamping the result into the 32-bit range.
pub fn scale_coord(v: i32, from: u32, to: u32) -> (r: i32)
    requires
        from > 0,
    ensures
        r as int == spec_clamp_i32(spec_scale_coord(v as int, from as int, to as int)),
{
    if v >= 0 {
        proof {
            assert((v as u64) * (to as u64) <= 0x7fff_ffff * 0xffff_ffff) by (nonlinear_arith)
                requires
                    v as u64 <= 0x7fff_ffff,
                    to as u64 <= 0xffff_ffff,
            ;
        }
        let scaled: u64 = (v as u64) * (to as u64) / (from as u64);
        if scaled > 0x7fff_ffff {
            0x7fff_ffffi32
        } else {
            scaled as i32
        }
    } else {
        let mag: u64 = if v == -2147483648i32 {
            0x8000_0000u64
        } else {
            (-v) as u64
        };
        proof {
            assert(mag * (to as u64) <= 0x8000_0000 * 0xffff_ffff) by (nonlinear_arith)
                requires
                    mag <= 0x8000_0000,
                    to as u64 <= 0xffff_ffff,
            ;
        }
        let scaled: u64 = mag * (to as u64) / (from as u64);
        if scaled >= 0x8000_0000 {
            -2147483648i32
        } else {
            -(scaled as i32)
        }
    }
}

/// Law: scaling a coordinate between two frames of the same length gives the
/// coordinate back.
pub proof fn lemma_scale_coord_identity(v: i32, s: u32)
    requires
        s > 0,
    ensures
        spec_clamp_i32(spec_scale_coord(v as int, s as int, s as int)) == v as int,
{
    if v >= 0 {
        lemma_div_multiples_vanish(v as int, s as int);
        assert((v as int) * (s as int) == (s as int) * (v as int)) by (nonlinear_arith);
    } else {
        lemma_div_multiples_vanish(-(v as int), s as int);
        assert((-(v as int)) * (s as int) == (s as int) * (-(v as int))) by (nonlinear_arith);
    }
}

/// Law: a position pushed through the authoring-to-window transform and then
/// the window-to-device transform comes back unchanged whenever the window
/// frame equals the authoring frame and the device frame equals the window
/// frame — the chain of equal-sized frames is the identity.
pub proof fn lemma_scale_chain_identity(x: i32, y: i32, w: u32, h: u32)
    requires
        w > 0,
        h > 0,
    ensures
        ({
            let x1 = spec_clamp_i32(spec_scale_coord(x as int, w as int, w as int));
            let y1 = spec_clamp_i32(spec_scale_coord(y as int, h as int, h as int));
            let x2 = spec_clamp_i32(spec_scale_coord(x1, w as int, w as int));
            let y2 = spec_clamp_i32(spec_scale_coord(y1, h as int, h as int));
            x2 == x as int && y2 == y as int
        }),
{
    lemma_scale_coord_identity(x, w);
    lemma_scale_coord_identity(y, h);
}

/// Clamps a 64-bit value into the 32-bit signed range.
pub fn clamp_i32_from_i64(v: i64) -> (r: i32)
    ensures
        r as int == spec_clamp_i32(v as int),
{
    if v > 0x7fff_ffff {
        0x7fff_ffffi32
    } else if v < -0x8000_0000 {
        -2147483648i32
    } else {
        v as i32
    }
}

/// Clamps a 128-bit value into the 32-bit signed range.
pub fn clamp_i32_from_i128(v: i128) -> (r: i32)
    ensures
        r as int == spec_clamp_i32(v as int),
{
    if v > 0x7fff_ffff {
        0x7fff_ffffi32
    } else if v < -0x8000_0000 {
        -2147483648i32
    } else {
        v as i32
    }
}

/// A dimension truncated to the 16 bits the wire format gives it.
pub open spec fn spec_dim16(v: u32) -> u16 {
    (v % 0x1_0000) as u16
}

/// The rescaled form of an in-flight control message, as a spec value: see
/// [`rescale_control_msg`].
pub open spec fn spec_rescale_msg(msg: ScrcpyControlMsg, device_w: u32, device_h: u32) -> (
    ScrcpyControlMsg
) {
    if device_w == 0 || device_h == 0 {
        msg
    } else {
        match msg {
            ScrcpyControlMsg::InjectTouchEvent {
                action,
                pointer_id,
                x,
                y,
                w,
                h,
                pressure,
                action_button,
                buttons,
            } => {
                if w == 0 || h == 0 {
                    msg
                } else {
                    ScrcpyControlMsg::InjectTouchEvent {
                        action,
                        pointer_id,
                        x: spec_clamp_i32(
                            spec_scale_coord(x as int, w as int, device_w as int),
                        ) as i32,
                        y: spec_clamp_i32(
                            spec_scale_coord(y as int, h as int, device_h as int),
                        ) as i32,
                        w: spec_dim16(device_w),
                        h: spec_dim16(device_h),
                        pressure,
                        action_button,
                        buttons,
                    }
                }
            },
            ScrcpyControlMsg::InjectScrollEvent { x, y, w, h, hscroll, vscroll, buttons } => {
                if w == 0 || h == 0 {
                    msg
                } else {
                    ScrcpyControlMsg::InjectScrollEvent {
                        x: spec_clamp_i32(
                            spec_scale_coord(x as int, w as int, device_w as int),
                        ) as i32,
                        y: spec_clamp_i32(
                            spec_scale_coord(y as int, h as int, device_h as int),
                        ) as i32,
                        w: spec_dim16(device_w),
                        h: spec_dim16(device_h),
                        hscroll,
                        vscroll,
                        buttons,
                    }
                }
            },
            other => other,
        }
    }
}

/// Law: rescaling never breaks a message's well-formedness — the clipboard
/// payload, the only variable-length field, passes through untouched.
pub proof fn lemma_rescale_preserves_wf(msg: ScrcpyControlMsg, device_w: u32, device_h: u32)
    requires
        msg.wf(),
    ensures
        spec_rescale_msg(msg, device_w, device_h).wf(),
{
}

/// Rewrites the coordinates of an in-flight touch or scroll message from the
/// reference frame it carries into the device frame, as the control writer
/// does just before serialization. While the device size is still unknown
/// (a zero dimension), and for a message whose own frame is degenerate
/// (a zero dimension), the message passes through unchanged; every other
/// message leaves with the device frame as its reference size. Messages
/// without coordinates always pass through unchanged.
pub fn rescale_control_msg(msg: ScrcpyControlMsg, device_w: u32, device_h: u32) -> (r:
    ScrcpyControlMsg)
    ensures
        r == spec_rescale_msg(msg, device_w, device_h),
        device_w == 0 || device_h == 0 ==> r == msg,
        msg matches ScrcpyControlMsg::InjectTouchEvent {
            action,
            pointer_id,
            x,
            y,
            w,
            h,
            pressure,
            action_button,
            buttons,
        } ==> (device_w > 0 && device_h > 0 && w > 0 && h > 0 ==> r == (
        ScrcpyControlMsg::InjectTouchEvent {
            action,
            pointer_id,
            x: spec_clamp_i32(spec_scale_coord(x as int, w as int, device_w as int)) as i32,
            y: spec_clamp_i32(spec_scale_coord(y as int, h as int, device_h as int)) as i32,
            w: spec_dim16(device_w),
            h: spec_dim16(device_h),
            pressure,
            action_button,
            buttons,
        })),
        msg matches ScrcpyControlMsg::InjectScrollEvent { x, y, w, h, hscroll, vscroll, buttons }
            ==> (device_w > 0 && device_h > 0 && w > 0 && h > 0 ==> r == (
        ScrcpyControlMsg::InjectScrollEvent {
            x: spec_clamp_i32(spec_scale_coord(x as int, w as int, device_w as int)) as i32,
            y: spec_clamp_i32(spec_scale_coord(y as int, h as int, device_h as int)) as i32,
            w: spec_dim16(device_w),
            h: spec_dim16(device_h),
            hscroll,
            vscroll,
            buttons,
        })),
        !(msg is InjectTouchEvent) && !(msg is InjectScrollEvent) ==> r == msg,
        msg matches ScrcpyControlMsg::InjectTouchEvent { w, h, .. } ==> (w == 0 || h == 0 ==> r
            == msg),
        msg matches ScrcpyControlMsg::InjectScrollEvent { w, h, .. } ==> (w == 0 || h == 0 ==> r
            == msg),
{
    if device_w == 0 || device_h == 0 {
        return msg;
    }
    match msg {
        ScrcpyControlMsg::InjectTouchEvent {
            action,
            pointer_id,
            x,
            y,
            w,
            h,
            pressure,
            action_button,
            buttons,
        } => {
            if w == 0 || h == 0 {
                ScrcpyControlMsg::InjectTouchEvent {
                    action,
                    pointer_id,
                    x,
                    y,
                    w,
                    h,
                    pressure,
                    action_button,
                    buttons,
                }
            } else {
                ScrcpyControlMsg::InjectTouchEvent {
                    action,
                    pointer_id,
                    x: scale_coord(x, w as u32, device_w),
                    y: scale_coord(y, h as u32, device_h),
                    w: (device_w % 0x1_0000) as u16,
                    h: (device_h % 0x1_0000) as u16,
                    pressure,
                    action_button,
                    buttons,
                }
            }
        },
        ScrcpyControlMsg::InjectScrollEvent { x, y, w, h, hscroll, vscroll, buttons } => {
            if w == 0 || h == 0 {
                ScrcpyControlMsg::InjectScrollEvent { x, y, w, h, hscroll, vscroll, buttons }
            } else {
                ScrcpyControlMsg::InjectScrollEvent {
                    x: scale_coord(x, w as u32, device_w),
                    y: scale_coord(y, h as u32, device_h),
                    w: (device_w % 0x1_0000) as u16,
                    h: (device_h % 0x1_0000) as u16,
                    hscroll,
                    vscroll,
                    buttons,
                }
            }
        },
        other => other,
    }
}

} // verus!
