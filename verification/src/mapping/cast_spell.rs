//! Spell-cast gestures and their release policies.
//!
//! A cast holds one pointer Down and, for directional casts, drags it around
//! the cast button to aim; the release policy decides when the matching Up
//! fires: on the button's release, instantly on the press itself, or on a
//! second press after the first one armed the cast. The aim offset is
//! clamped into the configured drag radius.
use vstd::prelude::*;

use crate::codec::MotionEventAction;
use crate::mapping::config::{
    MappingCancelCast, MappingMouseCastSpell, MappingPadCastSpell, MouseCastReleaseMode,
    PadCastReleaseMode,
};
use crate::mapping::joystick::spec_clip_offset;
use crate::mapping::utils::{
    scale_delta_sens, spec_scale_delta, spec_touch_msg, ButtonEdge, ControlMsgHelper, Position,
    Size, TimedMsg,
};
use crate::scaler::{clamp_i32_from_i64, spec_clamp_i32};

verus! {

/// A value clamped into `[-r, r]`.
pub open spec fn spec_clamp_mag(v: int, r: int) -> int {
    if v > r {
        r
    } else if v < -r {
        -r
    } else {
        v
    }
}

/// Clamps a 64-bit offset into a radius.
fn clamp_mag(v: i64, r: u32) -> (out: i64)
    ensures
        out == spec_clamp_mag(v as int, r as int),
{
    if v > r as i64 {
        r as i64
    } else if v < -(r as i64) {
        -(r as i64)
    } else {
        v
    }
}

/// Where a mouse-aimed cast points for a given cursor: the cursor's offset
/// from the aim center is clamped into the cast radius (the spell's range),
/// scaled by the two factors in thousandths, clamped into the drag radius
/// (how far the pointer may leave the cast button), and added to the cast
/// position — per coordinate.
pub open spec fn spec_mouse_cast_aim(mapping: MappingMouseCastSpell, cursor: Position) -> Position {
    Position {
        x: spec_clamp_i32(
            mapping.position.x + spec_clamp_mag(
                spec_scale_delta(
                    spec_clamp_mag(cursor.x - mapping.center.x, mapping.cast_radius as int),
                    mapping.horizontal_scale_factor as int,
                    1000,
                ),
                mapping.drag_radius as int,
            ),
        ) as i32,
        y: spec_clamp_i32(
            mapping.position.y + spec_clamp_mag(
                spec_scale_delta(
                    spec_clamp_mag(cursor.y - mapping.center.y, mapping.cast_radius as int),
                    mapping.vertical_scale_factor as int,
                    1000,
                ),
                mapping.drag_radius as int,
            ),
        ) as i32,
    }
}

/// Computes where a mouse-aimed cast points.
pub fn mouse_cast_aim(mapping: &MappingMouseCastSpell, cursor: Position) -> (r: Position)
    requires
        mapping.horizontal_scale_factor <= 100_000,
        mapping.vertical_scale_factor <= 100_000,
    ensures
        r == spec_mouse_cast_aim(*mapping, cursor),
{
    let dx = scale_delta_sens(
        clamp_mag(cursor.x as i64 - mapping.center.x as i64, mapping.cast_radius),
        mapping.horizontal_scale_factor as u64,
    );
    let dy = scale_delta_sens(
        clamp_mag(cursor.y as i64 - mapping.center.y as i64, mapping.cast_radius),
        mapping.vertical_scale_factor as u64,
    );
    Position {
        x: clamp_i32_from_i64(mapping.position.x as i64 + clamp_mag(dx, mapping.drag_radius)),
        y: clamp_i32_from_i64(mapping.position.y as i64 + clamp_mag(dy, mapping.drag_radius)),
    }
}

/// Where the cast's Up fires: the aimed position for a directional cast, the
/// cast position itself otherwise.
pub open spec fn spec_mouse_cast_release_pos(
    mapping: MappingMouseCastSpell,
    cursor: Position,
) -> Position {
    if mapping.cast_no_direction {
        mapping.position
    } else {
        spec_mouse_cast_aim(mapping, cursor)
    }
}

/// Drives a mouse-aimed cast for one tick.
///
/// OnRelease puts the pointer Down on activation and lifts it on
/// deactivation. OnPress casts instantly: Down and Up in one activation.
/// OnSecondPress arms the cast (Down) on the first activation and releases
/// it (Up) on the second. While a cast is armed, the aim moves come from the
/// trigger pass. Whatever the policy, a Down is always followed by exactly
/// one Up before the next Down.
pub fn handle_mouse_cast_spell(
    mapping: &MappingMouseCastSpell,
    original_size: Size,
    cursor: Position,
    edge: ButtonEdge,
    casting: &mut bool,
) -> (out: Vec<TimedMsg>)
    requires
        mapping.horizontal_scale_factor <= 100_000,
        mapping.vertical_scale_factor <= 100_000,
    ensures
        ({
            let down = TimedMsg {
                delay_ms: 0,
                msg: spec_touch_msg(
                    MotionEventAction::Down,
                    mapping.pointer_id,
                    original_size,
                    mapping.position,
                ),
            };
            let up = TimedMsg {
                delay_ms: 0,
                msg: spec_touch_msg(
                    MotionEventAction::Up,
                    mapping.pointer_id,
                    original_size,
                    spec_mouse_cast_release_pos(*mapping, cursor),
                ),
            };
            match mapping.release_mode {
                MouseCastReleaseMode::OnRelease => {
                    &&& (edge is Pressed && !*old(casting) ==> out@ == seq![down] && *final(casting))
                    &&& (edge is Released && *old(casting) ==> out@ == seq![up] && !*final(casting))
                    &&& (edge is Held || edge is Idle ==> out@.len() == 0 && *final(casting) == *old(casting))
                },
                MouseCastReleaseMode::OnPress => {
                    &&& (edge is Pressed ==> out@ == seq![down, up] && !*final(casting))
                    &&& (!(edge is Pressed) ==> out@.len() == 0 && *final(casting) == *old(casting))
                },
                MouseCastReleaseMode::OnSecondPress => {
                    &&& (edge is Pressed && !*old(casting) ==> out@ == seq![down] && *final(casting))
                    &&& (edge is Pressed && *old(casting) ==> out@ == seq![up] && !*final(casting))
                    &&& (!(edge is Pressed) ==> out@.len() == 0 && *final(casting) == *old(casting))
                },
            }
        }),
{
    let mut out: Vec<TimedMsg> = Vec::new();
    let down = TimedMsg {
        delay_ms: 0,
        msg: ControlMsgHelper::touch_msg(
            MotionEventAction::Down,
            mapping.pointer_id,
            original_size,
            mapping.position,
        ),
    };
    let release_pos = if mapping.cast_no_direction {
        mapping.position
    } else {
        mouse_cast_aim(mapping, cursor)
    };
    let up = TimedMsg {
        delay_ms: 0,
        msg: ControlMsgHelper::touch_msg(
            MotionEventAction::Up,
            mapping.pointer_id,
            original_size,
            release_pos,
        ),
    };
    match mapping.release_mode {
        MouseCastReleaseMode::OnRelease => {
            match edge {
                ButtonEdge::Pressed => {
                    if !*casting {
                        out.push(down);
                        *casting = true;
                        assert(out@ =~= seq![out@[0]]);
                    }
                },
                ButtonEdge::Released => {
                    if *casting {
                        out.push(up);
                        *casting = false;
                        assert(out@ =~= seq![out@[0]]);
                    }
                },
                _ => {},
            }
        },
        MouseCastReleaseMode::OnPress => {
            if matches!(edge, ButtonEdge::Pressed) {
                out.push(down);
                out.push(up);
                *casting = false;
                assert(out@ =~= seq![out@[0], out@[1]]);
            }
        },
        MouseCastReleaseMode::OnSecondPress => {
            if matches!(edge, ButtonEdge::Pressed) {
                if !*casting {
                    out.push(down);
                    *casting = true;
                    assert(out@ =~= seq![out@[0]]);
                } else {
                    out.push(up);
                    *casting = false;
                    assert(out@ =~= seq![out@[0]]);
                }
            }
        },
    }
    out
}

/// Emits the aim Move of an armed directional mouse cast for this tick's
/// cursor.
pub fn handle_mouse_cast_spell_trigger(
    mapping: &MappingMouseCastSpell,
    original_size: Size,
    cursor: Position,
    casting: bool,
) -> (out: Vec<TimedMsg>)
    requires
        mapping.horizontal_scale_factor <= 100_000,
        mapping.vertical_scale_factor <= 100_000,
    ensures
        casting && !mapping.cast_no_direction ==> out@ == seq![
            TimedMsg {
                delay_ms: 0,
                msg: spec_touch_msg(
                    MotionEventAction::Move,
                    mapping.pointer_id,
                    original_size,
                    spec_mouse_cast_aim(*mapping, cursor),
                ),
            },
        ],
        !casting || mapping.cast_no_direction ==> out@.len() == 0,
{
    let mut out: Vec<TimedMsg> = Vec::new();
    if casting && !mapping.cast_no_direction {
        out.push(
            TimedMsg {
                delay_ms: 0,
                msg: ControlMsgHelper::touch_msg(
                    MotionEventAction::Move,
                    mapping.pointer_id,
                    original_size,
                    mouse_cast_aim(mapping, cursor),
                ),
            },
        );
        assert(out@ =~= seq![out@[0]]);
    }
    out
}

/// Where a pad-aimed cast points for the companion pad's axes: the cast
/// position plus the axis deflection clipped to the circle of the drag
/// radius.
pub open spec fn spec_pad_cast_aim(
    mapping: MappingPadCastSpell,
    axis_x: int,
    axis_y: int,
) -> Position {
    let c = spec_clip_offset(
        axis_x,
        axis_y,
        mapping.drag_radius as int,
        mapping.drag_radius as int,
    );
    Position {
        x: spec_clamp_i32(mapping.position.x + c.0) as i32,
        y: spec_clamp_i32(mapping.position.y + c.1) as i32,
    }
}

/// Computes where a pad-aimed cast points.
pub fn pad_cast_aim(mapping: &MappingPadCastSpell, axis_x: i32, axis_y: i32) -> (r: Position)
    requires
        -32_000 <= axis_x <= 32_000,
        -32_000 <= axis_y <= 32_000,
        mapping.drag_radius <= 100_000,
    ensures
        r == spec_pad_cast_aim(*mapping, axis_x as int, axis_y as int),
{
    let pad = crate::mapping::config::MappingDirectionPad {
        note: String::new(),
        pointer_id: mapping.pointer_id,
        position: mapping.position,
        initial_duration: 0,
        max_offset_x: mapping.drag_radius,
        max_offset_y: mapping.drag_radius,
        bind: mapping.bind.clone(),
    };
    let (cx, cy) = crate::mapping::joystick::scale_direction_2d_state(axis_x, axis_y, &pad);
    Position {
        x: clamp_i32_from_i64(mapping.position.x as i64 + cx as i64),
        y: clamp_i32_from_i64(mapping.position.y as i64 + cy as i64),
    }
}

/// Drives a pad-aimed cast for one tick, aimed by its companion direction
/// pad's axes; the release policies work as for the mouse-aimed cast, and a
/// pad cast always aims directionally.
pub fn handle_pad_cast_spell(
    mapping: &MappingPadCastSpell,
    original_size: Size,
    axis_x: i32,
    axis_y: i32,
    edge: ButtonEdge,
    casting: &mut bool,
) -> (out: Vec<TimedMsg>)
    requires
        -32_000 <= axis_x <= 32_000,
        -32_000 <= axis_y <= 32_000,
        mapping.drag_radius <= 100_000,
    ensures
        ({
            let down = TimedMsg {
                delay_ms: 0,
                msg: spec_touch_msg(
                    MotionEventAction::Down,
                    mapping.pointer_id,
                    original_size,
                    mapping.position,
                ),
            };
            let up = TimedMsg {
                delay_ms: 0,
                msg: spec_touch_msg(
                    MotionEventAction::Up,
                    mapping.pointer_id,
                    original_size,
                    spec_pad_cast_aim(*mapping, axis_x as int, axis_y as int),
                ),
            };
            match mapping.release_mode {
                PadCastReleaseMode::OnRelease => {
                    &&& (edge is Pressed && !*old(casting) ==> out@ == seq![down] && *final(casting))
                    &&& (edge is Released && *old(casting) ==> out@ == seq![up] && !*final(casting))
                    &&& (edge is Held || edge is Idle ==> out@.len() == 0 && *final(casting) == *old(casting))
                },
                PadCastReleaseMode::OnPress => {
                    &&& (edge is Pressed ==> out@ == seq![down, up] && !*final(casting))
                    &&& (!(edge is Pressed) ==> out@.len() == 0 && *final(casting) == *old(casting))
                },
                PadCastReleaseMode::OnSecondPress => {
                    &&& (edge is Pressed && !*old(casting) ==> out@ == seq![down] && *final(casting))
                    &&& (edge is Pressed && *old(casting) ==> out@ == seq![up] && !*final(casting))
                    &&& (!(edge is Pressed) ==> out@.len() == 0 && *final(casting) == *old(casting))
                },
            }
        }),
{
    let mut out: Vec<TimedMsg> = Vec::new();
    let down = TimedMsg {
        delay_ms: 0,
        msg: ControlMsgHelper::touch_msg(
            MotionEventAction::Down,
            mapping.pointer_id,
            original_size,
            mapping.position,
        ),
    };
    let up = TimedMsg {
        delay_ms: 0,
        msg: ControlMsgHelper::touch_msg(
            MotionEventAction::Up,
            mapping.pointer_id,
            original_size,
            pad_cast_aim(mapping, axis_x, axis_y),
        ),
    };
    match mapping.release_mode {
        PadCastReleaseMode::OnRelease => {
            match edge {
                ButtonEdge::Pressed => {
                    if !*casting {
                        out.push(down);
                        *casting = true;
                        assert(out@ =~= seq![out@[0]]);
                    }
                },
                ButtonEdge::Released => {
                    if *casting {
                        out.push(up);
                        *casting = false;
                        assert(out@ =~= seq![out@[0]]);
                    }
                },
                _ => {},
            }
        },
        PadCastReleaseMode::OnPress => {
            if matches!(edge, ButtonEdge::Pressed) {
                out.push(down);
                out.push(up);
                *casting = false;
                assert(out@ =~= seq![out@[0], out@[1]]);
            }
        },
        PadCastReleaseMode::OnSecondPress => {
            if matches!(edge, ButtonEdge::Pressed) {
                if !*casting {
                    out.push(down);
                    *casting = true;
                    assert(out@ =~= seq![out@[0]]);
                } else {
                    out.push(up);
                    *casting = false;
                    assert(out@ =~= seq![out@[0]]);
                }
            }
        },
    }
    out
}

/// Emits the aim Move of an armed pad cast for this tick's axes.
pub fn handle_pad_cast_spell_trigger(
    mapping: &MappingPadCastSpell,
    original_size: Size,
    axis_x: i32,
    axis_y: i32,
    casting: bool,
) -> (out: Vec<TimedMsg>)
    requires
        -32_000 <= axis_x <= 32_000,
        -32_000 <= axis_y <= 32_000,
        mapping.drag_radius <= 100_000,
    ensures
        casting ==> out@ == seq![
            TimedMsg {
                delay_ms: 0,
                msg: spec_touch_msg(
                    MotionEventAction::Move,
                    mapping.pointer_id,
                    original_size,
                    spec_pad_cast_aim(*mapping, axis_x as int, axis_y as int),
                ),
            },
        ],
        !casting ==> out@.len() == 0,
{
    let mut out: Vec<TimedMsg> = Vec::new();
    if casting {
        out.push(
            TimedMsg {
                delay_ms: 0,
                msg: ControlMsgHelper::touch_msg(
                    MotionEventAction::Move,
                    mapping.pointer_id,
                    original_size,
                    pad_cast_aim(mapping, axis_x, axis_y),
                ),
            },
        );
        assert(out@ =~= seq![out@[0]]);
    }
    out
}

/// Cancels a cast on a pulse: a single Down/Up pair at the cancel position,
/// with the pointer id zero as the raw cursor uses.
pub fn handle_cancel_cast(mapping: &MappingCancelCast, original_size: Size, pulsed: bool) -> (out:
    Vec<TimedMsg>)
    ensures
        pulsed ==> out@ == seq![
            TimedMsg {
                delay_ms: 0,
                msg: spec_touch_msg(
                    MotionEventAction::Down,
                    0,
                    original_size,
                    mapping.position,
                ),
            },
            TimedMsg {
                delay_ms: 0,
                msg: spec_touch_msg(MotionEventAction::Up, 0, original_size, mapping.position),
            },
        ],
        !pulsed ==> out@.len() == 0,
{
    let mut out: Vec<TimedMsg> = Vec::new();
    if pulsed {
        out.push(
            TimedMsg {
                delay_ms: 0,
                msg: ControlMsgHelper::touch_msg(
                    MotionEventAction::Down,
                    0,
                    original_size,
                    mapping.position,
                ),
            },
        );
        out.push(
            TimedMsg {
                delay_ms: 0,
                msg: ControlMsgHelper::touch_msg(
                    MotionEventAction::Up,
                    0,
                    original_size,
                    mapping.position,
                ),
            },
        );
        assert(out@ =~= seq![out@[0], out@[1]]);
    }
    out
}

} // verus!
