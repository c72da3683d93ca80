//! Aim-drag gestures: observation (hold to look around), first-person aiming
//! (toggled by a pulse) and fire (hold to shoot). All three capture the
//! cursor on engagement, hold the pointer Down at a fixed anchor, and move it
//! by the cursor's travel scaled by the configured sensitivities, lifting on
//! release.
use vstd::prelude::*;

use crate::codec::MotionEventAction;
use crate::mapping::config::{MappingFire, MappingFps, MappingObservation};
use crate::mapping::utils::{
    spec_scale_delta, spec_touch_msg, ButtonEdge, ControlMsgHelper, Position, Size, TimedMsg,
};
use crate::scaler::{clamp_i32_from_i64, scale_coord, spec_clamp_i32, spec_scale_coord};

verus! {

/// One engaged aim drag: where the cursor stood at engagement, the anchor
/// the pointer holds, and the sensitivities in thousandths.
#[derive(Clone, Copy, Debug, PartialEq, Eq, Structural)]
pub struct AimState {
    pub start_cursor: Position,
    pub anchor: Position,
    pub pointer_id: u64,
    pub sensitivity_x: u32,
    pub sensitivity_y: u32,
}

/// One aimed coordinate: the anchor plus the cursor's travel scaled by the
/// sensitivity, in thousandths, clamped into 32-bit range.
pub open spec fn spec_aim_coord(anchor: int, start: int, cursor: int, sens: int) -> int {
    spec_clamp_i32(anchor + spec_scale_delta(cursor - start, sens, 1000))
}

/// The anchor of an aim gesture: the entry's position, rescaled from the
/// authoring frame into the mask-window frame.
pub open spec fn spec_aim_anchor(position: Position, original_size: Size, mask_size: Size) -> (
    Position
) {
    Position {
        x: spec_clamp_i32(
            spec_scale_coord(position.x as int, original_size.width as int, mask_size.width as int),
        ) as i32,
        y: spec_clamp_i32(
            spec_scale_coord(
                position.y as int,
                original_size.height as int,
                mask_size.height as int,
            ),
        ) as i32,
    }
}

/// The position an engaged aim drag points at for a given cursor.
pub open spec fn spec_aim_position(st: AimState, cursor: Position) -> Position {
    Position {
        x: spec_aim_coord(
            st.anchor.x as int,
            st.start_cursor.x as int,
            cursor.x as int,
            st.sensitivity_x as int,
        ) as i32,
        y: spec_aim_coord(
            st.anchor.y as int,
            st.start_cursor.y as int,
            cursor.y as int,
            st.sensitivity_y as int,
        ) as i32,
    }
}

/// Computes one aimed coordinate.
fn aim_coord(anchor: i32, start: i32, cursor: i32, sens: u32) -> (r: i32)
    requires
        sens <= 100_000,
    ensures
        r as int == spec_aim_coord(anchor as int, start as int, cursor as int, sens as int),
{
    let delta: i64 = (cursor as i64) - (start as i64);
    let scaled: i64 = crate::mapping::utils::scale_delta_sens(delta, sens as u64);
    clamp_i32_from_i64((anchor as i64) + scaled)
}

/// Engages an aim drag: captures the cursor, anchors the pointer in the
/// mask-window frame, and puts it Down there.
pub fn engage_aim(
    pointer_id: u64,
    position: Position,
    sensitivity_x: u32,
    sensitivity_y: u32,
    original_size: Size,
    mask_size: Size,
    cursor: Position,
) -> (r: (AimState, TimedMsg))
    requires
        original_size.width > 0,
        original_size.height > 0,
    ensures
        r.0 == (AimState {
            start_cursor: cursor,
            anchor: spec_aim_anchor(position, original_size, mask_size),
            pointer_id,
            sensitivity_x,
            sensitivity_y,
        }),
        r.1 == (TimedMsg {
            delay_ms: 0,
            msg: spec_touch_msg(
                MotionEventAction::Down,
                pointer_id,
                mask_size,
                spec_aim_anchor(position, original_size, mask_size),
            ),
        }),
{
    let anchor = Position {
        x: scale_coord(position.x, original_size.width, mask_size.width),
        y: scale_coord(position.y, original_size.height, mask_size.height),
    };
    let st = AimState {
        start_cursor: cursor,
        anchor,
        pointer_id,
        sensitivity_x,
        sensitivity_y,
    };
    let msg = TimedMsg {
        delay_ms: 0,
        msg: ControlMsgHelper::touch_msg(MotionEventAction::Down, pointer_id, mask_size, anchor),
    };
    (st, msg)
}

/// The Move event an engaged aim drag emits for the current cursor.
pub fn aim_move_msg(st: &AimState, mask_size: Size, cursor: Position) -> (r: TimedMsg)
    requires
        st.sensitivity_x <= 100_000,
        st.sensitivity_y <= 100_000,
    ensures
        r == (TimedMsg {
            delay_ms: 0,
            msg: spec_touch_msg(
                MotionEventAction::Move,
                st.pointer_id,
                mask_size,
                spec_aim_position(*st, cursor),
            ),
        }),
{
    let pos = Position {
        x: aim_coord(st.anchor.x, st.start_cursor.x, cursor.x, st.sensitivity_x),
        y: aim_coord(st.anchor.y, st.start_cursor.y, cursor.y, st.sensitivity_y),
    };
    TimedMsg {
        delay_ms: 0,
        msg: ControlMsgHelper::touch_msg(MotionEventAction::Move, st.pointer_id, mask_size, pos),
    }
}

/// The Up event that releases an engaged aim drag at its current position.
pub fn aim_release_msg(st: &AimState, mask_size: Size, cursor: Position) -> (r: TimedMsg)
    requires
        st.sensitivity_x <= 100_000,
        st.sensitivity_y <= 100_000,
    ensures
        r == (TimedMsg {
            delay_ms: 0,
            msg: spec_touch_msg(
                MotionEventAction::Up,
                st.pointer_id,
                mask_size,
                spec_aim_position(*st, cursor),
            ),
        }),
{
    let pos = Position {
        x: aim_coord(st.anchor.x, st.start_cursor.x, cursor.x, st.sensitivity_x),
        y: aim_coord(st.anchor.y, st.start_cursor.y, cursor.y, st.sensitivity_y),
    };
    TimedMsg {
        delay_ms: 0,
        msg: ControlMsgHelper::touch_msg(MotionEventAction::Up, st.pointer_id, mask_size, pos),
    }
}

/// Drives an observation entry for one tick: engage on activation, release
/// at the aimed position on deactivation, nothing in between — the moves
/// come from the trigger pass.
pub fn handle_observation(
    mapping: &MappingObservation,
    original_size: Size,
    mask_size: Size,
    cursor: Position,
    edge: ButtonEdge,
    state: &mut Option<AimState>,
) -> (out: Vec<TimedMsg>)
    requires
        original_size.width > 0,
        original_size.height > 0,
        mapping.sensitivity_x <= 100_000,
        mapping.sensitivity_y <= 100_000,
        (*old(state)) matches Some(st) ==> st.sensitivity_x <= 100_000 && st.sensitivity_y
            <= 100_000,
    ensures
        edge is Pressed ==> ({
            let st = AimState {
                start_cursor: cursor,
                anchor: spec_aim_anchor(mapping.position, original_size, mask_size),
                pointer_id: mapping.pointer_id,
                sensitivity_x: mapping.sensitivity_x,
                sensitivity_y: mapping.sensitivity_y,
            };
            (*final(state)) == Some(st) && out@ == seq![
                TimedMsg {
                    delay_ms: 0,
                    msg: spec_touch_msg(
                        MotionEventAction::Down,
                        mapping.pointer_id,
                        mask_size,
                        st.anchor,
                    ),
                },
            ]
        }),
        (*old(state)) matches Some(st) ==> (edge is Released ==> (*final(state)) is None && out@
            == seq![
            TimedMsg {
                delay_ms: 0,
                msg: spec_touch_msg(
                    MotionEventAction::Up,
                    st.pointer_id,
                    mask_size,
                    spec_aim_position(st, cursor),
                ),
            },
        ]),
        edge is Released && (*old(state)) is None ==> (*final(state)) is None && out@.len() == 0,
        edge is Held || edge is Idle ==> *final(state) == *old(state) && out@.len() == 0,
{
    let mut out: Vec<TimedMsg> = Vec::new();
    match edge {
        ButtonEdge::Pressed => {
            let (st, down) = engage_aim(
                mapping.pointer_id,
                mapping.position,
                mapping.sensitivity_x,
                mapping.sensitivity_y,
                original_size,
                mask_size,
                cursor,
            );
            out.push(down);
            *state = Some(st);
            assert(out@ =~= seq![out@[0]]);
        },
        ButtonEdge::Released => {
            match state.take() {
                Some(st) => {
                    out.push(aim_release_msg(&st, mask_size, cursor));
                    assert(out@ =~= seq![out@[0]]);
                },
                None => {},
            }
        },
        _ => {},
    }
    out
}

/// Emits the Move of every engaged aim drag for this tick's cursor.
pub fn handle_observation_trigger(state: &Option<AimState>, mask_size: Size, cursor: Position) -> (
    out: Vec<TimedMsg>)
    requires
        (*state) matches Some(st) ==> st.sensitivity_x <= 100_000 && st.sensitivity_y <= 100_000,
    ensures
        (*state) matches Some(st) ==> out@ == seq![
            TimedMsg {
                delay_ms: 0,
                msg: spec_touch_msg(
                    MotionEventAction::Move,
                    st.pointer_id,
                    mask_size,
                    spec_aim_position(st, cursor),
                ),
            },
        ],
        (*state) is None ==> out@.len() == 0,
{
    let mut out: Vec<TimedMsg> = Vec::new();
    match state {
        Some(st) => {
            out.push(aim_move_msg(st, mask_size, cursor));
            assert(out@ =~= seq![out@[0]]);
        },
        None => {},
    }
    out
}

/// Drives a first-person aim entry for one tick: the pulse toggles the drag
/// on and off, the moves come from the trigger pass.
pub fn handle_fps(
    mapping: &MappingFps,
    original_size: Size,
    mask_size: Size,
    cursor: Position,
    pulsed: bool,
    state: &mut Option<AimState>,
) -> (out: Vec<TimedMsg>)
    requires
        original_size.width > 0,
        original_size.height > 0,
        mapping.sensitivity_x <= 100_000,
        mapping.sensitivity_y <= 100_000,
        (*old(state)) matches Some(st) ==> st.sensitivity_x <= 100_000 && st.sensitivity_y
            <= 100_000,
    ensures
        !pulsed ==> *final(state) == *old(state) && out@.len() == 0,
        pulsed && (*old(state)) is None ==> ({
            let st = AimState {
                start_cursor: cursor,
                anchor: spec_aim_anchor(mapping.position, original_size, mask_size),
                pointer_id: mapping.pointer_id,
                sensitivity_x: mapping.sensitivity_x,
                sensitivity_y: mapping.sensitivity_y,
            };
            (*final(state)) == Some(st) && out@ == seq![
                TimedMsg {
                    delay_ms: 0,
                    msg: spec_touch_msg(
                        MotionEventAction::Down,
                        mapping.pointer_id,
                        mask_size,
                        st.anchor,
                    ),
                },
            ]
        }),
        (*old(state)) matches Some(st) ==> (pulsed ==> (*final(state)) is None && out@ == seq![
            TimedMsg {
                delay_ms: 0,
                msg: spec_touch_msg(
                    MotionEventAction::Up,
                    st.pointer_id,
                    mask_size,
                    spec_aim_position(st, cursor),
                ),
            },
        ]),
{
    let mut out: Vec<TimedMsg> = Vec::new();
    if !pulsed {
        return out;
    }
    match state.take() {
        None => {
            let (st, down) = engage_aim(
                mapping.pointer_id,
                mapping.position,
                mapping.sensitivity_x,
                mapping.sensitivity_y,
                original_size,
                mask_size,
                cursor,
            );
            out.push(down);
            *state = Some(st);
            assert(out@ =~= seq![out@[0]]);
        },
        Some(st) => {
            out.push(aim_release_msg(&st, mask_size, cursor));
            assert(out@ =~= seq![out@[0]]);
        },
    }
    out
}

/// Drives a fire entry for one tick: engage while held, release at the aimed
/// position, exactly as observation does, anchored at the fire button.
pub fn handle_fire(
    mapping: &MappingFire,
    original_size: Size,
    mask_size: Size,
    cursor: Position,
    edge: ButtonEdge,
    state: &mut Option<AimState>,
) -> (out: Vec<TimedMsg>)
    requires
        original_size.width > 0,
        original_size.height > 0,
        mapping.sensitivity_x <= 100_000,
        mapping.sensitivity_y <= 100_000,
        (*old(state)) matches Some(st) ==> st.sensitivity_x <= 100_000 && st.sensitivity_y
            <= 100_000,
    ensures
        edge is Pressed ==> ({
            let st = AimState {
                start_cursor: cursor,
                anchor: spec_aim_anchor(mapping.position, original_size, mask_size),
                pointer_id: mapping.pointer_id,
                sensitivity_x: mapping.sensitivity_x,
                sensitivity_y: mapping.sensitivity_y,
            };
            (*final(state)) == Some(st) && out@ == seq![
                TimedMsg {
                    delay_ms: 0,
                    msg: spec_touch_msg(
                        MotionEventAction::Down,
                        mapping.pointer_id,
                        mask_size,
                        st.anchor,
                    ),
                },
            ]
        }),
        (*old(state)) matches Some(st) ==> (edge is Released ==> (*final(state)) is None && out@
            == seq![
            TimedMsg {
                delay_ms: 0,
                msg: spec_touch_msg(
                    MotionEventAction::Up,
                    st.pointer_id,
                    mask_size,
                    spec_aim_position(st, cursor),
                ),
            },
        ]),
        edge is Released && (*old(state)) is None ==> (*final(state)) is None && out@.len() == 0,
        edge is Held || edge is Idle ==> *final(state) == *old(state) && out@.len() == 0,
{
    let mut out: Vec<TimedMsg> = Vec::new();
    match edge {
        ButtonEdge::Pressed => {
            let (st, down) = engage_aim(
                mapping.pointer_id,
                mapping.position,
                mapping.sensitivity_x,
                mapping.sensitivity_y,
                original_size,
                mask_size,
                cursor,
            );
            out.push(down);
            *state = Some(st);
            assert(out@ =~= seq![out@[0]]);
        },
        ButtonEdge::Released => {
            match state.take() {
                Some(st) => {
                    out.push(aim_release_msg(&st, mask_size, cursor));
                    assert(out@ =~= seq![out@[0]]);
                },
                None => {},
            }
        },
        _ => {},
    }
    out
}

/// Emits the Move of an engaged fire drag for this tick's cursor.
pub fn handle_fire_trigger(state: &Option<AimState>, mask_size: Size, cursor: Position) -> (out:
    Vec<TimedMsg>)
    requires
        (*state) matches Some(st) ==> st.sensitivity_x <= 100_000 && st.sensitivity_y <= 100_000,
    ensures
        (*state) matches Some(st) ==> out@ == seq![
            TimedMsg {
                delay_ms: 0,
                msg: spec_touch_msg(
                    MotionEventAction::Move,
                    st.pointer_id,
                    mask_size,
                    spec_aim_position(st, cursor),
                ),
            },
        ],
        (*state) is None ==> out@.len() == 0,
{
    handle_observation_trigger(state, mask_size, cursor)
}

} // verus!
