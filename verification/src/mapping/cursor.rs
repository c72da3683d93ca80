//! The raw cursor: outside any gesture, the physical left button is passed
//! straight through as pointer zero at the cursor's position in the
//! mask-window frame — Down on press, Move while held, Up on release.
use vstd::prelude::*;

use crate::codec::MotionEventAction;
use crate::mapping::utils::{
    spec_touch_msg, ButtonEdge, ControlMsgHelper, Position, Size, TimedMsg,
};

verus! {

/// The cursor's position in the mask-window frame, as the tick last saw it.
#[derive(Clone, Copy, Debug, PartialEq, Eq, Structural)]
pub struct CursorPosition(pub Position);

/// Passes the physical left button through at the cursor: Down where it was
/// pressed, a Move at the cursor every tick it stays held, Up where it was
/// released. The flag remembers whether this pass put the pointer down, so a
/// release without a preceding press emits nothing.
pub fn handle_left_click(
    edge: ButtonEdge,
    cursor: Position,
    mask_size: Size,
    click_down: &mut bool,
) -> (out: Vec<TimedMsg>)
    ensures
        edge is Pressed ==> *final(click_down) && out@ == seq![
            TimedMsg {
                delay_ms: 0,
                msg: spec_touch_msg(MotionEventAction::Down, 0, mask_size, cursor),
            },
        ],
        edge is Held && *old(click_down) ==> *final(click_down) && out@ == seq![
            TimedMsg {
                delay_ms: 0,
                msg: spec_touch_msg(MotionEventAction::Move, 0, mask_size, cursor),
            },
        ],
        edge is Released && *old(click_down) ==> !*final(click_down) && out@ == seq![
            TimedMsg {
                delay_ms: 0,
                msg: spec_touch_msg(MotionEventAction::Up, 0, mask_size, cursor),
            },
        ],
        !(edge is Pressed) && !*old(click_down) ==> *final(click_down) == *old(click_down)
            && out@.len() == 0,
        edge is Idle ==> *final(click_down) == *old(click_down) && out@.len() == 0,
{
    let mut out: Vec<TimedMsg> = Vec::new();
    match edge {
        ButtonEdge::Pressed => {
            *click_down = true;
            out.push(
                TimedMsg {
                    delay_ms: 0,
                    msg: ControlMsgHelper::touch_msg(
                        MotionEventAction::Down,
                        0,
                        mask_size,
                        cursor,
                    ),
                },
            );
            assert(out@ =~= seq![out@[0]]);
        },
        ButtonEdge::Held => {
            if *click_down {
                out.push(
                    TimedMsg {
                        delay_ms: 0,
                        msg: ControlMsgHelper::touch_msg(
                            MotionEventAction::Move,
                            0,
                            mask_size,
                            cursor,
                        ),
                    },
                );
                assert(out@ =~= seq![out@[0]]);
            }
        },
        ButtonEdge::Released => {
            if *click_down {
                *click_down = false;
                out.push(
                    TimedMsg {
                        delay_ms: 0,
                        msg: ControlMsgHelper::touch_msg(
                            MotionEventAction::Up,
                            0,
                            mask_size,
                            cursor,
                        ),
                    },
                );
                assert(out@ =~= seq![out@[0]]);
            }
        },
        ButtonEdge::Idle => {},
    }
    out
}

} // verus!
