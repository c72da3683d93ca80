//! The scripted binding and the raw key passthrough. The engine's whole
//! responsibility for a script is to fire the right hook at the right
//! transition: the activation script on press, the periodic script while
//! held, the deactivation script on release — running the script itself is
//! the caller's business.
use vstd::prelude::*;

use crate::codec::{KeyEventAction, ScrcpyControlMsg};
use crate::mapping::config::{MappingRawInput, MappingScript};
use crate::mapping::utils::{sat_add, spec_sat_add, ButtonEdge, TimedMsg};

verus! {

/// Which of a script entry's hooks fires this tick.
#[derive(Clone, Copy, Debug, PartialEq, Eq, Structural)]
pub enum ScriptHook {
    Activated,
    Activating,
    Deactivated,
}

/// The running state of a held script binding: how long since the periodic
/// hook last fired.
#[derive(Clone, Copy, Debug, PartialEq, Eq, Structural)]
pub struct ScriptState {
    pub elapsed: u64,
}

/// Decides which script hook, if any, fires this tick.
///
/// Activation starts the periodic timer and fires the activation hook; while
/// held, the periodic hook fires once each time the configured interval has
/// elapsed; deactivation drops the state and fires the deactivation hook.
pub fn handle_script(
    mapping: &MappingScript,
    edge: ButtonEdge,
    delta_ms: u64,
    state: &mut Option<ScriptState>,
) -> (r: Option<ScriptHook>)
    ensures
        edge is Pressed ==> r == Some(ScriptHook::Activated) && (*final(state)) == Some(
            ScriptState { elapsed: 0u64 },
        ),
        edge is Released ==> r == (if (*old(state)) is Some {
            Some(ScriptHook::Deactivated)
        } else {
            None::<ScriptHook>
        }) && (*final(state)) is None,
        (*old(state)) matches Some(st) ==> (edge is Held ==> ({
            let total = spec_sat_add(st.elapsed as int, delta_ms as int);
            if total >= mapping.interval {
                r == Some(ScriptHook::Activating) && (*final(state)) == Some(
                    ScriptState { elapsed: 0u64 },
                )
            } else {
                r is None && (*final(state)) == Some(ScriptState { elapsed: total as u64 })
            }
        })),
        edge is Held && (*old(state)) is None ==> r is None && (*final(state)) is None,
        edge is Idle ==> r is None && *final(state) == *old(state),
{
    match edge {
        ButtonEdge::Pressed => {
            *state = Some(ScriptState { elapsed: 0 });
            Some(ScriptHook::Activated)
        },
        ButtonEdge::Released => {
            let had = state.take();
            if had.is_some() {
                Some(ScriptHook::Deactivated)
            } else {
                None
            }
        },
        ButtonEdge::Held => {
            match state {
                Some(st) => {
                    let total = sat_add(st.elapsed, delta_ms);
                    if total >= mapping.interval {
                        st.elapsed = 0;
                        Some(ScriptHook::Activating)
                    } else {
                        st.elapsed = total;
                        None
                    }
                },
                None => None,
            }
        },
        ButtonEdge::Idle => None,
    }
}

/// Passes the bound physical key straight through on a pulse: one key-down
/// and one key-up injection of the caller-resolved key code.
pub fn handle_raw_input(mapping: &MappingRawInput, keycode: u32, pulsed: bool) -> (out: Vec<
    TimedMsg,
>)
    ensures
        pulsed ==> out@ == seq![
            TimedMsg {
                delay_ms: 0,
                msg: ScrcpyControlMsg::InjectKeycode {
                    action: KeyEventAction::Down,
                    keycode,
                    repeat: 0u32,
                    metastate: 0u32,
                },
            },
            TimedMsg {
                delay_ms: 0,
                msg: ScrcpyControlMsg::InjectKeycode {
                    action: KeyEventAction::Up,
                    keycode,
                    repeat: 0u32,
                    metastate: 0u32,
                },
            },
        ],
        !pulsed ==> out@.len() == 0,
{
    let mut out: Vec<TimedMsg> = Vec::new();
    if pulsed {
        out.push(
            TimedMsg {
                delay_ms: 0,
                msg: ScrcpyControlMsg::InjectKeycode {
                    action: KeyEventAction::Down,
                    keycode,
                    repeat: 0,
                    metastate: 0,
                },
            },
        );
        out.push(
            TimedMsg {
                delay_ms: 0,
                msg: ScrcpyControlMsg::InjectKeycode {
                    action: KeyEventAction::Up,
                    keycode,
                    repeat: 0,
                    metastate: 0,
                },
            },
        );
        assert(out@ =~= seq![out@[0], out@[1]]);
    }
    out
}

} // verus!
