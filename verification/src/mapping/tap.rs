//! Tap gestures: the one-shot tap, the repeated tap driven by a periodic
//! timer, and the fixed multi-step tap sequence. Every Down a handler emits
//! is matched by exactly one Up, whatever the input does afterwards.
use vstd::prelude::*;

use crate::codec::MotionEventAction;
use crate::mapping::config::{MappingMultipleTap, MappingRepeatTap, MappingSingleTap};
use crate::mapping::utils::{
    sat_add, spec_sat_add, spec_touch_msg, ButtonEdge, ControlMsgHelper, Position, Size, TimedMsg,
};

verus! {

/// Drives a one-shot tap for one tick.
///
/// On activation the pointer goes Down at the entry's position. When the
/// entry is not synchronized, the matching Up is already scheduled
/// `duration` milliseconds later and a later deactivation emits nothing.
/// When it is synchronized, the physical button governs the hold time: the
/// Up fires on deactivation instead.
pub fn handle_single_tap(mapping: &MappingSingleTap, original_size: Size, edge: ButtonEdge) -> (out:
    Vec<TimedMsg>)
    ensures
        mapping.sync && edge is Pressed ==> out@ == seq![
            TimedMsg {
                delay_ms: 0,
                msg: spec_touch_msg(
                    MotionEventAction::Down,
                    mapping.pointer_id,
                    original_size,
                    mapping.position,
                ),
            },
        ],
        !mapping.sync && edge is Pressed ==> out@ == seq![
            TimedMsg {
                delay_ms: 0,
                msg: spec_touch_msg(
                    MotionEventAction::Down,
                    mapping.pointer_id,
                    original_size,
                    mapping.position,
                ),
            },
            TimedMsg {
                delay_ms: mapping.duration,
                msg: spec_touch_msg(
                    MotionEventAction::Up,
                    mapping.pointer_id,
                    original_size,
                    mapping.position,
                ),
            },
        ],
        mapping.sync && edge is Released ==> out@ == seq![
            TimedMsg {
                delay_ms: 0,
                msg: spec_touch_msg(
                    MotionEventAction::Up,
                    mapping.pointer_id,
                    original_size,
                    mapping.position,
                ),
            },
        ],
        !mapping.sync && edge is Released ==> out@.len() == 0,
        edge is Held || edge is Idle ==> out@.len() == 0,
{
    let mut out: Vec<TimedMsg> = Vec::new();
    match edge {
        ButtonEdge::Pressed => {
            out.push(
                TimedMsg {
                    delay_ms: 0,
                    msg: ControlMsgHelper::touch_msg(
                        MotionEventAction::Down,
                        mapping.pointer_id,
                        original_size,
                        mapping.position,
                    ),
                },
            );
            if !mapping.sync {
                out.push(
                    TimedMsg {
                        delay_ms: mapping.duration,
                        msg: ControlMsgHelper::touch_msg(
                            MotionEventAction::Up,
                            mapping.pointer_id,
                            original_size,
                            mapping.position,
                        ),
                    },
                );
                assert(out@ =~= seq![out@[0], out@[1]]);
            } else {
                assert(out@ =~= seq![out@[0]]);
            }
        },
        ButtonEdge::Released => {
            if mapping.sync {
                out.push(
                    TimedMsg {
                        delay_ms: 0,
                        msg: ControlMsgHelper::touch_msg(
                            MotionEventAction::Up,
                            mapping.pointer_id,
                            original_size,
                            mapping.position,
                        ),
                    },
                );
                assert(out@ =~= seq![out@[0]]);
            }
        },
        _ => {},
    }
    out
}

/// The live timer of one active repeated tap.
pub struct RepeatTapState {
    pub interval: u64,
    pub elapsed: u64,
    pub pointer_id: u64,
    pub position: Position,
    pub size: Size,
    pub duration: u64,
}

/// Starts and stops the repeated tap's timer on the button's edges. The
/// fresh timer is already ripe, so the first tap fires on the next trigger
/// tick, as a repeating timer ticked once by its whole period would.
pub fn handle_repeat_tap(
    mapping: &MappingRepeatTap,
    original_size: Size,
    edge: ButtonEdge,
    state: &mut Option<RepeatTapState>,
)
    ensures
        edge is Pressed ==> ((*final(state)) matches Some(st) && st.interval == mapping.interval
            && st.elapsed == mapping.interval && st.pointer_id == mapping.pointer_id && st.position
            == mapping.position && st.size == original_size && st.duration == mapping.duration),
        edge is Released ==> (*final(state)) is None,
        edge is Held || edge is Idle ==> *final(state) == *old(state),
{
    match edge {
        ButtonEdge::Pressed => {
            *state = Some(
                RepeatTapState {
                    interval: mapping.interval as u64,
                    elapsed: mapping.interval as u64,
                    pointer_id: mapping.pointer_id,
                    position: mapping.position,
                    size: original_size,
                    duration: mapping.duration,
                },
            );
        },
        ButtonEdge::Released => {
            *state = None;
        },
        _ => {},
    }
}

/// Advances one repeated tap's timer by the tick's elapsed time. When the
/// period has run out, one tap fires — a Down now and its Up `duration`
/// milliseconds later — and the timer keeps the overshoot.
pub fn handle_repeat_tap_trigger(state: &mut Option<RepeatTapState>, delta_ms: u64) -> (out: Vec<
    TimedMsg,
>)
    ensures
        (*old(state)) is None ==> out@.len() == 0 && (*final(state)) is None,
        (*old(state)) matches Some(st) ==> ({
            let total = spec_sat_add(st.elapsed as int, delta_ms as int);
            if total >= st.interval {
                &&& out@ == seq![
                    TimedMsg {
                        delay_ms: 0,
                        msg: spec_touch_msg(
                            MotionEventAction::Down,
                            st.pointer_id,
                            st.size,
                            st.position,
                        ),
                    },
                    TimedMsg {
                        delay_ms: st.duration,
                        msg: spec_touch_msg(
                            MotionEventAction::Up,
                            st.pointer_id,
                            st.size,
                            st.position,
                        ),
                    },
                ]
                &&& ((*final(state)) matches Some(st2) && st2.interval == st.interval && st2.elapsed
                    == (if st.interval > 0 {
                    total % (st.interval as int)
                } else {
                    0int
                }) && st2.pointer_id == st.pointer_id && st2.position == st.position && st2.size
                    == st.size && st2.duration == st.duration)
            } else {
                &&& out@.len() == 0
                &&& ((*final(state)) matches Some(st2) && st2.interval == st.interval && st2.elapsed
                    == total && st2.pointer_id == st.pointer_id && st2.position == st.position
                    && st2.size == st.size && st2.duration == st.duration)
            }
        }),
{
    let mut out: Vec<TimedMsg> = Vec::new();
    match state {
        Some(st) => {
            let total = sat_add(st.elapsed, delta_ms);
            if total >= st.interval {
                out.push(
                    TimedMsg {
                        delay_ms: 0,
                        msg: ControlMsgHelper::touch_msg(
                            MotionEventAction::Down,
                            st.pointer_id,
                            st.size,
                            st.position,
                        ),
                    },
                );
                out.push(
                    TimedMsg {
                        delay_ms: st.duration,
                        msg: ControlMsgHelper::touch_msg(
                            MotionEventAction::Up,
                            st.pointer_id,
                            st.size,
                            st.position,
                        ),
                    },
                );
                assert(out@ =~= seq![out@[0], out@[1]]);
                st.elapsed = if st.interval > 0 {
                    total % st.interval
                } else {
                    0
                };
            } else {
                st.elapsed = total;
            }
        },
        None => {},
    }
    out
}

/// The Down and Up delays of the `i`-th step of a multi-step tap: the waits
/// and hold durations accumulate from the pulse, saturating at the largest
/// representable delay.
pub open spec fn spec_mtap_delays(
    items: Seq<crate::mapping::config::MappingMultipleTapItem>,
    i: int,
) -> (int, int)
    recommends
        0 <= i < items.len(),
    decreases i,
{
    let prev_up: int = if i <= 0 {
        0
    } else {
        spec_mtap_delays(items, i - 1).1
    };
    let down = spec_sat_add(prev_up, items[i].wait as int);
    let up = spec_sat_add(down, items[i].duration as int);
    (down, up)
}

/// Law: a plan laid out in Down/Up pairs — every even position a Down, every
/// odd position the Up that matches it — holds exactly as many Ups as Downs:
/// no pointer it puts down ever stays down. The multi-step tap plan below
/// has exactly this shape, with one pair per step.
pub proof fn lemma_tap_pairs_balanced(msgs: Seq<TimedMsg>, m: int)
    requires
        0 <= m,
        msgs.len() == 2 * m,
        forall|i: int|
            0 <= i < m ==> crate::mapping::utils::spec_is_touch_action(
                #[trigger] msgs[2 * i],
                MotionEventAction::Down,
            ) && crate::mapping::utils::spec_is_touch_action(
                msgs[2 * i + 1],
                MotionEventAction::Up,
            ),
    ensures
        crate::mapping::utils::spec_count_action(msgs, MotionEventAction::Down) == m,
        crate::mapping::utils::spec_count_action(msgs, MotionEventAction::Up) == m,
    decreases m,
{
    let down_pred = |mm: TimedMsg|
        crate::mapping::utils::spec_is_touch_action(mm, MotionEventAction::Down);
    let up_pred = |mm: TimedMsg|
        crate::mapping::utils::spec_is_touch_action(mm, MotionEventAction::Up);
    if m == 0 {
        assert(msgs =~= Seq::<TimedMsg>::empty());
        assert(Seq::<TimedMsg>::empty().filter(down_pred) =~= Seq::<TimedMsg>::empty());
        assert(Seq::<TimedMsg>::empty().filter(up_pred) =~= Seq::<TimedMsg>::empty());
    } else {
        let prefix = msgs.take(2 * m - 2);
        lemma_tap_pairs_balanced(prefix, m - 1);
        let down = msgs[2 * m - 2];
        let up = msgs[2 * m - 1];
        assert(crate::mapping::utils::spec_is_touch_action(down, MotionEventAction::Down)) by {
            assert(msgs[2 * (m - 1)] == down);
        }
        assert(crate::mapping::utils::spec_is_touch_action(up, MotionEventAction::Up)) by {
            assert(msgs[2 * (m - 1) + 1] == up);
        }
        assert(msgs =~= prefix.push(down).push(up));
        Seq::<TimedMsg>::lemma_filter_push(prefix, down, down_pred);
        Seq::<TimedMsg>::lemma_filter_push(prefix, down, up_pred);
        Seq::<TimedMsg>::lemma_filter_push(prefix.push(down), up, down_pred);
        Seq::<TimedMsg>::lemma_filter_push(prefix.push(down), up, up_pred);
        // an Up is never a Down, and the other way around
        assert(!down_pred(up) && !up_pred(down) && down_pred(down) && up_pred(up));
    }
}

/// Runs the fixed multi-step tap sequence on a pulse: for each step, after
/// its wait, a Down at its position held for its duration, then the matching
/// Up — two messages per step, Downs and Ups alternating, independent of any
/// further input.
pub fn handle_multiple_tap(mapping: &MappingMultipleTap, original_size: Size, pulsed: bool) -> (out:
    Vec<TimedMsg>)
    ensures
        !pulsed ==> out@.len() == 0,
        pulsed ==> out@.len() == 2 * mapping.items@.len(),
        pulsed ==> forall|i: int|
            0 <= i < mapping.items@.len() ==> (#[trigger] out@[2 * i]) == (TimedMsg {
                delay_ms: spec_mtap_delays(mapping.items@, i).0 as u64,
                msg: spec_touch_msg(
                    MotionEventAction::Down,
                    mapping.pointer_id,
                    original_size,
                    mapping.items@[i].position,
                ),
            }) && out@[2 * i + 1] == (TimedMsg {
                delay_ms: spec_mtap_delays(mapping.items@, i).1 as u64,
                msg: spec_touch_msg(
                    MotionEventAction::Up,
                    mapping.pointer_id,
                    original_size,
                    mapping.items@[i].position,
                ),
            }),
{
    let mut out: Vec<TimedMsg> = Vec::new();
    if !pulsed {
        return out;
    }
    let n: usize = mapping.items.len();
    let mut i: usize = 0;
    let mut prev_up: u64 = 0;
    while i < n
        invariant
            i <= n == mapping.items@.len(),
            out@.len() == 2 * i,
            prev_up as int == (if i == 0 {
                0int
            } else {
                spec_mtap_delays(mapping.items@, i as int - 1).1
            }),
            forall|j: int|
                0 <= j < i ==> (#[trigger] out@[2 * j]) == (TimedMsg {
                    delay_ms: spec_mtap_delays(mapping.items@, j).0 as u64,
                    msg: spec_touch_msg(
                        MotionEventAction::Down,
                        mapping.pointer_id,
                        original_size,
                        mapping.items@[j].position,
                    ),
                }) && out@[2 * j + 1] == (TimedMsg {
                    delay_ms: spec_mtap_delays(mapping.items@, j).1 as u64,
                    msg: spec_touch_msg(
                        MotionEventAction::Up,
                        mapping.pointer_id,
                        original_size,
                        mapping.items@[j].position,
                    ),
                }),
        decreases n - i,
    {
        let item = &mapping.items[i];
        let down = sat_add(prev_up, item.wait);
        let up = sat_add(down, item.duration);
        out.push(
            TimedMsg {
                delay_ms: down,
                msg: ControlMsgHelper::touch_msg(
                    MotionEventAction::Down,
                    mapping.pointer_id,
                    original_size,
                    item.position,
                ),
            },
        );
        out.push(
            TimedMsg {
                delay_ms: up,
                msg: ControlMsgHelper::touch_msg(
                    MotionEventAction::Up,
                    mapping.pointer_id,
                    original_size,
                    item.position,
                ),
            },
        );
        prev_up = up;
        i = i + 1;
    }
    out
}

} // verus!
