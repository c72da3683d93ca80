//! Shared pieces of the gesture engine: screen geometry, the touch-message
//! builder, timed emissions, and the eased timing curve used for
//! interpolated motion.
use vstd::prelude::*;

use crate::codec::{MotionEventAction, ScrcpyControlMsg, MOTION_EVENT_BUTTON_PRIMARY};
use crate::scaler::spec_dim16;

verus! {

/// Pressure 1.0 in IEEE 754 half-precision bits, as transmitted on the wire.
pub const PRESSURE_ONE_BITS: u16 = 0x3C00;

/// The smallest interval, in milliseconds, between two interpolated move
/// events; finer steps are not worth sending.
pub const MIN_MOVE_STEP_INTERVAL: u64 = 50;

/// A width and height in pixels.
#[derive(Clone, Copy, Debug, PartialEq, Eq, Structural)]
pub struct Size {
    pub width: u32,
    pub height: u32,
}

/// A point in some reference frame, in pixels.
#[derive(Clone, Copy, Debug, PartialEq, Eq, Structural)]
pub struct Position {
    pub x: i32,
    pub y: i32,
}

/// A control message to be sent after a delay, measured from the moment the
/// gesture handler emitted it. Handlers never sleep themselves; the delayed
/// messages are handed to background timers that send them.
#[derive(Clone, Debug)]
pub struct TimedMsg {
    pub delay_ms: u64,
    pub msg: ScrcpyControlMsg,
}

/// Builds the touch messages the gesture engine emits.
pub struct ControlMsgHelper;

/// The touch message the engine sends: full pressure, primary button, with
/// the given frame as its reference size.
pub open spec fn spec_touch_msg(
    action: MotionEventAction,
    pointer_id: u64,
    size: Size,
    pos: Position,
) -> ScrcpyControlMsg {
    ScrcpyControlMsg::InjectTouchEvent {
        action,
        pointer_id,
        x: pos.x,
        y: pos.y,
        w: spec_dim16(size.width),
        h: spec_dim16(size.height),
        pressure: PRESSURE_ONE_BITS,
        action_button: MOTION_EVENT_BUTTON_PRIMARY,
        buttons: MOTION_EVENT_BUTTON_PRIMARY,
    }
}

impl ControlMsgHelper {
    /// Builds the inject-touch message for one touch event.
    pub fn touch_msg(
        action: MotionEventAction,
        pointer_id: u64,
        size: Size,
        pos: Position,
    ) -> (r: ScrcpyControlMsg)
        ensures
            r == spec_touch_msg(action, pointer_id, size, pos),
    {
        ScrcpyControlMsg::InjectTouchEvent {
            action,
            pointer_id,
            x: pos.x,
            y: pos.y,
            w: (size.width % 0x1_0000) as u16,
            h: (size.height % 0x1_0000) as u16,
            pressure: PRESSURE_ONE_BITS,
            action_button: MOTION_EVENT_BUTTON_PRIMARY,
            buttons: MOTION_EVENT_BUTTON_PRIMARY,
        }
    }
}

/// Whether a timed message is a touch event with the given action.
pub open spec fn spec_is_touch_action(m: TimedMsg, action: MotionEventAction) -> bool {
    match m.msg {
        ScrcpyControlMsg::InjectTouchEvent { action: a, .. } => a == action,
        _ => false,
    }
}

/// How many touch events with the given action a plan holds.
pub open spec fn spec_count_action(msgs: Seq<TimedMsg>, action: MotionEventAction) -> int {
    msgs.filter(|m: TimedMsg| spec_is_touch_action(m, action)).len() as int
}

/// A sum of delays, capped at the largest representable delay.
pub open spec fn spec_sat_add(a: int, b: int) -> int {
    if a + b > 0xffff_ffff_ffff_ffff {
        0xffff_ffff_ffff_ffff
    } else {
        a + b
    }
}

/// Adds two delays, saturating instead of overflowing.
pub fn sat_add(a: u64, b: u64) -> (r: u64)
    ensures
        r == spec_sat_add(a as int, b as int),
{
    if a > 0xffff_ffff_ffff_ffffu64 - b {
        0xffff_ffff_ffff_ffffu64
    } else {
        a + b
    }
}

/// The edge a continuously bound action shows this tick: it was just
/// pressed, stays held, was just released, or rests.
#[derive(Clone, Copy, Debug, PartialEq, Eq, Structural)]
pub enum ButtonEdge {
    Pressed,
    Held,
    Released,
    Idle,
}

/// The eased progress curve, in fixed point: the sigmoid-like polynomial
/// `3t^2 - 2t^3` at `t = s / d`, given as a numerator over the denominator
/// `d^3`. It starts at zero, ends at exactly `d^3`, and never decreases.
pub open spec fn spec_ease_num(s: int, d: int) -> int {
    3 * s * s * d - 2 * s * s * s
}

/// Law: the eased curve starts at zero progress and reaches full progress at
/// the end of the interval.
pub proof fn lemma_ease_endpoints(d: int)
    requires
        d > 0,
    ensures
        spec_ease_num(0, d) == 0,
        spec_ease_num(d, d) == d * d * d,
{
    assert(3 * 0 * 0 * d - 2 * 0 * 0 * 0 == 0) by (nonlinear_arith);
    assert(3 * d * d * d - 2 * d * d * d == d * d * d) by (nonlinear_arith);
}

/// Law: the eased curve never decreases over the interval.
pub proof fn lemma_ease_monotone(s: int, d: int)
    requires
        0 <= s < d,
    ensures
        spec_ease_num(s, d) <= spec_ease_num(s + 1, d),
{
    assert(3 * s * s * d - 2 * s * s * s <= 3 * (s + 1) * (s + 1) * d - 2 * (s + 1) * (s + 1) * (
    s + 1)) by (nonlinear_arith)
        requires
            0 <= s < d,
    ;
}

/// Law: the eased curve stays within the interval's progress range.
pub proof fn lemma_ease_bounds(s: int, d: int)
    requires
        0 <= s <= d,
        d > 0,
    ensures
        0 <= spec_ease_num(s, d) <= d * d * d,
{
    assert(0 <= 3 * s * s * d - 2 * s * s * s <= d * d * d) by (nonlinear_arith)
        requires
            0 <= s <= d,
            d > 0,
    ;
}

/// A coordinate delta scaled by the eased progress `num / den`, rounding
/// toward zero.
pub open spec fn spec_scale_delta(delta: int, num: int, den: int) -> int
    recommends
        den > 0,
        num >= 0,
{
    if delta >= 0 {
        delta * num / den
    } else {
        -((-delta) * num / den)
    }
}

/// Exec evaluation of the eased curve numerator.
pub fn ease_num(s: u64, d: u64) -> (r: u64)
    requires
        0 <= s <= d,
        1 <= d <= 100_000,
    ensures
        r == spec_ease_num(s as int, d as int),
        r <= d * d * d,
{
    proof {
        lemma_ease_bounds(s as int, d as int);
        let si = s as int;
        let di = d as int;
        assert(3 * si * si <= 3 * 100_000 * 100_000 && 3 * si * si * di <= 3 * 100_000 * 100_000
            * 100_000 && 2 * si * si <= 2 * 100_000 * 100_000 && 2 * si * si * si <= 2 * 100_000
            * 100_000 * 100_000 && 2 * si * si * si <= 3 * si * si * di && di * di * di <= 100_000
            * 100_000 * 100_000) by (nonlinear_arith)
            requires
                0 <= si <= di <= 100_000,
        ;
    }
    3 * s * s * d - 2 * s * s * s
}

/// A coordinate between two waypoints at eased progress `s` of `d`: the
/// start plus the eased share of the span.
pub open spec fn spec_eased_coord(from: int, to: int, s: int, d: int) -> int {
    from + spec_scale_delta(to - from, spec_ease_num(s, d), d * d * d)
}

/// Law: an eased span, scaled by any progress share, stays between zero and
/// the whole span.
pub proof fn lemma_scale_delta_bounds(delta: int, num: int, den: int)
    requires
        den > 0,
        0 <= num <= den,
    ensures
        delta >= 0 ==> 0 <= spec_scale_delta(delta, num, den) <= delta,
        delta < 0 ==> delta <= spec_scale_delta(delta, num, den) <= 0,
{
    if delta >= 0 {
        assert(delta * num <= delta * den) by (nonlinear_arith)
            requires
                num <= den,
                delta >= 0,
        ;
        assert(0 <= delta * num) by (nonlinear_arith)
            requires
                0 <= delta,
                0 <= num,
        ;
        vstd::arithmetic::div_mod::lemma_div_is_ordered(delta * num, delta * den, den);
        vstd::arithmetic::div_mod::lemma_div_multiples_vanish(delta, den);
        assert(delta * den == den * delta) by (nonlinear_arith);
        vstd::arithmetic::div_mod::lemma_div_pos_is_pos(delta * num, den);
    } else {
        let m = -delta;
        assert(m * num <= m * den) by (nonlinear_arith)
            requires
                num <= den,
                m >= 0,
        ;
        assert(0 <= m * num) by (nonlinear_arith)
            requires
                0 <= m,
                0 <= num,
        ;
        vstd::arithmetic::div_mod::lemma_div_is_ordered(m * num, m * den, den);
        vstd::arithmetic::div_mod::lemma_div_multiples_vanish(m, den);
        assert(m * den == den * m) by (nonlinear_arith);
        vstd::arithmetic::div_mod::lemma_div_pos_is_pos(m * num, den);
    }
}

/// Law: for a fixed span, the scaled share grows with the progress share.
pub proof fn lemma_scale_delta_monotone(delta: int, num1: int, num2: int, den: int)
    requires
        den > 0,
        0 <= num1 <= num2,
    ensures
        delta >= 0 ==> spec_scale_delta(delta, num1, den) <= spec_scale_delta(delta, num2, den),
        delta <= 0 ==> spec_scale_delta(delta, num2, den) <= spec_scale_delta(delta, num1, den),
{
    if delta >= 0 {
        assert(delta * num1 <= delta * num2) by (nonlinear_arith)
            requires
                num1 <= num2,
                delta >= 0,
        ;
        vstd::arithmetic::div_mod::lemma_div_is_ordered(delta * num1, delta * num2, den);
    }
    if delta <= 0 {
        let m = -delta;
        assert(m * num1 <= m * num2) by (nonlinear_arith)
            requires
                num1 <= num2,
                m >= 0,
        ;
        vstd::arithmetic::div_mod::lemma_div_is_ordered(m * num1, m * num2, den);
        if delta == 0 {
            assert(delta * num1 == 0 && delta * num2 == 0) by (nonlinear_arith)
                requires
                    delta == 0,
            ;
            vstd::arithmetic::div_mod::lemma_div_of0(den);
        }
    }
}

/// Law: eased motion along one span is monotone — each step moves the
/// coordinate toward the target, never back.
pub proof fn lemma_eased_coord_monotone(from: int, to: int, s: int, d: int)
    requires
        0 <= s < d,
    ensures
        from <= to ==> spec_eased_coord(from, to, s, d) <= spec_eased_coord(from, to, s + 1, d),
        to <= from ==> spec_eased_coord(from, to, s + 1, d) <= spec_eased_coord(from, to, s, d),
{
    lemma_ease_monotone(s, d);
    lemma_ease_bounds(s, d);
    lemma_ease_bounds(s + 1, d);
    assert(d * d * d > 0) by (nonlinear_arith)
        requires
            d > 0,
    ;
    lemma_scale_delta_monotone(to - from, spec_ease_num(s, d), spec_ease_num(s + 1, d), d * d * d);
}

/// Law: eased motion starts at the start waypoint, ends exactly on the
/// target waypoint, and never leaves the span between them.
pub proof fn lemma_eased_coord_endpoints(from: int, to: int, s: int, d: int)
    requires
        0 <= s <= d,
        d > 0,
    ensures
        spec_eased_coord(from, to, 0, d) == from,
        spec_eased_coord(from, to, d, d) == to,
        from <= to ==> from <= spec_eased_coord(from, to, s, d) <= to,
        to <= from ==> to <= spec_eased_coord(from, to, s, d) <= from,
{
    let den = d * d * d;
    assert(d * d * d > 0) by (nonlinear_arith)
        requires
            d > 0,
    ;
    lemma_ease_endpoints(d);
    lemma_ease_bounds(s, d);
    lemma_scale_delta_bounds(to - from, spec_ease_num(s, d), den);
    lemma_scale_delta_bounds(to - from, 0, den);
    lemma_scale_delta_bounds(to - from, den, den);
    // zero progress moves nothing
    assert((to - from) * 0 == 0 && (-(to - from)) * 0 == 0) by (nonlinear_arith);
    vstd::arithmetic::div_mod::lemma_div_of0(den);
    // full progress covers the whole span
    if to - from >= 0 {
        vstd::arithmetic::div_mod::lemma_div_multiples_vanish(to - from, den);
        assert((to - from) * den == den * (to - from)) by (nonlinear_arith);
    } else {
        vstd::arithmetic::div_mod::lemma_div_multiples_vanish(-(to - from), den);
        assert((-(to - from)) * den == den * (-(to - from))) by (nonlinear_arith);
    }
}

/// Scales a span of at most 33 bits by eased progress.
pub fn scale_delta64(delta: i64, num: u64, den: u64) -> (r: i64)
    requires
        den > 0,
        num <= den,
        den <= 400_000_000_000_000,
        -0x1_0000_0000 <= delta <= 0x1_0000_0000,
    ensures
        r == spec_scale_delta(delta as int, num as int, den as int),
        delta >= 0 ==> 0 <= r <= delta,
        delta < 0 ==> delta <= r <= 0,
{
    proof {
        lemma_scale_delta_bounds(delta as int, num as int, den as int);
    }
    if delta >= 0 {
        proof {
            assert((delta as i128) * (num as i128) <= 0x1_0000_0000i128 * 400_000_000_000_000i128)
                by (nonlinear_arith)
                requires
                    0 <= delta as i128 <= 0x1_0000_0000,
                    0 <= num as i128 <= 400_000_000_000_000,
            ;
            assert(0 <= (delta as i128) * (num as i128)) by (nonlinear_arith)
                requires
                    0 <= delta as i128,
                    0 <= num as i128,
            ;
        }
        let prod: i128 = (delta as i128) * (num as i128);
        let scaled: i128 = prod / (den as i128);
        proof {
            vstd::arithmetic::div_mod::lemma_div_pos_is_pos(prod as int, den as int);
        }
        scaled as i64
    } else {
        let mag: i128 = -(delta as i128);
        proof {
            assert(mag * (num as i128) <= 0x1_0000_0000i128 * 400_000_000_000_000i128)
                by (nonlinear_arith)
                requires
                    0 <= mag <= 0x1_0000_0000,
                    0 <= num as i128 <= 400_000_000_000_000,
            ;
            assert(0 <= mag * (num as i128)) by (nonlinear_arith)
                requires
                    0 <= mag,
                    0 <= num as i128,
            ;
        }
        let prod: i128 = mag * (num as i128);
        let scaled: i128 = prod / (den as i128);
        proof {
            vstd::arithmetic::div_mod::lemma_div_pos_is_pos(prod as int, den as int);
        }
        -(scaled as i64)
    }
}

/// Scales a cursor travel by a sensitivity in thousandths; unlike eased
/// progress, a sensitivity may exceed one.
pub fn scale_delta_sens(delta: i64, sens: u64) -> (r: i64)
    requires
        -0x1_0000_0000 <= delta <= 0x1_0000_0000,
        sens <= 100_000,
    ensures
        r == spec_scale_delta(delta as int, sens as int, 1000),
        -500_000_000_000 <= r <= 500_000_000_000,
{
    if delta >= 0 {
        proof {
            assert((delta as i128) * (sens as i128) <= 0x1_0000_0000i128 * 100_000i128)
                by (nonlinear_arith)
                requires
                    0 <= delta as i128 <= 0x1_0000_0000,
                    0 <= sens as i128 <= 100_000,
            ;
            assert(0 <= (delta as i128) * (sens as i128)) by (nonlinear_arith)
                requires
                    0 <= delta as i128,
                    0 <= sens as i128,
            ;
        }
        let prod: i128 = (delta as i128) * (sens as i128);
        let scaled: i128 = prod / 1000;
        proof {
            vstd::arithmetic::div_mod::lemma_div_pos_is_pos(prod as int, 1000);
            vstd::arithmetic::div_mod::lemma_div_is_ordered(
                prod as int,
                500_000_000_000_000,
                1000,
            );
        }
        scaled as i64
    } else {
        let mag: i128 = -(delta as i128);
        proof {
            assert(mag * (sens as i128) <= 0x1_0000_0000i128 * 100_000i128) by (nonlinear_arith)
                requires
                    0 <= mag <= 0x1_0000_0000,
                    0 <= sens as i128 <= 100_000,
            ;
            assert(0 <= mag * (sens as i128)) by (nonlinear_arith)
                requires
                    0 <= mag,
                    0 <= sens as i128,
            ;
        }
        let prod: i128 = mag * (sens as i128);
        let scaled: i128 = prod / 1000;
        proof {
            vstd::arithmetic::div_mod::lemma_div_pos_is_pos(prod as int, 1000);
            vstd::arithmetic::div_mod::lemma_div_is_ordered(
                prod as int,
                500_000_000_000_000,
                1000,
            );
        }
        -(scaled as i64)
    }
}

/// One eased coordinate along a span: start, target, progress step `s` of
/// `d`.
pub fn eased_coord(from: i32, to: i32, s: u64, d: u64) -> (r: i32)
    requires
        0 <= s <= d,
        1 <= d <= 72_000,
    ensures
        r == spec_eased_coord(from as int, to as int, s as int, d as int),
        from <= to ==> from <= r <= to,
        to <= from ==> to <= r <= from,
{
    proof {
        assert(d * d <= 72_000 * 72_000 && d * d * d <= 72_000 * 72_000 * 72_000)
            by (nonlinear_arith)
            requires
                1 <= d <= 72_000,
        ;
        assert(d * d * d >= 1) by (nonlinear_arith)
            requires
                d >= 1,
        ;
        lemma_eased_coord_endpoints(from as int, to as int, s as int, d as int);
    }
    let den: u64 = d * d * d;
    let num: u64 = ease_num(s, d);
    let delta: i64 = (to as i64) - (from as i64);
    let sc: i64 = scale_delta64(delta, num, den);
    ((from as i64) + sc) as i32
}

} // verus!
