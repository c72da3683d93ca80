//! The virtual direction pad: every tick the bound two-axis value (in
//! thousandths of full deflection) is clipped to the ellipse spanned by the
//! configured maximum offsets and the pointer is held down at the pad's
//! position plus that offset, ramping in with the eased curve on engagement
//! and lifting when the axes return to rest.
use vstd::prelude::*;

use crate::codec::MotionEventAction;
use crate::mapping::config::MappingDirectionPad;
use crate::mapping::swipe::spec_leg_delay;
use crate::mapping::utils::{
    ease_num, sat_add, scale_delta64, spec_ease_num, spec_eased_coord, spec_scale_delta,
    spec_touch_msg, ControlMsgHelper, Position, Size, TimedMsg,
};
use crate::scaler::spec_clamp_i32;

verus! {

/// The shortest ramp or drag interpolation step, in milliseconds.
pub const MIN_INTERVAL: u64 = 50;

/// The smallest offset change, in pixels, that warrants its own Move event.
pub const MIN_STEP: u64 = 25;

/// The largest number of steps an engagement ramp is cut into.
pub const MAX_RAMP_STEPS: u64 = 72_000;

/// The currently held offset of an engaged direction pad, in pixels from the
/// pad's position.
#[derive(Clone, Copy, Debug, PartialEq, Eq, Structural)]
pub struct PadState {
    pub offset_x: i32,
    pub offset_y: i32,
}

/// The smallest integer whose square reaches `v`.
pub fn isqrt_ceil(v: u64) -> (s: u64)
    requires
        v <= 0xffff_ffff,
    ensures
        s * s >= v,
        s >= 1 ==> (s - 1) * (s - 1) < v,
        s <= 0x1_0000,
{
    let mut s: u64 = 0;
    let mut sq: u64 = 0;
    while sq < v
        invariant
            v <= 0xffff_ffff,
            sq == s * s,
            s == 0 || (s - 1) * (s - 1) < v,
            s <= 0x1_0000,
        decreases v - s,
    {
        proof {
            assert(s < 0x1_0000 && (s + 1) * (s + 1) <= 0x1_0000 * 0x1_0000 && s * s < (s + 1) * (
            s + 1)) by (nonlinear_arith)
                requires
                    s * s < 0x1_0000_0000,
                    0 <= s,
            ;
            assert(s + 1 <= v) by (nonlinear_arith)
                requires
                    s * s < v,
                    0 <= s,
            ;
        }
        s = s + 1;
        sq = s * s;
    }
    s
}

/// Law: squaring keeps order on the nonnegative side.
proof fn lemma_square_le(u: int, v: int)
    requires
        0 <= u <= v,
    ensures
        u * u <= v * v,
{
    assert(u * u <= v * v) by (nonlinear_arith)
        requires
            0 <= u <= v,
    ;
}

/// Law: an offset obtained by scaling the axes with a common divisor whose
/// square covers the squared axis length lies in the ellipse spanned by the
/// maximum offsets, each coordinate within its maximum.
proof fn lemma_clip_ellipse(
    ax: int,
    ay: int,
    mx: int,
    my: int,
    s: int,
    px: int,
    py: int,
)
    requires
        s >= 1,
        0 <= ax,
        0 <= ay,
        0 <= mx,
        0 <= my,
        ax * ax + ay * ay <= s * s,
        0 <= px,
        0 <= py,
        px * s <= ax * mx,
        py * s <= ay * my,
    ensures
        px <= mx,
        py <= my,
        px * px * my * my + py * py * mx * mx <= mx * mx * my * my,
{
    assert(ax <= s) by (nonlinear_arith)
        requires
            ax * ax + ay * ay <= s * s,
            0 <= ax,
            0 <= ay,
            0 <= s,
    ;
    assert(ay <= s) by (nonlinear_arith)
        requires
            ax * ax + ay * ay <= s * s,
            0 <= ax,
            0 <= ay,
            0 <= s,
    ;
    assert(px <= mx) by (nonlinear_arith)
        requires
            px * s <= ax * mx,
            ax <= s,
            0 <= mx,
            0 <= px,
            s >= 1,
    ;
    assert(py <= my) by (nonlinear_arith)
        requires
            py * s <= ay * my,
            ay <= s,
            0 <= my,
            0 <= py,
            s >= 1,
    ;
    lemma_square_le(px * s, ax * mx);
    lemma_square_le(py * s, ay * my);
    assert(px * px * s * s <= ax * ax * mx * mx) by (nonlinear_arith)
        requires
            (px * s) * (px * s) <= (ax * mx) * (ax * mx),
    ;
    assert(py * py * s * s <= ay * ay * my * my) by (nonlinear_arith)
        requires
            (py * s) * (py * s) <= (ay * my) * (ay * my),
    ;
    assert(px * px * my * my * (s * s) <= ax * ax * mx * mx * (my * my)) by (nonlinear_arith)
        requires
            px * px * s * s <= ax * ax * mx * mx,
            0 <= my,
    ;
    assert(py * py * mx * mx * (s * s) <= ay * ay * my * my * (mx * mx)) by (nonlinear_arith)
        requires
            py * py * s * s <= ay * ay * my * my,
            0 <= mx,
    ;
    assert((px * px * my * my + py * py * mx * mx) * (s * s) == px * px * my * my * (s * s) + py
        * py * mx * mx * (s * s)) by (nonlinear_arith);
    assert(ax * ax * mx * mx * (my * my) + ay * ay * my * my * (mx * mx) == (ax * ax + ay * ay) * (
    mx * mx * (my * my))) by (nonlinear_arith);
    assert((px * px * my * my + py * py * mx * mx) * (s * s) <= (ax * ax + ay * ay) * (mx * mx * (
    my * my)));
    assert((ax * ax + ay * ay) * (mx * mx * (my * my)) <= (s * s) * (mx * mx * (my * my)))
        by (nonlinear_arith)
        requires
            ax * ax + ay * ay <= s * s,
            0 <= mx,
            0 <= my,
    ;
    assert(px * px * my * my + py * py * mx * mx <= mx * mx * my * my) by (nonlinear_arith)
        requires
            (px * px * my * my + py * py * mx * mx) * (s * s) <= (s * s) * (mx * mx * (my * my)),
            s >= 1,
    ;
}

/// A signed axis value scaled by `m / s`, rounding toward zero.
pub open spec fn spec_axis_scale(a: int, m: int, s: int) -> int {
    spec_scale_delta(a, m, s)
}

/// Whether an offset satisfies the ellipse constraint of the given maximum
/// offsets: `(x / mx)^2 + (y / my)^2 <= 1`, cleared of denominators.
pub open spec fn spec_in_ellipse(x: int, y: int, mx: int, my: int) -> bool {
    x * x * my * my + y * y * mx * mx <= mx * mx * my * my
}

/// Law: shrinking each coordinate's magnitude never leaves the ellipse.
pub proof fn lemma_ellipse_shrink(x: int, y: int, x2: int, y2: int, mx: int, my: int)
    requires
        spec_in_ellipse(x, y, mx, my),
        x2 * x2 <= x * x,
        y2 * y2 <= y * y,
    ensures
        spec_in_ellipse(x2, y2, mx, my),
{
    assert(x2 * x2 * my * my <= x * x * my * my) by (nonlinear_arith)
        requires
            x2 * x2 <= x * x,
    ;
    assert(y2 * y2 * mx * mx <= y * y * mx * mx) by (nonlinear_arith)
        requires
            y2 * y2 <= y * y,
    ;
}

/// Law: every offset of an engagement ramp toward a clipped offset lies in
/// the ellipse. The ramp's Move at progress step `s` of `d` emits the pad
/// position plus exactly this offset per coordinate, so no ramp Move ever
/// leaves the ellipse around the pad.
pub proof fn lemma_ramp_offset_in_ellipse(cx: int, cy: int, mx: int, my: int, s: int, d: int)
    requires
        spec_in_ellipse(cx, cy, mx, my),
        0 <= s <= d,
        d >= 1,
    ensures
        spec_in_ellipse(
            spec_scale_delta(cx, spec_ease_num(s, d), d * d * d),
            spec_scale_delta(cy, spec_ease_num(s, d), d * d * d),
            mx,
            my,
        ),
{
    assert(d * d * d >= 1) by (nonlinear_arith)
        requires
            d >= 1,
    ;
    let den = d * d * d;
    crate::mapping::utils::lemma_ease_bounds(s, d);
    let num = spec_ease_num(s, d);
    crate::mapping::utils::lemma_scale_delta_bounds(cx, num, den);
    crate::mapping::utils::lemma_scale_delta_bounds(cy, num, den);
    let ox = spec_scale_delta(cx, num, den);
    let oy = spec_scale_delta(cy, num, den);
    assert(ox * ox <= cx * cx) by (nonlinear_arith)
        requires
            (0 <= ox <= cx) || (cx <= ox <= 0),
    ;
    assert(oy * oy <= cy * cy) by (nonlinear_arith)
        requires
            (0 <= oy <= cy) || (cy <= oy <= 0),
    ;
    lemma_ellipse_shrink(cx, cy, ox, oy, mx, my);
}

/// Law: a drag interpolation coordinate stays between where it starts and
/// where it goes — each Move of a drag walks its coordinate from the held
/// offset toward the new clipped offset, never past either.
pub proof fn lemma_drag_coord_bounds(base: int, delta: int, k: int, den: int)
    requires
        0 <= k <= den,
        den >= 1,
    ensures
        delta >= 0 ==> spec_clamp_i32(base) <= spec_drag_coord(base, delta, k, den)
            <= spec_clamp_i32(base + delta),
        delta <= 0 ==> spec_clamp_i32(base + delta) <= spec_drag_coord(base, delta, k, den)
            <= spec_clamp_i32(base),
{
    crate::mapping::utils::lemma_scale_delta_bounds(delta, k, den);
}

/// Clips the raw two-axis value (thousandths of full deflection) to the
/// pad's ellipse.
///
/// A deflection within the unit circle scales each axis by its maximum
/// offset. A larger deflection is pulled back to the ellipse boundary along
/// its own direction. Law: the clipped offset always satisfies the ellipse
/// constraint and never exceeds either maximum offset; the rest position
/// maps to the zero offset.
pub fn scale_direction_2d_state(axis_x: i32, axis_y: i32, mapping: &MappingDirectionPad) -> (r: (
    i32,
    i32,
))
    requires
        -32_000 <= axis_x <= 32_000,
        -32_000 <= axis_y <= 32_000,
        mapping.max_offset_x <= 100_000,
        mapping.max_offset_y <= 100_000,
    ensures
        axis_x == 0 && axis_y == 0 ==> r == (0i32, 0i32),
        -(mapping.max_offset_x as int) <= r.0 <= mapping.max_offset_x as int,
        -(mapping.max_offset_y as int) <= r.1 <= mapping.max_offset_y as int,
        spec_in_ellipse(
            r.0 as int,
            r.1 as int,
            mapping.max_offset_x as int,
            mapping.max_offset_y as int,
        ),
        axis_x as int * axis_x as int + axis_y as int * axis_y as int <= 1_000_000 ==> r.0
            == spec_axis_scale(axis_x as int, mapping.max_offset_x as int, 1000) && r.1
            == spec_axis_scale(axis_y as int, mapping.max_offset_y as int, 1000),
        (r.0 as int, r.1 as int) == spec_clip_offset(
            axis_x as int,
            axis_y as int,
            mapping.max_offset_x as int,
            mapping.max_offset_y as int,
        ),
{
    let mx: u64 = mapping.max_offset_x as u64;
    let my: u64 = mapping.max_offset_y as u64;
    if axis_x == 0 && axis_y == 0 {
        proof {
            assert(spec_in_ellipse(0, 0, mx as int, my as int)) by (nonlinear_arith)
                requires
                    0 <= mx as int,
                    0 <= my as int,
            ;
            assert(spec_axis_scale(0, mx as int, 1000) == 0 && spec_axis_scale(0, my as int, 1000)
                == 0) by (nonlinear_arith);
        }
        return (0i32, 0i32);
    }
    let axu: u64 = if axis_x >= 0 {
        axis_x as u64
    } else {
        (-(axis_x as i64)) as u64
    };
    let ayu: u64 = if axis_y >= 0 {
        axis_y as u64
    } else {
        (-(axis_y as i64)) as u64
    };
    proof {
        assert(axu * axu <= 32_000 * 32_000 && ayu * ayu <= 32_000 * 32_000) by (nonlinear_arith)
            requires
                axu <= 32_000,
                ayu <= 32_000,
        ;
        assert(axis_x as int * axis_x as int == axu as int * axu as int) by (nonlinear_arith)
            requires
                axu as int == axis_x as int || axu as int == -(axis_x as int),
        ;
        assert(axis_y as int * axis_y as int == ayu as int * ayu as int) by (nonlinear_arith)
            requires
                ayu as int == axis_y as int || ayu as int == -(axis_y as int),
        ;
    }
    let norm2: u64 = axu * axu + ayu * ayu;
    let divisor: u64 = if norm2 <= 1_000_000 {
        1000
    } else {
        isqrt_ceil(norm2)
    };
    proof {
        if norm2 > 1_000_000 {
            lemma_isqrt_ceil_unique(norm2 as int, divisor as int);
        }
        assert(divisor >= 1);
        assert(norm2 <= divisor * divisor);
        assert(axu * mx <= 32_000 * 100_000 && ayu * my <= 32_000 * 100_000) by (nonlinear_arith)
            requires
                axu <= 32_000,
                ayu <= 32_000,
                mx <= 100_000,
                my <= 100_000,
        ;
    }
    let pxu: u64 = axu * mx / divisor;
    let pyu: u64 = ayu * my / divisor;
    proof {
        vstd::arithmetic::div_mod::lemma_fundamental_div_mod(
            (axu * mx) as int,
            divisor as int,
        );
        vstd::arithmetic::div_mod::lemma_fundamental_div_mod(
            (ayu * my) as int,
            divisor as int,
        );
        vstd::arithmetic::div_mod::lemma_mod_bound((axu * mx) as int, divisor as int);
        vstd::arithmetic::div_mod::lemma_mod_bound((ayu * my) as int, divisor as int);
        assert(pxu as int * divisor as int <= axu as int * mx as int) by (nonlinear_arith)
            requires
                axu as int * mx as int == divisor as int * (pxu as int) + (axu as int * mx as int)
                    % (divisor as int),
                (axu as int * mx as int) % (divisor as int) >= 0,
        ;
        assert(pyu as int * divisor as int <= ayu as int * my as int) by (nonlinear_arith)
            requires
                ayu as int * my as int == divisor as int * (pyu as int) + (ayu as int * my as int)
                    % (divisor as int),
                (ayu as int * my as int) % (divisor as int) >= 0,
        ;
        lemma_clip_ellipse(
            axu as int,
            ayu as int,
            mx as int,
            my as int,
            divisor as int,
            pxu as int,
            pyu as int,
        );
    }
    let px: i32 = if axis_x >= 0 {
        pxu as i32
    } else {
        -(pxu as i32)
    };
    let py: i32 = if axis_y >= 0 {
        pyu as i32
    } else {
        -(pyu as i32)
    };
    proof {
        assert(px as int == pxu as int || px as int == -(pxu as int));
        assert(py as int == pyu as int || py as int == -(pyu as int));
        assert(px as int * px as int == pxu as int * pxu as int) by (nonlinear_arith)
            requires
                px as int == pxu as int || px as int == -(pxu as int),
        ;
        assert(py as int * py as int == pyu as int * pyu as int) by (nonlinear_arith)
            requires
                py as int == pyu as int || py as int == -(pyu as int),
        ;
        assert(spec_in_ellipse(px as int, py as int, mx as int, my as int)) by (nonlinear_arith)
            requires
                px as int * px as int == pxu as int * pxu as int,
                py as int * py as int == pyu as int * pyu as int,
                spec_in_ellipse(pxu as int, pyu as int, mx as int, my as int),
        ;
    }
    (px, py)
}

/// The smallest nonnegative integer whose square reaches `v`, as a spec
/// value.
pub open spec fn spec_isqrt_ceil(v: int) -> int
    decreases v,
{
    if v <= 0 {
        0
    } else {
        let r = spec_isqrt_ceil(v - 1);
        if r * r >= v {
            r
        } else {
            r + 1
        }
    }
}

/// Law: the spec ceiling square root squares to at least its argument, and
/// one less squares to less.
pub proof fn lemma_isqrt_ceil_props(v: int)
    requires
        v >= 0,
    ensures
        spec_isqrt_ceil(v) >= 0,
        spec_isqrt_ceil(v) * spec_isqrt_ceil(v) >= v,
        spec_isqrt_ceil(v) >= 1 ==> (spec_isqrt_ceil(v) - 1) * (spec_isqrt_ceil(v) - 1) < v,
    decreases v,
{
    if v > 0 {
        lemma_isqrt_ceil_props(v - 1);
        let r = spec_isqrt_ceil(v - 1);
        if r * r >= v {
        } else {
            assert((r + 1) * (r + 1) >= r * r + 1) by (nonlinear_arith)
                requires
                    r >= 0,
            ;
        }
    }
}

/// Law: the ceiling square root is the only value squeezed between the two
/// squares.
pub proof fn lemma_isqrt_ceil_unique(v: int, s: int)
    requires
        v >= 0,
        s >= 0,
        s * s >= v,
        s == 0 || (s - 1) * (s - 1) < v,
    ensures
        s == spec_isqrt_ceil(v),
{
    lemma_isqrt_ceil_props(v);
    let r = spec_isqrt_ceil(v);
    if s < r {
        lemma_square_le(s, r - 1);
    }
    if r < s {
        lemma_square_le(r, s - 1);
    }
}

/// The clipped offset as a spec value: the rest position maps to the zero
/// offset; a deflection inside the unit circle scales each axis by its
/// maximum offset; a larger one is pulled back to the ellipse boundary.
pub open spec fn spec_clip_offset(ax: int, ay: int, mx: int, my: int) -> (int, int) {
    if ax == 0 && ay == 0 {
        (0int, 0int)
    } else {
        let n2 = ax * ax + ay * ay;
        let divisor = if n2 <= 1_000_000 {
            1000
        } else {
            spec_isqrt_ceil(n2)
        };
        (spec_scale_delta(ax, mx, divisor), spec_scale_delta(ay, my, divisor))
    }
}

/// How many interpolation steps a drag from one offset to another takes: one
/// per minimum step of the larger coordinate delta, at least one, capped.
pub open spec fn spec_drag_steps(dx: int, dy: int) -> int {
    let m = if dx >= dy {
        dx
    } else {
        dy
    };
    let raw = (if m < 0 {
        0int
    } else {
        m
    }) / (MIN_STEP as int);
    if raw < 1 {
        1
    } else if raw > MAX_RAMP_STEPS {
        MAX_RAMP_STEPS as int
    } else {
        raw
    }
}

/// How many steps an engagement ramp takes: one per minimum interval of the
/// configured ramp duration, at least one, capped.
pub open spec fn spec_ramp_steps(initial_duration: int) -> int {
    let raw = initial_duration / (MIN_INTERVAL as int);
    if raw < 1 {
        1
    } else if raw > MAX_RAMP_STEPS {
        MAX_RAMP_STEPS as int
    } else {
        raw
    }
}

/// An interpolated coordinate clamped into the 32-bit range: the base plus
/// the given share of the delta.
pub open spec fn spec_drag_coord(base: int, delta: int, num: int, den: int) -> int {
    spec_clamp_i32(base + spec_scale_delta(delta, num, den))
}

/// Drives one direction pad for a tick, given the raw two-axis value in
/// thousandths of full deflection.
///
/// At rest with no pointer down nothing happens. On engagement the pointer
/// goes Down at the pad position and ramps to the clipped offset with eased
/// Move events, one per minimum interval; by [`lemma_ramp_offset_in_ellipse`]
/// every ramp offset lies in the pad's ellipse. While engaged, a changed
/// offset is walked to linearly within the tick, each coordinate between the
/// held and the new clipped offset ([`lemma_drag_coord_bounds`]), and the
/// return of both axes to rest lifts the pointer at its last offset — the
/// one Down always meets exactly one Up. The held offset is always a clipped
/// one: it enters the state only through the clipping and so satisfies the
/// ellipse constraint, which the contract both assumes of the old state and
/// guarantees of the new.
pub fn handle_joystick(
    mapping: &MappingDirectionPad,
    original_size: Size,
    axis_x: i32,
    axis_y: i32,
    state: &mut Option<PadState>,
) -> (out: Vec<TimedMsg>)
    requires
        -32_000 <= axis_x <= 32_000,
        -32_000 <= axis_y <= 32_000,
        mapping.max_offset_x <= 100_000,
        mapping.max_offset_y <= 100_000,
        (*old(state)) matches Some(st) ==> spec_in_ellipse(
            st.offset_x as int,
            st.offset_y as int,
            mapping.max_offset_x as int,
            mapping.max_offset_y as int,
        ) && -(mapping.max_offset_x as int) <= st.offset_x as int <= mapping.max_offset_x as int
            && -(mapping.max_offset_y as int) <= st.offset_y as int
            <= mapping.max_offset_y as int,
    ensures
        (*final(state)) matches Some(st) ==> spec_in_ellipse(
            st.offset_x as int,
            st.offset_y as int,
            mapping.max_offset_x as int,
            mapping.max_offset_y as int,
        ) && -(mapping.max_offset_x as int) <= st.offset_x as int <= mapping.max_offset_x as int
            && -(mapping.max_offset_y as int) <= st.offset_y as int
            <= mapping.max_offset_y as int,
        ({
            let c = spec_clip_offset(
                axis_x as int,
                axis_y as int,
                mapping.max_offset_x as int,
                mapping.max_offset_y as int,
            );
            &&& ((*old(state)) is None && c.0 == 0 && c.1 == 0 ==> out@.len() == 0
                && (*final(state)) is None)
            &&& ((*old(state)) is None && !(c.0 == 0 && c.1 == 0) ==> ({
                let d = spec_ramp_steps(mapping.initial_duration as int);
                &&& (*final(state)) == Some(
                    PadState { offset_x: c.0 as i32, offset_y: c.1 as i32 },
                )
                &&& out@.len() == 1 + d
                &&& out@[0] == (TimedMsg {
                    delay_ms: 0,
                    msg: spec_touch_msg(
                        MotionEventAction::Down,
                        mapping.pointer_id,
                        original_size,
                        mapping.position,
                    ),
                })
                &&& forall|k: int|
                    0 <= k < d ==> (#[trigger] out@[k + 1]) == (TimedMsg {
                        delay_ms: spec_leg_delay(0, MIN_INTERVAL as int, k) as u64,
                        msg: spec_touch_msg(
                            MotionEventAction::Move,
                            mapping.pointer_id,
                            original_size,
                            Position {
                                x: spec_clamp_i32(
                                    spec_eased_coord(
                                        mapping.position.x as int,
                                        mapping.position.x as int + c.0,
                                        k + 1,
                                        d,
                                    ),
                                ) as i32,
                                y: spec_clamp_i32(
                                    spec_eased_coord(
                                        mapping.position.y as int,
                                        mapping.position.y as int + c.1,
                                        k + 1,
                                        d,
                                    ),
                                ) as i32,
                            },
                        ),
                    })
            }))
            &&& ((*old(state)) matches Some(last) ==> ({
                if c.0 == 0 && c.1 == 0 {
                    &&& (*final(state)) is None
                    &&& out@ == seq![
                        TimedMsg {
                            delay_ms: 0,
                            msg: spec_touch_msg(
                                MotionEventAction::Up,
                                mapping.pointer_id,
                                original_size,
                                Position {
                                    x: spec_clamp_i32(
                                        mapping.position.x + last.offset_x as int,
                                    ) as i32,
                                    y: spec_clamp_i32(
                                        mapping.position.y + last.offset_y as int,
                                    ) as i32,
                                },
                            ),
                        },
                    ]
                } else if c.0 == last.offset_x as int && c.1 == last.offset_y as int {
                    &&& (*final(state)) == *old(state)
                    &&& out@.len() == 0
                } else {
                    let dx = c.0 - last.offset_x as int;
                    let dy = c.1 - last.offset_y as int;
                    let d = spec_drag_steps(dx, dy);
                    &&& (*final(state)) == Some(
                        PadState { offset_x: c.0 as i32, offset_y: c.1 as i32 },
                    )
                    &&& out@.len() == d
                    &&& forall|k: int|
                        0 <= k < d ==> (#[trigger] out@[k]) == (TimedMsg {
                            delay_ms: 0,
                            msg: spec_touch_msg(
                                MotionEventAction::Move,
                                mapping.pointer_id,
                                original_size,
                                Position {
                                    x: spec_drag_coord(
                                        mapping.position.x + last.offset_x as int,
                                        dx,
                                        k + 1,
                                        d,
                                    ) as i32,
                                    y: spec_drag_coord(
                                        mapping.position.y + last.offset_y as int,
                                        dy,
                                        k + 1,
                                        d,
                                    ) as i32,
                                },
                            ),
                        })
                }
            }))
        }),
{
    let (cx, cy) = scale_direction_2d_state(axis_x, axis_y, mapping);
    let mut out: Vec<TimedMsg> = Vec::new();
    match *state {
        None => {
            if cx == 0 && cy == 0 {
                return out;
            }
            *state = Some(PadState { offset_x: cx, offset_y: cy });
            out.push(
                TimedMsg {
                    delay_ms: 0,
                    msg: ControlMsgHelper::touch_msg(
                        MotionEventAction::Down,
                        mapping.pointer_id,
                        original_size,
                        mapping.position,
                    ),
                },
            );
            let d: u64 = {
                let raw = mapping.initial_duration / MIN_INTERVAL;
                if raw < 1 {
                    1
                } else if raw > MAX_RAMP_STEPS {
                    MAX_RAMP_STEPS
                } else {
                    raw
                }
            };
            let mut k: u64 = 0;
            let mut t: u64 = 0;
            while k < d
                invariant
                    0 <= k <= d,
                    1 <= d <= MAX_RAMP_STEPS,
                    -100_000 <= cx <= 100_000,
                    -100_000 <= cy <= 100_000,
                    t == spec_leg_delay(0, MIN_INTERVAL as int, k as int),
                    out@.len() == 1 + k,
                    out@[0] == (TimedMsg {
                        delay_ms: 0,
                        msg: spec_touch_msg(
                            MotionEventAction::Down,
                            mapping.pointer_id,
                            original_size,
                            mapping.position,
                        ),
                    }),
                    forall|j: int|
                        0 <= j < k ==> (#[trigger] out@[j + 1]) == (TimedMsg {
                            delay_ms: spec_leg_delay(0, MIN_INTERVAL as int, j) as u64,
                            msg: spec_touch_msg(
                                MotionEventAction::Move,
                                mapping.pointer_id,
                                original_size,
                                Position {
                                    x: spec_clamp_i32(
                                        spec_eased_coord(
                                            mapping.position.x as int,
                                            mapping.position.x as int + cx as int,
                                            j + 1,
                                            d as int,
                                        ),
                                    ) as i32,
                                    y: spec_clamp_i32(
                                        spec_eased_coord(
                                            mapping.position.y as int,
                                            mapping.position.y as int + cy as int,
                                            j + 1,
                                            d as int,
                                        ),
                                    ) as i32,
                                },
                            ),
                        }),
                decreases d - k,
            {
                let x = eased_offset_coord(mapping.position.x, cx, k + 1, d);
                let y = eased_offset_coord(mapping.position.y, cy, k + 1, d);
                out.push(
                    TimedMsg {
                        delay_ms: t,
                        msg: ControlMsgHelper::touch_msg(
                            MotionEventAction::Move,
                            mapping.pointer_id,
                            original_size,
                            Position { x, y },
                        ),
                    },
                );
                t = sat_add(t, MIN_INTERVAL);
                k = k + 1;
            }
        },
        Some(last) => {
            if cx == 0 && cy == 0 {
                out.push(
                    TimedMsg {
                        delay_ms: 0,
                        msg: ControlMsgHelper::touch_msg(
                            MotionEventAction::Up,
                            mapping.pointer_id,
                            original_size,
                            Position {
                                x: crate::scaler::clamp_i32_from_i64(
                                    mapping.position.x as i64 + last.offset_x as i64,
                                ),
                                y: crate::scaler::clamp_i32_from_i64(
                                    mapping.position.y as i64 + last.offset_y as i64,
                                ),
                            },
                        ),
                    },
                );
                *state = None;
                assert(out@ =~= seq![out@[0]]);
            } else if cx == last.offset_x && cy == last.offset_y {
                // nothing changed
            } else {
                let dx: i64 = cx as i64 - last.offset_x as i64;
                let dy: i64 = cy as i64 - last.offset_y as i64;
                let d: u64 = {
                    let m: i64 = if dx >= dy {
                        dx
                    } else {
                        dy
                    };
                    let raw: u64 = if m < 0 {
                        0
                    } else {
                        (m as u64) / MIN_STEP
                    };
                    if raw < 1 {
                        1
                    } else if raw > MAX_RAMP_STEPS {
                        MAX_RAMP_STEPS
                    } else {
                        raw
                    }
                };
                *state = Some(PadState { offset_x: cx, offset_y: cy });
                let mut k: u64 = 0;
                while k < d
                    invariant
                        0 <= k <= d,
                        1 <= d <= MAX_RAMP_STEPS,
                        dx == cx as int - last.offset_x as int,
                        dy == cy as int - last.offset_y as int,
                        -0x1_0000_0000 <= dx <= 0x1_0000_0000,
                        -0x1_0000_0000 <= dy <= 0x1_0000_0000,
                        out@.len() == k,
                        forall|j: int|
                            0 <= j < k ==> (#[trigger] out@[j]) == (TimedMsg {
                                delay_ms: 0,
                                msg: spec_touch_msg(
                                    MotionEventAction::Move,
                                    mapping.pointer_id,
                                    original_size,
                                    Position {
                                        x: spec_drag_coord(
                                            mapping.position.x + last.offset_x as int,
                                            dx as int,
                                            j + 1,
                                            d as int,
                                        ) as i32,
                                        y: spec_drag_coord(
                                            mapping.position.y + last.offset_y as int,
                                            dy as int,
                                            j + 1,
                                            d as int,
                                        ) as i32,
                                    },
                                ),
                            }),
                    decreases d - k,
                {
                    let sx = scale_delta64(dx, k + 1, d);
                    let sy = scale_delta64(dy, k + 1, d);
                    let x = crate::scaler::clamp_i32_from_i64(
                        mapping.position.x as i64 + last.offset_x as i64 + sx,
                    );
                    let y = crate::scaler::clamp_i32_from_i64(
                        mapping.position.y as i64 + last.offset_y as i64 + sy,
                    );
                    out.push(
                        TimedMsg {
                            delay_ms: 0,
                            msg: ControlMsgHelper::touch_msg(
                                MotionEventAction::Move,
                                mapping.pointer_id,
                                original_size,
                                Position { x, y },
                            ),
                        },
                    );
                    k = k + 1;
                }
            }
        },
    }
    out
}

/// One eased ramp coordinate: the pad position plus the eased share of the
/// clipped offset, clamped into 32-bit range.
fn eased_offset_coord(from: i32, delta: i32, s: u64, d: u64) -> (r: i32)
    requires
        1 <= d <= 72_000,
        s <= d,
        -100_000 <= delta <= 100_000,
    ensures
        r as int == spec_clamp_i32(
            spec_eased_coord(from as int, from as int + delta as int, s as int, d as int),
        ),
{
    proof {
        assert(d * d <= 72_000 * 72_000 && d * d * d <= 72_000 * 72_000 * 72_000)
            by (nonlinear_arith)
            requires
                1 <= d <= 72_000,
        ;
        assert(d * d * d >= 1) by (nonlinear_arith)
            requires
                d >= 1,
        ;
    }
    let den: u64 = d * d * d;
    let num: u64 = ease_num(s, d);
    let sc: i64 = scale_delta64(delta as i64, num, den);
    crate::scaler::clamp_i32_from_i64((from as i64) + sc)
}

} // verus!
