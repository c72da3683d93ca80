//! The swipe gesture: on a pulse, the pointer goes Down at the first
//! waypoint, moves along each leg with eased, monotone interpolation, and
//! lifts at the last waypoint — exactly one Down and one Up per swipe.
use vstd::prelude::*;

use crate::codec::MotionEventAction;
use crate::mapping::config::MappingSwipe;
use crate::mapping::utils::{
    eased_coord, ease_num, sat_add, spec_count_action, spec_eased_coord, spec_is_touch_action,
    spec_sat_add, spec_touch_msg, ControlMsgHelper, Position, Size, TimedMsg,
    MIN_MOVE_STEP_INTERVAL,
};

verus! {

/// The largest number of interpolation steps one swipe leg is cut into; an
/// interval so long that it asks for more is cut into this many.
pub const MAX_SWIPE_STEPS: u64 = 72_000;

/// How many interpolation steps one leg of the given interval takes: one
/// step per minimum move interval, at least one, capped.
pub open spec fn spec_swipe_steps(interval: int) -> int {
    let raw = interval / (MIN_MOVE_STEP_INTERVAL as int);
    if raw < 1 {
        1
    } else if raw > MAX_SWIPE_STEPS {
        MAX_SWIPE_STEPS as int
    } else {
        raw
    }
}

/// Exec mirror of [`spec_swipe_steps`].
pub fn swipe_steps(interval: u64) -> (r: u64)
    ensures
        r == spec_swipe_steps(interval as int),
        1 <= r <= MAX_SWIPE_STEPS,
{
    let raw = interval / MIN_MOVE_STEP_INTERVAL;
    if raw < 1 {
        1
    } else if raw > MAX_SWIPE_STEPS {
        MAX_SWIPE_STEPS
    } else {
        raw
    }
}

/// The emission time of the `s`-th move of a leg (counting from zero): the
/// leg's start time plus `s` step durations, saturating.
pub open spec fn spec_leg_delay(start: int, dur: int, s: int) -> int
    decreases s,
{
    if s <= 0 {
        start
    } else {
        spec_sat_add(spec_leg_delay(start, dur, s - 1), dur)
    }
}

/// The Move events of one swipe leg, as a spec value: one per interpolation
/// step, eased along the leg, each one step duration after the one before.
pub open spec fn spec_leg_moves(
    cur: Position,
    next: Position,
    interval: int,
    pointer_id: u64,
    size: Size,
    start_delay: int,
) -> Seq<TimedMsg> {
    let d = spec_swipe_steps(interval);
    let dur = interval / d;
    Seq::new(
        d as nat,
        |k: int|
            TimedMsg {
                delay_ms: spec_leg_delay(start_delay, dur, k) as u64,
                msg: spec_touch_msg(
                    MotionEventAction::Move,
                    pointer_id,
                    size,
                    Position {
                        x: spec_eased_coord(cur.x as int, next.x as int, k + 1, d) as i32,
                        y: spec_eased_coord(cur.y as int, next.y as int, k + 1, d) as i32,
                    },
                ),
            },
    )
}

/// When one leg ends: its start plus all its step durations.
pub open spec fn spec_leg_end(start_delay: int, interval: int) -> int {
    let d = spec_swipe_steps(interval);
    spec_leg_delay(start_delay, interval / d, d)
}

/// The Move events of a whole swipe after its Down, as a spec value, together
/// with the time its Up fires: the legs from `cur` through the remaining
/// waypoints, back to back.
pub open spec fn spec_swipe_moves(
    cur: Position,
    rest: Seq<Position>,
    interval: int,
    pointer_id: u64,
    size: Size,
    start_delay: int,
) -> (Seq<TimedMsg>, int)
    decreases rest.len(),
{
    if rest.len() == 0 {
        (Seq::<TimedMsg>::empty(), start_delay)
    } else {
        let leg = spec_leg_moves(cur, rest[0], interval, pointer_id, size, start_delay);
        let tail = spec_swipe_moves(
            rest[0],
            rest.skip(1),
            interval,
            pointer_id,
            size,
            spec_leg_end(start_delay, interval),
        );
        (leg + tail.0, tail.1)
    }
}

/// Builds the Move events of one swipe leg from `cur` to `next`: one event
/// per interpolation step, eased along the leg, each one step duration after
/// the one before.
///
/// The positions move monotonically from `cur` toward `next`, never leave
/// the span between them, and the last move lands exactly on `next`.
pub fn swipe_leg(
    cur: Position,
    next: Position,
    interval: u64,
    pointer_id: u64,
    size: Size,
    start_delay: u64,
) -> (r: (Vec<TimedMsg>, u64))
    ensures
        ({
            let moves = r.0@;
            let d = spec_swipe_steps(interval as int);
            let dur = interval as int / d;
            &&& moves.len() == d
            &&& r.1 == spec_leg_delay(start_delay as int, dur, d)
            &&& forall|k: int|
                0 <= k < d ==> (#[trigger] moves[k]) == (TimedMsg {
                    delay_ms: spec_leg_delay(start_delay as int, dur, k) as u64,
                    msg: spec_touch_msg(
                        MotionEventAction::Move,
                        pointer_id,
                        size,
                        Position {
                            x: spec_eased_coord(cur.x as int, next.x as int, k + 1, d) as i32,
                            y: spec_eased_coord(cur.y as int, next.y as int, k + 1, d) as i32,
                        },
                    ),
                })
            &&& moves[d - 1].msg == spec_touch_msg(MotionEventAction::Move, pointer_id, size, next)
            &&& spec_count_action(moves, MotionEventAction::Down) == 0
            &&& spec_count_action(moves, MotionEventAction::Up) == 0
            &&& moves == spec_leg_moves(
                cur,
                next,
                interval as int,
                pointer_id,
                size,
                start_delay as int,
            )
            &&& r.1 == spec_leg_end(start_delay as int, interval as int)
        }),
{
    let d: u64 = swipe_steps(interval);
    let dur: u64 = interval / d;
    let mut moves: Vec<TimedMsg> = Vec::new();
    let mut t: u64 = start_delay;
    let mut s: u64 = 0;
    proof {
        crate::mapping::utils::lemma_eased_coord_endpoints(
            cur.x as int,
            next.x as int,
            d as int,
            d as int,
        );
        crate::mapping::utils::lemma_eased_coord_endpoints(
            cur.y as int,
            next.y as int,
            d as int,
            d as int,
        );
        assert(Seq::<TimedMsg>::empty().filter(
            |m: TimedMsg| spec_is_touch_action(m, MotionEventAction::Down),
        ) =~= Seq::<TimedMsg>::empty());
        assert(Seq::<TimedMsg>::empty().filter(
            |m: TimedMsg| spec_is_touch_action(m, MotionEventAction::Up),
        ) =~= Seq::<TimedMsg>::empty());
    }
    while s < d
        invariant
            0 <= s <= d,
            1 <= d <= MAX_SWIPE_STEPS,
            d == spec_swipe_steps(interval as int),
            dur == interval as int / d as int,
            moves@.len() == s,
            t == spec_leg_delay(start_delay as int, dur as int, s as int),
            forall|k: int|
                0 <= k < s ==> (#[trigger] moves@[k]) == (TimedMsg {
                    delay_ms: spec_leg_delay(start_delay as int, dur as int, k) as u64,
                    msg: spec_touch_msg(
                        MotionEventAction::Move,
                        pointer_id,
                        size,
                        Position {
                            x: spec_eased_coord(cur.x as int, next.x as int, k + 1, d as int)
                                as i32,
                            y: spec_eased_coord(cur.y as int, next.y as int, k + 1, d as int)
                                as i32,
                        },
                    ),
                }),
            spec_count_action(moves@, MotionEventAction::Down) == 0,
            spec_count_action(moves@, MotionEventAction::Up) == 0,
        decreases d - s,
    {
        let x = eased_coord(cur.x, next.x, s + 1, d);
        let y = eased_coord(cur.y, next.y, s + 1, d);
        let m = TimedMsg {
            delay_ms: t,
            msg: ControlMsgHelper::touch_msg(
                MotionEventAction::Move,
                pointer_id,
                size,
                Position { x, y },
            ),
        };
        proof {
            Seq::<TimedMsg>::lemma_filter_push(
                moves@,
                m,
                |mm: TimedMsg| spec_is_touch_action(mm, MotionEventAction::Down),
            );
            Seq::<TimedMsg>::lemma_filter_push(
                moves@,
                m,
                |mm: TimedMsg| spec_is_touch_action(mm, MotionEventAction::Up),
            );
        }
        moves.push(m);
        t = sat_add(t, dur);
        s = s + 1;
    }
    proof {
        assert(moves@ =~= spec_leg_moves(
            cur,
            next,
            interval as int,
            pointer_id,
            size,
            start_delay as int,
        ));
    }
    (moves, t)
}

/// Drives the swipe gesture for one tick: on a pulse it plans the whole
/// swipe — Down at the first waypoint, eased Move events leg by leg, Up at
/// the last waypoint. The plan holds exactly one Down, first, and exactly
/// one Up, last, on the last waypoint: the pointer never stays stuck.
pub fn handle_swipe(mapping: &MappingSwipe, original_size: Size, pulsed: bool) -> (out: Vec<
    TimedMsg,
>)
    requires
        mapping.positions@.len() >= 1,
    ensures
        !pulsed ==> out@.len() == 0,
        pulsed ==> out@.len() >= 2,
        pulsed ==> out@[0] == (TimedMsg {
            delay_ms: 0,
            msg: spec_touch_msg(
                MotionEventAction::Down,
                mapping.pointer_id,
                original_size,
                mapping.positions@[0],
            ),
        }),
        pulsed ==> ({
            let last = out@[out@.len() - 1];
            last.msg == spec_touch_msg(
                MotionEventAction::Up,
                mapping.pointer_id,
                original_size,
                mapping.positions@[mapping.positions@.len() - 1],
            )
        }),
        pulsed ==> forall|k: int|
            0 < k < out@.len() - 1 ==> spec_is_touch_action(
                #[trigger] out@[k],
                MotionEventAction::Move,
            ),
        pulsed ==> spec_count_action(out@, MotionEventAction::Down) == 1 && spec_count_action(
            out@,
            MotionEventAction::Up,
        ) == 1,
        pulsed ==> ({
            let plan = spec_swipe_moves(
                mapping.positions@[0],
                mapping.positions@.skip(1),
                mapping.interval as int,
                mapping.pointer_id,
                original_size,
                0,
            );
            out@ == seq![
                TimedMsg {
                    delay_ms: 0,
                    msg: spec_touch_msg(
                        MotionEventAction::Down,
                        mapping.pointer_id,
                        original_size,
                        mapping.positions@[0],
                    ),
                },
            ] + plan.0 + seq![
                TimedMsg {
                    delay_ms: plan.1 as u64,
                    msg: spec_touch_msg(
                        MotionEventAction::Up,
                        mapping.pointer_id,
                        original_size,
                        mapping.positions@[mapping.positions@.len() - 1],
                    ),
                },
            ]
        }),
{
    let mut out: Vec<TimedMsg> = Vec::new();
    if !pulsed {
        return out;
    }
    let down = TimedMsg {
        delay_ms: 0,
        msg: ControlMsgHelper::touch_msg(
            MotionEventAction::Down,
            mapping.pointer_id,
            original_size,
            mapping.positions[0],
        ),
    };
    proof {
        assert(Seq::<TimedMsg>::empty().filter(
            |m: TimedMsg| spec_is_touch_action(m, MotionEventAction::Down),
        ) =~= Seq::<TimedMsg>::empty());
        assert(Seq::<TimedMsg>::empty().filter(
            |m: TimedMsg| spec_is_touch_action(m, MotionEventAction::Up),
        ) =~= Seq::<TimedMsg>::empty());
        Seq::<TimedMsg>::lemma_filter_push(
            Seq::<TimedMsg>::empty(),
            down,
            |mm: TimedMsg| spec_is_touch_action(mm, MotionEventAction::Down),
        );
        Seq::<TimedMsg>::lemma_filter_push(
            Seq::<TimedMsg>::empty(),
            down,
            |mm: TimedMsg| spec_is_touch_action(mm, MotionEventAction::Up),
        );
    }
    out.push(down);
    let n: usize = mapping.positions.len();
    let mut cur: Position = mapping.positions[0];
    let mut t: u64 = 0;
    let mut i: usize = 1;
    let ghost full = spec_swipe_moves(
        mapping.positions@[0],
        mapping.positions@.skip(1),
        mapping.interval as int,
        mapping.pointer_id,
        original_size,
        0,
    );
    proof {
        assert(out@.skip(1) =~= Seq::<TimedMsg>::empty());
        assert(out@.skip(1) + full.0 =~= full.0);
    }
    while i < n
        invariant
            1 <= i <= n == mapping.positions@.len(),
            cur == mapping.positions@[i - 1],
            out@.len() >= 1,
            out@[0] == (TimedMsg {
                delay_ms: 0,
                msg: spec_touch_msg(
                    MotionEventAction::Down,
                    mapping.pointer_id,
                    original_size,
                    mapping.positions@[0],
                ),
            }),
            forall|k: int|
                0 < k < out@.len() ==> spec_is_touch_action(
                    #[trigger] out@[k],
                    MotionEventAction::Move,
                ),
            spec_count_action(out@, MotionEventAction::Down) == 1,
            spec_count_action(out@, MotionEventAction::Up) == 0,
            full == spec_swipe_moves(
                mapping.positions@[0],
                mapping.positions@.skip(1),
                mapping.interval as int,
                mapping.pointer_id,
                original_size,
                0,
            ),
            out@.skip(1) + spec_swipe_moves(
                cur,
                mapping.positions@.skip(i as int),
                mapping.interval as int,
                mapping.pointer_id,
                original_size,
                t as int,
            ).0 == full.0,
            spec_swipe_moves(
                cur,
                mapping.positions@.skip(i as int),
                mapping.interval as int,
                mapping.pointer_id,
                original_size,
                t as int,
            ).1 == full.1,
        decreases n - i,
    {
        let next = mapping.positions[i];
        let ghost before = out@;
        let (mut moves, end) = swipe_leg(
            cur,
            next,
            mapping.interval,
            mapping.pointer_id,
            original_size,
            t,
        );
        let ghost leg = moves@;
        out.append(&mut moves);
        proof {
            Seq::<TimedMsg>::filter_distributes_over_add(
                before,
                leg,
                |mm: TimedMsg| spec_is_touch_action(mm, MotionEventAction::Down),
            );
            Seq::<TimedMsg>::filter_distributes_over_add(
                before,
                leg,
                |mm: TimedMsg| spec_is_touch_action(mm, MotionEventAction::Up),
            );
            let rest = mapping.positions@.skip(i as int);
            assert(rest[0] == next);
            assert(rest.skip(1) =~= mapping.positions@.skip(i as int + 1));
            assert(out@.skip(1) =~= before.skip(1) + leg);
            assert(before.skip(1) + (leg + spec_swipe_moves(
                next,
                mapping.positions@.skip(i as int + 1),
                mapping.interval as int,
                mapping.pointer_id,
                original_size,
                end as int,
            ).0) =~= (before.skip(1) + leg) + spec_swipe_moves(
                next,
                mapping.positions@.skip(i as int + 1),
                mapping.interval as int,
                mapping.pointer_id,
                original_size,
                end as int,
            ).0);
        }
        t = end;
        cur = next;
        i = i + 1;
    }
    proof {
        assert(mapping.positions@.skip(n as int) =~= Seq::<Position>::empty());
        assert(out@.skip(1) + Seq::<TimedMsg>::empty() =~= out@.skip(1));
    }
    let up = TimedMsg {
        delay_ms: t,
        msg: ControlMsgHelper::touch_msg(
            MotionEventAction::Up,
            mapping.pointer_id,
            original_size,
            cur,
        ),
    };
    proof {
        Seq::<TimedMsg>::lemma_filter_push(
            out@,
            up,
            |mm: TimedMsg| spec_is_touch_action(mm, MotionEventAction::Down),
        );
        Seq::<TimedMsg>::lemma_filter_push(
            out@,
            up,
            |mm: TimedMsg| spec_is_touch_action(mm, MotionEventAction::Up),
        );
    }
    let ghost before_up = out@;
    out.push(up);
    proof {
        assert(out@ =~= seq![before_up[0]] + before_up.skip(1) + seq![up]);
        assert(seq![before_up[0]] + before_up.skip(1) + seq![up] =~= (seq![before_up[0]]
            + before_up.skip(1)) + seq![up]);
    }
    out
}

} // verus!
