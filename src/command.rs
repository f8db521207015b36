//! From one signed command to the duty cycles of the two channels.
use vstd::prelude::*;
use vstd::arithmetic::div_mod::{lemma_div_by_multiple, lemma_div_is_ordered, lemma_div_pos_is_pos};
use crate::interval::map_spec;

verus! {

/// The fixed-point unit: a duty cycle or a command of `FULL_SCALE` stands
/// for `1.0`.
pub const FULL_SCALE: i32 = 1_000_000;

/// `value` clamped into `-FULL_SCALE..=FULL_SCALE`.
pub open spec fn clamp_spec(value: int) -> int {
    if value > FULL_SCALE {
        FULL_SCALE as int
    } else if value < -FULL_SCALE {
        -FULL_SCALE
    } else {
        value
    }
}

/// The duty cycle for a command of size `magnitude` in `(0, FULL_SCALE]`:
/// `magnitude` carried from `(0, FULL_SCALE]` onto `(min_duty, FULL_SCALE]`.
pub open spec fn dead_zone_spec(min_duty: int, magnitude: int) -> int {
    map_spec(magnitude, 0, FULL_SCALE as int, min_duty, FULL_SCALE as int)
}

/// The duty cycles `(channel_a, channel_b)` that a command `value` asks for:
/// both zero for zero, the rescaled size on `channel_b` for a positive
/// command, on `channel_a` for a negative one.
pub open spec fn planned_duties(min_duty: int, value: int) -> (int, int) {
    let v = clamp_spec(value);
    if v == 0 {
        (0, 0)
    } else if v > 0 {
        (0, dead_zone_spec(min_duty, v))
    } else {
        (dead_zone_spec(min_duty, -v), 0)
    }
}

/// The duty cycles of the two channels of one actuator.
#[derive(Clone, Copy, Debug, PartialEq, Eq, Structural)]
pub struct DutyPair {
    pub a: u32,
    pub b: u32,
}

impl View for DutyPair {
    type V = (int, int);

    open spec fn view(&self) -> (int, int) {
        (self.a as int, self.b as int)
    }
}

/// Clamps a command into `-FULL_SCALE..=FULL_SCALE`.
pub fn clamp_command(value: i32) -> (r: i32)
    ensures
        r == clamp_spec(value as int),
{
    if value > FULL_SCALE {
        FULL_SCALE
    } else if value < -FULL_SCALE {
        -FULL_SCALE
    } else {
        value
    }
}

/// A command of nonzero size never falls into the dead zone: its duty cycle
/// lies between the floor and full scale, and is never zero.
pub proof fn lemma_dead_zone_range(min_duty: int, magnitude: int)
    requires
        0 <= min_duty <= FULL_SCALE,
        0 < magnitude <= FULL_SCALE,
    ensures
        min_duty <= dead_zone_spec(min_duty, magnitude) <= FULL_SCALE,
        dead_zone_spec(min_duty, magnitude) > 0,
{
    let f = FULL_SCALE as int;
    let k = f - min_duty;
    let n = magnitude * k;
    assert(0 <= n <= f * k) by (nonlinear_arith)
        requires
            0 < magnitude <= f,
            0 <= k,
            n == magnitude * k,
    ;
    lemma_div_pos_is_pos(n, f);
    lemma_div_is_ordered(n, k * f, f);
    lemma_div_by_multiple(k, f);
    assert(f * k == k * f) by (nonlinear_arith);
    if min_duty == 0 {
        lemma_div_by_multiple(magnitude, f);
        assert(n == magnitude * f);
    }
}

/// The duty cycle for a command of size `magnitude` in `(0, FULL_SCALE]`,
/// given the dead-zone floor `min_duty_cycle`.
pub fn dead_zone_duty(min_duty_cycle: u32, magnitude: i32) -> (r: u32)
    requires
        min_duty_cycle <= FULL_SCALE,
        0 < magnitude <= FULL_SCALE,
    ensures
        r == dead_zone_spec(min_duty_cycle as int, magnitude as int),
{
    proof {
        lemma_dead_zone_range(min_duty_cycle as int, magnitude as int);
    }
    let d: i32 = crate::interval::map(magnitude, (0, FULL_SCALE), (min_duty_cycle as i32, FULL_SCALE));
    d as u32
}

/// The duty cycles that the command `value` asks for, given the dead-zone
/// floor `min_duty_cycle`. Out-of-range commands are clamped, not refused.
pub fn plan_duties(min_duty_cycle: u32, value: i32) -> (r: DutyPair)
    requires
        min_duty_cycle <= FULL_SCALE,
    ensures
        r@ == planned_duties(min_duty_cycle as int, value as int),
        r.a <= FULL_SCALE,
        r.b <= FULL_SCALE,
        r.a == 0 || r.b == 0,
{
    let v: i32 = clamp_command(value);
    if v == 0 {
        DutyPair { a: 0, b: 0 }
    } else if v > 0 {
        proof {
            lemma_dead_zone_range(min_duty_cycle as int, v as int);
        }
        DutyPair { a: 0, b: dead_zone_duty(min_duty_cycle, v) }
    } else {
        proof {
            lemma_dead_zone_range(min_duty_cycle as int, -v);
        }
        DutyPair { a: dead_zone_duty(min_duty_cycle, -v), b: 0 }
    }
}

/// Clamping: every command at or beyond full scale asks for exactly what
/// full scale asks for, in either direction.
pub proof fn lemma_clamp_saturates(min_duty: int, value: int)
    ensures
        value >= FULL_SCALE ==> planned_duties(min_duty, value) == planned_duties(
            min_duty,
            FULL_SCALE as int,
        ),
        value <= -FULL_SCALE ==> planned_duties(min_duty, value) == planned_duties(
            min_duty,
            -FULL_SCALE,
        ),
{
}

/// Dead-zone floor: a positive command leaves `channel_a` at zero and puts on
/// `channel_b` a duty cycle at least the floor, at most full scale, and
/// never zero.
pub proof fn lemma_positive_command_clears_dead_zone(min_duty: int, value: int)
    requires
        0 <= min_duty <= FULL_SCALE,
        value > 0,
    ensures
        planned_duties(min_duty, value).0 == 0,
        min_duty <= planned_duties(min_duty, value).1 <= FULL_SCALE,
        planned_duties(min_duty, value).1 != 0,
{
    lemma_dead_zone_range(min_duty, clamp_spec(value));
}

/// The mirror image for a negative command, on `channel_a`.
pub proof fn lemma_negative_command_clears_dead_zone(min_duty: int, value: int)
    requires
        0 <= min_duty <= FULL_SCALE,
        value < 0,
    ensures
        planned_duties(min_duty, value).1 == 0,
        min_duty <= planned_duties(min_duty, value).0 <= FULL_SCALE,
        planned_duties(min_duty, value).0 != 0,
{
    lemma_dead_zone_range(min_duty, -clamp_spec(value));
}

/// A zero command sets both channels to zero.
pub proof fn lemma_zero_command_stops(min_duty: int)
    ensures
        planned_duties(min_duty, 0) == (0int, 0int),
{
}

/// A command in `(0, FULL_SCALE]` leaves `channel_a` at zero and puts on
/// `channel_b` the command carried from `(0, FULL_SCALE)` onto
/// `(min_duty, FULL_SCALE)`.
pub proof fn lemma_positive_command_drives_b(min_duty: int, value: int)
    requires
        0 < value <= FULL_SCALE,
    ensures
        planned_duties(min_duty, value) == (0int, map_spec(value, 0, FULL_SCALE as int, min_duty, FULL_SCALE as int)),
{
}

/// A command in `[-FULL_SCALE, 0)` leaves `channel_b` at zero and puts on
/// `channel_a` the size of the command carried from `(0, FULL_SCALE)` onto
/// `(min_duty, FULL_SCALE)`.
pub proof fn lemma_negative_command_drives_a(min_duty: int, value: int)
    requires
        -FULL_SCALE <= value < 0,
    ensures
        planned_duties(min_duty, value) == (map_spec(-value, 0, FULL_SCALE as int, min_duty, FULL_SCALE as int), 0int),
{
}

/// Mutual exclusion: no command asks for a nonzero duty cycle on both
/// channels at once.
pub proof fn lemma_planned_duties_exclusive(min_duty: int, value: int)
    ensures
        planned_duties(min_duty, value).0 == 0 || planned_duties(min_duty, value).1 == 0,
{
}

} // verus!
