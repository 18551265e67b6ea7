//! The motion of the sliding platform: when it takes a step, where the step
//! leads, and how the pace quickens from level to level.

use vstd::prelude::*;
use vstd::arithmetic::power::{lemma_pow0, pow};
use crate::config::{GAME_WIDTH, MOVE_INTERVAL, SPEED_INCREASE_DEN, SPEED_INCREASE_NUM};

verus! {

/// A platform of `width` columns at `pos` can go one column further in its
/// direction without leaving the field.
pub open spec fn has_room(pos: int, width: int, right: bool) -> bool {
    if right {
        pos + width < GAME_WIDTH
    } else {
        pos > 0
    }
}

/// Where the platform is after one step: one column further where it has
/// room, and where it was at the edge of the field, where the step only
/// turns it round.
pub open spec fn next_pos(pos: int, width: int, right: bool) -> int {
    if !has_room(pos, width, right) {
        pos
    } else if right {
        pos + 1
    } else {
        pos - 1
    }
}

/// Which way the platform heads after one step: the other way if it had no
/// room left, the same way otherwise.
pub open spec fn next_dir(pos: int, width: int, right: bool) -> bool {
    if has_room(pos, width, right) {
        right
    } else {
        !right
    }
}

/// Where the platform is after `steps` steps.
pub open spec fn pos_after(pos: int, width: int, right: bool, steps: nat) -> int
    decreases steps,
{
    if steps == 0 {
        pos
    } else {
        pos_after(
            next_pos(pos, width, right),
            width,
            next_dir(pos, width, right),
            (steps - 1) as nat,
        )
    }
}

/// Which way the platform heads after `steps` steps.
pub open spec fn dir_after(pos: int, width: int, right: bool, steps: nat) -> bool
    decreases steps,
{
    if steps == 0 {
        right
    } else {
        dir_after(
            next_pos(pos, width, right),
            width,
            next_dir(pos, width, right),
            (steps - 1) as nat,
        )
    }
}

/// A platform that lies on the field lies on the field after any number of
/// steps, whichever way it was heading.
pub proof fn lemma_platform_stays_on_field(pos: int, width: int, right: bool, steps: nat)
    requires
        0 <= pos,
        pos + width <= GAME_WIDTH,
    ensures
        0 <= pos_after(pos, width, right, steps),
        pos_after(pos, width, right, steps) + width <= GAME_WIDTH,
    decreases steps,
{
    if steps > 0 {
        lemma_platform_stays_on_field(
            next_pos(pos, width, right),
            width,
            next_dir(pos, width, right),
            (steps - 1) as nat,
        );
    }
}

/// A step turns the platform round exactly when its leading edge touches the
/// edge of the field, and then the platform stays where it is; any other step
/// moves it by one column and keeps its direction.
pub proof fn lemma_turns_at_the_edge(pos: int, width: int, right: bool)
    requires
        0 <= pos,
        pos + width <= GAME_WIDTH,
    ensures
        next_dir(pos, width, right) != right <==> (if right {
            pos + width == GAME_WIDTH
        } else {
            pos == 0
        }),
        next_dir(pos, width, right) != right ==> next_pos(pos, width, right) == pos,
        next_dir(pos, width, right) == right ==> next_pos(pos, width, right) == (if right {
            pos + 1
        } else {
            pos - 1
        }),
{
}

/// Whether the platform has room for a step.
pub fn room_for_step(pos: usize, width: usize, right: bool) -> (room: bool)
    ensures
        room == has_room(pos as int, width as int, right),
{
    if right {
        width < GAME_WIDTH && pos < GAME_WIDTH - width
    } else {
        pos > 0
    }
}

/// With `timer` nanoseconds gone since the last step and `dt` more passing
/// now, the step interval of `interval` nanoseconds is reached.
pub open spec fn step_due(timer: int, dt: int, interval: int) -> bool {
    timer + dt >= interval
}

/// Whether a step is due.
pub fn is_step_due(timer: u64, dt: u64, interval: u64) -> (due: bool)
    ensures
        due == step_due(timer as int, dt as int, interval as int),
{
    (timer as u128) + (dt as u128) >= interval as u128
}

/// The step interval that follows `interval` after a landing.
pub open spec fn sped_up(interval: nat) -> nat {
    interval * (SPEED_INCREASE_NUM as nat) / (SPEED_INCREASE_DEN as nat)
}

/// The step interval at `level`, in nanoseconds: `MOVE_INTERVAL` at level 0,
/// and shortened once for each level after that.
pub open spec fn interval_at(level: nat) -> nat
    decreases level,
{
    if level == 0 {
        MOVE_INTERVAL as nat
    } else {
        sped_up(interval_at((level - 1) as nat))
    }
}

/// The step interval after one more landing.
pub fn speed_up(interval: u64) -> (faster: u64)
    ensures
        faster == sped_up(interval as nat),
        faster <= interval,
{
    assert(interval * SPEED_INCREASE_NUM == 92 * interval) by (nonlinear_arith)
        requires
            SPEED_INCREASE_NUM == 92,
    ;
    let scaled: u128 = (interval as u128) * (SPEED_INCREASE_NUM as u128);
    let faster: u128 = scaled / (SPEED_INCREASE_DEN as u128);
    assert(faster == (92 * interval) / 100);
    faster as u64
}

/// The step interval never grows from one level to the next, and it shrinks
/// as long as it is not zero.
pub proof fn lemma_interval_decreases(level: nat)
    ensures
        interval_at(level + 1) <= interval_at(level),
        interval_at(level) > 0 ==> interval_at(level + 1) < interval_at(level),
        interval_at(level) <= MOVE_INTERVAL,
    decreases level,
{
    let interval = interval_at(level);
    assert(interval * SPEED_INCREASE_NUM == 92 * interval) by (nonlinear_arith)
        requires
            SPEED_INCREASE_NUM == 92,
    ;
    assert(interval_at(level + 1) == (92 * interval) / 100);
    if level > 0 {
        lemma_interval_decreases((level - 1) as nat);
    }
}

/// The step interval of a higher level is no longer than that of a lower one.
pub proof fn lemma_interval_monotonic(low: nat, high: nat)
    requires
        low <= high,
    ensures
        interval_at(high) <= interval_at(low),
    decreases high - low,
{
    if low < high {
        lemma_interval_monotonic(low, (high - 1) as nat);
        lemma_interval_decreases((high - 1) as nat);
    }
}

/// The step interval at `level` is `MOVE_INTERVAL` times the `level`-th power
/// of `SPEED_INCREASE_NUM / SPEED_INCREASE_DEN`, but for the rounding to whole
/// nanoseconds: it is never above that value and less than 13 ns below it.
pub proof fn lemma_interval_is_geometric(level: nat)
    ensures
        interval_at(level) * pow(SPEED_INCREASE_DEN as int, level) <= MOVE_INTERVAL * pow(
            SPEED_INCREASE_NUM as int,
            level,
        ),
        MOVE_INTERVAL * pow(SPEED_INCREASE_NUM as int, level) < (interval_at(level) + 13) * pow(
            SPEED_INCREASE_DEN as int,
            level,
        ),
        pow(SPEED_INCREASE_DEN as int, level) > 0,
        pow(SPEED_INCREASE_NUM as int, level) > 0,
    decreases level,
{
    if level == 0 {
        lemma_pow0(SPEED_INCREASE_DEN as int);
        lemma_pow0(SPEED_INCREASE_NUM as int);
    } else {
        let before = (level - 1) as nat;
        lemma_interval_is_geometric(before);
        let x = interval_at(before) as int;
        let y = interval_at(level) as int;
        let m = MOVE_INTERVAL as int;
        let p = pow(SPEED_INCREASE_DEN as int, before);
        let q = pow(SPEED_INCREASE_NUM as int, before);
        assert(pow(SPEED_INCREASE_DEN as int, level) == 100 * p) by {
            reveal(pow);
        }
        assert(pow(SPEED_INCREASE_NUM as int, level) == 92 * q) by {
            reveal(pow);
        }
        assert(x * SPEED_INCREASE_NUM == 92 * x) by (nonlinear_arith)
            requires
                SPEED_INCREASE_NUM == 92,
        ;
        assert(y == (92 * x) / 100);
        assert(y * (100 * p) <= m * (92 * q)) by (nonlinear_arith)
            requires
                100 * y <= 92 * x,
                x * p <= m * q,
                p > 0,
        ;
        assert(m * (92 * q) < (y + 13) * (100 * p)) by (nonlinear_arith)
            requires
                92 * x < 100 * y + 100,
                m * q < (x + 13) * p,
                p > 0,
        ;
        assert(pow(SPEED_INCREASE_DEN as int, level) > 0 && pow(SPEED_INCREASE_NUM as int, level)
            > 0) by (nonlinear_arith)
            requires
                pow(SPEED_INCREASE_DEN as int, level) == 100 * p,
                pow(SPEED_INCREASE_NUM as int, level) == 92 * q,
                p > 0,
                q > 0,
        ;
    }
}

} // verus!
