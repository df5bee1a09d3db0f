use vstd::prelude::*;
use crate::player::HORIZONTAL_SPEED;
use crate::player::Player;
use crate::style::MAX_COORD;
use crate::utils::Range;
use crate::utils::div_toward_zero;

verus! {

/// How far ahead of the craft the camera looks at top speed, in thousandths
/// of half the window's width.
pub const CAMERA_OFFSET: i64 = 618;

/// The speed of the camera, in ticks per millisecond.
pub const CAMERA_SPEED: i64 = 750;

/// The largest width of a window that the camera accepts, in ticks.
pub const MAX_WINDOW: i64 = 1_000_000_000;

/// The altitude of the camera: the middle of the window.
pub fn window_height_center(window_height: i64) -> (y: i64)
    requires
        0 <= window_height,
    ensures
        y == window_height / 2,
{
    window_height / 2
}

/// How far ahead of the craft the camera wants to be: the look-ahead grows
/// with the craft's speed, up to the camera offset's share of half the
/// window at top speed, and points the way the craft flies.
pub open spec fn look_ahead(speed: int, window_width: int) -> int {
    div_toward_zero(speed * CAMERA_OFFSET * window_width, 2_000 * HORIZONTAL_SPEED)
}

/// Where the camera wants to be.
pub open spec fn camera_goal(player_x: int, speed: int, window_width: int) -> int {
    player_x + look_ahead(speed, window_width)
}

/// The look-ahead of the camera for a craft at the given speed.
pub fn camera_look_ahead(speed: i64, window_width: i64) -> (r: i64)
    requires
        -HORIZONTAL_SPEED <= speed <= HORIZONTAL_SPEED,
        0 <= window_width <= MAX_WINDOW,
    ensures
        r == look_ahead(speed as int, window_width as int),
        -MAX_WINDOW <= r <= MAX_WINDOW,
{
    let w: i128 = window_width as i128;
    let a: i128 = if speed < 0 { -(speed as i128) } else { speed as i128 };
    assert(0 <= a * 618 * w <= 600_000 * 618 * w) by (nonlinear_arith)
        requires
            0 <= a <= 600_000,
            0 <= w,
    ;
    assert(600_000 * 618 * w <= 600_000 * 618 * 1_000_000_000) by (nonlinear_arith)
        requires
            w <= 1_000_000_000,
    ;
    let q: i128 = a * 618 * w / 1_200_000_000;
    proof {
        if speed < 0 {
            assert(-(speed * 618 * window_width) == a * 618 * w) by (nonlinear_arith)
                requires
                    a == -speed,
                    w == window_width,
            ;
            assert(speed * 618 * window_width <= 0) by (nonlinear_arith)
                requires
                    speed < 0,
                    window_width >= 0,
            ;
        } else {
            assert(speed * 618 * window_width == a * 618 * w) by (nonlinear_arith)
                requires
                    a == speed,
                    w == window_width,
            ;
        }
    }
    if speed < 0 {
        (-q) as i64
    } else {
        q as i64
    }
}

/// The camera's x after one frame: it moves toward its goal ahead of the
/// craft at the camera's speed and stops there.
pub fn follow_player(
    camera_x: i64,
    player_x: i64,
    player: &Player,
    window_width: i64,
    dt_ms: u32,
) -> (x: i64)
    requires
        player.wf(),
        -MAX_COORD <= camera_x <= MAX_COORD,
        -MAX_COORD <= player_x <= MAX_COORD,
        0 <= window_width <= MAX_WINDOW,
    ensures
        x == (Range {
            start: camera_x,
            end: camera_goal(
                player_x as int,
                player.horizontal_speed as int,
                window_width as int,
            ) as i64,
        }).step_spec(CAMERA_SPEED * dt_ms),
{
    let end: i64 = player_x + camera_look_ahead(player.horizontal_speed, window_width);
    let amount: i64 = CAMERA_SPEED * (dt_ms as i64);
    (Range { start: camera_x, end }).step(amount)
}

} // verus!
