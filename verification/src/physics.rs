//! Kinematics of the pet: screen geometry, displacement over a tick, and
//! the velocities that carry a jump to its target.
//!
//! Speeds are in pixels per second, velocities of a flight in thousandths
//! of a pixel per second, times in microseconds.

use vstd::prelude::*;
use crate::arith::{clamp, clamp_to, div_floor, div_toward_zero, div_trunc, isqrt, sqrt_floor};
use crate::model::{Bounds, Point};

verus! {

/// Crawling speed on the floor.
pub const SPEED_FLOOR: i64 = 90;

/// Climbing speed on a wall.
pub const SPEED_WALL: i64 = 70;

/// Crawling speed on the ceiling.
pub const SPEED_CEIL: i64 = 90;

/// Downward acceleration in flight, in pixels per second squared.
pub const GRAVITY: i64 = 1800;

/// Vertical velocity at takeoff from the floor; negative is upward.
pub const FLOOR_JUMP_VY0: i64 = -900;

/// Vertical velocity at takeoff from a wall.
pub const WALL_JUMP_VY0: i64 = -880;

/// Speed of the slide along the floor while the landing pose is held.
pub const LANDING_DRIFT: i64 = 100;

/// Microseconds the landing pose is held.
pub const LANDING_HOLD: u32 = 500_000;

/// Distance kept from a corner when the pet is placed on a surface.
pub const START_MARGIN: i32 = 40;

/// Least width of the virtual desktop.
pub const DESKTOP_W: i32 = 1920;

/// Least height of the virtual desktop.
pub const DESKTOP_H: i32 = 1080;

/// The window shows the sprite at one part in this many of a frame's size.
pub const SHRINK: u32 = 5;

/// Thousandths of a pixel per second in a pixel per second.
pub const MILLI: i64 = 1000;

/// Extent of the virtual desktop along one axis: the least extent, or the
/// frame and a margin on either side if that is more.
pub open spec fn desktop_extent(least: int, frame: int) -> int {
    let padded = if frame + 2 * START_MARGIN > i32::MAX {
        i32::MAX as int
    } else {
        frame + 2 * START_MARGIN
    };
    if padded > least {
        padded
    } else {
        least
    }
}

/// How far a frame can travel across a screen along one axis.
pub open spec fn travel(screen: int, frame: int) -> int {
    clamp(screen - frame, 0, i32::MAX as int)
}

/// The bounds of a window of `fw` by `fh` pixels on a screen of
/// `screen_w` by `screen_h`.
pub open spec fn bounds_on(screen_w: i32, screen_h: i32, fw: i32, fh: i32) -> Bounds {
    Bounds {
        max_x: travel(screen_w as int, fw as int) as i32,
        max_y: travel(screen_h as int, fh as int) as i32,
    }
}

/// The bounds of a window of `fw` by `fh` pixels on the virtual desktop.
pub open spec fn virtual_bounds(fw: i32, fh: i32) -> Bounds {
    Bounds {
        max_x: travel(desktop_extent(DESKTOP_W as int, fw as int), fw as int) as i32,
        max_y: travel(desktop_extent(DESKTOP_H as int, fh as int), fh as int) as i32,
    }
}

/// Extent of the virtual desktop along one axis.
pub fn desktop_side(least: i32, frame: i32) -> (side: i32)
    ensures
        side == desktop_extent(least as int, frame as int),
{
    let padded: i64 = frame as i64 + 2 * (START_MARGIN as i64);
    let padded: i32 = if padded > i32::MAX as i64 {
        i32::MAX
    } else {
        padded as i32
    };
    if padded > least {
        padded
    } else {
        least
    }
}

/// How far a frame can travel across a screen along one axis.
pub fn travel_of(screen: i32, frame: i32) -> (t: i32)
    ensures
        t == travel(screen as int, frame as int),
        t >= 0,
{
    clamp_to(screen as i128 - frame as i128, 0, i32::MAX)
}

/// The bounds of the window on a screen of the given size.
pub fn screen_bounds(screen_w: i32, screen_h: i32, fw: i32, fh: i32) -> (b: Bounds)
    ensures
        b == bounds_on(screen_w, screen_h, fw, fh),
        b.wf(),
{
    Bounds { max_x: travel_of(screen_w, fw), max_y: travel_of(screen_h, fh) }
}

/// The bounds of the window on the virtual desktop.
pub fn desktop_bounds(fw: i32, fh: i32) -> (b: Bounds)
    ensures
        b == virtual_bounds(fw, fh),
        b.wf(),
{
    Bounds {
        max_x: travel_of(desktop_side(DESKTOP_W, fw), fw),
        max_y: travel_of(desktop_side(DESKTOP_H, fh), fh),
    }
}

/// Where the window is first put on a monitor `monitor_h` pixels high,
/// for a window `window_h` pixels high: a margin in from the left, and
/// above the bottom by the margin.
pub open spec fn first_position(monitor_h: i32, window_h: i32) -> Point {
    Point {
        x: START_MARGIN,
        y: clamp(monitor_h - window_h - START_MARGIN, i32::MIN as int, i32::MAX as int) as i32,
    }
}

/// Where the window is first put.
pub fn start_position(monitor_h: i32, window_h: i32) -> (p: Point)
    ensures
        p == first_position(monitor_h, window_h),
{
    let y: i128 = monitor_h as i128 - window_h as i128 - START_MARGIN as i128;
    Point { x: START_MARGIN, y: clamp_to(y, i32::MIN, i32::MAX) }
}

/// Width and height of the window for a frame of `frame_w` by `frame_h`
/// pixels, rounded down.
pub fn window_size(frame_w: u32, frame_h: u32) -> (size: (u32, u32))
    ensures
        size.0 == frame_w as int / SHRINK as int,
        size.1 == frame_h as int / SHRINK as int,
{
    (frame_w / 5, frame_h / 5)
}

/// The coordinate reached from `x` after `dt` microseconds at `v`
/// thousandths of a pixel per second, rounded down to a whole pixel.
pub open spec fn displaced(x: int, v: int, dt: int) -> int {
    (x * 1_000_000_000 + v * dt) / 1_000_000_000
}

/// The coordinate reached from `x` after `dt` microseconds at velocity `v`.
pub fn displace(x: i32, v: i64, dt: u32) -> (r: i128)
    ensures
        r == displaced(x as int, v as int, dt as int),
{
    assert(-0x8000_0000_0000_0000 * 0x1_0000_0000 <= v * dt <= 0x8000_0000_0000_0000
        * 0x1_0000_0000) by (nonlinear_arith)
        requires
            -0x8000_0000_0000_0000 <= v <= 0x8000_0000_0000_0000,
            0 <= dt <= 0x1_0000_0000,
    ;
    let num: i128 = (x as i128) * 1_000_000_000 + (v as i128) * (dt as i128);
    div_floor(num, 1_000_000_000)
}

/// Velocity gained under gravity in `dt` microseconds.
pub open spec fn gravity_gain(dt: int) -> int {
    GRAVITY * dt / 1000
}

/// Vertical velocity after `dt` microseconds of fall from `vy`; it stops
/// growing at the largest value that the state can hold.
pub open spec fn fallen(vy: int, dt: int) -> int {
    if vy + gravity_gain(dt) > i64::MAX {
        i64::MAX as int
    } else {
        vy + gravity_gain(dt)
    }
}

/// Vertical velocity after `dt` microseconds of fall from `vy`.
pub fn fall(vy: i64, dt: u32) -> (v: i64)
    ensures
        v == fallen(vy as int, dt as int),
{
    let gain: i64 = GRAVITY * (dt as i64) / 1000;
    let sum: i128 = vy as i128 + gain as i128;
    if sum > i64::MAX as i128 {
        i64::MAX
    } else {
        sum as i64
    }
}

/// Discriminant of the equation `GRAVITY/2 * t^2 + v0 * t + c = 0` for the
/// time `t` in seconds at which a body thrown with vertical velocity `v0`
/// has fallen by `-c` pixels.
pub open spec fn discriminant(v0: int, c: int) -> int {
    v0 * v0 - 2 * GRAVITY * c
}

/// The later of the two times, in microseconds, at which a body thrown
/// upward with velocity `v0` stands `c` pixels below its target height:
/// `(-v0 + sqrt(disc)) / GRAVITY` seconds. Where the body never gets that
/// high the time is one second.
pub open spec fn time_of_flight(v0: int, c: int) -> int {
    let disc = discriminant(v0, c);
    if disc >= 0 {
        (-v0 * 1000 + sqrt_floor(disc * 1_000_000)) * 1000 / (GRAVITY as int)
    } else {
        1_000_000
    }
}

/// Time in microseconds of a jump from the floor back to the floor:
/// twice the takeoff speed over gravity.
pub open spec fn floor_jump_time() -> int {
    2 * (-FLOOR_JUMP_VY0) * 1_000_000 / (GRAVITY as int)
}

/// The velocity that covers `dx` pixels in `t` microseconds, rounded
/// toward zero; none if there is no time.
pub open spec fn velocity_to_cover(dx: int, t: int) -> int {
    if t > 0 {
        div_toward_zero(dx * 1_000_000_000, t)
    } else {
        0
    }
}

/// The time at which a body thrown upward with velocity `v0` stands `c`
/// pixels below its target height.
pub fn flight_time(v0: i64, c: i64) -> (t: u64)
    requires
        -1000 <= v0 <= -1,
        -0x1_0000_0000 <= c <= 0x1_0000_0000,
    ensures
        t == time_of_flight(v0 as int, c as int),
        1 <= t <= 0x1_0000_0000,
{
    assert(1 <= v0 * v0 <= 1_000_000) by (nonlinear_arith)
        requires
            -1000 <= v0 <= -1,
    ;
    assert(2 * GRAVITY * c == 3600 * c) by (nonlinear_arith)
        requires
            GRAVITY == 1800,
    ;
    let disc: i64 = v0 * v0 - 3600 * c;
    if disc >= 0 {
        let root: u64 = isqrt(disc as u64 * 1_000_000);
        let t = ((-v0) as u64 * 1000 + root) * 1000 / 1800;
        t
    } else {
        1_000_000
    }
}

/// The velocity that covers `dx` pixels in `t` microseconds.
pub fn velocity_for(dx: i64, t: u64) -> (v: i64)
    requires
        -0x1_0000_0000 <= dx <= 0x1_0000_0000,
    ensures
        v == velocity_to_cover(dx as int, t as int),
{
    if t > 0 {
        let num: i128 = dx as i128 * 1_000_000_000;
        let q = div_trunc(num, t as i128);
        proof {
            lemma_quotient_no_larger(num as int, t as int);
        }
        q as i64
    } else {
        0
    }
}

/// Dividing by a positive number brings a number no farther from zero.
pub proof fn lemma_quotient_no_larger(a: int, b: int)
    by (nonlinear_arith)
    requires
        b >= 1,
    ensures
        a >= 0 ==> 0 <= div_toward_zero(a, b) <= a,
        a < 0 ==> a <= div_toward_zero(a, b) <= 0,
{
    if a >= 0 {
        assert(a == b * (a / b) + a % b);
        assert(0 <= a % b < b);
        assert(a / b >= 0);
        assert(a / b <= a);
    } else {
        let n = -a;
        assert(n == b * (n / b) + n % b);
        assert(0 <= n % b < b);
        assert(n / b >= 0);
        assert(n / b <= n);
    }
}

} // verus!
