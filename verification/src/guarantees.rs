//! What holds of the controller over whole jumps and over runs of ticks.

use vstd::prelude::*;
use crate::arith::{clamp, lemma_sqrt_floor_exists};
use crate::driver::{
    random_advanced, random_due, script_due, script_waits, picked, drawn_duration, RandomCtrl,
    TestSeq,
};
use crate::model::{Action, Bounds, Direction, FlightKind, PetState, Point, Surface};
use crate::motion::{
    jump_goal, jump_speed, jump_time, landing_dir, lands, launched, stepped, takes_off,
};
use crate::physics::{
    discriminant, floor_jump_time, lemma_quotient_no_larger, time_of_flight, velocity_to_cover,
    virtual_bounds, FLOOR_JUMP_VY0, GRAVITY, LANDING_HOLD, MILLI, WALL_JUMP_VY0,
};
use crate::scenario::{continued, on_edge, snapped, TestCase};

verus! {

/// The state after the ticks `dts`, one motion step for each.
pub open spec fn run(s: PetState, b: Bounds, dts: Seq<u32>, corners: bool) -> PetState
    decreases dts.len(),
{
    if dts.len() == 0 {
        s
    } else {
        run(stepped(s, b, dts[0], corners), b, dts.drop_first(), corners)
    }
}

/// The microseconds that the ticks `dts` take together.
pub open spec fn total(dts: Seq<u32>) -> int
    decreases dts.len(),
{
    if dts.len() == 0 {
        0
    } else {
        dts[0] + total(dts.drop_first())
    }
}

/// A run of ticks takes no negative time.
pub proof fn lemma_total_nonnegative(dts: Seq<u32>)
    ensures
        total(dts) >= 0,
    decreases dts.len(),
{
    if dts.len() > 0 {
        lemma_total_nonnegative(dts.drop_first());
    }
}

/// A jump from the floor to the floor is planned on the symmetric arc:
/// its time is twice the takeoff speed over gravity, after that time the
/// pet is back at the height it left, and the horizontal velocity covers
/// the distance to the target in exactly that time.
pub proof fn lemma_floor_jump_reaches_target(s: PetState, b: Bounds)
    requires
        takes_off(s),
        s.surface == Surface::Floor,
        s.wall_target is None,
    ensures
        jump_time(s, b) == floor_jump_time(),
        floor_jump_time() * GRAVITY == 2 * (-FLOOR_JUMP_VY0) * 1_000_000,
        launched(s, b).vy == FLOOR_JUMP_VY0 * MILLI,
        2000 * launched(s, b).vy * floor_jump_time() + GRAVITY * floor_jump_time()
            * floor_jump_time() == 0,
        launched(s, b).vx * floor_jump_time() == (s.target_x - s.window_pos.x) * 1_000_000_000,
        launched(s, b).flight == FlightKind::Parabola,
        launched(s, b).flight_from == Surface::Floor,
{
    assert(floor_jump_time() == 1_000_000);
    let dx = s.target_x - s.window_pos.x;
    if dx >= 0 {
        assert((dx * 1_000_000_000) / 1_000_000 == dx * 1000);
    } else {
        assert((-(dx * 1_000_000_000)) / 1_000_000 == -dx * 1000);
    }
    assert(crate::physics::velocity_to_cover(dx, 1_000_000) == dx * 1000);
}

/// Every jump is planned to take some time, and the velocities it starts
/// with are those of the plan: the takeoff speed upward, and sideways the
/// distance to the goal over the planned time, to within a thousandth of
/// a pixel per second.
pub proof fn lemma_jump_covers_distance(s: PetState, b: Bounds)
    requires
        b.wf(),
        takes_off(s),
    ensures
        jump_time(s, b) > 0,
        launched(s, b).vy == jump_speed(s.surface) * MILLI,
        launched(s, b).vx == velocity_to_cover(
            jump_goal(s, b) - s.window_pos.x,
            jump_time(s, b),
        ),
        ({
            let dx = jump_goal(s, b) - s.window_pos.x;
            let covered = launched(s, b).vx * jump_time(s, b);
            if dx >= 0 {
                dx * 1_000_000_000 - jump_time(s, b) < covered <= dx * 1_000_000_000
            } else {
                dx * 1_000_000_000 <= covered < dx * 1_000_000_000 + jump_time(s, b)
            }
        }),
{
    let t = jump_time(s, b);
    let dx = jump_goal(s, b) - s.window_pos.x;
    match (s.surface, s.wall_target) {
        (Surface::Floor, Some(w)) => {
            lemma_time_of_flight_positive(FLOOR_JUMP_VY0 as int, b.max_y - w.y);
        },
        (Surface::Floor, None) => {},
        _ => {
            lemma_time_of_flight_positive(WALL_JUMP_VY0 as int, s.window_pos.y - b.max_y);
        },
    }
    assert(t > 0);
    lemma_quotient_no_larger(dx * 1_000_000_000, t);
    let n = if dx >= 0 {
        dx * 1_000_000_000
    } else {
        -(dx * 1_000_000_000)
    };
    assert(n == t * (n / t) + n % t && 0 <= n % t < t) by (nonlinear_arith)
        requires
            t > 0,
            n >= 0,
    ;
    assert((n / t) * t == t * (n / t)) by (nonlinear_arith);
    if dx < 0 {
        assert((-(n / t)) * t == -((n / t) * t)) by (nonlinear_arith);
    }
}

/// A flight that starts upward at `v0` pixels per second takes some time.
pub proof fn lemma_time_of_flight_positive(v0: int, c: int)
    requires
        v0 <= -2,
    ensures
        time_of_flight(v0, c) > 0,
{
    let disc = discriminant(v0, c);
    if disc >= 0 {
        assert(disc * 1_000_000 >= 0);
        lemma_sqrt_floor_exists(disc * 1_000_000);
    }
}

/// The tick on which a flight touches the floor sets the pet on the
/// floor line at its floor target, in the landing pose, facing away from
/// the wall it left or, after a jump from the floor, the way it flew.
pub proof fn lemma_touchdown(s: PetState, b: Bounds, dt: u32, corners: bool)
    requires
        b.wf(),
        s.flight == FlightKind::Parabola,
        lands(s, b, dt),
    ensures
        stepped(s, b, dt, corners).window_pos == (Point {
            x: clamp(s.target_x as int, 0, b.max_x as int) as i32,
            y: b.max_y,
        }),
        stepped(s, b, dt, corners).surface == Surface::Floor,
        stepped(s, b, dt, corners).flight == FlightKind::Grounded,
        stepped(s, b, dt, corners).dir == landing_dir(s.flight_from, s.vx),
        stepped(s, b, dt, corners).wall_target is None,
        dt < LANDING_HOLD ==> stepped(s, b, dt, corners).action == Action::Landing && stepped(
            s,
            b,
            dt,
            corners,
        ).landing_left == LANDING_HOLD - dt,
        dt >= LANDING_HOLD ==> stepped(s, b, dt, corners).action == Action::Move,
{
}

/// A jump off a wall toward a floor target on the screen lands exactly
/// there: on the target, on the floor line, facing left after a jump off
/// the right wall and right after one off the left wall.
pub proof fn lemma_wall_jump_lands_on_target(s: PetState, b: Bounds, dt: u32, corners: bool)
    requires
        b.wf(),
        s.flight == FlightKind::Parabola,
        s.flight_from == Surface::RightWall || s.flight_from == Surface::LeftWall,
        0 <= s.target_x <= b.max_x,
        lands(s, b, dt),
    ensures
        stepped(s, b, dt, corners).window_pos == (Point { x: s.target_x, y: b.max_y }),
        s.flight_from == Surface::RightWall ==> stepped(s, b, dt, corners).dir
            == Direction::Negative,
        s.flight_from == Surface::LeftWall ==> stepped(s, b, dt, corners).dir
            == Direction::Positive,
{
    lemma_touchdown(s, b, dt, corners);
}

/// A flight goes on until it touches the floor or the wall it aims at:
/// until then the pet stays in the air, in the pose it took off in.
pub proof fn lemma_flight_goes_on(s: PetState, b: Bounds, dt: u32, corners: bool)
    requires
        s.flight == FlightKind::Parabola,
        !lands(s, b, dt),
        !crate::motion::catches(s, b, dt),
    ensures
        stepped(s, b, dt, corners).flight == FlightKind::Parabola,
        stepped(s, b, dt, corners).surface == s.surface,
        stepped(s, b, dt, corners).flight_from == s.flight_from,
        stepped(s, b, dt, corners).dir == s.dir,
        stepped(s, b, dt, corners).vx == s.vx,
        stepped(s, b, dt, corners).target_x == s.target_x,
{
}

/// While the ticks since the landing sum to less than the hold, the pet
/// keeps the landing pose, and the hold shrinks by just that sum.
pub proof fn lemma_landing_hold_lasts(s: PetState, b: Bounds, dts: Seq<u32>, corners: bool)
    requires
        b.wf(),
        s.action == Action::Landing,
        s.flight == FlightKind::Grounded,
        total(dts) < s.landing_left,
    ensures
        run(s, b, dts, corners).action == Action::Landing,
        run(s, b, dts, corners).flight == FlightKind::Grounded,
        run(s, b, dts, corners).surface == s.surface,
        run(s, b, dts, corners).landing_left == s.landing_left - total(dts),
    decreases dts.len(),
{
    if dts.len() > 0 {
        lemma_total_nonnegative(dts.drop_first());
        let s1 = stepped(s, b, dts[0], corners);
        lemma_landing_hold_lasts(s1, b, dts.drop_first(), corners);
    }
}

/// On the tick with which the ticks since the landing reach the hold,
/// the pet goes back to walking; so the landing pose lasts as long as the
/// hold, to within one tick.
pub proof fn lemma_landing_hold_ends(
    s: PetState,
    b: Bounds,
    dts: Seq<u32>,
    last: u32,
    corners: bool,
)
    requires
        b.wf(),
        s.action == Action::Landing,
        s.flight == FlightKind::Grounded,
        total(dts) < s.landing_left <= total(dts) + last,
    ensures
        stepped(run(s, b, dts, corners), b, last, corners).action == Action::Move,
        stepped(run(s, b, dts, corners), b, last, corners).surface == s.surface,
        stepped(run(s, b, dts, corners), b, last, corners).flight == FlightKind::Grounded,
{
    lemma_landing_hold_lasts(s, b, dts, corners);
}

/// The flower-giving case lasts long enough for every frame of its row
/// to be shown once.
pub proof fn lemma_flowers_play_through()
    ensures
        crate::scenario::DUR_GIVING_FLOWERS >= crate::sheet::frames_in_row(
            crate::sheet::ROW_GIVING_FLOWERS as int,
        ) * crate::clock::frame_period(crate::visual::FPS_GIVING_FLOWERS),
{
}

/// Neither driver does anything while the pet is in the air, about to
/// jump or holding its landing.
pub proof fn lemma_drivers_wait_for_landing(
    seq: TestSeq,
    ctrl: RandomCtrl,
    s: PetState,
    sheet_ready: bool,
    dt: u32,
)
    requires
        s.flight != FlightKind::Grounded || s.action == Action::Jumping || s.action
            == Action::Landing,
    ensures
        !script_due(seq, s, sheet_ready, dt),
        !script_waits(seq, s, sheet_ready, dt),
        !random_due(ctrl, s, dt),
{
}

/// A driver that begins a case finds the pet on a surface, not about to
/// jump and done with its landing.
pub proof fn lemma_case_begins_on_ground(
    seq: TestSeq,
    ctrl: RandomCtrl,
    s: PetState,
    sheet_ready: bool,
    dt: u32,
)
    requires
        script_due(seq, s, sheet_ready, dt) || random_due(ctrl, s, dt),
    ensures
        s.flight == FlightKind::Grounded,
        s.action != Action::Jumping,
        s.action != Action::Landing,
{
}

/// The random driver moves the pet at most onto the edge of the surface
/// it is on: across the edge to the edge's coordinate, along it into the
/// screen.
pub proof fn lemma_random_case_snaps_to_edge(
    s: PetState,
    b: Bounds,
    screen_w: i32,
    seed: u32,
    case: TestCase,
)
    ensures
        continued(s, b, screen_w, seed, case).0.window_pos == snapped(
            case.surface,
            b,
            s.window_pos,
        ),
        continued(s, b, screen_w, seed, case).0.surface == case.surface,
        continued(s, b, screen_w, seed, case).0.flight == FlightKind::Grounded,
{
}

/// The random driver leaves a pet that is on the edge of its surface
/// where it is, and on that surface.
pub proof fn lemma_random_driver_keeps_position(s: PetState, fw: i32, fh: i32, seed: u32)
    requires
        on_edge(s.surface, virtual_bounds(fw, fh), s.window_pos),
    ensures
        random_advanced(s, fw, fh, seed).0.window_pos == s.window_pos,
        random_advanced(s, fw, fh, seed).0.surface == s.surface,
{
    let (case, s1) = picked(seed, s.surface);
    let (dur, s2) = drawn_duration(s1, case.action);
    lemma_random_case_snaps_to_edge(
        s,
        virtual_bounds(fw, fh),
        crate::physics::desktop_extent(crate::physics::DESKTOP_W as int, fw as int) as i32,
        s2,
        case,
    );
}

/// A pet on a surface moves along its edge only: after the step it is
/// still on the edge of the surface it was on, a corner included.
pub proof fn lemma_crawl_keeps_to_edge(s: PetState, b: Bounds, dt: u32, corners: bool)
    requires
        b.wf(),
        s.flight == FlightKind::Grounded,
        !takes_off(s),
    ensures
        on_edge(s.surface, b, stepped(s, b, dt, corners).window_pos),
        on_edge(
            stepped(s, b, dt, corners).surface,
            b,
            stepped(s, b, dt, corners).window_pos,
        ),
        stepped(s, b, dt, corners).flight == FlightKind::Grounded,
{
}

} // verus!
