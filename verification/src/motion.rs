//! The motion step: once per tick the pet crawls along its surface, takes
//! off, flies under gravity, lands or holds its landing pose.

use vstd::prelude::*;
use crate::arith::{clamp, clamp_to};
use crate::clock::Anim;
use crate::model::{Action, Bounds, Direction, FlightKind, PetState, Point, Surface};
use crate::physics::{
    desktop_bounds, displace, displaced, fall, fallen, flight_time, floor_jump_time,
    time_of_flight, velocity_for, velocity_to_cover, virtual_bounds, FLOOR_JUMP_VY0, GRAVITY,
    LANDING_DRIFT, LANDING_HOLD, MILLI, SPEED_CEIL, SPEED_FLOOR, SPEED_WALL, WALL_JUMP_VY0,
};
use crate::visual::{visual_for, visual_of, Visual};

verus! {

/// Whether the pet leaves its surface on this tick: it was told to jump,
/// is not yet in the air, and is not on the ceiling, where jumps are off.
pub open spec fn takes_off(s: PetState) -> bool {
    s.action == Action::Jumping && s.flight == FlightKind::Grounded && s.surface
        != Surface::Ceiling
}

/// The horizontal coordinate that a jump from the state aims at: the
/// targeted wall's edge, else the floor target.
pub open spec fn jump_goal(s: PetState, b: Bounds) -> int {
    match (s.surface, s.wall_target) {
        (Surface::Floor, Some(w)) => if w.wall == Surface::LeftWall {
            0
        } else {
            b.max_x as int
        },
        _ => s.target_x as int,
    }
}

/// Vertical velocity at takeoff, in pixels per second.
pub open spec fn jump_speed(surface: Surface) -> int {
    if surface == Surface::Floor {
        FLOOR_JUMP_VY0 as int
    } else {
        WALL_JUMP_VY0 as int
    }
}

/// The time in microseconds that a jump from the state is planned to
/// take: from the floor to the floor the symmetric arc; from the floor to
/// a wall the time at which the pet comes down to the targeted height;
/// from a wall the time to fall to the floor line.
pub open spec fn jump_time(s: PetState, b: Bounds) -> int {
    match (s.surface, s.wall_target) {
        (Surface::Floor, Some(w)) => time_of_flight(FLOOR_JUMP_VY0 as int, b.max_y - w.y),
        (Surface::Floor, None) => floor_jump_time(),
        _ => time_of_flight(WALL_JUMP_VY0 as int, s.window_pos.y - b.max_y),
    }
}

/// The state at takeoff: the horizontal velocity covers the distance to
/// the goal in the planned time.
pub open spec fn launched(s: PetState, b: Bounds) -> PetState {
    PetState {
        flight: FlightKind::Parabola,
        flight_from: s.surface,
        vx: velocity_to_cover(jump_goal(s, b) - s.window_pos.x, jump_time(s, b)) as i64,
        vy: (jump_speed(s.surface) * MILLI) as i64,
        landing_left: 0,
        ..s
    }
}

/// The state after `dt` microseconds of free flight: gravity acts on the
/// velocity first, the new velocity moves the pet, and the position is
/// held to the screen.
pub open spec fn drifted(s: PetState, b: Bounds, dt: u32) -> PetState {
    let vy = fallen(s.vy as int, dt as int);
    PetState {
        vy: vy as i64,
        window_pos: Point {
            x: clamp(displaced(s.window_pos.x as int, s.vx as int, dt as int), 0, b.max_x as int) as i32,
            y: clamp(displaced(s.window_pos.y as int, vy, dt as int), 0, b.max_y as int) as i32,
        },
        ..s
    }
}

/// Whether the pet in flight has come to the edge of the wall it aims at.
pub open spec fn reaches_wall(s: PetState, b: Bounds) -> bool {
    match s.wall_target {
        Some(w) => (w.wall == Surface::LeftWall && s.window_pos.x <= 0) || (w.wall
            == Surface::RightWall && s.window_pos.x >= b.max_x),
        None => false,
    }
}

/// The state once the targeted wall caught the pet: on the wall's edge at
/// the targeted height, climbing upward if it still rose, else downward.
pub open spec fn caught(s: PetState, b: Bounds) -> PetState
    recommends
        s.wall_target is Some,
{
    let w = s.wall_target->0;
    PetState {
        flight: FlightKind::Grounded,
        surface: w.wall,
        action: Action::Climb,
        dir: if s.vy <= 0 {
            Direction::Positive
        } else {
            Direction::Negative
        },
        window_pos: Point {
            x: if w.wall == Surface::LeftWall {
                0
            } else {
                b.max_x
            },
            y: clamp(w.y as int, 0, b.max_y as int) as i32,
        },
        wall_target: None,
        ..s
    }
}

/// The facing after a landing: away from the wall the pet jumped off, or,
/// after a jump from the floor, the way it flew.
pub open spec fn landing_dir(from: Surface, vx: i64) -> Direction {
    match from {
        Surface::RightWall => Direction::Negative,
        Surface::LeftWall => Direction::Positive,
        _ => Direction::of(vx as int),
    }
}

/// The state once the pet touched the floor: on the floor target, holding
/// the landing pose.
pub open spec fn landed(s: PetState, b: Bounds) -> PetState {
    PetState {
        flight: FlightKind::Grounded,
        surface: Surface::Floor,
        action: Action::Landing,
        dir: landing_dir(s.flight_from, s.vx),
        window_pos: Point {
            x: clamp(s.target_x as int, 0, b.max_x as int) as i32,
            y: s.window_pos.y,
        },
        landing_left: LANDING_HOLD,
        wall_target: None,
        ..s
    }
}

/// Whether a tick of `dt` microseconds ends the flight on the targeted wall.
pub open spec fn catches(s: PetState, b: Bounds, dt: u32) -> bool {
    reaches_wall(drifted(s, b, dt), b)
}

/// Whether a tick of `dt` microseconds ends the flight on the floor.
pub open spec fn lands(s: PetState, b: Bounds, dt: u32) -> bool {
    !catches(s, b, dt) && drifted(s, b, dt).window_pos.y >= b.max_y
}

/// The state of a pet in flight after a tick of `dt` microseconds.
pub open spec fn flown(s: PetState, b: Bounds, dt: u32) -> PetState {
    if catches(s, b, dt) {
        caught(drifted(s, b, dt), b)
    } else if lands(s, b, dt) {
        landed(drifted(s, b, dt), b)
    } else {
        drifted(s, b, dt)
    }
}

/// Velocity along the surface, in thousandths of a pixel per second, of a
/// pet that moves at `speed` pixels per second in direction `dir`.
pub open spec fn along(speed: i64, dir: Direction) -> int {
    speed * MILLI * dir.sign()
}

/// The state of a pet on the floor after `dt` microseconds. It advances
/// only while it walks or slides out of a landing. With `corners` set, a
/// walk that reaches a corner goes on up the wall there.
pub open spec fn crawled_floor(s: PetState, b: Bounds, dt: u32, corners: bool) -> PetState {
    let x = s.window_pos.x as int;
    match s.action {
        Action::Move => {
            let x1 = displaced(x, along(SPEED_FLOOR, s.dir), dt as int);
            if corners && x1 <= 0 {
                PetState {
                    surface: Surface::LeftWall,
                    action: Action::Climb,
                    dir: Direction::Positive,
                    window_pos: Point { x: 0, y: b.max_y },
                    ..s
                }
            } else if corners && x1 >= b.max_x {
                PetState {
                    surface: Surface::RightWall,
                    action: Action::Climb,
                    dir: Direction::Positive,
                    window_pos: Point { x: b.max_x, y: b.max_y },
                    ..s
                }
            } else {
                PetState {
                    window_pos: Point { x: clamp(x1, 0, b.max_x as int) as i32, y: b.max_y },
                    ..s
                }
            }
        },
        Action::Landing => PetState {
            window_pos: Point {
                x: clamp(
                    displaced(x, along(LANDING_DRIFT, s.dir), dt as int),
                    0,
                    b.max_x as int,
                ) as i32,
                y: b.max_y,
            },
            ..s
        },
        _ => PetState {
            window_pos: Point { x: clamp(x, 0, b.max_x as int) as i32, y: b.max_y },
            ..s
        },
    }
}

/// The state of a pet on a wall after `dt` microseconds; `edge_x` is the
/// wall's coordinate and `inward` the direction that leads away from the
/// wall along floor and ceiling. It advances only while it climbs, upward
/// in the positive direction. With `corners` set, a climb that reaches
/// the top goes on along the ceiling and one that reaches the bottom
/// along the floor.
pub open spec fn crawled_wall(
    s: PetState,
    b: Bounds,
    dt: u32,
    corners: bool,
    edge_x: i32,
    inward: Direction,
) -> PetState {
    let y = s.window_pos.y as int;
    if s.action == Action::Climb {
        let y1 = displaced(y, -along(SPEED_WALL, s.dir), dt as int);
        if corners && y1 <= 0 && s.dir == Direction::Positive {
            PetState {
                surface: Surface::Ceiling,
                action: Action::Climb,
                dir: inward,
                window_pos: Point { x: edge_x, y: 0 },
                ..s
            }
        } else if corners && y1 >= b.max_y && s.dir == Direction::Negative {
            PetState {
                surface: Surface::Floor,
                action: Action::Move,
                dir: inward,
                window_pos: Point { x: edge_x, y: b.max_y },
                ..s
            }
        } else {
            PetState {
                window_pos: Point { x: edge_x, y: clamp(y1, 0, b.max_y as int) as i32 },
                ..s
            }
        }
    } else {
        PetState { window_pos: Point { x: edge_x, y: clamp(y, 0, b.max_y as int) as i32 }, ..s }
    }
}

/// The state of a pet on the ceiling after `dt` microseconds. It advances
/// only while it climbs. With `corners` set, a climb that reaches a
/// corner goes on down the wall there.
pub open spec fn crawled_ceiling(s: PetState, b: Bounds, dt: u32, corners: bool) -> PetState {
    let x = s.window_pos.x as int;
    if s.action == Action::Climb {
        let x1 = displaced(x, along(SPEED_CEIL, s.dir), dt as int);
        if corners && x1 <= 0 && s.dir == Direction::Negative {
            PetState {
                surface: Surface::LeftWall,
                action: Action::Climb,
                dir: Direction::Negative,
                window_pos: Point { x: 0, y: 0 },
                ..s
            }
        } else if corners && x1 >= b.max_x && s.dir == Direction::Positive {
            PetState {
                surface: Surface::RightWall,
                action: Action::Climb,
                dir: Direction::Negative,
                window_pos: Point { x: b.max_x, y: 0 },
                ..s
            }
        } else {
            PetState { window_pos: Point { x: clamp(x1, 0, b.max_x as int) as i32, y: 0 }, ..s }
        }
    } else {
        PetState { window_pos: Point { x: clamp(x, 0, b.max_x as int) as i32, y: 0 }, ..s }
    }
}

/// The state of a pet on a surface after `dt` microseconds.
pub open spec fn crawled(s: PetState, b: Bounds, dt: u32, corners: bool) -> PetState {
    match s.surface {
        Surface::Floor => crawled_floor(s, b, dt, corners),
        Surface::RightWall => crawled_wall(s, b, dt, corners, b.max_x, Direction::Negative),
        Surface::Ceiling => crawled_ceiling(s, b, dt, corners),
        Surface::LeftWall => crawled_wall(s, b, dt, corners, 0, Direction::Positive),
    }
}

/// The state after `dt` microseconds of the landing hold: when the hold
/// runs out the pet walks on.
pub open spec fn held(s: PetState, dt: u32) -> PetState {
    if s.action == Action::Landing {
        if dt >= s.landing_left {
            PetState { action: Action::Move, landing_left: 0, ..s }
        } else {
            PetState { landing_left: (s.landing_left - dt) as u32, ..s }
        }
    } else {
        s
    }
}

/// The state as the tick finds it once a due takeoff is made.
pub open spec fn readied(s: PetState, b: Bounds) -> PetState {
    if takes_off(s) {
        launched(s, b)
    } else {
        s
    }
}

/// The whole motion step: a takeoff if one is due, then flight or crawl,
/// then the landing hold.
pub open spec fn stepped(s: PetState, b: Bounds, dt: u32, corners: bool) -> PetState {
    let r = readied(s, b);
    if r.flight != FlightKind::Grounded {
        held(flown(r, b, dt), dt)
    } else {
        held(crawled(r, b, dt, corners), dt)
    }
}

/// The pose to draw after the step: in flight the jump pose of the
/// surface the pet took off from, on touching the floor the landing pose,
/// else the pose of the state as the tick found it.
pub open spec fn shown(s: PetState, b: Bounds, dt: u32) -> Visual {
    let r = readied(s, b);
    if r.flight != FlightKind::Grounded {
        if lands(r, b, dt) {
            visual_of(Surface::Floor, Action::Landing, landed(drifted(r, b, dt), b).dir)
        } else {
            visual_of(r.flight_from, Action::Jumping, r.dir)
        }
    } else {
        visual_of(r.surface, r.action, r.dir)
    }
}

/// The animation after the step: switched to each pose that the step
/// drew, in turn.
pub open spec fn animated(anim: Anim, s: PetState, b: Bounds, dt: u32) -> Anim {
    let r = readied(s, b);
    if r.flight != FlightKind::Grounded {
        let jump = visual_of(r.flight_from, Action::Jumping, r.dir);
        let a = anim.switched(jump.row, jump.fps);
        if lands(r, b, dt) {
            let land = shown(s, b, dt);
            a.switched(land.row, land.fps)
        } else {
            a
        }
    } else {
        let v = visual_of(r.surface, r.action, r.dir);
        anim.switched(v.row, v.fps)
    }
}

/// Looks up the pose of (`surface`, `action`, `dir`) and has the
/// animation play its row.
pub fn set_visual_for(surface: Surface, action: Action, dir: Direction, anim: &mut Anim) -> (v:
    Visual)
    ensures
        v == visual_of(surface, action, dir),
        *final(anim) == old(anim).switched(v.row, v.fps),
        final(anim).plays(v.row, v.fps),
        final(anim).wf(),
        !old(anim).plays(v.row, v.fps) || old(anim).in_row() ==> final(anim).in_row(),
{
    let v = visual_for(surface, action, dir);
    anim.set_anim_if_changed(v.row, v.fps);
    v
}

/// Puts the pet into flight from the surface it is on.
pub fn launch(st: &mut PetState, b: Bounds)
    requires
        b.wf(),
        takes_off(*old(st)),
    ensures
        *final(st) == launched(*old(st), b),
{
    let x = st.window_pos.x as i64;
    let (t, vy0, goal): (u64, i64, i64) = match st.surface {
        Surface::Floor => match st.wall_target {
            Some(w) => {
                let t = flight_time(FLOOR_JUMP_VY0, b.max_y as i64 - w.y as i64);
                let wall_x = if w.wall == Surface::LeftWall {
                    0
                } else {
                    b.max_x
                };
                (t, FLOOR_JUMP_VY0, wall_x as i64)
            },
            None => {
                let t = (2 * (-FLOOR_JUMP_VY0) * 1_000_000 / GRAVITY) as u64;
                (t, FLOOR_JUMP_VY0, st.target_x as i64)
            },
        },
        _ => {
            let t = flight_time(WALL_JUMP_VY0, st.window_pos.y as i64 - b.max_y as i64);
            (t, WALL_JUMP_VY0, st.target_x as i64)
        },
    };
    st.flight_from = st.surface;
    st.vx = velocity_for(goal - x, t);
    st.vy = vy0 * MILLI;
    st.flight = FlightKind::Parabola;
    st.landing_left = 0;
}

/// One tick of free flight. Returns whether the pet touched the floor.
pub fn fly(st: &mut PetState, b: Bounds, dt: u32) -> (touched: bool)
    requires
        b.wf(),
    ensures
        *final(st) == flown(*old(st), b, dt),
        touched == lands(*old(st), b, dt),
        b.holds(final(st).window_pos),
{
    st.vy = fall(st.vy, dt);
    let x = clamp_to(displace(st.window_pos.x, st.vx, dt), 0, b.max_x);
    let y = clamp_to(displace(st.window_pos.y, st.vy, dt), 0, b.max_y);
    st.window_pos = Point { x, y };
    let mut on_wall = false;
    match st.wall_target {
        Some(w) => {
            let at_left = w.wall == Surface::LeftWall && x <= 0;
            let at_right = w.wall == Surface::RightWall && x >= b.max_x;
            if at_left || at_right {
                let edge = if at_left {
                    0
                } else {
                    b.max_x
                };
                st.window_pos = Point { x: edge, y: clamp_to(w.y as i128, 0, b.max_y) };
                st.flight = FlightKind::Grounded;
                st.surface = w.wall;
                st.action = Action::Climb;
                st.dir = if st.vy <= 0 {
                    Direction::Positive
                } else {
                    Direction::Negative
                };
                st.wall_target = None;
                on_wall = true;
            }
        },
        None => {},
    }
    if !on_wall && y >= b.max_y {
        st.flight = FlightKind::Grounded;
        st.surface = Surface::Floor;
        st.action = Action::Landing;
        st.dir = match st.flight_from {
            Surface::RightWall => Direction::Negative,
            Surface::LeftWall => Direction::Positive,
            _ => if st.vx >= 0 {
                Direction::Positive
            } else {
                Direction::Negative
            },
        };
        st.window_pos = Point { x: clamp_to(st.target_x as i128, 0, b.max_x), y };
        st.landing_left = LANDING_HOLD;
        st.wall_target = None;
        true
    } else {
        false
    }
}

/// Velocity along the surface of a pet that moves at `speed` in direction `dir`.
pub fn velocity_along(speed: i64, dir: Direction) -> (v: i64)
    requires
        0 <= speed <= 1_000_000,
    ensures
        v == along(speed, dir),
{
    match dir {
        Direction::Positive => speed * MILLI,
        Direction::Negative => -(speed * MILLI),
    }
}

/// One tick of a pet on the floor.
pub fn crawl_floor(st: &mut PetState, b: Bounds, dt: u32, corners: bool)
    requires
        b.wf(),
    ensures
        *final(st) == crawled_floor(*old(st), b, dt, corners),
{
    let mut x: i32 = clamp_to(st.window_pos.x as i128, 0, b.max_x);
    match st.action {
        Action::Move => {
            let x1 = displace(st.window_pos.x, velocity_along(SPEED_FLOOR, st.dir), dt);
            x = clamp_to(x1, 0, b.max_x);
            if corners && x1 <= 0 {
                x = 0;
                st.surface = Surface::LeftWall;
                st.action = Action::Climb;
                st.dir = Direction::Positive;
            } else if corners && x1 >= b.max_x as i128 {
                x = b.max_x;
                st.surface = Surface::RightWall;
                st.action = Action::Climb;
                st.dir = Direction::Positive;
            }
        },
        Action::Landing => {
            let x1 = displace(st.window_pos.x, velocity_along(LANDING_DRIFT, st.dir), dt);
            x = clamp_to(x1, 0, b.max_x);
        },
        _ => {},
    }
    st.window_pos = Point { x, y: b.max_y };
}

/// One tick of a pet on the wall at `edge_x`.
pub fn crawl_wall(
    st: &mut PetState,
    b: Bounds,
    dt: u32,
    corners: bool,
    edge_x: i32,
    inward: Direction,
)
    requires
        b.wf(),
    ensures
        *final(st) == crawled_wall(*old(st), b, dt, corners, edge_x, inward),
{
    let mut y: i32 = clamp_to(st.window_pos.y as i128, 0, b.max_y);
    if st.action == Action::Climb {
        let up = velocity_along(SPEED_WALL, st.dir);
        let y1 = displace(st.window_pos.y, -up, dt);
        y = clamp_to(y1, 0, b.max_y);
        if corners && y1 <= 0 && st.dir == Direction::Positive {
            y = 0;
            st.surface = Surface::Ceiling;
            st.action = Action::Climb;
            st.dir = inward;
        } else if corners && y1 >= b.max_y as i128 && st.dir == Direction::Negative {
            y = b.max_y;
            st.surface = Surface::Floor;
            st.action = Action::Move;
            st.dir = inward;
        }
    }
    st.window_pos = Point { x: edge_x, y };
}

/// One tick of a pet on the ceiling.
pub fn crawl_ceiling(st: &mut PetState, b: Bounds, dt: u32, corners: bool)
    requires
        b.wf(),
    ensures
        *final(st) == crawled_ceiling(*old(st), b, dt, corners),
{
    let mut x: i32 = clamp_to(st.window_pos.x as i128, 0, b.max_x);
    if st.action == Action::Climb {
        let x1 = displace(st.window_pos.x, velocity_along(SPEED_CEIL, st.dir), dt);
        x = clamp_to(x1, 0, b.max_x);
        if corners && x1 <= 0 && st.dir == Direction::Negative {
            x = 0;
            st.surface = Surface::LeftWall;
            st.action = Action::Climb;
            st.dir = Direction::Negative;
        } else if corners && x1 >= b.max_x as i128 && st.dir == Direction::Positive {
            x = b.max_x;
            st.surface = Surface::RightWall;
            st.action = Action::Climb;
            st.dir = Direction::Negative;
        }
    }
    st.window_pos = Point { x, y: 0 };
}

/// One tick of a pet on a surface.
pub fn crawl(st: &mut PetState, b: Bounds, dt: u32, corners: bool)
    requires
        b.wf(),
    ensures
        *final(st) == crawled(*old(st), b, dt, corners),
        b.holds(final(st).window_pos),
{
    match st.surface {
        Surface::Floor => crawl_floor(st, b, dt, corners),
        Surface::RightWall => crawl_wall(st, b, dt, corners, b.max_x, Direction::Negative),
        Surface::Ceiling => crawl_ceiling(st, b, dt, corners),
        Surface::LeftWall => crawl_wall(st, b, dt, corners, 0, Direction::Positive),
    }
}

/// One tick of the landing hold.
pub fn hold(st: &mut PetState, dt: u32)
    ensures
        *final(st) == held(*old(st), dt),
{
    if st.action == Action::Landing {
        if dt >= st.landing_left {
            st.landing_left = 0;
            st.action = Action::Move;
        } else {
            st.landing_left = st.landing_left - dt;
        }
    }
}

/// The motion step for a window of `fw` by `fh` pixels on the virtual
/// desktop, `dt` microseconds after the last. Updates the state, has the
/// animation play the row of the pose to draw, and returns that pose.
/// With `corners` set, a pet that reaches the end of its surface goes on
/// along the next.
pub fn apply_motion_and_orientation(
    st: &mut PetState,
    anim: &mut Anim,
    fw: i32,
    fh: i32,
    dt: u32,
    corners: bool,
) -> (v: Visual)
    ensures
        *final(st) == stepped(*old(st), virtual_bounds(fw, fh), dt, corners),
        v == shown(*old(st), virtual_bounds(fw, fh), dt),
        *final(anim) == animated(*old(anim), *old(st), virtual_bounds(fw, fh), dt),
        final(anim).plays(v.row, v.fps),
        final(anim).wf(),
        virtual_bounds(fw, fh).holds(final(st).window_pos),
{
    let b = desktop_bounds(fw, fh);
    if st.action == Action::Jumping && st.flight == FlightKind::Grounded {
        set_visual_for(st.surface, Action::Jumping, st.dir, anim);
        if st.surface != Surface::Ceiling {
            launch(st, b);
        }
    }
    let v = if st.flight != FlightKind::Grounded {
        let jumping = set_visual_for(st.flight_from, Action::Jumping, st.dir, anim);
        if fly(st, b, dt) {
            set_visual_for(Surface::Floor, Action::Landing, st.dir, anim)
        } else {
            jumping
        }
    } else {
        let resting = set_visual_for(st.surface, st.action, st.dir, anim);
        crawl(st, b, dt, corners);
        resting
    };
    hold(st, dt);
    v
}

} // verus!
