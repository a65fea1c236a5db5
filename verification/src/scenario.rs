//! Scenario cases and the two ways to place one on the pet: the scripted
//! driver sets the pet down where the case begins, the random driver
//! leaves it where it is.

use vstd::prelude::*;
use crate::arith::{clamp, clamp_to, div_toward_zero, div_trunc};
use crate::model::{Action, Bounds, Direction, FlightKind, PetState, Point, Surface, WallTarget};
use crate::physics::START_MARGIN;
use crate::rng::{drawn_chance, drawn_range, TinyRng};

verus! {

/// Microseconds a scripted case lasts.
pub const CASE_DUR: u32 = 1_500_000;

/// Microseconds of the flower-giving case: its 27 frames at 6 frames per
/// second and half a second more.
pub const DUR_GIVING_FLOWERS: u32 = 5_000_000;

/// Where a jump starts and where it aims, in hundredths of the range the
/// window can travel.
#[derive(Clone, Copy, PartialEq, Eq, Debug, Structural)]
pub enum JumpPreset {
    /// From the floor to the floor.
    FloorPct { start_pct: u32, target_pct: u32 },
    /// From the floor to a height on a wall.
    FloorToWall { wall: Surface, start_pct: u32, target_y_pct: u32 },
    /// From a wall to the floor.
    WallToFloorPct { target_pct: u32 },
    /// No jump.
    Unset,
}

/// A case of a scenario: what the pet is to do, where, and for how long.
#[derive(Clone, Copy, PartialEq, Eq, Debug, Structural)]
pub struct TestCase {
    pub surface: Surface,
    pub action: Action,
    pub dir: Direction,
    /// Microseconds the case lasts.
    pub dur: u32,
    pub preset: JumpPreset,
}

/// Whether a driver may ask for `action` on `surface`: flowers are given
/// on the floor only, and nothing jumps off the ceiling.
pub open spec fn action_allowed(surface: Surface, action: Action) -> bool {
    match surface {
        Surface::Floor => action == Action::Move || action == Action::Idle || action
            == Action::Sleeping || action == Action::GivingFlowers || action == Action::Hiding
            || action == Action::Jumping,
        Surface::RightWall | Surface::LeftWall => action == Action::Climb || action
            == Action::Hiding || action == Action::Jumping,
        Surface::Ceiling => action == Action::Climb || action == Action::Hiding,
    }
}

/// `pct` hundredths of `extent`, rounded to the nearest whole number and
/// held to 32 bits.
pub open spec fn portion(extent: int, pct: int) -> int {
    clamp((extent * pct + 50) / 100, 0, i32::MAX as int)
}

/// `pct` hundredths of `extent`, rounded toward zero.
pub open spec fn fraction(extent: int, pct: int) -> int {
    div_toward_zero(extent * pct, 100)
}

/// `pct` hundredths of `extent`, rounded to the nearest whole number.
pub fn portion_of(extent: i32, pct: u32) -> (p: i32)
    requires
        extent >= 0,
    ensures
        p == portion(extent as int, pct as int),
{
    assert(0 <= extent * pct <= 0x8000_0000 * 0x1_0000_0000) by (nonlinear_arith)
        requires
            0 <= extent <= 0x8000_0000,
            0 <= pct <= 0x1_0000_0000,
    ;
    let scaled: i128 = (extent as i128 * pct as i128 + 50) / 100;
    clamp_to(scaled, 0, i32::MAX)
}

/// `pct` hundredths of `extent`, rounded toward zero.
pub fn fraction_of(extent: i32, pct: i32) -> (p: i32)
    requires
        0 <= pct <= 100,
    ensures
        p == fraction(extent as int, pct as int),
{
    assert(extent >= 0 ==> 0 <= extent * pct <= extent * 100) by (nonlinear_arith)
        requires
            0 <= pct <= 100,
    ;
    assert(extent < 0 ==> extent * 100 <= extent * pct <= 0) by (nonlinear_arith)
        requires
            0 <= pct <= 100,
    ;
    let q = div_trunc(extent as i128 * pct as i128, 100);
    q as i32
}

/// The state with the case's surface, action and direction taken over
/// and everything that belongs to a flight cleared. The position stays.
pub open spec fn reset(s: PetState, case: TestCase) -> PetState {
    PetState {
        surface: case.surface,
        action: case.action,
        dir: case.dir,
        window_pos: s.window_pos,
        flight: FlightKind::Grounded,
        flight_from: case.surface,
        vx: 0,
        vy: 0,
        landing_left: 0,
        target_x: 0,
        wall_target: None,
    }
}

/// The coordinate at which a crawl in direction `dir` begins on an edge
/// that runs from 0 to `max`: a margin in from the end it leaves.
pub open spec fn crawl_start(dir: Direction, max: int) -> int {
    if dir == Direction::Positive {
        START_MARGIN as int
    } else {
        max - START_MARGIN
    }
}

/// Where a case on the floor begins.
pub open spec fn placed_floor(s: PetState, b: Bounds, case: TestCase) -> PetState {
    let r = reset(s, case);
    if case.action == Action::Jumping {
        match case.preset {
            JumpPreset::FloorPct { start_pct, target_pct } => {
                let x = clamp(portion(b.max_x as int, start_pct as int), 0, b.max_x as int);
                let tx = clamp(portion(b.max_x as int, target_pct as int), 0, b.max_x as int);
                PetState {
                    window_pos: Point { x: x as i32, y: b.max_y },
                    target_x: tx as i32,
                    dir: Direction::of(tx - x),
                    ..r
                }
            },
            JumpPreset::FloorToWall { wall, start_pct, target_y_pct } => {
                let x = clamp(portion(b.max_x as int, start_pct as int), 0, b.max_x as int);
                let ty = clamp(portion(b.max_y as int, target_y_pct as int), 0, b.max_y as int);
                let wall_x = if wall == Surface::LeftWall {
                    0
                } else {
                    b.max_x as int
                };
                PetState {
                    window_pos: Point { x: x as i32, y: b.max_y },
                    wall_target: Some(WallTarget { wall, y: ty as i32 }),
                    dir: Direction::of(wall_x - x),
                    ..r
                }
            },
            _ => r,
        }
    } else {
        PetState {
            window_pos: Point { x: crawl_start(case.dir, b.max_x as int) as i32, y: b.max_y },
            ..r
        }
    }
}

/// Where a case on a wall begins; `edge_x` is the wall's coordinate and
/// `inward` the direction that leads away from the wall along the floor.
/// A climb begins a margin in from the end it leaves, upward from the
/// bottom, and a jump at half height.
pub open spec fn placed_wall(
    s: PetState,
    b: Bounds,
    case: TestCase,
    edge_x: i32,
    inward: Direction,
) -> PetState {
    let r = reset(s, case);
    let jumps = case.action == Action::Jumping;
    let y = if jumps {
        b.max_y / 2
    } else {
        b.max_y - crawl_start(case.dir, b.max_y as int)
    };
    let at = Point { x: edge_x, y: clamp(y, 0, b.max_y as int) as i32 };
    if jumps {
        PetState {
            window_pos: at,
            target_x: match case.preset {
                JumpPreset::WallToFloorPct { target_pct } => portion(
                    b.max_x as int,
                    target_pct as int,
                ) as i32,
                _ => 0,
            },
            dir: inward,
            ..r
        }
    } else {
        PetState { window_pos: at, ..r }
    }
}

/// Where a case on the ceiling begins.
pub open spec fn placed_ceiling(s: PetState, b: Bounds, case: TestCase) -> PetState {
    PetState {
        window_pos: Point {
            x: clamp(crawl_start(case.dir, b.max_x as int), 0, b.max_x as int) as i32,
            y: 0,
        },
        ..reset(s, case)
    }
}

/// The state after the scripted driver put `case` on it: the pet is set
/// down where the case begins.
pub open spec fn placed(s: PetState, b: Bounds, case: TestCase) -> PetState {
    match case.surface {
        Surface::Floor => placed_floor(s, b, case),
        Surface::RightWall => placed_wall(s, b, case, b.max_x, Direction::Negative),
        Surface::Ceiling => placed_ceiling(s, b, case),
        Surface::LeftWall => placed_wall(s, b, case, 0, Direction::Positive),
    }
}

/// The point of the edge of `surface` nearest to `p`: the coordinate
/// across the edge is the edge's, the one along it is held to the screen.
pub open spec fn snapped(surface: Surface, b: Bounds, p: Point) -> Point {
    match surface {
        Surface::Floor => Point { x: clamp(p.x as int, 0, b.max_x as int) as i32, y: b.max_y },
        Surface::RightWall => Point {
            x: b.max_x,
            y: clamp(p.y as int, 0, b.max_y as int) as i32,
        },
        Surface::Ceiling => Point { x: clamp(p.x as int, 0, b.max_x as int) as i32, y: 0 },
        Surface::LeftWall => Point { x: 0, y: clamp(p.y as int, 0, b.max_y as int) as i32 },
    }
}

/// Whether `p` lies on the edge of `surface`.
pub open spec fn on_edge(surface: Surface, b: Bounds, p: Point) -> bool {
    b.holds(p) && match surface {
        Surface::Floor => p.y == b.max_y,
        Surface::RightWall => p.x == b.max_x,
        Surface::Ceiling => p.y == 0,
        Surface::LeftWall => p.x == 0,
    }
}

/// The state and the generator's state after a jump from the floor was
/// aimed, from the pet at rest `r` at `x` on the floor: as the first draw
/// falls at a height on a wall, left or right as the second falls and
/// between one and nine tenths of the way down; else at the floor, from a
/// tenth to thirty-five hundredths of the screen's width away in the
/// direction of the case.
pub open spec fn aimed_from_floor(r: PetState, b: Bounds, screen_w: i32, seed: u32, x: int) -> (
    PetState,
    u32,
) {
    let (to_wall, s1) = drawn_chance(seed, 50);
    if to_wall {
        let (to_left, s2) = drawn_chance(s1, 50);
        let (ty, s3) = drawn_range(
            s2,
            fraction(b.max_y as int, 10) as i32,
            fraction(b.max_y as int, 90) as i32,
        );
        let wall_x = if to_left {
            0
        } else {
            b.max_x as int
        };
        (
            PetState {
                wall_target: Some(
                    WallTarget {
                        wall: if to_left {
                            Surface::LeftWall
                        } else {
                            Surface::RightWall
                        },
                        y: ty,
                    },
                ),
                dir: Direction::of(wall_x - x),
                ..r
            },
            s3,
        )
    } else {
        let (d, s2) = drawn_range(
            s1,
            fraction(screen_w as int, 10) as i32,
            fraction(screen_w as int, 35) as i32,
        );
        let tx = clamp(x + d * r.dir.sign(), 0, b.max_x as int);
        (PetState { target_x: tx as i32, dir: Direction::of(tx - x), ..r }, s2)
    }
}

/// The state and the generator's state after the random driver put
/// `case` on the pet: the pet stays where it is, but for being brought
/// onto the edge of the case's surface, and a jump is aimed.
pub open spec fn continued(s: PetState, b: Bounds, screen_w: i32, seed: u32, case: TestCase) -> (
    PetState,
    u32,
) {
    let at = snapped(case.surface, b, s.window_pos);
    let r = PetState { window_pos: at, ..reset(s, case) };
    if case.action != Action::Jumping {
        (r, seed)
    } else {
        match case.surface {
            Surface::Floor => aimed_from_floor(r, b, screen_w, seed, at.x as int),
            Surface::RightWall => {
                let (tx, s1) = drawn_range(seed, 0, b.max_x);
                (PetState { target_x: tx, dir: Direction::Negative, ..r }, s1)
            },
            Surface::Ceiling => (r, seed),
            Surface::LeftWall => {
                let (tx, s1) = drawn_range(seed, 0, b.max_x);
                (PetState { target_x: tx, dir: Direction::Positive, ..r }, s1)
            },
        }
    }
}

/// Takes the case over into the state and clears what belongs to a flight.
pub fn reset_for(st: &mut PetState, case: TestCase)
    ensures
        *final(st) == reset(*old(st), case),
{
    st.surface = case.surface;
    st.action = case.action;
    st.dir = case.dir;
    st.flight = FlightKind::Grounded;
    st.flight_from = case.surface;
    st.vx = 0;
    st.vy = 0;
    st.landing_left = 0;
    st.target_x = 0;
    st.wall_target = None;
}

/// The direction of the displacement from `from` to `to`.
pub fn direction_toward(from: i32, to: i32) -> (d: Direction)
    ensures
        d == Direction::of(to - from),
{
    if to >= from {
        Direction::Positive
    } else {
        Direction::Negative
    }
}

/// Puts `case` on the pet as the scripted driver does, on the given bounds.
pub fn place(st: &mut PetState, b: Bounds, case: TestCase)
    requires
        b.wf(),
    ensures
        *final(st) == placed(*old(st), b, case),
{
    reset_for(st, case);
    let jumps = case.action == Action::Jumping;
    match case.surface {
        Surface::Floor => {
            if jumps {
                match case.preset {
                    JumpPreset::FloorPct { start_pct, target_pct } => {
                        let x = clamp_to(portion_of(b.max_x, start_pct) as i128, 0, b.max_x);
                        let tx = clamp_to(portion_of(b.max_x, target_pct) as i128, 0, b.max_x);
                        st.window_pos = Point { x, y: b.max_y };
                        st.target_x = tx;
                        st.dir = direction_toward(x, tx);
                    },
                    JumpPreset::FloorToWall { wall, start_pct, target_y_pct } => {
                        let x = clamp_to(portion_of(b.max_x, start_pct) as i128, 0, b.max_x);
                        let ty = clamp_to(portion_of(b.max_y, target_y_pct) as i128, 0, b.max_y);
                        st.window_pos = Point { x, y: b.max_y };
                        st.wall_target = Some(WallTarget { wall, y: ty });
                        let wall_x = if wall == Surface::LeftWall {
                            0
                        } else {
                            b.max_x
                        };
                        st.dir = direction_toward(x, wall_x);
                    },
                    _ => {},
                }
            } else {
                let x = if case.dir == Direction::Positive {
                    START_MARGIN
                } else {
                    b.max_x - START_MARGIN
                };
                st.window_pos = Point { x, y: b.max_y };
            }
        },
        Surface::RightWall => {
            let y = if jumps {
                b.max_y / 2
            } else if case.dir == Direction::Positive {
                b.max_y - START_MARGIN
            } else {
                START_MARGIN
            };
            st.window_pos = Point { x: b.max_x, y: clamp_to(y as i128, 0, b.max_y) };
            if jumps {
                if let JumpPreset::WallToFloorPct { target_pct } = case.preset {
                    st.target_x = portion_of(b.max_x, target_pct);
                }
                st.dir = Direction::Negative;
            }
        },
        Surface::Ceiling => {
            let x = if case.dir == Direction::Negative {
                b.max_x - START_MARGIN
            } else {
                START_MARGIN
            };
            st.window_pos = Point { x: clamp_to(x as i128, 0, b.max_x), y: 0 };
        },
        Surface::LeftWall => {
            let y = if jumps {
                b.max_y / 2
            } else if case.dir == Direction::Negative {
                START_MARGIN
            } else {
                b.max_y - START_MARGIN
            };
            st.window_pos = Point { x: 0, y: clamp_to(y as i128, 0, b.max_y) };
            if jumps {
                if let JumpPreset::WallToFloorPct { target_pct } = case.preset {
                    st.target_x = portion_of(b.max_x, target_pct);
                }
                st.dir = Direction::Positive;
            }
        },
    }
}

/// Puts `case` on the pet as the random driver does, on the given bounds
/// of a screen `screen_w` wide.
pub fn carry_on(st: &mut PetState, b: Bounds, screen_w: i32, rng: &mut TinyRng, case: TestCase)
    requires
        b.wf(),
    ensures
        (*final(st), final(rng).0) == continued(*old(st), b, screen_w, old(rng).0, case),
{
    let x = clamp_to(st.window_pos.x as i128, 0, b.max_x);
    let y = clamp_to(st.window_pos.y as i128, 0, b.max_y);
    reset_for(st, case);
    let jumps = case.action == Action::Jumping;
    match case.surface {
        Surface::Floor => {
            st.window_pos = Point { x, y: b.max_y };
            if jumps {
                if rng.chance(50) {
                    let to_left = rng.chance(50);
                    let wall = if to_left {
                        Surface::LeftWall
                    } else {
                        Surface::RightWall
                    };
                    let wall_x = if to_left {
                        0
                    } else {
                        b.max_x
                    };
                    let target_y = rng.range_i32(fraction_of(b.max_y, 10), fraction_of(b.max_y, 90));
                    st.wall_target = Some(WallTarget { wall, y: target_y });
                    st.dir = direction_toward(x, wall_x);
                } else {
                    let min_dx = fraction_of(screen_w, 10);
                    let max_dx = fraction_of(screen_w, 35);
                    let d = rng.range_i32(min_dx, max_dx);
                    let dx: i64 = if case.dir == Direction::Positive {
                        d as i64
                    } else {
                        -(d as i64)
                    };
                    let tx = clamp_to(x as i128 + dx as i128, 0, b.max_x);
                    st.target_x = tx;
                    st.dir = direction_toward(x, tx);
                }
            }
        },
        Surface::RightWall => {
            st.window_pos = Point { x: b.max_x, y };
            if jumps {
                st.target_x = rng.range_i32(0, b.max_x);
                st.dir = Direction::Negative;
            }
        },
        Surface::Ceiling => {
            st.window_pos = Point { x, y: 0 };
        },
        Surface::LeftWall => {
            st.window_pos = Point { x: 0, y };
            if jumps {
                st.target_x = rng.range_i32(0, b.max_x);
                st.dir = Direction::Positive;
            }
        },
    }
}

} // verus!
