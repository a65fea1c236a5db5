//! The pet's state: where it is, what it does and how it flies.

use vstd::prelude::*;

verus! {

/// The screen edge the pet occupies.
#[derive(Clone, Copy, PartialEq, Eq, Debug, Structural)]
pub enum Surface {
    Floor,
    RightWall,
    Ceiling,
    LeftWall,
}

/// What the pet is doing.
#[derive(Clone, Copy, PartialEq, Eq, Debug, Structural)]
pub enum Action {
    Idle,
    Move,
    Climb,
    Jumping,
    Landing,
    Sleeping,
    Hiding,
    GivingFlowers,
}

/// The sense of facing and of motion along a surface: `Positive` is
/// rightward on floor and ceiling and upward on a wall.
#[derive(Clone, Copy, PartialEq, Eq, Debug, Structural)]
pub enum Direction {
    Positive,
    Negative,
}

impl Direction {
    /// `+1` or `-1`.
    pub open spec fn sign(self) -> int {
        match self {
            Direction::Positive => 1,
            Direction::Negative => -1,
        }
    }

    /// `+1` or `-1`.
    pub fn signum(self) -> (s: i64)
        ensures
            s == self.sign(),
    {
        match self {
            Direction::Positive => 1,
            Direction::Negative => -1,
        }
    }

    /// The direction of a displacement `d`; none counts as positive.
    pub open spec fn of(d: int) -> Direction {
        if d >= 0 {
            Direction::Positive
        } else {
            Direction::Negative
        }
    }
}

/// Whether the pet is in free flight.
#[derive(Clone, Copy, PartialEq, Eq, Debug, Structural)]
pub enum FlightKind {
    /// Not flying: resting or moving on a surface.
    Grounded,
    /// Flying along a parabola under gravity.
    Parabola,
}

/// A position on the screen in pixels, `y` growing downward.
#[derive(Clone, Copy, PartialEq, Eq, Debug, Structural)]
pub struct Point {
    pub x: i32,
    pub y: i32,
}

/// The largest coordinates the window's top-left corner may take; the
/// smallest are 0.
#[derive(Clone, Copy, PartialEq, Eq, Debug, Structural)]
pub struct Bounds {
    pub max_x: i32,
    pub max_y: i32,
}

impl Bounds {
    pub open spec fn wf(self) -> bool {
        self.max_x >= 0 && self.max_y >= 0
    }

    /// Whether `p` lies in the rectangle.
    pub open spec fn holds(self, p: Point) -> bool {
        0 <= p.x <= self.max_x && 0 <= p.y <= self.max_y
    }

    /// The point of the rectangle nearest to `p`.
    pub open spec fn nearest(self, p: Point) -> Point {
        Point {
            x: crate::arith::clamp(p.x as int, 0, self.max_x as int) as i32,
            y: crate::arith::clamp(p.y as int, 0, self.max_y as int) as i32,
        }
    }
}

/// Where a jump toward a wall is to end: the wall and the height on it.
#[derive(Clone, Copy, PartialEq, Eq, Debug, Structural)]
pub struct WallTarget {
    pub wall: Surface,
    pub y: i32,
}

/// Everything the motion step keeps about the pet from tick to tick.
#[derive(Clone, Copy, PartialEq, Eq, Debug)]
pub struct PetState {
    pub surface: Surface,
    pub action: Action,
    pub dir: Direction,
    /// Top-left corner of the window.
    pub window_pos: Point,
    pub flight: FlightKind,
    /// The surface the current or last flight took off from.
    pub flight_from: Surface,
    /// Horizontal velocity in thousandths of a pixel per second.
    pub vx: i64,
    /// Vertical velocity in thousandths of a pixel per second, positive downward.
    pub vy: i64,
    /// Microseconds the landing pose is still held.
    pub landing_left: u32,
    /// The floor coordinate a jump is to land on.
    pub target_x: i32,
    pub wall_target: Option<WallTarget>,
}

impl PetState {
    /// The state the pet starts in: walking rightward on the floor.
    pub open spec fn initial() -> PetState {
        PetState {
            surface: Surface::Floor,
            action: Action::Move,
            dir: Direction::Positive,
            window_pos: Point { x: 20, y: 20 },
            flight: FlightKind::Grounded,
            flight_from: Surface::Floor,
            vx: 0,
            vy: 0,
            landing_left: 0,
            target_x: 0,
            wall_target: None,
        }
    }

    pub fn new() -> (st: PetState)
        ensures
            st == PetState::initial(),
    {
        PetState {
            surface: Surface::Floor,
            action: Action::Move,
            dir: Direction::Positive,
            window_pos: Point { x: 20, y: 20 },
            flight: FlightKind::Grounded,
            flight_from: Surface::Floor,
            vx: 0,
            vy: 0,
            landing_left: 0,
            target_x: 0,
            wall_target: None,
        }
    }

    /// Whether the pet is in the air, about to leave the ground or holding
    /// its landing pose.
    pub open spec fn airborne_or_landing(self) -> bool {
        self.flight != FlightKind::Grounded || self.action == Action::Jumping || self.action
            == Action::Landing
    }

    pub fn is_airborne_or_landing(&self) -> (b: bool)
        ensures
            b == self.airborne_or_landing(),
    {
        self.flight != FlightKind::Grounded || self.action == Action::Jumping || self.action
            == Action::Landing
    }
}

} // verus!
