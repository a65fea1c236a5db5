//! The visual table: which row of the sheet shows a pose, how fast it
//! plays, and how the sprite is turned and mirrored.

use vstd::prelude::*;
use crate::model::{Action, Direction, Surface};
use crate::sheet::{
    frames_in_row, ROW_CLIMB_R, ROW_GIVING_FLOWERS, ROW_HIDE, ROW_IDLE1, ROW_JUMP_R, ROW_LAND_R,
    ROW_SLEEP, ROW_WALK_R, SHEET_ROWS,
};

verus! {

pub const FPS_IDLE: u32 = 10;

pub const FPS_MOVE: u32 = 14;

pub const FPS_CLIMB: u32 = 12;

pub const FPS_HIDE: u32 = 10;

pub const FPS_SLEEP: u32 = 8;

pub const FPS_GIVING_FLOWERS: u32 = 6;

/// The jump pose is a single frame held during flight.
pub const FPS_JUMP: u32 = 1;

pub const FPS_LAND: u32 = 20;

/// A turn of the sprite about the axis that points out of the screen.
#[derive(Clone, Copy, PartialEq, Eq, Debug, Structural)]
pub enum Rotation {
    Zero,
    /// A quarter turn counter-clockwise.
    QuarterCcw,
    /// A quarter turn clockwise.
    QuarterCw,
    Half,
}

impl Rotation {
    /// The turn counted in quarter turns counter-clockwise.
    pub open spec fn quarters(self) -> int {
        match self {
            Rotation::Zero => 0,
            Rotation::QuarterCcw => 1,
            Rotation::QuarterCw => -1,
            Rotation::Half => 2,
        }
    }

    /// The turn counted in quarter turns counter-clockwise.
    pub fn quarter_turns(self) -> (q: i8)
        ensures
            q == self.quarters(),
    {
        match self {
            Rotation::Zero => 0,
            Rotation::QuarterCcw => 1,
            Rotation::QuarterCw => -1,
            Rotation::Half => 2,
        }
    }
}

/// How a pose is drawn.
#[derive(Clone, Copy, PartialEq, Eq, Debug, Structural)]
pub struct Visual {
    /// Row of the sheet.
    pub row: usize,
    /// Frames per second.
    pub fps: u32,
    pub rotation: Rotation,
    /// Mirror left and right.
    pub flip_x: bool,
    /// Mirror up and down.
    pub flip_y: bool,
}

/// A pose drawn as the sheet holds it.
pub open spec fn plain(row: usize, fps: u32) -> Visual {
    Visual { row, fps, rotation: Rotation::Zero, flip_x: false, flip_y: false }
}

/// The visual table. The sheet draws the pet facing right and standing on
/// the floor; mirroring and turning fit that pose to the other surfaces
/// and to the other facing. A pair the table lacks is drawn idle.
pub open spec fn visual_of(surface: Surface, action: Action, dir: Direction) -> Visual {
    let back = dir == Direction::Negative;
    match (surface, action) {
        (Surface::Floor, Action::Move) => Visual { flip_x: back, ..plain(ROW_WALK_R, FPS_MOVE) },
        (Surface::Floor, Action::Idle) => plain(ROW_IDLE1, FPS_IDLE),
        (Surface::Floor, Action::Sleeping) => plain(ROW_SLEEP, FPS_SLEEP),
        (Surface::Floor, Action::GivingFlowers) => plain(ROW_GIVING_FLOWERS, FPS_GIVING_FLOWERS),
        (Surface::Floor, Action::Hiding) => Visual { flip_y: true, ..plain(ROW_HIDE, FPS_HIDE) },
        (Surface::Floor, Action::Jumping) => Visual { flip_x: back, ..plain(ROW_JUMP_R, FPS_JUMP) },
        (Surface::Floor, Action::Landing) => Visual { flip_x: back, ..plain(ROW_LAND_R, FPS_LAND) },
        (Surface::RightWall, Action::Climb) => Visual {
            flip_y: back,
            ..plain(ROW_CLIMB_R, FPS_CLIMB)
        },
        (Surface::RightWall, Action::Hiding) => Visual {
            rotation: Rotation::QuarterCw,
            ..plain(ROW_HIDE, FPS_HIDE)
        },
        (Surface::RightWall, Action::Jumping) => Visual {
            flip_x: true,
            ..plain(ROW_JUMP_R, FPS_JUMP)
        },
        (Surface::Ceiling, Action::Climb) => Visual {
            rotation: Rotation::QuarterCcw,
            flip_x: !back,
            ..plain(ROW_CLIMB_R, FPS_CLIMB)
        },
        (Surface::Ceiling, Action::Hiding) => plain(ROW_HIDE, FPS_HIDE),
        (Surface::LeftWall, Action::Climb) => Visual {
            rotation: Rotation::Half,
            flip_y: !back,
            ..plain(ROW_CLIMB_R, FPS_CLIMB)
        },
        (Surface::LeftWall, Action::Hiding) => Visual {
            rotation: Rotation::QuarterCcw,
            ..plain(ROW_HIDE, FPS_HIDE)
        },
        (Surface::LeftWall, Action::Jumping) => plain(ROW_JUMP_R, FPS_JUMP),
        _ => plain(ROW_IDLE1, FPS_IDLE),
    }
}

/// Looks the pose up in the visual table.
pub fn visual_for(surface: Surface, action: Action, dir: Direction) -> (v: Visual)
    ensures
        v == visual_of(surface, action, dir),
        v.row < SHEET_ROWS,
        frames_in_row(v.row as int) >= 1,
        v.fps >= 1,
{
    let back = match dir {
        Direction::Positive => false,
        Direction::Negative => true,
    };
    let (row, fps, rotation, flip_x, flip_y) = match (surface, action) {
        (Surface::Floor, Action::Move) => (ROW_WALK_R, FPS_MOVE, Rotation::Zero, back, false),
        (Surface::Floor, Action::Idle) => (ROW_IDLE1, FPS_IDLE, Rotation::Zero, false, false),
        (Surface::Floor, Action::Sleeping) => (ROW_SLEEP, FPS_SLEEP, Rotation::Zero, false, false),
        (Surface::Floor, Action::GivingFlowers) => (
            ROW_GIVING_FLOWERS,
            FPS_GIVING_FLOWERS,
            Rotation::Zero,
            false,
            false,
        ),
        (Surface::Floor, Action::Hiding) => (ROW_HIDE, FPS_HIDE, Rotation::Zero, false, true),
        (Surface::Floor, Action::Jumping) => (ROW_JUMP_R, FPS_JUMP, Rotation::Zero, back, false),
        (Surface::Floor, Action::Landing) => (ROW_LAND_R, FPS_LAND, Rotation::Zero, back, false),
        (Surface::RightWall, Action::Climb) => (
            ROW_CLIMB_R,
            FPS_CLIMB,
            Rotation::Zero,
            false,
            back,
        ),
        (Surface::RightWall, Action::Hiding) => (
            ROW_HIDE,
            FPS_HIDE,
            Rotation::QuarterCw,
            false,
            false,
        ),
        (Surface::RightWall, Action::Jumping) => (
            ROW_JUMP_R,
            FPS_JUMP,
            Rotation::Zero,
            true,
            false,
        ),
        (Surface::Ceiling, Action::Climb) => (
            ROW_CLIMB_R,
            FPS_CLIMB,
            Rotation::QuarterCcw,
            !back,
            false,
        ),
        (Surface::Ceiling, Action::Hiding) => (ROW_HIDE, FPS_HIDE, Rotation::Zero, false, false),
        (Surface::LeftWall, Action::Climb) => (
            ROW_CLIMB_R,
            FPS_CLIMB,
            Rotation::Half,
            false,
            !back,
        ),
        (Surface::LeftWall, Action::Hiding) => (
            ROW_HIDE,
            FPS_HIDE,
            Rotation::QuarterCcw,
            false,
            false,
        ),
        (Surface::LeftWall, Action::Jumping) => (
            ROW_JUMP_R,
            FPS_JUMP,
            Rotation::Zero,
            false,
            false,
        ),
        _ => (ROW_IDLE1, FPS_IDLE, Rotation::Zero, false, false),
    };
    Visual { row, fps, rotation, flip_x, flip_y }
}

/// Every pose is drawn from a row that the sheet has, and that row holds
/// at least one frame.
pub proof fn lemma_visual_row_on_sheet(surface: Surface, action: Action, dir: Direction)
    ensures
        0 <= visual_of(surface, action, dir).row < SHEET_ROWS,
        frames_in_row(visual_of(surface, action, dir).row as int) > 0,
        visual_of(surface, action, dir).fps >= 1,
{
}

/// Facing shows only as a mirroring: two poses that differ in direction
/// alone share row, rate and rotation.
pub proof fn lemma_direction_only_mirrors(surface: Surface, action: Action)
    ensures
        visual_of(surface, action, Direction::Positive).row == visual_of(
            surface,
            action,
            Direction::Negative,
        ).row,
        visual_of(surface, action, Direction::Positive).fps == visual_of(
            surface,
            action,
            Direction::Negative,
        ).fps,
        visual_of(surface, action, Direction::Positive).rotation == visual_of(
            surface,
            action,
            Direction::Negative,
        ).rotation,
{
}

} // verus!
