//! The two scenario drivers. The scripted one walks a fixed list of cases
//! in order; the random one draws the next case from what the surface
//! allows. Both wait while the pet is in the air or holds its landing.

use vstd::prelude::*;
use crate::model::{Action, Direction, PetState, Surface};
use crate::physics::{
    bounds_on, desktop_bounds, desktop_extent, desktop_side, screen_bounds, virtual_bounds,
    DESKTOP_W,
};
use crate::rng::{drawn_chance, drawn_span, xorshift, TinyRng};
use crate::scenario::{
    action_allowed, carry_on, continued, place, placed, JumpPreset, TestCase, CASE_DUR,
    DUR_GIVING_FLOWERS,
};

verus! {

/// Screen size taken where the monitor's is not known.
pub const FALLBACK_SCREEN_W: i32 = 1280;

pub const FALLBACK_SCREEN_H: i32 = 720;

/// Microseconds before the random driver draws its first case.
pub const RANDOM_FIRST_WAIT: u32 = 600_000;

/// Microseconds that the random driver allots to a jump or a landing;
/// the driver waits for both to end in any case.
pub const RANDOM_JUMP_DUR: u32 = 200_000;

/// The duration that a case carries when the random driver drew it; the
/// driver times the case by the action instead.
pub const RANDOM_CASE_DUR: u32 = 1_000_000;

/// Which driver runs.
#[derive(Clone, Copy, PartialEq, Eq, Debug, Structural)]
pub enum RunMode {
    /// The scripted driver.
    Test,
    /// The random driver.
    Random,
}

/// Whether the flag that asks for the scripted driver is among `args`.
pub open spec fn asks_for_script(args: Seq<String>) -> bool {
    exists|i: int| 0 <= i < args.len() && (#[trigger] args[i])@ == "--test"@
}

impl RunMode {
    /// Whether a pet that reaches the end of its surface goes on along
    /// the next: it does under the random driver; the script assigns the
    /// surfaces itself.
    pub open spec fn traverses(self) -> bool {
        self == RunMode::Random
    }

    /// Whether a pet that reaches the end of its surface goes on along the next.
    pub fn traverses_corners(self) -> (b: bool)
        ensures
            b == self.traverses(),
    {
        match self {
            RunMode::Test => false,
            RunMode::Random => true,
        }
    }
}

/// The driver that the command line asks for: the scripted one where the
/// flag `--test` is given, else the random one.
pub fn run_mode_from_args(args: &Vec<String>) -> (mode: RunMode)
    ensures
        mode == RunMode::Test <==> asks_for_script(args@),
        mode == RunMode::Test || mode == RunMode::Random,
{
    let flag = "--test".to_owned();
    let mut i: usize = 0;
    while i < args.len()
        invariant
            i <= args@.len(),
            flag@ == "--test"@,
            forall|j: int| 0 <= j < i ==> (#[trigger] args@[j])@ != "--test"@,
        decreases args@.len() - i,
    {
        if args[i] == flag {
            return RunMode::Test;
        }
        i = i + 1;
    }
    RunMode::Random
}

/// A case without a jump, of the usual duration.
pub open spec fn steady_case(surface: Surface, action: Action, dir: Direction) -> TestCase {
    TestCase { surface, action, dir, dur: CASE_DUR, preset: JumpPreset::Unset }
}

/// A jump, of the usual duration.
pub open spec fn jump_case(surface: Surface, dir: Direction, preset: JumpPreset) -> TestCase {
    TestCase { surface, action: Action::Jumping, dir, dur: CASE_DUR, preset }
}

/// The script: every pose on every surface, with the jumps between them.
pub open spec fn default_cases() -> Seq<TestCase> {
    seq![
        steady_case(Surface::Floor, Action::Move, Direction::Positive),
        steady_case(Surface::Floor, Action::Move, Direction::Negative),
        steady_case(Surface::Floor, Action::Idle, Direction::Positive),
        steady_case(Surface::Floor, Action::Sleeping, Direction::Positive),
        TestCase {
            dur: DUR_GIVING_FLOWERS,
            ..steady_case(Surface::Floor, Action::GivingFlowers, Direction::Positive)
        },
        steady_case(Surface::Floor, Action::Hiding, Direction::Positive),
        jump_case(
            Surface::Floor,
            Direction::Positive,
            JumpPreset::FloorPct { start_pct: 10, target_pct: 85 },
        ),
        jump_case(
            Surface::Floor,
            Direction::Negative,
            JumpPreset::FloorPct { start_pct: 85, target_pct: 15 },
        ),
        jump_case(
            Surface::Floor,
            Direction::Positive,
            JumpPreset::FloorToWall { wall: Surface::RightWall, start_pct: 30, target_y_pct: 40 },
        ),
        jump_case(
            Surface::Floor,
            Direction::Negative,
            JumpPreset::FloorToWall { wall: Surface::LeftWall, start_pct: 70, target_y_pct: 60 },
        ),
        steady_case(Surface::RightWall, Action::Climb, Direction::Positive),
        steady_case(Surface::RightWall, Action::Climb, Direction::Negative),
        steady_case(Surface::RightWall, Action::Hiding, Direction::Positive),
        jump_case(
            Surface::RightWall,
            Direction::Positive,
            JumpPreset::WallToFloorPct { target_pct: 25 },
        ),
        steady_case(Surface::Ceiling, Action::Climb, Direction::Negative),
        steady_case(Surface::Ceiling, Action::Climb, Direction::Positive),
        steady_case(Surface::Ceiling, Action::Hiding, Direction::Negative),
        steady_case(Surface::LeftWall, Action::Climb, Direction::Negative),
        steady_case(Surface::LeftWall, Action::Climb, Direction::Positive),
        steady_case(Surface::LeftWall, Action::Hiding, Direction::Positive),
    ]
}

/// A case without a jump, of the usual duration.
pub fn steady(surface: Surface, action: Action, dir: Direction) -> (case: TestCase)
    ensures
        case == steady_case(surface, action, dir),
{
    TestCase { surface, action, dir, dur: CASE_DUR, preset: JumpPreset::Unset }
}

/// A jump, of the usual duration.
pub fn jump(surface: Surface, dir: Direction, preset: JumpPreset) -> (case: TestCase)
    ensures
        case == jump_case(surface, dir, preset),
{
    TestCase { surface, action: Action::Jumping, dir, dur: CASE_DUR, preset }
}

/// The scripted driver's state: the cases, the one that runs, and the
/// microseconds it has left.
#[derive(PartialEq, Eq, Debug)]
pub struct TestSeq {
    pub cases: Vec<TestCase>,
    pub i: usize,
    pub left: u32,
}

impl TestSeq {
    /// There is a case, and the one that runs is one of them.
    pub open spec fn wf(self) -> bool {
        self.i < self.cases@.len()
    }

    /// The state after `dt` microseconds in which the case that runs did
    /// not end.
    pub open spec fn waited(self, dt: u32) -> TestSeq {
        TestSeq { left: (self.left - dt) as u32, ..self }
    }

    /// Index of the case after the one that runs; after the last comes
    /// the first.
    pub open spec fn next_i(self) -> int {
        (self.i + 1) % (self.cases@.len() as int)
    }

    /// The state once the next case has begun.
    pub open spec fn advanced(self) -> TestSeq {
        TestSeq {
            i: self.next_i() as usize,
            left: self.cases@[self.next_i()].dur,
            ..self
        }
    }
}

impl Default for TestSeq {
    /// The script, at its first case.
    fn default() -> (seq: TestSeq)
        ensures
            seq.cases@ == default_cases(),
            seq.cases@.len() == 20,
            seq.i == 0,
            seq.left == CASE_DUR,
            seq.wf(),
    {
        let mut cases: Vec<TestCase> = Vec::new();
        cases.push(steady(Surface::Floor, Action::Move, Direction::Positive));
        cases.push(steady(Surface::Floor, Action::Move, Direction::Negative));
        cases.push(steady(Surface::Floor, Action::Idle, Direction::Positive));
        cases.push(steady(Surface::Floor, Action::Sleeping, Direction::Positive));
        cases.push(
            TestCase {
                surface: Surface::Floor,
                action: Action::GivingFlowers,
                dir: Direction::Positive,
                dur: DUR_GIVING_FLOWERS,
                preset: JumpPreset::Unset,
            },
        );
        cases.push(steady(Surface::Floor, Action::Hiding, Direction::Positive));
        cases.push(
            jump(
                Surface::Floor,
                Direction::Positive,
                JumpPreset::FloorPct { start_pct: 10, target_pct: 85 },
            ),
        );
        cases.push(
            jump(
                Surface::Floor,
                Direction::Negative,
                JumpPreset::FloorPct { start_pct: 85, target_pct: 15 },
            ),
        );
        cases.push(
            jump(
                Surface::Floor,
                Direction::Positive,
                JumpPreset::FloorToWall {
                    wall: Surface::RightWall,
                    start_pct: 30,
                    target_y_pct: 40,
                },
            ),
        );
        cases.push(
            jump(
                Surface::Floor,
                Direction::Negative,
                JumpPreset::FloorToWall { wall: Surface::LeftWall, start_pct: 70, target_y_pct: 60 },
            ),
        );
        cases.push(steady(Surface::RightWall, Action::Climb, Direction::Positive));
        cases.push(steady(Surface::RightWall, Action::Climb, Direction::Negative));
        cases.push(steady(Surface::RightWall, Action::Hiding, Direction::Positive));
        cases.push(
            jump(
                Surface::RightWall,
                Direction::Positive,
                JumpPreset::WallToFloorPct { target_pct: 25 },
            ),
        );
        cases.push(steady(Surface::Ceiling, Action::Climb, Direction::Negative));
        cases.push(steady(Surface::Ceiling, Action::Climb, Direction::Positive));
        cases.push(steady(Surface::Ceiling, Action::Hiding, Direction::Negative));
        cases.push(steady(Surface::LeftWall, Action::Climb, Direction::Negative));
        cases.push(steady(Surface::LeftWall, Action::Climb, Direction::Positive));
        cases.push(steady(Surface::LeftWall, Action::Hiding, Direction::Positive));
        assert(cases@ =~= default_cases());
        TestSeq { cases, i: 0, left: CASE_DUR }
    }
}

/// The random driver's state: the microseconds the case that runs has left.
#[derive(Clone, Copy, PartialEq, Eq, Debug, Structural)]
pub struct RandomCtrl {
    pub left: u32,
}

impl Default for RandomCtrl {
    fn default() -> (ctrl: RandomCtrl)
        ensures
            ctrl.left == RANDOM_FIRST_WAIT,
    {
        RandomCtrl { left: RANDOM_FIRST_WAIT }
    }
}

/// The screen the scripted driver lays its cases out on: the monitor's
/// size, or the fallback where that is not known.
pub open spec fn screen_or_fallback(monitor: Option<(i32, i32)>) -> (i32, i32) {
    match monitor {
        Some(size) => size,
        None => (FALLBACK_SCREEN_W, FALLBACK_SCREEN_H),
    }
}

/// Whether the scripted driver begins its next case on this tick: the pet
/// is on a surface and done with its landing, the sheet is loaded, and
/// the case that runs has no time left.
pub open spec fn script_due(seq: TestSeq, s: PetState, sheet_ready: bool, dt: u32) -> bool {
    !s.airborne_or_landing() && sheet_ready && dt >= seq.left
}

/// Whether the scripted driver counts this tick against the case that runs.
pub open spec fn script_waits(seq: TestSeq, s: PetState, sheet_ready: bool, dt: u32) -> bool {
    !s.airborne_or_landing() && sheet_ready && dt < seq.left
}

/// One tick of the scripted driver, `dt` microseconds after the last,
/// for a window of `fw` by `fh` pixels. Returns whether a case began, and
/// with it whether the pet was set down anew.
pub fn test_driver(
    seq: &mut TestSeq,
    st: &mut PetState,
    monitor: Option<(i32, i32)>,
    fw: i32,
    fh: i32,
    sheet_ready: bool,
    dt: u32,
) -> (began: bool)
    requires
        old(seq).wf(),
    ensures
        began == script_due(*old(seq), *old(st), sheet_ready, dt),
        began ==> *final(seq) == old(seq).advanced() && *final(st) == placed(
            *old(st),
            bounds_on(
                screen_or_fallback(monitor).0,
                screen_or_fallback(monitor).1,
                fw,
                fh,
            ),
            old(seq).cases@[old(seq).next_i()],
        ),
        script_waits(*old(seq), *old(st), sheet_ready, dt) ==> *final(seq) == old(seq).waited(dt)
            && *final(st) == *old(st),
        old(st).airborne_or_landing() || !sheet_ready ==> *final(seq) == *old(seq) && *final(st)
            == *old(st),
        final(seq).wf(),
{
    if st.is_airborne_or_landing() {
        return false;
    }
    let (screen_w, screen_h) = match monitor {
        Some(size) => size,
        None => (FALLBACK_SCREEN_W, FALLBACK_SCREEN_H),
    };
    if !sheet_ready {
        return false;
    }
    if dt < seq.left {
        seq.left = seq.left - dt;
        return false;
    }
    let n = seq.cases.len();
    let next = if seq.i + 1 >= n {
        0
    } else {
        seq.i + 1
    };
    proof {
        let i = seq.i as int;
        let len = n as int;
        if i + 1 >= len {
            assert((i + 1) % len == 0) by (nonlinear_arith)
                requires
                    i + 1 == len,
                    len > 0,
            ;
        } else {
            assert((i + 1) % len == i + 1) by (nonlinear_arith)
                requires
                    0 <= i + 1 < len,
            ;
        }
    }
    seq.i = next;
    let case = seq.cases[next];
    seq.left = case.dur;
    place(st, screen_bounds(screen_w, screen_h, fw, fh), case);
    true
}

/// Puts `case` on the pet as the scripted driver does, for a window of
/// `fw` by `fh` pixels on a screen of `screen_w` by `screen_h`.
pub fn apply_case_deterministic(
    st: &mut PetState,
    screen_w: i32,
    screen_h: i32,
    fw: i32,
    fh: i32,
    case: TestCase,
)
    ensures
        *final(st) == placed(*old(st), bounds_on(screen_w, screen_h, fw, fh), case),
{
    place(st, screen_bounds(screen_w, screen_h, fw, fh), case);
}

/// Puts `case` on the pet as the random driver does, for a window of `fw`
/// by `fh` pixels on a screen of `screen_w` by `screen_h`.
pub fn apply_case_continuous(
    st: &mut PetState,
    screen_w: i32,
    screen_h: i32,
    fw: i32,
    fh: i32,
    rng: &mut TinyRng,
    case: TestCase,
)
    ensures
        (*final(st), final(rng).0) == continued(
            *old(st),
            bounds_on(screen_w, screen_h, fw, fh),
            screen_w,
            old(rng).0,
            case,
        ),
{
    carry_on(st, screen_bounds(screen_w, screen_h, fw, fh), screen_w, rng, case);
}

/// The action on the floor that a roll of a six-sided die picks.
pub open spec fn floor_action(roll: int) -> Action {
    if roll == 0 {
        Action::Move
    } else if roll == 1 {
        Action::Idle
    } else if roll == 2 {
        Action::Sleeping
    } else if roll == 3 {
        Action::GivingFlowers
    } else if roll == 4 {
        Action::Hiding
    } else {
        Action::Jumping
    }
}

/// The action drawn for a pet on `surface` and the generator's state
/// after, from the state `seed`. On the floor six actions are as likely
/// as each other; on a wall the pet hides one time in five, else jumps
/// three times in ten, else climbs; on the ceiling it hides three times
/// in ten, else climbs.
pub open spec fn picked_action(seed: u32, surface: Surface) -> (Action, u32) {
    match surface {
        Surface::Floor => (floor_action(xorshift(seed) as int % 6), xorshift(seed)),
        Surface::RightWall | Surface::LeftWall => {
            let (hides, s1) = drawn_chance(seed, 20);
            if hides {
                (Action::Hiding, s1)
            } else {
                let (jumps, s2) = drawn_chance(s1, 30);
                if jumps {
                    (Action::Jumping, s2)
                } else {
                    (Action::Climb, s2)
                }
            }
        },
        Surface::Ceiling => {
            let (hides, s1) = drawn_chance(seed, 30);
            if hides {
                (Action::Hiding, s1)
            } else {
                (Action::Climb, s1)
            }
        },
    }
}

/// The direction drawn for `action` on `surface` and the generator's
/// state after: either direction, as likely as the other, for a walk, a
/// climb and a jump from the floor; positive, without a draw, for all else.
pub open spec fn picked_dir(seed: u32, surface: Surface, action: Action) -> (Direction, u32) {
    let (hit, s1) = drawn_chance(seed, 50);
    match (surface, action) {
        (Surface::Floor, Action::Move) | (Surface::Floor, Action::Jumping) => (
            if hit {
                Direction::Negative
            } else {
                Direction::Positive
            },
            s1,
        ),
        (Surface::RightWall, Action::Climb) | (Surface::LeftWall, Action::Climb) | (
            Surface::Ceiling,
            Action::Climb,
        ) => (
            if hit {
                Direction::Positive
            } else {
                Direction::Negative
            },
            s1,
        ),
        _ => (Direction::Positive, seed),
    }
}

/// The preset that marks the kind of jump; the random driver aims the
/// jump when it puts the case on the pet.
pub open spec fn picked_preset(surface: Surface, action: Action) -> JumpPreset {
    match (surface, action) {
        (Surface::Floor, Action::Jumping) => JumpPreset::FloorPct { start_pct: 0, target_pct: 0 },
        (Surface::RightWall, Action::Jumping) | (Surface::LeftWall, Action::Jumping) =>
            JumpPreset::WallToFloorPct { target_pct: 0 },
        _ => JumpPreset::Unset,
    }
}

/// The case drawn for a pet on `surface` and the generator's state
/// after, from the state `seed`.
pub open spec fn picked(seed: u32, surface: Surface) -> (TestCase, u32) {
    let (action, s1) = picked_action(seed, surface);
    let (dir, s2) = picked_dir(s1, surface, action);
    (
        TestCase {
            surface,
            action,
            dir,
            dur: RANDOM_CASE_DUR,
            preset: picked_preset(surface, action),
        },
        s2,
    )
}

/// Draws the next case for a pet on `current_surface`.
pub fn pick_random_case(rng: &mut TinyRng, current_surface: Surface) -> (case: TestCase)
    ensures
        (case, final(rng).0) == picked(old(rng).0, current_surface),
        case.surface == current_surface,
        action_allowed(current_surface, case.action),
{
    let action = match current_surface {
        Surface::Floor => {
            let roll = rng.next_u32() % 6;
            match roll {
                0 => Action::Move,
                1 => Action::Idle,
                2 => Action::Sleeping,
                3 => Action::GivingFlowers,
                4 => Action::Hiding,
                _ => Action::Jumping,
            }
        },
        Surface::RightWall | Surface::LeftWall => {
            if rng.chance(20) {
                Action::Hiding
            } else if rng.chance(30) {
                Action::Jumping
            } else {
                Action::Climb
            }
        },
        Surface::Ceiling => {
            if rng.chance(30) {
                Action::Hiding
            } else {
                Action::Climb
            }
        },
    };
    let dir = match (current_surface, action) {
        (Surface::Floor, Action::Move) | (Surface::Floor, Action::Jumping) => {
            if rng.chance(50) {
                Direction::Negative
            } else {
                Direction::Positive
            }
        },
        (Surface::RightWall, Action::Climb) | (Surface::LeftWall, Action::Climb) | (
            Surface::Ceiling,
            Action::Climb,
        ) => {
            if rng.chance(50) {
                Direction::Positive
            } else {
                Direction::Negative
            }
        },
        _ => Direction::Positive,
    };
    let preset = match (current_surface, action) {
        (Surface::Floor, Action::Jumping) => JumpPreset::FloorPct { start_pct: 0, target_pct: 0 },
        (Surface::RightWall, Action::Jumping) | (Surface::LeftWall, Action::Jumping) =>
            JumpPreset::WallToFloorPct { target_pct: 0 },
        _ => JumpPreset::Unset,
    };
    TestCase { surface: current_surface, action, dir, dur: RANDOM_CASE_DUR, preset }
}

/// The microseconds the random driver lets `action` last and the
/// generator's state after, from the state `seed`: flowers take as long
/// as their animation, sleep three to six seconds, hiding 1.2 to two,
/// other steady actions two to four.
pub open spec fn drawn_duration(seed: u32, action: Action) -> (u32, u32) {
    match action {
        Action::GivingFlowers => (DUR_GIVING_FLOWERS, seed),
        Action::Sleeping => drawn_span(seed, 3_000_000, 6_000_000),
        Action::Hiding => drawn_span(seed, 1_200_000, 2_000_000),
        Action::Idle | Action::Move | Action::Climb => drawn_span(seed, 2_000_000, 4_000_000),
        Action::Jumping | Action::Landing => (RANDOM_JUMP_DUR, seed),
    }
}

/// Draws how long `action` is to last.
pub fn pick_duration(rng: &mut TinyRng, action: Action) -> (dur: u32)
    ensures
        (dur, final(rng).0) == drawn_duration(old(rng).0, action),
{
    match action {
        Action::GivingFlowers => DUR_GIVING_FLOWERS,
        Action::Sleeping => rng.range_u32(3_000_000, 6_000_000),
        Action::Hiding => rng.range_u32(1_200_000, 2_000_000),
        Action::Idle | Action::Move | Action::Climb => rng.range_u32(2_000_000, 4_000_000),
        Action::Jumping | Action::Landing => RANDOM_JUMP_DUR,
    }
}

/// Whether the random driver draws its next case on this tick: the pet is
/// on a surface and done with its landing, and the case that runs has no
/// time left.
pub open spec fn random_due(ctrl: RandomCtrl, s: PetState, dt: u32) -> bool {
    !s.airborne_or_landing() && dt >= ctrl.left
}

/// The pet, the driver and the generator after the random driver drew
/// its next case for a window of `fw` by `fh` pixels on the virtual
/// desktop: the case for the surface the pet is on, then its duration,
/// then the aim of its jump.
pub open spec fn random_advanced(s: PetState, fw: i32, fh: i32, seed: u32) -> (
    PetState,
    RandomCtrl,
    u32,
) {
    let (case, s1) = picked(seed, s.surface);
    let (dur, s2) = drawn_duration(s1, case.action);
    let (st, s3) = continued(
        s,
        virtual_bounds(fw, fh),
        desktop_extent(DESKTOP_W as int, fw as int) as i32,
        s2,
        case,
    );
    (st, RandomCtrl { left: dur }, s3)
}

/// One tick of the random driver, `dt` microseconds after the last, for
/// a window of `fw` by `fh` pixels. Returns whether a case began.
pub fn random_driver(
    rnd: &mut TinyRng,
    ctrl: &mut RandomCtrl,
    st: &mut PetState,
    fw: i32,
    fh: i32,
    dt: u32,
) -> (began: bool)
    ensures
        began == random_due(*old(ctrl), *old(st), dt),
        began ==> (*final(st), *final(ctrl), final(rnd).0) == random_advanced(
            *old(st),
            fw,
            fh,
            old(rnd).0,
        ),
        !began ==> *final(st) == *old(st) && *final(rnd) == *old(rnd),
        old(st).airborne_or_landing() ==> *final(ctrl) == *old(ctrl),
        !old(st).airborne_or_landing() && dt < old(ctrl).left ==> final(ctrl).left == old(
            ctrl,
        ).left - dt,
{
    if st.is_airborne_or_landing() {
        return false;
    }
    if dt < ctrl.left {
        ctrl.left = ctrl.left - dt;
        return false;
    }
    let case = pick_random_case(rnd, st.surface);
    ctrl.left = pick_duration(rnd, case.action);
    carry_on(st, desktop_bounds(fw, fh), desktop_side(DESKTOP_W, fw), rnd, case);
    true
}

} // verus!
