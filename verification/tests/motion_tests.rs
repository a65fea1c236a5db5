use tovaras::clock::Anim;
use tovaras::model::{
    Action, Bounds, Direction, FlightKind, PetState, Point, Surface, WallTarget,
};
use tovaras::motion::{
    apply_motion_and_orientation, crawl, fly, hold, launch, set_visual_for, velocity_along,
};
use tovaras::visual::{Rotation, Visual};

const TICK: u32 = 16_667;
const B: Bounds = Bounds { max_x: 1820, max_y: 980 };

fn pet(surface: Surface, action: Action, dir: Direction, x: i32, y: i32) -> PetState {
    PetState { surface, action, dir, window_pos: Point { x, y }, ..PetState::new() }
}

fn step(st: &mut PetState, anim: &mut Anim, dt: u32, corners: bool) -> Visual {
    apply_motion_and_orientation(st, anim, 100, 100, dt, corners)
}

#[test]
fn initial_state() {
    let st = PetState::new();
    assert_eq!(st.surface, Surface::Floor);
    assert_eq!(st.action, Action::Move);
    assert_eq!(st.dir, Direction::Positive);
    assert_eq!(st.window_pos, Point { x: 20, y: 20 });
    assert_eq!(st.flight, FlightKind::Grounded);
    assert_eq!((st.vx, st.vy, st.landing_left, st.target_x), (0, 0, 0, 0));
    assert_eq!(st.wall_target, None);
    assert!(!st.is_airborne_or_landing());
}

#[test]
fn airborne_or_landing_states() {
    let mut st = PetState::new();
    st.action = Action::Jumping;
    assert!(st.is_airborne_or_landing());
    st.action = Action::Landing;
    assert!(st.is_airborne_or_landing());
    st.action = Action::Climb;
    assert!(!st.is_airborne_or_landing());
    st.flight = FlightKind::Parabola;
    assert!(st.is_airborne_or_landing());
}

#[test]
fn speeds_along_a_surface() {
    assert_eq!(velocity_along(90, Direction::Positive), 90_000);
    assert_eq!(velocity_along(70, Direction::Negative), -70_000);
    assert_eq!(Direction::Positive.signum(), 1);
    assert_eq!(Direction::Negative.signum(), -1);
}

#[test]
fn walk_on_the_floor() {
    let mut st = PetState::new();
    let mut anim = Anim::new(0, 13, 10);
    let v = step(&mut st, &mut anim, 1_000_000, true);
    assert_eq!(st.window_pos, Point { x: 110, y: 980 });
    assert_eq!(st.surface, Surface::Floor);
    assert_eq!(st.action, Action::Move);
    assert_eq!(
        v,
        Visual { row: 1, fps: 14, rotation: Rotation::Zero, flip_x: false, flip_y: false }
    );
    assert_eq!(anim, Anim { start_index: 27, len: 5, index: 27, period: 71_428, elapsed: 0 });
    // leftward a pixel and a half rounds down to two pixels
    st.dir = Direction::Negative;
    let v = step(&mut st, &mut anim, TICK, true);
    assert_eq!(st.window_pos, Point { x: 108, y: 980 });
    assert!(v.flip_x);
    st.dir = Direction::Positive;
    step(&mut st, &mut anim, TICK, true);
    assert_eq!(st.window_pos, Point { x: 109, y: 980 });
}

#[test]
fn still_actions_stay_in_place() {
    for action in [Action::Idle, Action::Sleeping, Action::Hiding, Action::GivingFlowers, Action::Climb] {
        let mut st = pet(Surface::Floor, action, Direction::Negative, 300, 500);
        let mut anim = Anim::new(0, 13, 10);
        step(&mut st, &mut anim, 1_000_000, true);
        assert_eq!(st.window_pos, Point { x: 300, y: 980 });
        assert_eq!(st.action, action);
        assert_eq!(st.surface, Surface::Floor);
    }
    for surface in [Surface::RightWall, Surface::LeftWall] {
        let mut st = pet(surface, Action::Hiding, Direction::Positive, 300, 500);
        let mut anim = Anim::new(0, 13, 10);
        step(&mut st, &mut anim, 1_000_000, true);
        let x = if surface == Surface::RightWall { 1820 } else { 0 };
        assert_eq!(st.window_pos, Point { x, y: 500 });
    }
    let mut st = pet(Surface::Ceiling, Action::Hiding, Direction::Positive, 3000, 500);
    let mut anim = Anim::new(0, 13, 10);
    step(&mut st, &mut anim, 1_000_000, true);
    assert_eq!(st.window_pos, Point { x: 1820, y: 0 });
}

#[test]
fn floor_corners_lead_up_the_walls() {
    let mut st = pet(Surface::Floor, Action::Move, Direction::Positive, 1819, 980);
    crawl(&mut st, B, TICK, true);
    assert_eq!(st.surface, Surface::RightWall);
    assert_eq!(st.action, Action::Climb);
    assert_eq!(st.dir, Direction::Positive);
    assert_eq!(st.window_pos, Point { x: 1820, y: 980 });

    let mut st = pet(Surface::Floor, Action::Move, Direction::Negative, 1, 980);
    crawl(&mut st, B, TICK, true);
    assert_eq!(st.surface, Surface::LeftWall);
    assert_eq!(st.action, Action::Climb);
    assert_eq!(st.dir, Direction::Positive);
    assert_eq!(st.window_pos, Point { x: 0, y: 980 });
}

#[test]
fn wall_corners_lead_on() {
    // up the right wall onto the ceiling, leftward
    let mut st = pet(Surface::RightWall, Action::Climb, Direction::Positive, 1820, 1);
    crawl(&mut st, B, TICK, true);
    assert_eq!((st.surface, st.action, st.dir), (Surface::Ceiling, Action::Climb, Direction::Negative));
    assert_eq!(st.window_pos, Point { x: 1820, y: 0 });
    // down the right wall onto the floor, leftward
    let mut st = pet(Surface::RightWall, Action::Climb, Direction::Negative, 1820, 979);
    crawl(&mut st, B, TICK, true);
    assert_eq!((st.surface, st.action, st.dir), (Surface::Floor, Action::Move, Direction::Negative));
    assert_eq!(st.window_pos, Point { x: 1820, y: 980 });
    // up the left wall onto the ceiling, rightward
    let mut st = pet(Surface::LeftWall, Action::Climb, Direction::Positive, 0, 1);
    crawl(&mut st, B, TICK, true);
    assert_eq!((st.surface, st.action, st.dir), (Surface::Ceiling, Action::Climb, Direction::Positive));
    assert_eq!(st.window_pos, Point { x: 0, y: 0 });
    // down the left wall onto the floor, rightward
    let mut st = pet(Surface::LeftWall, Action::Climb, Direction::Negative, 0, 979);
    crawl(&mut st, B, TICK, true);
    assert_eq!((st.surface, st.action, st.dir), (Surface::Floor, Action::Move, Direction::Positive));
    assert_eq!(st.window_pos, Point { x: 0, y: 980 });
    // along the ceiling down the walls
    let mut st = pet(Surface::Ceiling, Action::Climb, Direction::Negative, 1, 0);
    crawl(&mut st, B, TICK, true);
    assert_eq!((st.surface, st.action, st.dir), (Surface::LeftWall, Action::Climb, Direction::Negative));
    assert_eq!(st.window_pos, Point { x: 0, y: 0 });
    let mut st = pet(Surface::Ceiling, Action::Climb, Direction::Positive, 1819, 0);
    crawl(&mut st, B, TICK, true);
    assert_eq!((st.surface, st.action, st.dir), (Surface::RightWall, Action::Climb, Direction::Negative));
    assert_eq!(st.window_pos, Point { x: 1820, y: 0 });
}

#[test]
fn climbing_moves_along_the_wall() {
    let mut st = pet(Surface::RightWall, Action::Climb, Direction::Positive, 5, 500);
    crawl(&mut st, B, 1_000_000, true);
    assert_eq!(st.window_pos, Point { x: 1820, y: 430 });
    st.dir = Direction::Negative;
    crawl(&mut st, B, 500_000, true);
    assert_eq!(st.window_pos, Point { x: 1820, y: 465 });
    let mut st = pet(Surface::LeftWall, Action::Climb, Direction::Negative, 5, 500);
    crawl(&mut st, B, 1_000_000, true);
    assert_eq!(st.window_pos, Point { x: 0, y: 570 });
    let mut st = pet(Surface::Ceiling, Action::Climb, Direction::Negative, 500, 7);
    crawl(&mut st, B, 1_000_000, true);
    assert_eq!(st.window_pos, Point { x: 410, y: 0 });
}

#[test]
fn a_climb_away_from_a_corner_stays_on_the_wall() {
    // at the top, heading down: no move onto the ceiling
    let mut st = pet(Surface::RightWall, Action::Climb, Direction::Negative, 1820, -50);
    crawl(&mut st, B, 0, true);
    assert_eq!(st.surface, Surface::RightWall);
    assert_eq!(st.window_pos, Point { x: 1820, y: 0 });
}

#[test]
fn without_corner_traversal_the_pet_stops_at_the_end() {
    let mut st = pet(Surface::Floor, Action::Move, Direction::Positive, 1819, 980);
    let mut anim = Anim::new(0, 13, 10);
    step(&mut st, &mut anim, 1_000_000, false);
    assert_eq!(st.surface, Surface::Floor);
    assert_eq!(st.action, Action::Move);
    assert_eq!(st.window_pos, Point { x: 1820, y: 980 });
    let mut st = pet(Surface::RightWall, Action::Climb, Direction::Positive, 1820, 10);
    step(&mut st, &mut anim, 1_000_000, false);
    assert_eq!(st.surface, Surface::RightWall);
    assert_eq!(st.window_pos, Point { x: 1820, y: 0 });
    let mut st = pet(Surface::Ceiling, Action::Climb, Direction::Negative, 10, 0);
    step(&mut st, &mut anim, 1_000_000, false);
    assert_eq!(st.surface, Surface::Ceiling);
    assert_eq!(st.window_pos, Point { x: 0, y: 0 });
}

#[test]
fn takeoff_from_the_floor() {
    let mut st = pet(Surface::Floor, Action::Jumping, Direction::Positive, 182, 980);
    st.target_x = 1638;
    st.landing_left = 77;
    launch(&mut st, B);
    assert_eq!(st.flight, FlightKind::Parabola);
    assert_eq!(st.flight_from, Surface::Floor);
    // the arc takes one second, so the velocity is the distance per second
    assert_eq!(st.vx, 1_456_000);
    assert_eq!(st.vy, -900_000);
    assert_eq!(st.landing_left, 0);
    assert_eq!(st.window_pos, Point { x: 182, y: 980 });
    assert_eq!(st.action, Action::Jumping);
}

#[test]
fn takeoff_from_a_wall() {
    let mut st = pet(Surface::RightWall, Action::Jumping, Direction::Negative, 1820, 490);
    st.target_x = 455;
    launch(&mut st, B);
    assert_eq!(st.flight_from, Surface::RightWall);
    assert_eq!(st.vx, -993_436);
    assert_eq!(st.vy, -880_000);
    let mut st = pet(Surface::LeftWall, Action::Jumping, Direction::Positive, 0, 490);
    st.target_x = 1365;
    launch(&mut st, B);
    assert_eq!(st.flight_from, Surface::LeftWall);
    assert_eq!(st.vx, 993_436);
    assert_eq!(st.vy, -880_000);
}

#[test]
fn takeoff_toward_a_wall() {
    let mut st = pet(Surface::Floor, Action::Jumping, Direction::Positive, 546, 980);
    st.wall_target = Some(WallTarget { wall: Surface::RightWall, y: 900 });
    launch(&mut st, B);
    assert_eq!(st.vx, 1_413_378);
    assert_eq!(st.vy, -900_000);
    assert_eq!(st.wall_target, Some(WallTarget { wall: Surface::RightWall, y: 900 }));
    // a height the jump does not reach: the wall is met after one second
    let mut st = pet(Surface::Floor, Action::Jumping, Direction::Negative, 1274, 980);
    st.wall_target = Some(WallTarget { wall: Surface::LeftWall, y: 588 });
    launch(&mut st, B);
    assert_eq!(st.vx, -1_274_000);
}

#[test]
fn floor_jump_lands_on_its_target_after_a_second() {
    let mut st = pet(Surface::Floor, Action::Jumping, Direction::Positive, 182, 980);
    st.target_x = 1638;
    let mut anim = Anim::new(0, 13, 10);
    let v = step(&mut st, &mut anim, TICK, true);
    assert_eq!(st.flight, FlightKind::Parabola);
    assert_eq!(st.window_pos, Point { x: 206, y: 965 });
    assert_eq!((st.vx, st.vy), (1_456_000, -870_000));
    assert_eq!(v.row, 4);
    let mut ticks = 1;
    while st.flight != FlightKind::Grounded {
        let before = st;
        let v = step(&mut st, &mut anim, TICK, true);
        ticks += 1;
        assert!(ticks < 200);
        if st.flight != FlightKind::Grounded {
            assert_eq!(v.row, 4);
            assert_eq!(st.action, Action::Jumping);
            assert_eq!(st.vy, before.vy + 30_000);
            assert_eq!(st.vx, before.vx);
        } else {
            assert_eq!(v.row, 5);
        }
    }
    assert_eq!(ticks, 61);
    let elapsed = ticks as i64 * TICK as i64;
    assert!((elapsed - 1_000_000).abs() <= 2 * TICK as i64);
    assert_eq!(st.window_pos, Point { x: 1638, y: 980 });
    assert_eq!(st.surface, Surface::Floor);
    assert_eq!(st.action, Action::Landing);
    assert_eq!(st.dir, Direction::Positive);
    assert_eq!(st.landing_left, 500_000 - TICK);
    assert_eq!(anim.start_index, 135);
}

#[test]
fn leftward_floor_jump_faces_left_on_landing() {
    let mut st = pet(Surface::Floor, Action::Jumping, Direction::Positive, 1547, 980);
    st.target_x = 273;
    let mut anim = Anim::new(0, 13, 10);
    let mut ticks = 0;
    while ticks == 0 || st.flight != FlightKind::Grounded {
        step(&mut st, &mut anim, TICK, true);
        ticks += 1;
        assert!(ticks < 200);
    }
    assert_eq!(st.window_pos, Point { x: 273, y: 980 });
    assert_eq!(st.dir, Direction::Negative);
}

#[test]
fn wall_jumps_land_on_target_facing_away() {
    let mut st = pet(Surface::RightWall, Action::Jumping, Direction::Positive, 1820, 490);
    st.target_x = 455;
    let mut anim = Anim::new(0, 13, 10);
    let v = step(&mut st, &mut anim, TICK, true);
    assert_eq!(st.window_pos, Point { x: 1803, y: 475 });
    assert_eq!(
        v,
        Visual { row: 4, fps: 1, rotation: Rotation::Zero, flip_x: true, flip_y: false }
    );
    let mut ticks = 1;
    while st.flight != FlightKind::Grounded {
        step(&mut st, &mut anim, TICK, true);
        ticks += 1;
        assert!(ticks < 300);
    }
    assert_eq!(ticks, 84);
    assert_eq!(st.window_pos, Point { x: 455, y: 980 });
    assert_eq!(st.surface, Surface::Floor);
    assert_eq!(st.action, Action::Landing);
    assert_eq!(st.dir, Direction::Negative);

    let mut st = pet(Surface::LeftWall, Action::Jumping, Direction::Negative, 0, 490);
    st.target_x = 1365;
    let mut ticks = 0;
    while ticks == 0 || st.flight != FlightKind::Grounded {
        step(&mut st, &mut anim, TICK, true);
        ticks += 1;
        assert!(ticks < 300);
    }
    assert_eq!(ticks, 84);
    assert_eq!(st.window_pos, Point { x: 1365, y: 980 });
    assert_eq!(st.dir, Direction::Positive);
}

#[test]
fn landing_target_is_held_to_the_screen() {
    let mut st = pet(Surface::Floor, Action::Jumping, Direction::Positive, 100, 980);
    st.flight = FlightKind::Parabola;
    st.vy = 500_000;
    st.target_x = 5000;
    let touched = fly(&mut st, B, TICK);
    assert!(touched);
    assert_eq!(st.window_pos, Point { x: 1820, y: 980 });
    st.flight = FlightKind::Parabola;
    st.target_x = -3;
    assert!(fly(&mut st, B, TICK));
    assert_eq!(st.window_pos, Point { x: 0, y: 980 });
}

#[test]
fn jump_toward_a_wall_ends_on_the_wall() {
    let mut st = pet(Surface::Floor, Action::Jumping, Direction::Positive, 546, 980);
    st.wall_target = Some(WallTarget { wall: Surface::RightWall, y: 900 });
    let mut anim = Anim::new(0, 13, 10);
    let mut ticks = 0;
    while ticks == 0 || st.flight != FlightKind::Grounded {
        step(&mut st, &mut anim, TICK, true);
        ticks += 1;
        assert!(ticks < 300);
    }
    assert_eq!(ticks, 56);
    assert_eq!(st.surface, Surface::RightWall);
    assert_eq!(st.action, Action::Climb);
    // it was falling when it met the wall, so it climbs down
    assert_eq!(st.dir, Direction::Negative);
    assert_eq!(st.window_pos, Point { x: 1820, y: 900 });
    assert_eq!(st.wall_target, None);
    assert_eq!(st.landing_left, 0);

    let mut st = pet(Surface::Floor, Action::Jumping, Direction::Negative, 1274, 980);
    st.wall_target = Some(WallTarget { wall: Surface::LeftWall, y: 588 });
    let mut ticks = 0;
    while ticks == 0 || st.flight != FlightKind::Grounded {
        step(&mut st, &mut anim, TICK, true);
        ticks += 1;
        assert!(ticks < 300);
    }
    assert_eq!(ticks, 58);
    assert_eq!(st.surface, Surface::LeftWall);
    assert_eq!(st.window_pos, Point { x: 0, y: 588 });
}

#[test]
fn a_rising_pet_caught_by_a_wall_climbs_up() {
    let mut st = pet(Surface::Floor, Action::Jumping, Direction::Positive, 1819, 700);
    st.flight = FlightKind::Parabola;
    st.vx = 500_000;
    st.vy = -600_000;
    st.wall_target = Some(WallTarget { wall: Surface::RightWall, y: 2000 });
    let touched = fly(&mut st, B, TICK);
    assert!(!touched);
    assert_eq!(st.surface, Surface::RightWall);
    assert_eq!(st.action, Action::Climb);
    assert_eq!(st.dir, Direction::Positive);
    // the target height is held to the screen
    assert_eq!(st.window_pos, Point { x: 1820, y: 980 });
}

#[test]
fn flight_is_held_to_the_screen() {
    let mut st = pet(Surface::Floor, Action::Jumping, Direction::Positive, 10, 5);
    st.flight = FlightKind::Parabola;
    st.vx = -5_000_000;
    st.vy = -5_000_000;
    assert!(!fly(&mut st, B, TICK));
    assert_eq!(st.window_pos, Point { x: 0, y: 0 });
    assert_eq!(st.flight, FlightKind::Parabola);
    assert_eq!(st.vy, -4_970_000);
}

#[test]
fn ceiling_jump_does_nothing() {
    let mut st = pet(Surface::Ceiling, Action::Jumping, Direction::Positive, 400, 0);
    st.target_x = 900;
    let mut anim = Anim::new(27, 5, 14);
    let v = step(&mut st, &mut anim, 1_000_000, true);
    assert_eq!(st.flight, FlightKind::Grounded);
    assert_eq!(st.action, Action::Jumping);
    assert_eq!(st.surface, Surface::Ceiling);
    assert_eq!(st.window_pos, Point { x: 400, y: 0 });
    assert_eq!((st.vx, st.vy), (0, 0));
    assert_eq!(v.row, 0);
}

#[test]
fn landing_hold_lasts_half_a_second() {
    let mut st = pet(Surface::Floor, Action::Jumping, Direction::Positive, 182, 980);
    st.target_x = 1638;
    let mut anim = Anim::new(0, 13, 10);
    let mut guard = 0;
    while guard == 0 || st.flight != FlightKind::Grounded {
        step(&mut st, &mut anim, TICK, true);
        guard += 1;
    }
    // the tick of the landing counts toward the hold
    let mut held = TICK;
    let mut ticks = 0;
    while st.action == Action::Landing {
        let x = st.window_pos.x;
        let v = step(&mut st, &mut anim, TICK, true);
        held += TICK;
        ticks += 1;
        assert_eq!(v.row, 5);
        // the slide: 100 px/s, rounded down each tick
        assert_eq!(st.window_pos, Point { x: x + 1, y: 980 });
        assert!(ticks < 100);
    }
    assert_eq!(ticks, 29);
    assert!(held >= 500_000 && held - 500_000 < TICK);
    assert_eq!(st.action, Action::Move);
    assert_eq!(st.landing_left, 0);
    assert_eq!(st.window_pos, Point { x: 1667, y: 980 });
}

#[test]
fn hold_counts_down() {
    let mut st = pet(Surface::Floor, Action::Landing, Direction::Positive, 0, 0);
    st.landing_left = 500_000;
    hold(&mut st, 200_000);
    assert_eq!((st.action, st.landing_left), (Action::Landing, 300_000));
    hold(&mut st, 299_999);
    assert_eq!((st.action, st.landing_left), (Action::Landing, 1));
    hold(&mut st, 1);
    assert_eq!((st.action, st.landing_left), (Action::Move, 0));
    let mut st = pet(Surface::Floor, Action::Idle, Direction::Positive, 0, 0);
    st.landing_left = 5;
    hold(&mut st, 100);
    assert_eq!((st.action, st.landing_left), (Action::Idle, 5));
}

#[test]
fn a_long_tick_ends_the_hold_with_the_landing() {
    let mut st = pet(Surface::Floor, Action::Jumping, Direction::Positive, 100, 970);
    st.flight = FlightKind::Parabola;
    st.flight_from = Surface::RightWall;
    st.target_x = 300;
    let mut anim = Anim::new(0, 13, 10);
    let v = step(&mut st, &mut anim, 600_000, true);
    assert_eq!(st.action, Action::Move);
    assert_eq!(st.window_pos, Point { x: 300, y: 980 });
    assert_eq!(st.dir, Direction::Negative);
    assert_eq!(v.row, 5);
    assert!(v.flip_x);
}

#[test]
fn set_visual_switches_the_animation() {
    let mut anim = Anim::new(0, 13, 10);
    let v = set_visual_for(Surface::LeftWall, Action::Climb, Direction::Positive, &mut anim);
    assert_eq!(
        v,
        Visual { row: 8, fps: 12, rotation: Rotation::Half, flip_x: false, flip_y: true }
    );
    assert_eq!(anim, Anim { start_index: 216, len: 8, index: 216, period: 83_333, elapsed: 0 });
    anim.animate_sprite(100_000);
    let v = set_visual_for(Surface::LeftWall, Action::Climb, Direction::Negative, &mut anim);
    assert!(!v.flip_y);
    assert_eq!(anim, Anim { start_index: 216, len: 8, index: 217, period: 83_333, elapsed: 16_667 });
}

#[test]
fn position_stays_on_screen_from_anywhere() {
    let starts = [(-500, -500), (5000, 5000), (i32::MAX, i32::MIN), (i32::MIN, i32::MAX)];
    let surfaces = [Surface::Floor, Surface::RightWall, Surface::Ceiling, Surface::LeftWall];
    let actions = [Action::Move, Action::Climb, Action::Jumping, Action::Landing, Action::Idle];
    for (x, y) in starts {
        for s in surfaces {
            for a in actions {
                for d in [Direction::Positive, Direction::Negative] {
                    let mut st = pet(s, a, d, x, y);
                    let mut anim = Anim::new(0, 13, 10);
                    for _ in 0..5 {
                        step(&mut st, &mut anim, u32::MAX, true);
                        let p = st.window_pos;
                        assert!(0 <= p.x && p.x <= 1820 && 0 <= p.y && p.y <= 980);
                    }
                }
            }
        }
    }
}
