use tovaras::model::{Bounds, Point};
use tovaras::physics::{
    desktop_bounds, desktop_side, displace, fall, flight_time, screen_bounds, start_position,
    travel_of, velocity_for, window_size,
};
use tovaras::sheet::cell_size;

#[test]
fn virtual_desktop_bounds() {
    assert_eq!(desktop_bounds(100, 100), Bounds { max_x: 1820, max_y: 980 });
    assert_eq!(desktop_bounds(0, 0), Bounds { max_x: 1920, max_y: 1080 });
    // a frame too large for the least desktop gets a margin on either side
    assert_eq!(desktop_bounds(1900, 1060), Bounds { max_x: 80, max_y: 80 });
    assert_eq!(desktop_bounds(1840, 1000), Bounds { max_x: 80, max_y: 80 });
    assert_eq!(desktop_bounds(1839, 999), Bounds { max_x: 81, max_y: 81 });
    assert_eq!(desktop_bounds(i32::MAX, i32::MAX), Bounds { max_x: 0, max_y: 0 });
    assert_eq!(desktop_bounds(i32::MAX - 80, 5), Bounds { max_x: 80, max_y: 1075 });
    assert_eq!(desktop_bounds(i32::MAX - 79, 5), Bounds { max_x: 79, max_y: 1075 });
    assert_eq!(desktop_bounds(-10, -20), Bounds { max_x: 1930, max_y: 1100 });
    assert_eq!(desktop_bounds(i32::MIN, 0), Bounds { max_x: i32::MAX, max_y: 1080 });
}

#[test]
fn desktop_sides() {
    assert_eq!(desktop_side(1920, 100), 1920);
    assert_eq!(desktop_side(1920, 1841), 1921);
    assert_eq!(desktop_side(1080, i32::MAX), i32::MAX);
}

#[test]
fn screen_bounds_never_negative() {
    assert_eq!(screen_bounds(1280, 720, 100, 100), Bounds { max_x: 1180, max_y: 620 });
    assert_eq!(screen_bounds(50, 60, 100, 100), Bounds { max_x: 0, max_y: 0 });
    assert_eq!(screen_bounds(i32::MAX, 5, i32::MIN, 5), Bounds { max_x: i32::MAX, max_y: 0 });
    assert_eq!(travel_of(10, 3), 7);
    assert_eq!(travel_of(3, 10), 0);
}

#[test]
fn window_layout() {
    assert_eq!(cell_size(2700, 900), (100, 100));
    assert_eq!(cell_size(2726, 908), (100, 100));
    assert_eq!(cell_size(26, 8), (0, 0));
    assert_eq!(window_size(100, 104), (20, 20));
    assert_eq!(start_position(1080, 20), Point { x: 40, y: 1020 });
    assert_eq!(start_position(i32::MIN, i32::MAX), Point { x: 40, y: i32::MIN });
}

#[test]
fn displacement_rounds_down() {
    // 90 px/s over a sixtieth of a second is a pixel and a half
    assert_eq!(displace(100, 90_000, 16_667), 101);
    assert_eq!(displace(100, -90_000, 16_667), 98);
    assert_eq!(displace(0, -90_000, 16_667), -2);
    assert_eq!(displace(100, 90_000, 5_000), 100);
    assert_eq!(displace(100, -90_000, 5_000), 99);
    assert_eq!(displace(-5, 1_000, 500_000), -5);
    assert_eq!(displace(7, 123_456, 0), 7);
    assert_eq!(displace(i32::MAX, i64::MAX, u32::MAX), 39_614_081_250_056_280_402);
}

#[test]
fn gravity_adds_to_the_velocity() {
    assert_eq!(fall(-900_000, 16_667), -870_000);
    assert_eq!(fall(0, 1_000_000), 1_800_000);
    assert_eq!(fall(5, 0), 5);
    assert_eq!(fall(0, 1), 1);
    assert_eq!(fall(i64::MAX - 10, 1_000), i64::MAX);
    assert_eq!(fall(i64::MIN, u32::MAX), i64::MIN + 7_730_941_131);
}

#[test]
fn flight_times() {
    // symmetric arc: 2 * 900 / 1800 seconds
    assert_eq!(flight_time(-900, 0), 1_000_000);
    assert_eq!(flight_time(-880, 0), 977_777);
    // from 490 px above the floor line
    assert_eq!(flight_time(-880, -490), 1_374_019);
    // down to 80 px above the takeoff height
    assert_eq!(flight_time(-900, 80), 901_386);
    // the top of the arc is 225 px up
    assert_eq!(flight_time(-900, 225), 500_000);
    // higher than the jump reaches: one second
    assert_eq!(flight_time(-900, 226), 1_000_000);
    assert_eq!(flight_time(-900, 392), 1_000_000);
}

#[test]
fn velocities_cover_the_distance() {
    assert_eq!(velocity_for(1456, 1_000_000), 1_456_000);
    assert_eq!(velocity_for(-1365, 1_374_019), -993_436);
    assert_eq!(velocity_for(1274, 901_386), 1_413_378);
    assert_eq!(velocity_for(7, 3), 2_333_333_333);
    assert_eq!(velocity_for(-7, 3), -2_333_333_333);
    assert_eq!(velocity_for(5, 0), 0);
    assert_eq!(velocity_for(0, 17), 0);
    assert_eq!(velocity_for(4_294_967_296, 1), 4_294_967_296_000_000_000);
    assert_eq!(velocity_for(-4_294_967_296, 1), -4_294_967_296_000_000_000);
}
