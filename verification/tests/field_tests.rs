use ripples::color::Color;
use ripples::field::{RippleField, DEFAULT_MIN_SPAWN_INTERVAL_MS};
use ripples::ripple::Ripple;

fn ripple_with_radius(center_x: i32, radius: u32) -> Ripple {
    Ripple {
        center_x,
        center_y: 0,
        color_sequence: vec![Color { red: 255, green: 255, blue: 255 }],
        radius,
        copies: 1,
    }
}

fn field_with(ripples: Vec<Ripple>) -> RippleField {
    RippleField {
        ripples,
        mouse_down: false,
        last_ripple_time_ms: 0,
        min_spawn_interval_ms: DEFAULT_MIN_SPAWN_INTERVAL_MS,
    }
}

#[test]
fn advance_grows_every_ripple() {
    let mut f = field_with(vec![ripple_with_radius(1, 100), ripple_with_radius(2, 500)]);
    f.advance();
    assert_eq!(f.ripples.len(), 2);
    assert_eq!(f.ripples[0].center_x, 1);
    assert_eq!(f.ripples[0].radius, 115);
    assert_eq!(f.ripples[1].center_x, 2);
    assert_eq!(f.ripples[1].radius, 515);
}

#[test]
fn advance_removes_expired_same_tick() {
    // 1990 steps to 2005, at the maximum: gone this very tick. 1900
    // steps to 1915 and stays. 1984 steps to 1999 and stays; 1985 steps
    // to exactly 2000 and is removed, with no one-tick lag.
    let mut f = field_with(vec![
        ripple_with_radius(1, 1990),
        ripple_with_radius(2, 1900),
        ripple_with_radius(3, 1984),
        ripple_with_radius(4, 1985),
    ]);
    f.advance();
    let centers: Vec<i32> = f.ripples.iter().map(|r| r.center_x).collect();
    assert_eq!(centers, vec![2, 3]);
    assert_eq!(f.ripples[0].radius, 1915);
    assert_eq!(f.ripples[1].radius, 1999);
}

#[test]
fn advance_keeps_order() {
    let mut f = field_with(vec![
        ripple_with_radius(10, 300),
        ripple_with_radius(20, 1990),
        ripple_with_radius(30, 700),
    ]);
    f.advance();
    let centers: Vec<i32> = f.ripples.iter().map(|r| r.center_x).collect();
    assert_eq!(centers, vec![10, 30]);
}

#[test]
fn spawn_appends_at_position() {
    let mut f = field_with(vec![]);
    f.spawn(123, -456);
    assert_eq!(f.ripples.len(), 1);
    assert_eq!(f.ripples[0].center_x, 123);
    assert_eq!(f.ripples[0].center_y, -456);
    assert_eq!(f.ripples[0].radius, 100);
    assert_eq!(f.ripples[0].copies, 1);
}

#[test]
fn press_spawns_and_starts_held_state() {
    let mut f = RippleField::new(100);
    f.press(5000, 10, 20);
    assert!(f.mouse_down);
    assert_eq!(f.last_ripple_time_ms, 5000);
    assert_eq!(f.ripples.len(), 1);
    f.release();
    assert!(!f.mouse_down);
}

#[test]
fn held_tick_debounces() {
    let mut f = RippleField::new(100);
    f.press(0, 0, 0);
    assert!(!f.held_tick(50, 0, 0, false));
    assert!(!f.held_tick(100, 0, 0, false)); // exactly the interval: not yet
    assert!(f.held_tick(101, 0, 0, false));
    assert!(!f.held_tick(150, 0, 0, false));
    assert!(f.held_tick(250, 0, 0, false));
    assert_eq!(f.ripples.len(), 3);
}

#[test]
fn held_tick_requires_pointer_down_and_free() {
    let mut f = RippleField::new(100);
    f.press(0, 0, 0);
    assert!(!f.held_tick(500, 0, 0, true)); // over the menu: blocked
    f.release();
    assert!(!f.held_tick(1000, 0, 0, false)); // pointer no longer down
    assert_eq!(f.ripples.len(), 1);
}

#[test]
fn holding_spawns_at_most_one_per_interval() {
    // Hold for one second with frames every 16 ms: at most
    // 1000 / 100 + 1 ripples in all; with these frame times, exactly
    // nine (the press, then spawns at 112, 224, ..., 896).
    let mut f = RippleField::new(100);
    f.press(0, 0, 0);
    let mut spawned = 1;
    let mut t = 0;
    while t <= 1000 {
        if f.held_tick(t, 0, 0, false) {
            spawned += 1;
        }
        t += 16;
    }
    assert!(spawned <= 1000 / 100 + 1);
    assert_eq!(spawned, 9);
    assert_eq!(f.ripples.len(), 9);
}

#[test]
fn frame_advances_then_spawns() {
    let mut f = RippleField::new(100);
    f.press(0, 0, 0);
    let spawned = f.frame(200, 7, 8, false);
    assert!(spawned);
    assert_eq!(f.ripples.len(), 2);
    assert_eq!(f.ripples[0].radius, 115); // the pressed ripple, one tick on
    assert_eq!(f.ripples[1].center_x, 7); // the fresh spawn
    assert_eq!(f.ripples[1].radius, 100);
    assert_eq!(f.last_ripple_time_ms, 200);
}

#[test]
fn frame_within_interval_only_advances() {
    let mut f = RippleField::new(100);
    f.press(0, 0, 0);
    let spawned = f.frame(50, 7, 8, false);
    assert!(!spawned);
    assert_eq!(f.ripples.len(), 1);
    assert_eq!(f.ripples[0].radius, 115);
    assert_eq!(f.last_ripple_time_ms, 0);
}
