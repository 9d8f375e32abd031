use ripples::background::BackgroundType;
use ripples::menu::{Menu, Rect};

fn window() -> Rect {
    // An 800 x 600 canvas centered on the origin, in tenths.
    Rect { x: 0, y: 0, w: 8000, h: 6000 }
}

#[test]
fn menu_layout_top_left() {
    let m = Menu::new(window(), true, true);
    assert!(!m.visible);
    assert_eq!(m.background_type, BackgroundType::Water);
    // Toggle button: padding 10, size 30 from the top left corner.
    assert_eq!(m.toggle_button_rect, Rect { x: -3750, y: 2750, w: 300, h: 300 });
    // Option buttons, 120 x 25, stacked with spacing 10.
    assert_eq!(m.wobble_button_rect, Rect { x: -3300, y: 2375, w: 1200, h: 250 });
    assert_eq!(m.fade_button_rect, Rect { x: -3300, y: 2025, w: 1200, h: 250 });
    assert_eq!(m.bg_type_button_rect, Rect { x: -3300, y: 1675, w: 1200, h: 250 });
}

#[test]
fn rect_contains_edges() {
    let r = Rect::from_x_y_w_h(0, 0, 200, 100);
    assert!(r.contains(0, 0));
    assert!(r.contains(100, 50));
    assert!(r.contains(-100, -50));
    assert!(!r.contains(101, 0));
    assert!(!r.contains(0, -51));
}

#[test]
fn hidden_menu_only_exposes_toggle() {
    let m = Menu::new(window(), true, true);
    assert!(m.is_in_toggle_button(-3750, 2750));
    assert!(!m.is_in_toggle_button(0, 0));
    // The option buttons are not clickable while the menu is hidden.
    assert!(!m.is_in_wobble_button(-3300, 2375));
    assert!(!m.is_in_fade_button(-3300, 2025));
    assert!(!m.is_in_bg_type_button(-3300, 1675));
    assert!(!m.blocks_pointer(-3750, 2750));
}

#[test]
fn toggle_press_opens_and_closes() {
    let mut m = Menu::new(window(), true, true);
    assert!(m.handle_press(-3750, 2750));
    assert!(m.visible);
    assert!(m.is_in_wobble_button(-3300, 2375));
    assert!(m.blocks_pointer(-3750, 2750));
    assert!(m.blocks_pointer(-3300, 1675));
    assert!(!m.blocks_pointer(500, 500));
    assert!(m.handle_press(-3750, 2750));
    assert!(!m.visible);
}

#[test]
fn option_presses_flip_their_toggles() {
    let mut m = Menu::new(window(), true, false);
    m.handle_press(-3750, 2750); // open the menu
    assert!(m.handle_press(-3300, 2375));
    assert!(!m.wobble_enabled);
    assert!(m.handle_press(-3300, 2025));
    assert!(m.fade_enabled);
    assert!(m.handle_press(-3300, 1675));
    assert_eq!(m.background_type, BackgroundType::Lava);
    assert!(m.handle_press(-3300, 1675));
    assert_eq!(m.background_type, BackgroundType::Radial);
}

#[test]
fn canvas_press_is_not_consumed() {
    let mut m = Menu::new(window(), true, true);
    assert!(!m.handle_press(500, -500));
    m.handle_press(-3750, 2750); // open the menu
    assert!(!m.handle_press(500, -500));
    assert!(m.visible);
    assert!(m.wobble_enabled);
}

#[test]
fn options_snapshot_reflects_menu_state() {
    let mut m = Menu::new(window(), true, false);
    let o = m.options();
    assert!(o.wobble_enabled);
    assert!(!o.fade_enabled);
    assert_eq!(o.background_type, BackgroundType::Water);
    m.handle_press(-3750, 2750);
    m.handle_press(-3300, 1675);
    assert_eq!(m.options().background_type, BackgroundType::Lava);
}
