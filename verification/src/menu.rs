use vstd::prelude::*;
use crate::background::BackgroundType;

verus! {

/// An axis-aligned rectangle given by its center and its extent, in
/// tenths of a canvas unit.
#[derive(Clone, Copy, PartialEq, Eq, Structural, Debug)]
pub struct Rect {
    pub x: i32,
    pub y: i32,
    pub w: i32,
    pub h: i32,
}

impl Rect {
    /// Non-negative extent, and coordinates small enough that the edge
    /// arithmetic is exact.
    pub open spec fn well_formed(&self) -> bool {
        &&& 0 <= self.w <= 20_000_000
        &&& 0 <= self.h <= 20_000_000
        &&& -40_000_000 <= self.x <= 40_000_000
        &&& -40_000_000 <= self.y <= 40_000_000
    }

    pub open spec fn left_spec(&self) -> int {
        self.x - self.w / 2
    }

    pub open spec fn right_spec(&self) -> int {
        self.x + self.w / 2
    }

    pub open spec fn bottom_spec(&self) -> int {
        self.y - self.h / 2
    }

    pub open spec fn top_spec(&self) -> int {
        self.y + self.h / 2
    }

    /// Whether a point lies in the rectangle, edges included.
    pub open spec fn contains_spec(&self, px: int, py: int) -> bool {
        &&& self.left_spec() <= px <= self.right_spec()
        &&& self.bottom_spec() <= py <= self.top_spec()
    }

    /// A rectangle from its center and extent.
    pub fn from_x_y_w_h(x: i32, y: i32, w: i32, h: i32) -> (r: Rect)
        requires
            0 <= w,
            0 <= h,
        ensures
            r == (Rect { x, y, w, h }),
    {
        Rect { x, y, w, h }
    }

    /// Whether a point (tenths of a canvas unit) lies in the rectangle.
    pub fn contains(&self, px: i32, py: i32) -> (c: bool)
        requires
            self.well_formed(),
        ensures
            c == self.contains_spec(px as int, py as int),
    {
        let x = self.x as i64;
        let y = self.y as i64;
        let half_w = (self.w as i64) / 2;
        let half_h = (self.h as i64) / 2;
        let px = px as i64;
        let py = py as i64;
        x - half_w <= px && px <= x + half_w && y - half_h <= py && py <= y + half_h
    }
}

/// The toggles a frame reads: whether rings wobble, whether ripples fade
/// out, and which background variant is drawn. Owned and mutated only by
/// the menu; the animation core reads a snapshot per frame.
#[derive(Clone, Copy, PartialEq, Eq, Structural, Debug)]
pub struct DisplayOptions {
    pub wobble_enabled: bool,
    pub fade_enabled: bool,
    pub background_type: BackgroundType,
}

/// Where the menu's toggle button sits: in the top left corner of the
/// window, inset by the padding.
pub open spec fn toggle_rect_spec(window: Rect) -> Rect {
    Rect {
        x: (window.left_spec() + 250) as i32,
        y: (window.top_spec() - 250) as i32,
        w: 300,
        h: 300,
    }
}

/// The wobble button: left-aligned under the toggle button.
pub open spec fn wobble_rect_spec(window: Rect) -> Rect {
    Rect {
        x: (window.left_spec() + 700) as i32,
        y: (toggle_rect_spec(window).bottom_spec() - 225) as i32,
        w: 1200,
        h: 250,
    }
}

/// The fade button: under the wobble button.
pub open spec fn fade_rect_spec(window: Rect) -> Rect {
    Rect {
        x: (window.left_spec() + 700) as i32,
        y: (wobble_rect_spec(window).bottom_spec() - 225) as i32,
        w: 1200,
        h: 250,
    }
}

/// The background-variant button: under the fade button.
pub open spec fn bg_type_rect_spec(window: Rect) -> Rect {
    Rect {
        x: (window.left_spec() + 700) as i32,
        y: (fade_rect_spec(window).bottom_spec() - 225) as i32,
        w: 1200,
        h: 250,
    }
}

/// The on-screen menu: a toggle button that shows or hides three option
/// buttons, and the option state those buttons control.
pub struct Menu {
    /// Whether the option buttons are shown and clickable.
    pub visible: bool,
    pub toggle_button_rect: Rect,
    pub wobble_enabled: bool,
    pub fade_enabled: bool,
    pub wobble_button_rect: Rect,
    pub fade_button_rect: Rect,
    pub background_type: BackgroundType,
    pub bg_type_button_rect: Rect,
}

impl Menu {
    /// All button rectangles within exact-arithmetic bounds.
    pub open spec fn well_formed(&self) -> bool {
        &&& self.toggle_button_rect.well_formed()
        &&& self.wobble_button_rect.well_formed()
        &&& self.fade_button_rect.well_formed()
        &&& self.bg_type_button_rect.well_formed()
    }

    /// Lay the menu out in the top left corner of the window: the
    /// hamburger toggle button first, then the wobble, fade and
    /// background buttons stacked under it. The menu starts hidden, with
    /// the given toggle defaults and the water background.
    pub fn new(window: Rect, wobble_enabled: bool, fade_enabled: bool) -> (m: Menu)
        requires
            window.well_formed(),
            -10_000_000 <= window.x <= 10_000_000,
            -10_000_000 <= window.y <= 10_000_000,
        ensures
            m.well_formed(),
            !m.visible,
            m.wobble_enabled == wobble_enabled,
            m.fade_enabled == fade_enabled,
            m.background_type == BackgroundType::Water,
            m.toggle_button_rect == toggle_rect_spec(window),
            m.wobble_button_rect == wobble_rect_spec(window),
            m.fade_button_rect == fade_rect_spec(window),
            m.bg_type_button_rect == bg_type_rect_spec(window),
    {
        let left = (window.x as i64) - (window.w as i64) / 2;
        let top = (window.y as i64) + (window.h as i64) / 2;
        let toggle_button_rect = Rect {
            x: (left + 250) as i32,
            y: (top - 250) as i32,
            w: 300,
            h: 300,
        };
        let wobble_button_rect = Rect {
            x: (left + 700) as i32,
            y: (top - 250 - 150 - 225) as i32,
            w: 1200,
            h: 250,
        };
        let fade_button_rect = Rect {
            x: (left + 700) as i32,
            y: (top - 250 - 150 - 225 - 125 - 225) as i32,
            w: 1200,
            h: 250,
        };
        let bg_type_button_rect = Rect {
            x: (left + 700) as i32,
            y: (top - 250 - 150 - 225 - 125 - 225 - 125 - 225) as i32,
            w: 1200,
            h: 250,
        };
        Menu {
            visible: false,
            toggle_button_rect,
            wobble_enabled,
            fade_enabled,
            wobble_button_rect,
            fade_button_rect,
            background_type: BackgroundType::Water,
            bg_type_button_rect,
        }
    }

    /// The option snapshot a frame reads.
    pub fn options(&self) -> (o: DisplayOptions)
        ensures
            o.wobble_enabled == self.wobble_enabled,
            o.fade_enabled == self.fade_enabled,
            o.background_type == self.background_type,
    {
        DisplayOptions {
            wobble_enabled: self.wobble_enabled,
            fade_enabled: self.fade_enabled,
            background_type: self.background_type,
        }
    }

    /// Whether a point is inside the always-visible menu toggle button.
    pub fn is_in_toggle_button(&self, px: i32, py: i32) -> (c: bool)
        requires
            self.well_formed(),
        ensures
            c == self.toggle_button_rect.contains_spec(px as int, py as int),
    {
        self.toggle_button_rect.contains(px, py)
    }

    /// Whether a point is inside the wobble button while the menu is open.
    pub fn is_in_wobble_button(&self, px: i32, py: i32) -> (c: bool)
        requires
            self.well_formed(),
        ensures
            c == (self.visible && self.wobble_button_rect.contains_spec(px as int, py as int)),
    {
        self.visible && self.wobble_button_rect.contains(px, py)
    }

    /// Whether a point is inside the background button while the menu is
    /// open.
    pub fn is_in_bg_type_button(&self, px: i32, py: i32) -> (c: bool)
        requires
            self.well_formed(),
        ensures
            c == (self.visible && self.bg_type_button_rect.contains_spec(px as int, py as int)),
    {
        self.visible && self.bg_type_button_rect.contains(px, py)
    }

    /// Whether a point is inside the fade button while the menu is open.
    pub fn is_in_fade_button(&self, px: i32, py: i32) -> (c: bool)
        requires
            self.well_formed(),
        ensures
            c == (self.visible && self.fade_button_rect.contains_spec(px as int, py as int)),
    {
        self.visible && self.fade_button_rect.contains(px, py)
    }

    /// Whether the pointer is over the open menu, so that holding the
    /// pointer there must not spawn ripples.
    pub fn blocks_pointer(&self, px: i32, py: i32) -> (b: bool)
        requires
            self.well_formed(),
        ensures
            b == (self.visible && (self.toggle_button_rect.contains_spec(px as int, py as int)
                || self.wobble_button_rect.contains_spec(px as int, py as int)
                || self.fade_button_rect.contains_spec(px as int, py as int)
                || self.bg_type_button_rect.contains_spec(px as int, py as int))),
    {
        self.visible && (self.toggle_button_rect.contains(px, py) || self.wobble_button_rect.contains(
            px,
            py,
        ) || self.fade_button_rect.contains(px, py) || self.bg_type_button_rect.contains(px, py))
    }

    /// Dispatch a pointer press to the menu: the toggle button shows or
    /// hides the option buttons; while they are shown, the wobble and
    /// fade buttons flip their toggles and the background button cycles
    /// the variant, checked in that order. Returns whether the press was
    /// consumed; an unconsumed press belongs to the canvas.
    pub fn handle_press(&mut self, px: i32, py: i32) -> (consumed: bool)
        requires
            old(self).well_formed(),
        ensures
            final(self).well_formed(),
            consumed == (old(self).toggle_button_rect.contains_spec(px as int, py as int) || (old(
                self,
            ).visible && (old(self).wobble_button_rect.contains_spec(px as int, py as int) || old(
                self,
            ).fade_button_rect.contains_spec(px as int, py as int) || old(
                self,
            ).bg_type_button_rect.contains_spec(px as int, py as int)))),
            old(self).toggle_button_rect.contains_spec(px as int, py as int) ==> *final(self) == (
            Menu { visible: !old(self).visible, ..*old(self) }),
            !old(self).toggle_button_rect.contains_spec(px as int, py as int) && old(self).visible
                && old(self).wobble_button_rect.contains_spec(px as int, py as int) ==> *final(self)
                == (Menu { wobble_enabled: !old(self).wobble_enabled, ..*old(self) }),
            !old(self).toggle_button_rect.contains_spec(px as int, py as int) && old(self).visible
                && !old(self).wobble_button_rect.contains_spec(px as int, py as int) && old(
                self,
            ).fade_button_rect.contains_spec(px as int, py as int) ==> *final(self) == (Menu {
                fade_enabled: !old(self).fade_enabled,
                ..*old(self)
            }),
            !old(self).toggle_button_rect.contains_spec(px as int, py as int) && old(self).visible
                && !old(self).wobble_button_rect.contains_spec(px as int, py as int) && !old(
                self,
            ).fade_button_rect.contains_spec(px as int, py as int) && old(
                self,
            ).bg_type_button_rect.contains_spec(px as int, py as int) ==> *final(self) == (Menu {
                background_type: match old(self).background_type {
                    BackgroundType::Off => BackgroundType::Water,
                    BackgroundType::Water => BackgroundType::Lava,
                    BackgroundType::Lava => BackgroundType::Radial,
                    BackgroundType::Radial => BackgroundType::Off,
                },
                ..*old(self)
            }),
            !consumed ==> *final(self) == *old(self),
    {
        if self.toggle_button_rect.contains(px, py) {
            self.visible = !self.visible;
            true
        } else if self.visible && self.wobble_button_rect.contains(px, py) {
            self.wobble_enabled = !self.wobble_enabled;
            true
        } else if self.visible && self.fade_button_rect.contains(px, py) {
            self.fade_enabled = !self.fade_enabled;
            true
        } else if self.visible && self.bg_type_button_rect.contains(px, py) {
            self.background_type = self.background_type.cycle();
            true
        } else {
            false
        }
    }
}

} // verus!
