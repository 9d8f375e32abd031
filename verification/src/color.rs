use vstd::prelude::*;

verus! {

/// An sRGB color with 8-bit channels. Ring colors and the palette use this
/// plain representation; a rendering collaborator converts it to whatever
/// color type its drawing surface wants.
#[derive(Clone, Copy, PartialEq, Eq, Structural, Debug)]
pub struct Color {
    pub red: u8,
    pub green: u8,
    pub blue: u8,
}

/// Number of colors in the ripple palette.
pub const PALETTE_LEN: usize = 8;

/// The palette that ripple rings draw their colors from: navajo white,
/// light goldenrod yellow, antique white, blanched almond, white,
/// light cyan, sky blue, light steel blue.
pub open spec fn palette() -> Seq<Color> {
    seq![
        Color { red: 255, green: 222, blue: 173 },
        Color { red: 250, green: 250, blue: 210 },
        Color { red: 250, green: 235, blue: 215 },
        Color { red: 255, green: 235, blue: 205 },
        Color { red: 255, green: 255, blue: 255 },
        Color { red: 224, green: 255, blue: 255 },
        Color { red: 135, green: 206, blue: 235 },
        Color { red: 176, green: 196, blue: 222 },
    ]
}

/// The palette color at a given index.
pub fn palette_color(index: usize) -> (c: Color)
    requires
        index < PALETTE_LEN,
    ensures
        c == palette()[index as int],
{
    if index == 0 {
        Color { red: 255, green: 222, blue: 173 }
    } else if index == 1 {
        Color { red: 250, green: 250, blue: 210 }
    } else if index == 2 {
        Color { red: 250, green: 235, blue: 215 }
    } else if index == 3 {
        Color { red: 255, green: 235, blue: 205 }
    } else if index == 4 {
        Color { red: 255, green: 255, blue: 255 }
    } else if index == 5 {
        Color { red: 224, green: 255, blue: 255 }
    } else if index == 6 {
        Color { red: 135, green: 206, blue: 235 }
    } else {
        Color { red: 176, green: 196, blue: 222 }
    }
}

/// Relies on rand's `RngExt::random_range` on the thread-local generator:
/// a value drawn from `0..n` lies below `n`; the call panics only on an
/// empty range, which the precondition rules out.
#[verifier::external_body]
fn random_index(n: usize) -> (r: usize)
    requires
        n > 0,
    ensures
        r < n,
{
    rand::RngExt::random_range(&mut rand::rng(), 0..n)
}

/// Pick a random color from the palette.
pub fn random_color() -> (c: Color)
    ensures
        palette().contains(c),
{
    let index = random_index(PALETTE_LEN);
    let c = palette_color(index);
    proof {
        assert(palette()[index as int] == c);
    }
    c
}

} // verus!
