//! The tray icon's picture: a small processor, drawn pixel by pixel.
//!
//! The picture is a square of [`ICON_SIZE`] pixels a side, four bytes a pixel
//! (red, green, blue, alpha), row after row from the top. The processor's
//! body is a filled square in the middle; its pins stick out on all four
//! sides, two pixels out of three. Everything else is transparent.

use vstd::prelude::*;

verus! {

/// Width and height of the icon in pixels.
pub const ICON_SIZE: u32 = 32;

/// A picture as raw bytes, four a pixel, with its dimensions.
#[derive(Debug)]
pub struct IconImage {
    pub rgba: Vec<u8>,
    pub width: u32,
    pub height: u32,
}

/// The pixel lies in the processor's body.
pub open spec fn in_body(x: int, y: int) -> bool {
    8 <= x < 24 && 8 <= y < 24
}

/// The pixel lies on one of the pins.
pub open spec fn on_pin(x: int, y: int) -> bool {
    ||| 10 <= y < 22 && !(8 <= x < 24) && y % 3 != 0
    ||| 10 <= x < 22 && !(8 <= y < 24) && x % 3 != 0
}

/// The four bytes of the pixel at column `x` and row `y`: cornflower blue
/// where the processor is drawn, transparent black elsewhere.
pub open spec fn pixel_at(x: int, y: int) -> Seq<u8> {
    if in_body(x, y) || on_pin(x, y) {
        seq![100u8, 149u8, 237u8, 255u8]
    } else {
        seq![0u8, 0u8, 0u8, 0u8]
    }
}

/// The picture's bytes.
pub open spec fn icon_bytes() -> Seq<u8> {
    Seq::new(
        (ICON_SIZE * ICON_SIZE * 4) as nat,
        |i: int| pixel_at((i / 4) % (ICON_SIZE as int), (i / 4) / (ICON_SIZE as int))[i % 4],
    )
}

/// Draws the icon.
pub fn create_default_icon() -> (icon: IconImage)
    ensures
        icon.width == ICON_SIZE,
        icon.height == ICON_SIZE,
        icon.rgba@ == icon_bytes(),
{
    let size: usize = 32;
    let mut rgba: Vec<u8> = Vec::new();
    let mut y: usize = 0;
    while y < size
        invariant
            size == 32,
            y <= size,
            rgba@.len() == y * size * 4,
            forall|i: int| 0 <= i < rgba@.len() ==> rgba@[i] == icon_bytes()[i],
        decreases size - y,
    {
        let mut x: usize = 0;
        while x < size
            invariant
                size == 32,
                y < size,
                x <= size,
                rgba@.len() == (y * size + x) * 4,
                forall|i: int| 0 <= i < rgba@.len() ==> rgba@[i] == icon_bytes()[i],
            decreases size - x,
        {
            let in_body = 8 <= x && x < 24 && 8 <= y && y < 24;
            let on_pin = (10 <= y && y < 22 && !(8 <= x && x < 24) && y % 3 != 0) || (10 <= x && x
                < 22 && !(8 <= y && y < 24) && x % 3 != 0);
            let ghost before = rgba@;
            if in_body || on_pin {
                rgba.push(100);
                rgba.push(149);
                rgba.push(237);
                rgba.push(255);
            } else {
                rgba.push(0);
                rgba.push(0);
                rgba.push(0);
                rgba.push(0);
            }
            assert forall|i: int| 0 <= i < rgba@.len() implies rgba@[i] == icon_bytes()[i] by {
                if i >= before.len() {
                    let p = (y * size + x) as int;
                    assert(i / 4 == p);
                    assert(p % 32 == x && p / 32 == y);
                } else {
                    assert(rgba@[i] == before[i]);
                }
            }
            x += 1;
        }
        y += 1;
    }
    assert(rgba@ =~= icon_bytes());
    IconImage { rgba, width: ICON_SIZE, height: ICON_SIZE }
}

} // verus!
