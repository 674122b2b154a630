//! The menu bar icon: its drawing, and its absence on platforms without one.
use vstd::prelude::*;

verus! {

/// The reason the menu bar icon cannot be installed on this platform.
pub open spec fn tray_unsupported_text() -> Seq<char> {
    "Menu bar icon is only implemented on macOS for now."@
}

/// Installs the menu bar icon where the platform has none: always fails with
/// an explanation.
pub fn install() -> (r: Result<(), String>)
    ensures
        r matches Err(e) && e@ == tray_unsupported_text(),
{
    Err(String::from_str("Menu bar icon is only implemented on macOS for now."))
}

/// The side of the square menu bar icon, in pixels.
pub const ICON_SIZE: usize = 32;

/// Whether the pixel at column `x`, row `y` of the icon is drawn: three rows,
/// each a 6×6 box from column 4 and a 2-pixel line from column 12 to 27 that
/// is centred on the box. The rows' boxes start at lines 6, 15 and 24.
pub open spec fn icon_pixel_on(x: int, y: int) -> bool {
    exists|top: int|
        #![trigger row_top(top)]
        row_top(top) && ((top <= y < top + 6 && 4 <= x < 10) || (top + 2 <= y < top + 4 && 12 <= x
            < 28))
}

pub open spec fn row_top(top: int) -> bool {
    top == 6 || top == 15 || top == 24
}

/// The icon as RGBA bytes, row by row: only the alpha channel is used (the
/// icon is a template), fully opaque where a pixel is drawn.
pub open spec fn icon_byte(i: int) -> u8 {
    let p = i / 4;
    if i % 4 == 3 && icon_pixel_on(p % 32, p / 32) {
        255
    } else {
        0
    }
}

fn pixel_on(x: usize, y: usize) -> (b: bool)
    requires
        x < 32,
        y < 32,
    ensures
        b == icon_pixel_on(x as int, y as int),
{
    let in_row = |top: usize| -> (r: bool)
        requires
            top <= 24,
        ensures
            r == ((top <= y < top + 6 && 4 <= x < 10) || (top + 2 <= y < top + 4 && 12 <= x < 28)),
        { (top <= y && y < top + 6 && 4 <= x && x < 10) || (top + 2 <= y && y < top + 4 && 12 <= x
            && x < 28) };
    let b = in_row(6) || in_row(15) || in_row(24);
    proof {
        if b {
            if (6 <= y < 12 && 4 <= x < 10) || (8 <= y < 10 && 12 <= x < 28) {
                assert(row_top(6));
            } else if (15 <= y < 21 && 4 <= x < 10) || (17 <= y < 19 && 12 <= x < 28) {
                assert(row_top(15));
            } else {
                assert(row_top(24));
            }
        }
    }
    b
}

/// Draws the menu bar icon: `ICON_SIZE`² pixels of four bytes each.
pub fn icon_rgba() -> (rgba: Vec<u8>)
    ensures
        rgba.len() == ICON_SIZE * ICON_SIZE * 4,
        forall|i: int| 0 <= i < rgba.len() ==> #[trigger] rgba@[i] == icon_byte(i),
{
    let total: usize = ICON_SIZE * ICON_SIZE * 4;
    let mut rgba: Vec<u8> = Vec::new();
    let mut i: usize = 0;
    while i < total
        invariant
            total == 4096,
            i <= total,
            rgba.len() == i,
            forall|j: int| 0 <= j < i ==> #[trigger] rgba@[j] == icon_byte(j),
        decreases total - i,
    {
        let p: usize = i / 4;
        let byte: u8 = if i % 4 == 3 && pixel_on(p % 32, p / 32) {
            255
        } else {
            0
        };
        rgba.push(byte);
        i = i + 1;
    }
    rgba
}

} // verus!
