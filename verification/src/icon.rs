//! The tray icon: a 32x32 disc, orange on its left half and dark blue on
//! its right half, on a transparent background.

use vstd::prelude::*;

verus! {

/// Width and height of the icon in pixels.
pub const ICON_SIZE: u32 = 32;

/// Whether the centre of pixel `(x, y)` lies on the disc of radius 14.5
/// centred in the icon. With doubled coordinates the centre is at
/// `2x + 1`, the icon's centre at 32 and the radius 29, so the test is
/// exact in integers.
pub open spec fn on_disc(x: int, y: int) -> bool {
    (2 * x - 31) * (2 * x - 31) + (2 * y - 31) * (2 * y - 31) <= 29 * 29
}

/// Channel `k` (0 red, 1 green, 2 blue, 3 alpha) of pixel `(x, y)`.
pub open spec fn icon_channel(x: int, y: int, k: int) -> u8 {
    if !on_disc(x, y) {
        0
    } else if k == 3 {
        255
    } else if x < 16 {
        if k == 0 { 255 } else if k == 1 { 140 } else { 0 }
    } else {
        if k == 0 { 44 } else if k == 1 { 62 } else { 100 }
    }
}

/// Byte `i` of the row-major RGBA image.
pub open spec fn icon_byte(i: int) -> u8 {
    icon_channel((i / 4) % 32, (i / 4) / 32, i % 4)
}

fn channel(x: i64, y: i64, k: i64) -> (b: u8)
    requires
        0 <= x < 32,
        0 <= y < 32,
        0 <= k < 4,
    ensures
        b == icon_channel(x as int, y as int, k as int),
{
    let dx = 2 * x - 31;
    let dy = 2 * y - 31;
    assert(0 <= dx * dx <= 1089 && 0 <= dy * dy <= 1089) by (nonlinear_arith)
        requires
            -31 <= dx <= 33,
            -31 <= dy <= 33,
    ;
    if dx * dx + dy * dy > 29 * 29 {
        0
    } else if k == 3 {
        255
    } else if x < 16 {
        if k == 0 { 255 } else if k == 1 { 140 } else { 0 }
    } else {
        if k == 0 { 44 } else if k == 1 { 62 } else { 100 }
    }
}

/// The icon's pixels as RGBA bytes, row by row, four bytes per pixel.
pub fn tray_icon_rgba() -> (rgba: Vec<u8>)
    ensures
        rgba@.len() == 4 * ICON_SIZE * ICON_SIZE,
        forall|i: int| 0 <= i < rgba@.len() ==> #[trigger] rgba@[i] == icon_byte(i),
{
    let mut rgba: Vec<u8> = Vec::new();
    let mut i: i64 = 0;
    while i < 4096
        invariant
            0 <= i <= 4096,
            rgba@.len() == i,
            forall|j: int| 0 <= j < i ==> #[trigger] rgba@[j] == icon_byte(j),
        decreases 4096 - i,
    {
        let p = i / 4;
        let b = channel(p % 32, p / 32, i % 4);
        rgba.push(b);
        i = i + 1;
    }
    rgba
}

} // verus!
