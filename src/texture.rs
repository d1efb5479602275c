//! The colourful test pattern used as a debug texture: an 8 by 8 RGBA image
//! whose rows are a fixed palette, each rotated one pixel further right.
use vstd::prelude::*;

verus! {

/// Width and height of the texture, in pixels.
pub const TEXTURE_SIZE: usize = 8;

/// One row of the pattern before rotation: eight RGBA pixels.
pub open spec fn base_row() -> Seq<u8> {
    seq![
        255u8, 102, 159, 255, 255, 159, 102, 255, 236, 255, 102, 255, 121, 255, 102, 255,
        102, 255, 198, 255, 102, 198, 255, 255, 121, 102, 255, 255, 236, 102, 255, 255,
    ]
}

/// Byte `x` of row `y`: row `y` is the palette rotated right by `y` pixels.
pub open spec fn pattern_byte(y: int, x: int) -> u8 {
    base_row()[(x + 28 * y) % 32]
}

/// The RGBA bytes of the debug texture, row after row.
pub fn uv_debug_texture() -> (r: Vec<u8>)
    ensures
        r@.len() == TEXTURE_SIZE * TEXTURE_SIZE * 4,
        forall|y: int, x: int| 0 <= y < 8 && 0 <= x < 32 ==> r@[32 * y + x] == #[trigger] pattern_byte(y, x),
{
    let row: [u8; 32] = [
        255, 102, 159, 255, 255, 159, 102, 255, 236, 255, 102, 255, 121, 255, 102, 255,
        102, 255, 198, 255, 102, 198, 255, 255, 121, 102, 255, 255, 236, 102, 255, 255,
    ];
    assert(row@ == base_row());
    let mut data: Vec<u8> = Vec::new();
    let mut y: usize = 0;
    while y < TEXTURE_SIZE
        invariant
            y <= 8,
            row@ == base_row(),
            data@.len() == 32 * y,
            forall|yy: int, x: int| 0 <= yy < y && 0 <= x < 32 ==> data@[32 * yy + x] == #[trigger] pattern_byte(yy, x),
        decreases 8 - y,
    {
        let mut x: usize = 0;
        while x < TEXTURE_SIZE * 4
            invariant
                y < 8,
                x <= 32,
                row@ == base_row(),
                data@.len() == 32 * y + x,
                forall|yy: int, xx: int| 0 <= yy < y && 0 <= xx < 32 ==> data@[32 * yy + xx] == #[trigger] pattern_byte(yy, xx),
                forall|xx: int| 0 <= xx < x ==> data@[32 * y + xx] == #[trigger] pattern_byte(y as int, xx),
            decreases 32 - x,
        {
            data.push(row[(x + 28 * y) % 32]);
            x = x + 1;
        }
        y = y + 1;
    }
    data
}

} // verus!
