//! The debug texture's byte pattern: an eight-by-eight RGBA test
//! pattern whose palette shifts right by one pixel per row. Building
//! the image object around these bytes is the rendering substrate's
//! business; the bytes themselves are pure computation.

use vstd::prelude::*;

verus! {

/// The texture's side length in pixels.
pub const TEXTURE_SIZE: usize = 8;

/// The 32-byte RGBA palette of one row (eight pixels).
pub open spec fn palette() -> Seq<u8> {
    seq![
        255u8, 102u8, 159u8, 255u8,
        255u8, 159u8, 102u8, 255u8,
        236u8, 255u8, 102u8, 255u8,
        121u8, 255u8, 102u8, 255u8,
        102u8, 255u8, 198u8, 255u8,
        102u8, 198u8, 255u8, 255u8,
        121u8, 102u8, 255u8, 255u8,
        236u8, 102u8, 255u8, 255u8,
    ]
}

/// The byte at offset `i` of row `y`: the palette rotated right by one
/// pixel (four bytes) per row.
pub open spec fn texel_byte(y: int, i: int) -> u8 {
    palette()[(i + 32 - 4 * y) % 32]
}

/// Build the 256-byte RGBA pattern of the colorful test texture.
pub fn uv_debug_texture_data() -> (data: Vec<u8>)
    ensures
        data@.len() == 256,
        forall |y: int, i: int| 0 <= y < 8 && 0 <= i < 32
            ==> data@[y * 32 + i] == #[trigger] texel_byte(y, i),
{
    let pal: Vec<u8> = vec![
        255u8, 102u8, 159u8, 255u8,
        255u8, 159u8, 102u8, 255u8,
        236u8, 255u8, 102u8, 255u8,
        121u8, 255u8, 102u8, 255u8,
        102u8, 255u8, 198u8, 255u8,
        102u8, 198u8, 255u8, 255u8,
        121u8, 102u8, 255u8, 255u8,
        236u8, 102u8, 255u8, 255u8,
    ];
    proof {
        assert(pal@ =~= palette());
    }
    let mut data: Vec<u8> = Vec::new();
    let mut y: usize = 0;
    while y < 8
        invariant
            pal@ == palette(),
            y <= 8,
            data@.len() == y * 32,
            forall |r: int, i: int| 0 <= r < y && 0 <= i < 32
                ==> data@[r * 32 + i] == #[trigger] texel_byte(r, i),
        decreases 8 - y,
    {
        let mut i: usize = 0;
        while i < 32
            invariant
                pal@ == palette(),
                y < 8,
                i <= 32,
                data@.len() == y * 32 + i,
                forall |r: int, k: int| 0 <= r < y && 0 <= k < 32
                    ==> data@[r * 32 + k] == #[trigger] texel_byte(r, k),
                forall |k: int| 0 <= k < i ==> data@[y * 32 + k] == #[trigger] texel_byte(y as int, k),
            decreases 32 - i,
        {
            let idx: usize = (i + 32 - 4 * y) % 32;
            data.push(pal[idx]);
            i += 1;
        }
        y += 1;
    }
    data
}

} // verus!
