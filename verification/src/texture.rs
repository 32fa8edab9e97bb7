//! The colorful test pattern painted on the demo shapes: an 8-by-8 RGBA
//! texture whose rows are one 32-byte palette, each row rotated right by
//! one pixel (four bytes) more than the row above.

use vstd::prelude::*;
use vstd::arithmetic::div_mod::lemma_mod_multiples_vanish;

verus! {

/// Number of pixels along each side of the test texture.
pub const TEXTURE_SIZE: usize = 8;

/// Bytes per texture row: `TEXTURE_SIZE` pixels of four bytes each, one
/// whole palette.
pub const ROW_BYTES: usize = 32;

/// The palette: eight RGBA pixels.
pub open spec fn palette() -> Seq<u8> {
    seq![
        255u8, 102u8, 159u8, 255u8, 255u8, 159u8, 102u8, 255u8, 236u8, 255u8, 102u8, 255u8, 121u8,
        255u8, 102u8, 255u8, 102u8, 255u8, 198u8, 255u8, 102u8, 198u8, 255u8, 255u8, 121u8, 102u8,
        255u8, 255u8, 236u8, 102u8, 255u8, 255u8,
    ]
}

/// The palette as bytes.
pub fn palette_bytes() -> (p: Vec<u8>)
    ensures
        p@ == palette(),
{
    let mut p: Vec<u8> = Vec::new();
    p.push(255);
    p.push(102);
    p.push(159);
    p.push(255);
    p.push(255);
    p.push(159);
    p.push(102);
    p.push(255);
    p.push(236);
    p.push(255);
    p.push(102);
    p.push(255);
    p.push(121);
    p.push(255);
    p.push(102);
    p.push(255);
    p.push(102);
    p.push(255);
    p.push(198);
    p.push(255);
    p.push(102);
    p.push(198);
    p.push(255);
    p.push(255);
    p.push(121);
    p.push(102);
    p.push(255);
    p.push(255);
    p.push(236);
    p.push(102);
    p.push(255);
    p.push(255);
    proof {
        assert(p@ =~= palette());
    }
    p
}

/// The raw bytes of the test pattern: row `y` holds the palette rotated
/// right by `4 * y` bytes, so byte `i` of row `y` is palette byte
/// `(i - 4 * y) mod 32`.
pub fn uv_debug_texture_data() -> (d: Vec<u8>)
    ensures
        d@.len() == TEXTURE_SIZE * ROW_BYTES,
        forall|y: int, i: int|
            0 <= y < TEXTURE_SIZE && 0 <= i < ROW_BYTES ==> #[trigger] d@[y * 32 + i] == palette()[
                (i - 4 * y) % 32
            ],
{
    let pal = palette_bytes();
    let mut d: Vec<u8> = Vec::new();
    let mut y: usize = 0;
    while y < TEXTURE_SIZE
        invariant
            y <= TEXTURE_SIZE,
            pal@ == palette(),
            d@.len() == y * 32,
            forall|y0: int, i0: int|
                0 <= y0 < y && 0 <= i0 < ROW_BYTES ==> #[trigger] d@[y0 * 32 + i0] == palette()[
                    (i0 - 4 * y0) % 32
                ],
        decreases TEXTURE_SIZE - y,
    {
        let mut i: usize = 0;
        while i < ROW_BYTES
            invariant
                y < TEXTURE_SIZE,
                i <= ROW_BYTES,
                pal@ == palette(),
                d@.len() == y * 32 + i,
                forall|y0: int, i0: int|
                    0 <= y0 < y && 0 <= i0 < ROW_BYTES ==> #[trigger] d@[y0 * 32 + i0] == palette()[
                        (i0 - 4 * y0) % 32
                    ],
                forall|i0: int|
                    0 <= i0 < i ==> #[trigger] d@[y * 32 + i0] == palette()[(i0 - 4 * y) % 32],
            decreases ROW_BYTES - i,
        {
            let idx = (i + 256 - 4 * y) % 32;
            d.push(pal[idx]);
            proof {
                lemma_mod_multiples_vanish(8, i - 4 * y, 32);
                assert(i + 256 - 4 * y == 32 * 8 + (i - 4 * y));
                assert(idx as int == (i - 4 * y) % 32);
                assert(d@[y * 32 + i] == palette()[(i - 4 * y) % 32]);
            }
            i = i + 1;
        }
        y = y + 1;
    }
    d
}

} // verus!
