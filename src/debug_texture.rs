//! Pixels of the colourful test pattern laid on terrain chunks.
//!
//! The pattern is `TEXTURE_SIZE` by `TEXTURE_SIZE` RGBA pixels. Row 0 is the
//! palette of eight colours; each following row is the row above it shifted
//! right by one pixel, the last pixel wrapping round to the front.
use vstd::prelude::*;

verus! {

/// Width and height of the pattern, in pixels.
pub const TEXTURE_SIZE: usize = 8;

/// Bytes in one RGBA pixel.
pub const PIXEL_BYTES: usize = 4;

/// Bytes in one row of the pattern (and in the palette).
pub const ROW_BYTES: usize = 32;

/// The eight RGBA colours of the first row.
pub open spec fn palette() -> Seq<u8> {
    seq![
        255u8, 102, 159, 255, 255, 159, 102, 255, 236, 255, 102, 255, 121, 255, 102, 255, 102,
        255, 198, 255, 102, 198, 255, 255, 121, 102, 255, 255, 236, 102, 255, 255,
    ]
}

/// Byte `x` of row `y`: the palette turned right by `y` pixels.
pub open spec fn pattern_byte(y: int, x: int) -> u8 {
    palette()[(x - PIXEL_BYTES * y) % (ROW_BYTES as int)]
}

fn palette_bytes() -> (r: Vec<u8>)
    ensures
        r@ == palette(),
{
    let r: Vec<u8> = vec![
        255, 102, 159, 255, 255, 159, 102, 255, 236, 255, 102, 255, 121, 255, 102, 255, 102, 255,
        198, 255, 102, 198, 255, 255, 121, 102, 255, 255, 236, 102, 255, 255,
    ];
    assert(r@ =~= palette());
    r
}

/// The pattern's bytes, row after row.
pub fn debug_texture_data() -> (r: Vec<u8>)
    ensures
        r@.len() == TEXTURE_SIZE * ROW_BYTES,
        forall|y: int, x: int|
            0 <= y < TEXTURE_SIZE && 0 <= x < ROW_BYTES ==> #[trigger] r@[y * ROW_BYTES + x]
                == pattern_byte(y, x),
{
    let colours = palette_bytes();
    let mut data: Vec<u8> = Vec::new();
    let mut y: usize = 0;
    while y < TEXTURE_SIZE
        invariant
            y <= TEXTURE_SIZE,
            colours@ == palette(),
            data@.len() == y * ROW_BYTES,
            forall|yy: int, x: int|
                0 <= yy < y && 0 <= x < ROW_BYTES ==> #[trigger] data@[yy * ROW_BYTES + x]
                    == pattern_byte(yy, x),
        decreases TEXTURE_SIZE - y,
    {
        let shift: usize = PIXEL_BYTES * y;
        let mut x: usize = 0;
        while x < ROW_BYTES
            invariant
                y < TEXTURE_SIZE,
                x <= ROW_BYTES,
                shift == PIXEL_BYTES * y,
                colours@ == palette(),
                data@.len() == y * ROW_BYTES + x,
                forall|yy: int, xx: int|
                    0 <= yy < y && 0 <= xx < ROW_BYTES ==> #[trigger] data@[yy * ROW_BYTES + xx]
                        == pattern_byte(yy, xx),
                forall|xx: int|
                    0 <= xx < x ==> #[trigger] data@[y * ROW_BYTES + xx] == pattern_byte(
                        y as int,
                        xx,
                    ),
            decreases ROW_BYTES - x,
        {
            let source: usize = (x + ROW_BYTES * TEXTURE_SIZE - shift) % ROW_BYTES;
            proof {
                let a = x as int - PIXEL_BYTES * y;
                assert((x + ROW_BYTES * TEXTURE_SIZE - shift) as int == a + ROW_BYTES * 8);
                assert((a + ROW_BYTES * 8) % (ROW_BYTES as int) == a % (ROW_BYTES as int))
                    by (nonlinear_arith)
                    requires
                        ROW_BYTES == 32,
                ;
            }
            let ghost before = data@;
            data.push(colours[source]);
            proof {
                assert forall|yy: int, xx: int|
                    0 <= yy < y && 0 <= xx < ROW_BYTES implies #[trigger] data@[yy * ROW_BYTES
                    + xx] == pattern_byte(yy, xx) by {
                    assert(yy * ROW_BYTES + xx < y * ROW_BYTES) by (nonlinear_arith)
                        requires
                            yy < y,
                            xx < ROW_BYTES,
                            ROW_BYTES == 32,
                    ;
                    assert(data@[yy * ROW_BYTES + xx] == before[yy * ROW_BYTES + xx]);
                }
                assert forall|xx: int| 0 <= xx < x + 1 implies #[trigger] data@[y * ROW_BYTES
                    + xx] == pattern_byte(y as int, xx) by {
                    if xx < x {
                        assert(data@[y * ROW_BYTES + xx] == before[y * ROW_BYTES + xx]);
                    }
                }
            }
            x = x + 1;
        }
        y = y + 1;
    }
    data
}

} // verus!
