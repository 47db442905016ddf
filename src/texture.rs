//! Pixel data of the checkered debug texture laid on the ball.

use vstd::prelude::*;

verus! {

/// Width and height of the texture in pixels.
pub const TEXTURE_SIZE: usize = 8;

/// Bytes in one row of RGBA pixels.
pub const ROW_BYTES: usize = 32;

/// The eight RGBA colours of the first row.
pub open spec fn palette() -> Seq<u8> {
    seq![
        255u8, 102, 159, 255, 255, 159, 102, 255, 236, 255, 102, 255, 121, 255, 102, 255, 102,
        255, 198, 255, 102, 198, 255, 255, 121, 102, 255, 255, 236, 102, 255, 255,
    ]
}

/// Byte `i` of row `y`: each row is the one above turned right by one pixel.
pub open spec fn texture_byte(y: int, i: int) -> u8 {
    palette()[(i - 4 * y) % 32]
}

fn first_row() -> (r: Vec<u8>)
    ensures
        r@ == palette(),
{
    let r: Vec<u8> = vec![
        255, 102, 159, 255, 255, 159, 102, 255, 236, 255, 102, 255, 121, 255, 102, 255, 102,
        255, 198, 255, 102, 198, 255, 255, 121, 102, 255, 255, 236, 102, 255, 255,
    ];
    assert(r@ =~= palette());
    r
}

/// The RGBA bytes of the texture, row after row.
pub fn uv_debug_texture_data() -> (r: Vec<u8>)
    ensures
        r@.len() == TEXTURE_SIZE * ROW_BYTES,
        forall|y: int, i: int|
            0 <= y < TEXTURE_SIZE && 0 <= i < ROW_BYTES ==> #[trigger] r@[y * 32 + i] == texture_byte(y, i),
{
    let row0 = first_row();
    let mut data: Vec<u8> = Vec::new();
    let mut y: usize = 0;
    while y < TEXTURE_SIZE
        invariant
            0 <= y <= TEXTURE_SIZE,
            row0@ == palette(),
            data@.len() == y * 32,
            forall|yy: int, i: int|
                0 <= yy < y && 0 <= i < 32 ==> #[trigger] data@[yy * 32 + i] == texture_byte(yy, i),
        decreases TEXTURE_SIZE - y,
    {
        let mut i: usize = 0;
        while i < ROW_BYTES
            invariant
                0 <= y < TEXTURE_SIZE,
                0 <= i <= ROW_BYTES,
                row0@ == palette(),
                data@.len() == y * 32 + i,
                forall|yy: int, j: int|
                    0 <= yy < y && 0 <= j < 32 ==> #[trigger] data@[yy * 32 + j] == texture_byte(yy, j),
                forall|j: int| 0 <= j < i ==> #[trigger] data@[y * 32 + j] == texture_byte(y as int, j),
            decreases ROW_BYTES - i,
        {
            let k: usize = (i + 32 * TEXTURE_SIZE - 4 * y) % 32;
            assert(((i + 256 - 4 * y) as int) % 32 == (i - 4 * y) % 32) by (nonlinear_arith)
                requires
                    0 <= y < 8,
                    0 <= i < 32,
            ;
            data.push(row0[k]);
            proof {
                assert forall|yy: int, j: int| 0 <= yy < y && 0 <= j < 32 implies #[trigger] data@[yy * 32 + j]
                    == texture_byte(yy, j) by {
                    assert(yy * 32 + j < y * 32) by (nonlinear_arith)
                        requires
                            yy < y,
                            j < 32,
                    ;
                }
            }
            i = i + 1;
        }
        y = y + 1;
    }
    data
}

} // verus!
