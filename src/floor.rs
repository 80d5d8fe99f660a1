use vstd::prelude::*;
use vstd::arithmetic::div_mod::lemma_fundamental_div_mod_converse;

verus! {

/// Side of the floor texture, in pixels.
pub const TEXTURE_SIZE: u32 = 1024;

/// Side of one checker square, in pixels.
pub const CHECKER_CELL: u32 = 64;

/// Whether pixel `(x, y)` lies in a light square: row and column parities of
/// its checker square agree.
pub open spec fn is_light(x: int, y: int, cell: int) -> bool {
    (x / cell) % 2 == (y / cell) % 2
}

/// Channel `c` (red, green, blue, alpha) of pixel `(x, y)`: light squares are
/// grey 128, dark ones grey 64, all opaque.
pub open spec fn checker_channel(x: int, y: int, c: int, cell: int) -> u8 {
    if c == 3 {
        255
    } else if is_light(x, y, cell) {
        128
    } else {
        64
    }
}

/// Byte `i` of an RGBA image `width` pixels wide, row after row.
pub open spec fn checker_byte(i: int, width: int, cell: int) -> u8 {
    let p = i / 4;
    checker_channel(p % width, p / width, i % 4, cell)
}

proof fn lemma_pixel_index(w: int, x: int, y: int, c: int)
    requires
        w > 0,
        0 <= x < w,
        0 <= y,
        0 <= c < 4,
    ensures
        ((y * w + x) * 4 + c) / 4 == y * w + x,
        ((y * w + x) * 4 + c) % 4 == c,
        (y * w + x) % w == x,
        (y * w + x) / w == y,
{
    lemma_fundamental_div_mod_converse((y * w + x) * 4 + c, 4, y * w + x, c);
    lemma_fundamental_div_mod_converse(y * w + x, w, y, x);
}

/// RGBA bytes of a `width` by `height` checkerboard with squares of `cell` pixels.
pub fn checkerboard_rgba(width: u32, height: u32, cell: u32) -> (r: Vec<u8>)
    requires
        width > 0,
        cell > 0,
        width * height * 4 <= usize::MAX,
    ensures
        r@.len() == width * height * 4,
        forall|i: int| 0 <= i < r@.len() ==> #[trigger] r@[i] == checker_byte(i, width as int, cell as int),
{
    let mut data: Vec<u8> = Vec::new();
    let mut y: u32 = 0;
    while y < height
        invariant
            width > 0,
            cell > 0,
            width * height * 4 <= usize::MAX,
            0 <= y <= height,
            data@.len() == y * width * 4,
            forall|i: int| 0 <= i < data@.len() ==> #[trigger] data@[i] == checker_byte(i, width as int, cell as int),
        decreases height - y,
    {
        let mut x: u32 = 0;
        while x < width
            invariant
                width > 0,
                cell > 0,
                width * height * 4 <= usize::MAX,
                0 <= y < height,
                0 <= x <= width,
                data@.len() == (y * width + x) * 4,
                forall|i: int| 0 <= i < data@.len() ==> #[trigger] data@[i] == checker_byte(i, width as int, cell as int),
            decreases width - x,
        {
            let light = (x / cell) % 2 == (y / cell) % 2;
            let grey: u8 = if light { 128 } else { 64 };
            proof {
                assert((y * width + x) * 4 + 4 <= width * height * 4) by (nonlinear_arith)
                    requires
                        y < height,
                        x < width,
                ;
                lemma_pixel_index(width as int, x as int, y as int, 0);
                lemma_pixel_index(width as int, x as int, y as int, 1);
                lemma_pixel_index(width as int, x as int, y as int, 2);
                lemma_pixel_index(width as int, x as int, y as int, 3);
            }
            data.push(grey);
            data.push(grey);
            data.push(grey);
            data.push(255);
            x = x + 1;
        }
        proof {
            assert((y * width + width) * 4 == (y + 1) * width * 4) by (nonlinear_arith);
        }
        y = y + 1;
    }
    proof {
        assert(y * width * 4 == width * height * 4) by (nonlinear_arith)
            requires
                y == height,
        ;
    }
    data
}

/// Pixels of the floor texture: a 1024 by 1024 checkerboard of 64-pixel squares.
pub fn create_checkerboard_texture() -> (r: Vec<u8>)
    ensures
        r@.len() == TEXTURE_SIZE * TEXTURE_SIZE * 4,
        forall|i: int|
            0 <= i < r@.len() ==> #[trigger] r@[i] == checker_byte(
                i,
                TEXTURE_SIZE as int,
                CHECKER_CELL as int,
            ),
{
    checkerboard_rgba(TEXTURE_SIZE, TEXTURE_SIZE, CHECKER_CELL)
}

} // verus!
