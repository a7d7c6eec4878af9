//! Pre-rasterized characters: a fixed 14x14 grayscale cell per glyph, the
//! placement of a raw glyph bitmap into such a cell, and the lookup that
//! turns a string into its sequence of cells.

use vstd::prelude::*;
use vstd::string::StringSliceAdditionalSpecFns;

verus! {

/// Side length of a character cell, in pixels.
pub const CHARACTER_PX: usize = 14;

/// One character's 14x14 grayscale bitmap, row-major.
#[derive(Clone, Copy, Debug, PartialEq, Eq)]
pub struct RasterizedCharacter {
    pub bitmap: [u8; 196],
}

/// The cells of the characters of `bytes` that the alphabet covers, in
/// order; bytes without a rasterized form are dropped.
pub open spec fn spec_render_string(
    bytes: Seq<u8>,
    alpha: Seq<Option<RasterizedCharacter>>,
) -> Seq<RasterizedCharacter>
    decreases bytes.len(),
{
    if bytes.len() == 0 {
        Seq::empty()
    } else {
        let pre = spec_render_string(bytes.drop_last(), alpha);
        match alpha[bytes.last() as int] {
            Some(c) => pre.push(c),
            None => pre,
        }
    }
}

/// The value of cell `k` after placing a `w` by `h` glyph bitmap into a
/// 14x14 cell: the glyph is centered horizontally, sits on the cell's
/// bottom row, and is flipped vertically (the bitmap's last row lands on
/// the cell's top glyph row); uncovered cells are zero.
pub open spec fn glyph_cell(w: int, h: int, bm: Seq<u8>, k: int) -> u8 {
    let xr = k % 14 - (14 - w) / 2;
    let yy = 13 - k / 14;
    if 0 <= xr < w && 0 <= yy < h {
        bm[xr + (h - 1 - yy) * w]
    } else {
        0
    }
}

/// Centers a rasterized glyph of the given dimensions inside a 14x14
/// character cell. Glyphs larger than the cell are rejected.
pub fn place_glyph(width: usize, height: usize, bitmap: &Vec<u8>) -> (r: Option<
    RasterizedCharacter,
>)
    requires
        bitmap@.len() == width * height,
    ensures
        r is None <==> (width > 14 || height > 14),
        r matches Some(c) ==> forall|k: int|
            0 <= k < 196 ==> c.bitmap@[k] == glyph_cell(width as int, height as int, bitmap@, k),
{
    if width > 14 || height > 14 {
        return None;
    }
    let x_pos = (14 - width) / 2;
    let mut cell: [u8; 196] = [0; 196];
    let mut y: usize = 0;
    while y < height
        invariant
            width <= 14,
            height <= 14,
            bitmap@.len() == width * height,
            x_pos == (14 - width) / 2,
            y <= height,
            forall|k: int|
                0 <= k < 196 ==> cell@[k] == ({
                    let xr = k % 14 - (14 - width) / 2;
                    let yy = 13 - k / 14;
                    if 0 <= xr < width && 0 <= yy < height && yy < y {
                        bitmap@[xr + (height - 1 - yy) * width]
                    } else {
                        0u8
                    }
                }),
        decreases height - y,
    {
        let mut x: usize = 0;
        while x < width
            invariant
                width <= 14,
                height <= 14,
                bitmap@.len() == width * height,
                x_pos == (14 - width) / 2,
                y < height,
                x <= width,
                forall|k: int|
                    0 <= k < 196 ==> cell@[k] == ({
                        let xr = k % 14 - (14 - width) / 2;
                        let yy = 13 - k / 14;
                        if 0 <= xr < width && 0 <= yy < height && (yy < y || (yy == y && xr
                            < x)) {
                            bitmap@[xr + (height - 1 - yy) * width]
                        } else {
                            0u8
                        }
                    }),
            decreases width - x,
        {
            proof {
                assert(x + (height - 1 - y) * width < width * height) by (nonlinear_arith)
                    requires
                        x < width,
                        y < height,
                ;
                assert(0 <= (height - 1 - y) * width <= 196) by (nonlinear_arith)
                    requires
                        y < height,
                        height <= 14,
                        width <= 14,
                ;
            }
            let src = bitmap[x + (height - 1 - y) * width];
            let idx = x_pos + x + (13 - y) * 14;
            proof {
                vstd::arithmetic::div_mod::lemma_fundamental_div_mod_converse(
                    idx as int,
                    14,
                    (13 - y) as int,
                    (x_pos + x) as int,
                );
                assert(idx as int % 14 == x_pos + x && idx as int / 14 == 13 - y);
            }
            cell[idx] = src;
            x = x + 1;
        }
        y = y + 1;
    }
    Some(RasterizedCharacter { bitmap: cell })
}

/// Looks every byte of `s` up in the alphabet and collects the cells of
/// those that have one, in string order.
pub fn render_string(s: &str, alphabet: &[Option<RasterizedCharacter>; 128]) -> (r: Vec<
    RasterizedCharacter,
>)
    requires
        forall|i: int| 0 <= i < s.spec_bytes().len() ==> s.spec_bytes()[i] < 128,
    ensures
        r@ == spec_render_string(s.spec_bytes(), alphabet@),
{
    let bs = s.as_bytes();
    let mut ret: Vec<RasterizedCharacter> = Vec::new();
    let mut i: usize = 0;
    proof {
        assert(bs@.take(0) =~= Seq::<u8>::empty());
    }
    while i < bs.len()
        invariant
            bs@ == s.spec_bytes(),
            forall|j: int| 0 <= j < bs@.len() ==> bs@[j] < 128,
            i <= bs@.len(),
            ret@ == spec_render_string(bs@.take(i as int), alphabet@),
        decreases bs@.len() - i,
    {
        let b = bs[i];
        if let Some(character) = &alphabet[b as usize] {
            ret.push(*character);
        }
        proof {
            assert(bs@.take(i + 1).drop_last() =~= bs@.take(i as int));
            assert(bs@.take(i + 1).last() == bs@[i as int]);
        }
        i = i + 1;
    }
    proof {
        assert(bs@.take(bs@.len() as int) =~= bs@);
    }
    ret
}

} // verus!
