//! An offline image: a framebuffer of integer color triples with its
//! dimensions, and the plain-text pixel encoding of a frame, built
//! byte-for-byte: the header `P3\n<width> <height>\n255\n` followed by one
//! `r g b` triple per pixel, row-major top-to-bottom.

use vstd::prelude::*;

use crate::ray::Rgb;
use crate::vec3::Vec3;

verus! {

/// The decimal digits of a nonnegative number, as ASCII bytes.
pub open spec fn dec_digits(n: int) -> Seq<u8>
    decreases n,
{
    if n < 10 {
        seq![(48 + n) as u8]
    } else {
        dec_digits(n / 10) + seq![(48 + n % 10) as u8]
    }
}

/// One pixel's line: the three channel values separated by spaces, with a
/// trailing newline.
pub open spec fn pixel_line(p: Rgb) -> Seq<u8> {
    dec_digits(p.r as int) + seq![32u8] + dec_digits(p.g as int) + seq![32u8] + dec_digits(
        p.b as int,
    ) + seq![10u8]
}

/// The pixel lines of a frame, in order.
pub open spec fn pixel_lines(ps: Seq<Rgb>) -> Seq<u8>
    decreases ps.len(),
{
    if ps.len() == 0 {
        Seq::empty()
    } else {
        pixel_lines(ps.drop_last()) + pixel_line(ps.last())
    }
}

/// The whole encoding: `P3`, the dimensions, the maximum channel value 255,
/// then every pixel line.
pub open spec fn spec_ppm(width: u32, height: u32, ps: Seq<Rgb>) -> Seq<u8> {
    seq![80u8, 51u8, 10u8] + dec_digits(width as int) + seq![32u8] + dec_digits(height as int)
        + seq![10u8, 50u8, 53u8, 53u8, 10u8] + pixel_lines(ps)
}

/// Appends the decimal digits of `n` to `out`.
fn push_decimal(out: &mut Vec<u8>, n: u32)
    ensures
        final(out)@ == old(out)@ + dec_digits(n as int),
    decreases n,
{
    if n < 10 {
        out.push(48 + (n as u8));
        proof {
            assert(out@ =~= old(out)@ + dec_digits(n as int));
        }
    } else {
        let q = n / 10;
        let r = n % 10;
        push_decimal(out, q);
        out.push(48 + (r as u8));
        proof {
            assert(out@ =~= old(out)@ + dec_digits(n as int));
        }
    }
}

/// Encodes a frame in the plain-text pixel format, byte for byte.
pub fn ppm_bytes(width: u32, height: u32, pixels: &Vec<Rgb>) -> (r: Vec<u8>)
    ensures
        r@ == spec_ppm(width, height, pixels@),
{
    let mut out: Vec<u8> = Vec::new();
    out.push(80);
    out.push(51);
    out.push(10);
    push_decimal(&mut out, width);
    out.push(32);
    push_decimal(&mut out, height);
    out.push(10);
    out.push(50);
    out.push(53);
    out.push(53);
    out.push(10);
    proof {
        assert(out@ =~= seq![80u8, 51u8, 10u8] + dec_digits(width as int) + seq![32u8]
            + dec_digits(height as int) + seq![10u8, 50u8, 53u8, 53u8, 10u8]);
        assert(pixels@.take(0) =~= Seq::<Rgb>::empty());
    }
    let ghost header = out@;
    let mut i: usize = 0;
    while i < pixels.len()
        invariant
            i <= pixels@.len(),
            header == seq![80u8, 51u8, 10u8] + dec_digits(width as int) + seq![32u8]
                + dec_digits(height as int) + seq![10u8, 50u8, 53u8, 53u8, 10u8],
            out@ == header + pixel_lines(pixels@.take(i as int)),
        decreases pixels@.len() - i,
    {
        let px = pixels[i];
        push_decimal(&mut out, px.r as u32);
        out.push(32);
        push_decimal(&mut out, px.g as u32);
        out.push(32);
        push_decimal(&mut out, px.b as u32);
        out.push(10);
        proof {
            assert(pixels@.take(i + 1).drop_last() =~= pixels@.take(i as int));
            assert(pixels@.take(i + 1).last() == pixels@[i as int]);
            assert(out@ =~= header + pixel_lines(pixels@.take(i + 1)));
        }
        i = i + 1;
    }
    proof {
        assert(pixels@.take(pixels@.len() as int) =~= pixels@);
        assert(out@ =~= spec_ppm(width, height, pixels@));
    }
    out
}

pub struct Image {
    pub width: u32,
    pub height: u32,
    pub data: Vec<Vec3>,
}

impl Image {
    /// An empty image of the given dimensions.
    pub fn new(width: u32, height: u32) -> (r: Image)
        ensures
            r.width == width,
            r.height == height,
            r.data@.len() == 0,
    {
        Image { width, height, data: Vec::new() }
    }
}

} // verus!
