//! The plain-text PPM image format: a header naming the width, the height
//! and the largest colour value, then one line of three decimal values per
//! pixel.
use vstd::prelude::*;

verus! {

/// The largest value a colour channel is written with.
pub const COLOR_RANGE: u16 = 256;

/// ASCII `P`.
pub const LETTER_P: u8 = 80;

/// ASCII `3`.
pub const DIGIT_THREE: u8 = 51;

/// ASCII space.
pub const SPACE: u8 = 32;

/// ASCII line feed.
pub const NEWLINE: u8 = 10;

/// ASCII `0`; the other digits follow it in order.
pub const DIGIT_ZERO: u8 = 48;

/// The decimal digits of `n`, in ASCII, most significant first, without
/// leading zeros.
pub open spec fn decimal(n: nat) -> Seq<u8>
    decreases n,
{
    if n < 10 {
        seq![(n + DIGIT_ZERO) as u8]
    } else {
        decimal(n / 10).push((n % 10 + DIGIT_ZERO) as u8)
    }
}

/// The header of an image of `width` by `height` pixels whose channels go
/// up to `max_value`: `P3`, then the width and height on one line, then the
/// largest value, each line ending in a newline.
pub open spec fn header_text(width: u16, height: u16, max_value: u16) -> Seq<u8> {
    seq![LETTER_P, DIGIT_THREE, NEWLINE] + decimal(width as nat) + seq![SPACE] + decimal(height as nat) + seq![
        NEWLINE,
    ] + decimal(max_value as nat) + seq![NEWLINE]
}

/// The line of one pixel: its three channels separated by spaces.
pub open spec fn pixel_text(r: u16, g: u16, b: u16) -> Seq<u8> {
    decimal(r as nat) + seq![SPACE] + decimal(g as nat) + seq![SPACE] + decimal(b as nat) + seq![
        NEWLINE,
    ]
}

/// Appends the decimal digits of `n` to `out`.
fn push_decimal(out: &mut Vec<u8>, n: u16)
    ensures
        final(out)@ == old(out)@ + decimal(n as nat),
    decreases n,
{
    if n >= 10 {
        push_decimal(out, n / 10);
    }
    let digit: u8 = (n % 10) as u8;
    out.push(digit + DIGIT_ZERO);
    proof {
        if n >= 10 {
            assert(old(out)@ + decimal(n as nat) =~= (old(out)@ + decimal((n / 10) as nat)).push(
                (n % 10 + DIGIT_ZERO) as u8,
            ));
        }
    }
}

/// The header of a PPM image.
pub fn ppm_header(width: u16, height: u16, max_value: u16) -> (r: Vec<u8>)
    ensures
        r@ == header_text(width, height, max_value),
{
    let mut out: Vec<u8> = Vec::new();
    out.push(LETTER_P);
    out.push(DIGIT_THREE);
    out.push(NEWLINE);
    push_decimal(&mut out, width);
    out.push(SPACE);
    push_decimal(&mut out, height);
    out.push(NEWLINE);
    push_decimal(&mut out, max_value);
    out.push(NEWLINE);
    assert(out@ =~= header_text(width, height, max_value));
    out
}

/// The line that one pixel is written as.
pub fn ppm_pixel(r: u16, g: u16, b: u16) -> (line: Vec<u8>)
    ensures
        line@ == pixel_text(r, g, b),
{
    let mut out: Vec<u8> = Vec::new();
    push_decimal(&mut out, r);
    out.push(SPACE);
    push_decimal(&mut out, g);
    out.push(SPACE);
    push_decimal(&mut out, b);
    out.push(NEWLINE);
    assert(out@ =~= pixel_text(r, g, b));
    out
}

} // verus!
