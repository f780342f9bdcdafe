use vstd::prelude::*;

verus! {

/// One quantized pixel: red, green and blue, each in `0..=255`.
#[derive(Clone, Copy, Debug, PartialEq, Eq, Structural)]
pub struct Rgb {
    pub r: u8,
    pub g: u8,
    pub b: u8,
}

/// Why an image could not be encoded.
#[derive(Clone, Copy, Debug, PartialEq, Eq, Structural)]
pub enum ImageError {
    /// The number of pixels is not `width * height`.
    PixelCountMismatch,
}

/// The ASCII code of the decimal digit `d` (`d < 10`).
pub open spec fn digit_byte(d: nat) -> u8 {
    (48 + d) as u8
}

/// The decimal digits of `n`, most significant first, without leading zeros.
pub open spec fn decimal(n: nat) -> Seq<u8>
    decreases n,
{
    if n < 10 {
        seq![digit_byte(n)]
    } else {
        decimal(n / 10).push(digit_byte(n % 10))
    }
}

/// `"P3\n<width> <height>\n255\n"`.
pub open spec fn header_bytes(width: nat, height: nat) -> Seq<u8> {
    seq![80u8, 51u8, 10u8] + decimal(width) + seq![32u8] + decimal(height) + seq![
        10u8,
        50u8,
        53u8,
        53u8,
        10u8,
    ]
}

/// `"<r> <g> <b>\n"`.
pub open spec fn pixel_bytes(p: Rgb) -> Seq<u8> {
    decimal(p.r as nat) + seq![32u8] + decimal(p.g as nat) + seq![32u8] + decimal(p.b as nat)
        + seq![10u8]
}

/// The lines of all pixels, in the order given.
pub open spec fn pixels_bytes(px: Seq<Rgb>) -> Seq<u8>
    decreases px.len(),
{
    if px.len() == 0 {
        Seq::empty()
    } else {
        pixels_bytes(px.drop_last()) + pixel_bytes(px.last())
    }
}

/// A whole image: the header, then one line per pixel.
pub open spec fn image_bytes(width: nat, height: nat, px: Seq<Rgb>) -> Seq<u8> {
    header_bytes(width, height) + pixels_bytes(px)
}

/// Appends the decimal digits of `n`.
pub fn push_decimal(out: &mut Vec<u8>, n: u32)
    ensures
        final(out)@ == old(out)@ + decimal(n as nat),
    decreases n,
{
    if n >= 10 {
        push_decimal(out, n / 10);
    }
    out.push(48u8 + (n % 10) as u8);
}

/// Appends the image header for the given dimensions.
pub fn push_header(out: &mut Vec<u8>, width: u32, height: u32)
    ensures
        final(out)@ == old(out)@ + header_bytes(width as nat, height as nat),
{
    out.push(80u8);
    out.push(51u8);
    out.push(10u8);
    push_decimal(out, width);
    out.push(32u8);
    push_decimal(out, height);
    out.push(10u8);
    out.push(50u8);
    out.push(53u8);
    out.push(53u8);
    out.push(10u8);
    assert(out@ =~= old(out)@ + header_bytes(width as nat, height as nat));
}

/// Appends the line of one pixel.
pub fn push_pixel(out: &mut Vec<u8>, p: Rgb)
    ensures
        final(out)@ == old(out)@ + pixel_bytes(p),
{
    push_decimal(out, p.r as u32);
    out.push(32u8);
    push_decimal(out, p.g as u32);
    out.push(32u8);
    push_decimal(out, p.b as u32);
    out.push(10u8);
    assert(out@ =~= old(out)@ + pixel_bytes(p));
}

/// Encodes a `width` by `height` image whose pixels are listed row by row,
/// from the top row down and left to right within a row.
pub fn encode_image(width: u32, height: u32, pixels: &Vec<Rgb>) -> (r: Result<Vec<u8>, ImageError>)
    ensures
        pixels@.len() == width as int * height as int <==> r is Ok,
        r is Ok ==> r->Ok_0@ == image_bytes(width as nat, height as nat, pixels@),
        r is Err ==> r->Err_0 == ImageError::PixelCountMismatch,
{
    assert(width as u64 * height as u64 <= u32::MAX as int * u32::MAX as int) by (nonlinear_arith);
    let expected: u64 = width as u64 * height as u64;
    if pixels.len() as u64 != expected {
        return Err(ImageError::PixelCountMismatch);
    }
    let mut out: Vec<u8> = Vec::new();
    push_header(&mut out, width, height);
    let mut k: usize = 0;
    while k < pixels.len()
        invariant
            k <= pixels@.len(),
            out@ == header_bytes(width as nat, height as nat) + pixels_bytes(pixels@.take(k as int)),
        decreases pixels@.len() - k,
    {
        proof {
            assert(pixels@.take(k as int + 1).drop_last() =~= pixels@.take(k as int));
        }
        push_pixel(&mut out, pixels[k]);
        k = k + 1;
        proof {
            assert(out@ =~= header_bytes(width as nat, height as nat) + pixels_bytes(
                pixels@.take(k as int),
            ));
        }
    }
    assert(pixels@.take(k as int) =~= pixels@);
    Ok(out)
}

} // verus!
