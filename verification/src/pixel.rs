use vstd::prelude::*;

verus! {

/// Pixel formats the GPU understands, together with how many bytes one pixel
/// occupies in a buffer of that format.
///
/// The first four are direct-colour layouts (three 16-bit sub-layouts and one
/// 32-bit), the `PsmT*` variants are indexed layouts (4, 8, 16 or 32 bits per
/// texel), and the `PsmDxt*` variants are block-compressed formats whose
/// storage is not a simple per-pixel multiple; the allocator sizes those as
/// zero bytes rather than guessing.
#[derive(Clone, Copy, Debug, PartialEq, Eq, Structural)]
pub enum PixelFormat {
    /// Direct colour, 16-bit, 5-6-5 bits per channel.
    Psm5650,
    /// Direct colour, 16-bit, 5-5-5-1 bits per channel.
    Psm5551,
    /// Direct colour, 16-bit, 4 bits per channel.
    Psm4444,
    /// Direct colour, 32-bit, 8 bits per channel.
    Psm8888,
    /// Indexed, 4-bit (two texels per byte).
    PsmT4,
    /// Indexed, 8-bit.
    PsmT8,
    /// Indexed, 16-bit.
    PsmT16,
    /// Indexed, 32-bit.
    PsmT32,
    /// Block-compressed, DXT1.
    PsmDxt1,
    /// Block-compressed, DXT3.
    PsmDxt3,
    /// Block-compressed, DXT5.
    PsmDxt5,
}

/// Bytes of video memory that a `width` x `height` pixel buffer of format
/// `psm` occupies: the pixel count times the format's bytes-per-pixel
/// multiplier (1/2, 1, 2 or 4), and zero for the block-compressed formats,
/// which the allocator does not size.
pub open spec fn required_bytes(width: int, height: int, psm: PixelFormat) -> int {
    let pixels = width * height;
    match psm {
        PixelFormat::PsmT4 => pixels / 2,
        PixelFormat::PsmT8 => pixels,
        PixelFormat::Psm5650
        | PixelFormat::Psm5551
        | PixelFormat::Psm4444
        | PixelFormat::PsmT16 => pixels * 2,
        PixelFormat::Psm8888 | PixelFormat::PsmT32 => pixels * 4,
        PixelFormat::PsmDxt1 | PixelFormat::PsmDxt3 | PixelFormat::PsmDxt5 => 0,
    }
}

/// Numerator of the format's bytes-per-pixel multiplier, so that the
/// multiplier 1/2 of the 4-bit indexed format has an exact rational form.
pub open spec fn multiplier_num(psm: PixelFormat) -> int {
    match psm {
        PixelFormat::PsmT4 => 1,
        PixelFormat::PsmT8 => 1,
        PixelFormat::Psm5650
        | PixelFormat::Psm5551
        | PixelFormat::Psm4444
        | PixelFormat::PsmT16 => 2,
        PixelFormat::Psm8888 | PixelFormat::PsmT32 => 4,
        PixelFormat::PsmDxt1 | PixelFormat::PsmDxt3 | PixelFormat::PsmDxt5 => 0,
    }
}

/// Denominator of the format's bytes-per-pixel multiplier: 2 for the 4-bit
/// indexed format, 1 for every other.
pub open spec fn multiplier_den(psm: PixelFormat) -> int {
    match psm {
        PixelFormat::PsmT4 => 2,
        _ => 1,
    }
}

/// The buffer size is the pixel count times the bytes-per-pixel multiplier,
/// with multipliers 1/2, 1, 2, 2, 4 for the named per-pixel formats and 0 for
/// the block-compressed ones. The first form states this exactly for every
/// width and height, reading the multiplier as the rational
/// `multiplier_num / multiplier_den`; the second gives the plain product form
/// whenever the pixel count is even (an odd pixel count in the 4-bit format
/// occupies one byte less than the half-byte product, since a trailing
/// half-byte is not allocated).
pub proof fn lemma_required_bytes_multiplier(width: int, height: int, psm: PixelFormat)
    requires
        0 <= width,
        0 <= height,
    ensures
        required_bytes(width, height, psm) == (width * height * multiplier_num(psm)) / multiplier_den(psm),
        (width * height) % 2 == 0 ==> multiplier_den(psm) * required_bytes(width, height, psm)
            == width * height * multiplier_num(psm),
{
    assert(width * height >= 0) by (nonlinear_arith)
        requires
            0 <= width,
            0 <= height,
    ;
    let pixels = width * height;
    match psm {
        PixelFormat::PsmT4 => {
            assert(pixels * 1 == pixels);
            assert(pixels % 2 == 0 ==> 2 * (pixels / 2) == pixels);
        }
        PixelFormat::PsmT8 => {
            assert(pixels * 1 == pixels);
            assert((pixels * 1) / 1 == pixels);
        }
        _ => {
            assert((pixels * 2) / 1 == pixels * 2);
            assert((pixels * 4) / 1 == pixels * 4);
            assert((pixels * 0) / 1 == 0);
        }
    }
}

/// Byte size of a pixel buffer, as the video-memory allocator computes it.
///
/// The caller is responsible for keeping the request within machine range;
/// buffers on this hardware are far below it.
pub fn get_memory_size(width: u16, height: u16, psm: PixelFormat) -> (size: u32)
    requires
        required_bytes(width as int, height as int, psm) <= u32::MAX,
    ensures
        size == required_bytes(width as int, height as int, psm),
{
    proof {
        assert((width as int) * (height as int) <= 65535 * 65535) by (nonlinear_arith)
            requires
                0 <= width as int <= 65535,
                0 <= height as int <= 65535,
        ;
    }
    let pixels: u32 = (width as u32) * (height as u32);
    match psm {
        PixelFormat::PsmT4 => pixels / 2,
        PixelFormat::PsmT8 => pixels,
        PixelFormat::Psm5650
        | PixelFormat::Psm5551
        | PixelFormat::Psm4444
        | PixelFormat::PsmT16 => pixels * 2,
        PixelFormat::Psm8888 | PixelFormat::PsmT32 => pixels * 4,
        PixelFormat::PsmDxt1 | PixelFormat::PsmDxt3 | PixelFormat::PsmDxt5 => 0,
    }
}

/// How a 32-bit packed colour is laid out: red in the low byte, then green,
/// blue, and alpha in the high byte, as the display hardware reads it.
pub open spec fn spec_rgba(r: u8, g: u8, b: u8, a: u8) -> u32 {
    (r as u32) | ((g as u32) << 8) | ((b as u32) << 16) | ((a as u32) << 24)
}

/// Pack four 8-bit colour channels into one 32-bit value in the byte order
/// the display hardware reads (red lowest, alpha highest).
pub fn rgba(r: u8, g: u8, b: u8, a: u8) -> (c: u32)
    ensures
        c == spec_rgba(r, g, b, a),
{
    (r as u32) | ((g as u32) << 8) | ((b as u32) << 16) | ((a as u32) << 24)
}

} // verus!
