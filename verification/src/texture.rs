use vstd::prelude::*;

verus! {

/// Width and height of an image, in pixels.
#[derive(Clone, Copy, Debug, PartialEq, Eq, Structural)]
pub struct Dimension {
    /// Width of the image.
    pub w: i32,
    /// Height of the image.
    pub h: i32,
}

/// The big-endian 16-bit value stored at offsets `i` and `i + 1` of `s`.
pub open spec fn be16(s: Seq<u8>, i: int) -> int {
    (s[i] as int) * 256 + (s[i + 1] as int)
}

/// Marker bytes that stand alone, with no length field after them:
/// start-of-image, the restart markers, and the extension marker.
pub open spec fn standalone_marker(m: u8) -> bool {
    m == 0xd8 || (0xd0 <= m && m <= 0xd7) || m == 0x01
}

/// What scanning the encoded stream `s` for the baseline frame header yields,
/// starting at offset `off`.
///
/// The stream is a sequence of segments, each introduced by fill bytes
/// (`0xff`) and a marker byte. Standalone markers are skipped; every other
/// segment carries a two-byte big-endian length (counting the length field
/// itself) that says where the next segment starts. The baseline frame
/// header marker (`0xc0`) ends the scan: its payload holds one precision
/// byte, then height and width as big-endian 16-bit fields. Reaching the
/// end-of-image marker (`0xd9`), running off the end of the stream, or
/// meeting a segment whose stated length is impossible all yield `None`.
pub open spec fn scan_dimensions(s: Seq<u8>, off: int) -> Option<Dimension>
    decreases s.len() - off,
{
    if off < 0 || off >= s.len() {
        None
    } else if s[off] == 0xff {
        scan_dimensions(s, off + 1)
    } else {
        let m = s[off];
        let p = off + 1;
        if standalone_marker(m) {
            scan_dimensions(s, p)
        } else if m == 0xd9 {
            None
        } else if s.len() - p < 2 {
            None
        } else if m == 0xc0 {
            if s.len() - p >= 7 {
                Some(Dimension { w: be16(s, p + 5) as i32, h: be16(s, p + 3) as i32 })
            } else {
                None
            }
        } else {
            let len = be16(s, p);
            if len < 2 || len > s.len() - p {
                None
            } else {
                scan_dimensions(s, p + len)
            }
        }
    }
}

/// Dimensions recovered by the scan are 16-bit values: each comes from one
/// big-endian 16-bit field of the frame header.
pub proof fn lemma_scan_dimensions_bounds(s: Seq<u8>, off: int)
    ensures
        scan_dimensions(s, off) matches Some(d) ==> 0 <= d.w <= 0xffff && 0 <= d.h <= 0xffff,
    decreases s.len() - off,
{
    if off < 0 || off >= s.len() {
    } else if s[off] == 0xff {
        lemma_scan_dimensions_bounds(s, off + 1);
    } else {
        let m = s[off];
        let p = off + 1;
        if standalone_marker(m) {
            lemma_scan_dimensions_bounds(s, p);
        } else if m == 0xd9 || s.len() - p < 2 || m == 0xc0 {
        } else {
            let len = be16(s, p);
            if 2 <= len <= s.len() - p {
                lemma_scan_dimensions_bounds(s, p + len);
            }
        }
    }
}

/// A texture descriptor: a borrowed reference to the encoded image bytes
/// (the descriptor does not own them, so they must outlive it), the
/// dimensions recovered from the header, and the row stride in texels.
pub struct Texture<'a> {
    /// The encoded image bytes, handed to the hardware's texture unit as-is.
    pub bytes: &'a [u8],
    /// Width in pixels, zero when no header was found.
    pub width: i32,
    /// Height in pixels, zero when no header was found.
    pub height: i32,
    /// Row stride in texels.
    pub tbw: i32,
}

impl<'a> Texture<'a> {
    /// A descriptor whose dimensions fit what the hardware's texture unit
    /// accepts.
    pub open spec fn wf(self) -> bool {
        &&& 0 <= self.width <= 0xffff
        &&& 0 <= self.height <= 0xffff
        &&& 0 <= self.tbw <= 0xffff
    }

    /// Recover an image's width and height from its encoded header without
    /// decoding any pixels.
    ///
    /// Returns `Ok` exactly when the scan finds a baseline frame header
    /// before the end-of-image marker or the end of the stream, and `Err`
    /// otherwise; callers treat `Err` as "use a zero-sized texture", not as
    /// a failure to crash on.
    pub fn tex_dimensions(bytes: &[u8]) -> (r: Result<Dimension, ()>)
        ensures
            match r {
                Ok(d) => scan_dimensions(bytes@, 0) == Some(d),
                Err(_) => scan_dimensions(bytes@, 0) is None,
            },
    {
        let s = Ghost(bytes@);
        let n = bytes.len();
        let mut off: usize = 0;
        loop
            invariant
                off <= n,
                n == s@.len(),
                s@ == bytes@,
                scan_dimensions(s@, off as int) == scan_dimensions(s@, 0),
            decreases n - off,
        {
            if off >= n {
                return Err(());
            }
            if bytes[off] == 0xff {
                proof {
                    assert(scan_dimensions(s@, off + 1) == scan_dimensions(s@, off as int));
                }
                off = off + 1;
                continue;
            }
            let mrkr = bytes[off];
            let p = off + 1;
            if mrkr == 0xd8 || (0xd0 <= mrkr && mrkr <= 0xd7) || mrkr == 0x01 {
                proof {
                    assert(scan_dimensions(s@, p as int) == scan_dimensions(s@, off as int));
                }
                off = p;
                continue;
            }
            if mrkr == 0xd9 {
                return Err(());
            }
            if n - p < 2 {
                return Err(());
            }
            if mrkr == 0xc0 {
                if n - p < 7 {
                    return Err(());
                }
                let h: i32 = (bytes[p + 3] as i32) * 256 + (bytes[p + 4] as i32);
                let w: i32 = (bytes[p + 5] as i32) * 256 + (bytes[p + 6] as i32);
                return Ok(Dimension { w, h });
            }
            let len: usize = (bytes[p] as usize) * 256 + (bytes[p + 1] as usize);
            if len < 2 {
                return Err(());
            }
            if len > n - p {
                return Err(());
            }
            proof {
                assert(scan_dimensions(s@, p + len) == scan_dimensions(s@, off as int));
            }
            off = p + len;
        }
    }

    /// Build a texture descriptor over `bytes`: the dimensions come from the
    /// header scan, or are zero when no frame header is found, and the row
    /// stride starts out zero until the caller binds the texture.
    pub fn tex_load(bytes: &'a [u8]) -> (t: Texture<'a>)
        ensures
            t.bytes@ == bytes@,
            t.tbw == 0,
            match scan_dimensions(bytes@, 0) {
                Some(d) => t.width == d.w && t.height == d.h,
                None => t.width == 0 && t.height == 0,
            },
            t.wf(),
    {
        proof {
            lemma_scan_dimensions_bounds(bytes@, 0);
        }
        let (w, h) = match Self::tex_dimensions(bytes) {
            Ok(d) => (d.w, d.h),
            Err(_) => (0, 0),
        };
        Texture { bytes, width: w, height: h, tbw: 0 }
    }
}

impl<'a> Default for Texture<'a> {
    /// The zero-sized texture a caller substitutes when no header was found:
    /// no bytes, zero dimensions, zero stride.
    fn default() -> (t: Texture<'a>)
        ensures
            t.bytes@.len() == 0,
            t.width == 0,
            t.height == 0,
            t.tbw == 0,
            t.wf(),
    {
        Texture { bytes: &[], width: 0, height: 0, tbw: 0 }
    }
}

} // verus!
