//! A minimal decoder for uncompressed 24-bit-per-pixel bitmap files: it
//! validates the fixed-size header, extracts the dimensions, and hands the
//! raw pixel payload back unchanged.

use vstd::prelude::*;

verus! {

/// Number of bytes in the fixed bitmap header: everything before the pixel
/// payload.
pub const HEADER_LEN: usize = 54;

/// Byte offset of the little-endian 32-bit width field.
pub const WIDTH_OFFSET: usize = 0x12;

/// Byte offset of the little-endian 32-bit height field.
pub const HEIGHT_OFFSET: usize = 0x16;

/// Byte offset of the little-endian 32-bit declared-payload-size field.
pub const IMAGE_SIZE_OFFSET: usize = 0x22;

/// Why a byte sequence was rejected by the decoder.
#[derive(Clone, Copy, Debug, PartialEq, Eq, Structural)]
pub enum DecodeError {
    /// Fewer bytes than the fixed header size were available.
    Truncated,
    /// The first two bytes are not the `"BM"` signature.
    InvalidSignature,
}

/// A decoded bitmap: the dimensions taken straight from the header, and the
/// raw pixel payload, three bytes per pixel in blue-green-red order, with no
/// row padding correction.
#[derive(Clone, Debug, PartialEq, Eq)]
pub struct BitmapImage {
    pub width: u32,
    pub height: u32,
    pub pixels: Vec<u8>,
}

/// The mathematical value of a [`BitmapImage`].
pub ghost struct SpecBitmapImage {
    pub width: u32,
    pub height: u32,
    pub pixels: Seq<u8>,
}

impl View for BitmapImage {
    type V = SpecBitmapImage;

    open spec fn view(&self) -> SpecBitmapImage {
        SpecBitmapImage { width: self.width, height: self.height, pixels: self.pixels@ }
    }
}

/// The little-endian 32-bit value stored at byte offset `off`.
pub open spec fn spec_le_u32(bytes: Seq<u8>, off: int) -> u32
    recommends
        0 <= off,
        off + 4 <= bytes.len(),
{
    ((bytes[off] as nat) + (bytes[off + 1] as nat) * 0x100 + (bytes[off + 2] as nat) * 0x10000
        + (bytes[off + 3] as nat) * 0x1000000) as u32
}

/// Assemble the little-endian 32-bit value stored at byte offset `off`.
pub fn read_le_u32(bytes: &[u8], off: usize) -> (r: u32)
    requires
        off + 4 <= bytes@.len(),
    ensures
        r == spec_le_u32(bytes@, off as int),
{
    let b0 = bytes[off] as u32;
    let b1 = bytes[off + 1] as u32;
    let b2 = bytes[off + 2] as u32;
    let b3 = bytes[off + 3] as u32;
    b0 + b1 * 0x100 + b2 * 0x10000 + b3 * 0x1000000
}

/// Whether the sequence carries the two-byte `"BM"` signature.
pub open spec fn has_signature(bytes: Seq<u8>) -> bool
    recommends
        bytes.len() >= 2,
{
    bytes[0] == 66u8 && bytes[1] == 77u8
}

/// What decoding a byte sequence yields, for every possible sequence: a
/// sequence shorter than the header is truncated, one without the signature
/// is not a bitmap, and any other yields the header's dimensions together
/// with whatever bytes follow the header, taken verbatim.
pub open spec fn spec_decode(bytes: Seq<u8>) -> Result<SpecBitmapImage, DecodeError> {
    if bytes.len() < HEADER_LEN {
        Err(DecodeError::Truncated)
    } else if !has_signature(bytes) {
        Err(DecodeError::InvalidSignature)
    } else {
        Ok(
            SpecBitmapImage {
                width: spec_le_u32(bytes, WIDTH_OFFSET as int),
                height: spec_le_u32(bytes, HEIGHT_OFFSET as int),
                pixels: bytes.subrange(HEADER_LEN as int, bytes.len() as int),
            },
        )
    }
}

/// The view of a decoder result, error kinds kept as they are.
pub open spec fn decode_result_view(r: Result<BitmapImage, DecodeError>) -> Result<
    SpecBitmapImage,
    DecodeError,
> {
    match r {
        Ok(img) => Ok(img@),
        Err(e) => Err(e),
    }
}

/// Decode a minimal uncompressed bitmap byte stream: validate the fixed
/// header, extract width and height, and take every byte after the header as
/// the pixel payload, without truncating or padding it to the declared size.
pub fn decode(bytes: &[u8]) -> (r: Result<BitmapImage, DecodeError>)
    ensures
        decode_result_view(r) == spec_decode(bytes@),
        r is Ok <==> (bytes@.len() >= HEADER_LEN && has_signature(bytes@)),
        r == Err::<BitmapImage, DecodeError>(DecodeError::Truncated) <==> bytes@.len()
            < HEADER_LEN,
        r == Err::<BitmapImage, DecodeError>(DecodeError::InvalidSignature) <==> (bytes@.len()
            >= HEADER_LEN && !has_signature(bytes@)),
{
    if bytes.len() < HEADER_LEN {
        return Err(DecodeError::Truncated);
    }
    if !(bytes[0] == 66u8 && bytes[1] == 77u8) {
        return Err(DecodeError::InvalidSignature);
    }
    let width = read_le_u32(bytes, WIDTH_OFFSET);
    let height = read_le_u32(bytes, HEIGHT_OFFSET);
    let mut pixels: Vec<u8> = Vec::new();
    let mut i: usize = HEADER_LEN;
    while i < bytes.len()
        invariant
            HEADER_LEN <= i <= bytes@.len(),
            pixels@ == bytes@.subrange(HEADER_LEN as int, i as int),
        decreases bytes@.len() - i,
    {
        pixels.push(bytes[i]);
        proof {
            assert(bytes@.subrange(HEADER_LEN as int, i + 1) =~= bytes@.subrange(
                HEADER_LEN as int,
                i as int,
            ).push(bytes@[i as int]));
        }
        i = i + 1;
    }
    Ok(BitmapImage { width, height, pixels })
}

/// The size of the pixel payload a header declares: taken verbatim when the
/// declared field is non-zero, and derived as `width * height * 3` — three
/// bytes per pixel — when the field was left at zero, as the format permits
/// for uncompressed 24-bit-per-pixel images.
pub open spec fn spec_effective_image_size(declared: u32, width: u32, height: u32) -> nat {
    if declared != 0 {
        declared as nat
    } else {
        (width as nat) * (height as nat) * 3
    }
}

/// Resolve the header's declared-payload-size field, read with
/// [`read_le_u32`] at [`IMAGE_SIZE_OFFSET`]: a zero field is derived from the
/// dimensions. `None` exactly when the derived size does not fit the 32-bit
/// field the format stores it in. [`decode`] itself never consults this
/// field: it hands back whatever bytes follow the header.
pub fn effective_image_size(declared: u32, width: u32, height: u32) -> (r: Option<u32>)
    ensures
        match r {
            Some(n) => n == spec_effective_image_size(declared, width, height),
            None => spec_effective_image_size(declared, width, height) > u32::MAX,
        },
{
    if declared != 0 {
        return Some(declared);
    }
    let w = width as u64;
    let h = height as u64;
    proof {
        assert(w * h <= 0xffff_ffffu64 * 0xffff_ffffu64) by (nonlinear_arith)
            requires
                w <= 0xffff_ffffu64,
                h <= 0xffff_ffffu64,
        ;
    }
    let area = w * h;
    // Three times 0x5555_5555 is exactly the largest value the field holds.
    if area <= 0x5555_5555 {
        Some((area * 3) as u32)
    } else {
        None
    }
}

/// Decoding is a function of the input bytes alone: two decodes of the same
/// sequence classify it the same way — in particular, a malformed input
/// yields the same error kind every time it is decoded.
pub proof fn lemma_decode_deterministic(
    bytes: Seq<u8>,
    r1: Result<SpecBitmapImage, DecodeError>,
    r2: Result<SpecBitmapImage, DecodeError>,
)
    requires
        r1 == spec_decode(bytes),
        r2 == spec_decode(bytes),
    ensures
        r1 == r2,
{
}

} // verus!
