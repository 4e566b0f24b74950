use vstd::prelude::*;
use base64::Engine as _;

verus! {

/// Compression quality on a 0 to 100 scale: a fixed trade of fidelity for
/// throughput and bandwidth.
pub const JPEG_QUALITY: u8 = 50;

/// Bytes per pixel of a raw frame: red, green, blue and alpha.
pub const BYTES_PER_PIXEL: u64 = 4;

/// Largest side that the JPEG format can carry.
pub const MAX_JPEG_SIDE: u32 = 65535;

/// A captured frame: `pixels` holds packed RGBA samples, row-major, with no
/// padding between rows.
pub struct RawFrame {
    pub width: u32,
    pub height: u32,
    pub pixels: Vec<u8>,
}

/// A compressed frame: the JPEG bytes and their base64 text for transport.
pub struct EncodedFrame {
    pub jpeg: Vec<u8>,
    pub text: String,
}

/// Why a frame could not be encoded.
#[derive(Clone, Copy, Debug, PartialEq, Eq, Structural)]
pub enum EncodeError {
    /// The buffer does not hold exactly four bytes for each pixel.
    MalformedBuffer,
    /// The image encoder refused the frame.
    Backend,
}

/// The number of bytes that a `width` by `height` RGBA frame must hold.
pub open spec fn expected_len(width: u32, height: u32) -> int {
    width * height * BYTES_PER_PIXEL
}

/// Whether the buffer's length fits the frame's dimensions.
pub open spec fn well_formed(frame: RawFrame) -> bool {
    frame.pixels@.len() == expected_len(frame.width, frame.height)
}

/// The JPEG bytes that the image encoder writes for an RGBA buffer of the given
/// dimensions at the given quality.
pub uninterp spec fn jpeg_of(pixels: Seq<u8>, width: u32, height: u32, quality: u8) -> Seq<u8>;

/// The standard, padded base64 text of a byte sequence.
pub uninterp spec fn base64_of(bytes: Seq<u8>) -> Seq<char>;

/// A character of the standard base64 alphabet, or the padding character.
pub open spec fn is_base64_char(c: char) -> bool {
    ('A' <= c <= 'Z') || ('a' <= c <= 'z') || ('0' <= c <= '9') || c == '+' || c == '/' || c == '='
}

/// The length of padded base64 text for `n` bytes: four characters for each
/// started group of three bytes.
pub open spec fn base64_len(n: nat) -> nat {
    4 * ((n + 2) / 3)
}

#[verifier::external_type_specification]
#[verifier::external_body]
pub struct ExImageError(image::ImageError);

/// Relies on image's `JpegEncoder::new_with_quality` and `JpegEncoder::encode`
/// with `ColorType::Rgba8`: the written bytes depend on the arguments alone;
/// a side wider than 65535 pixels is refused, and that is its only error when
/// writing into an in-memory buffer. `encode` panics unless the buffer holds
/// exactly four bytes per pixel, hence the precondition.
#[verifier::external_body]
fn jpeg_encode(pixels: &Vec<u8>, width: u32, height: u32, quality: u8) -> (r: Result<Vec<u8>, image::ImageError>)
    requires
        pixels@.len() == expected_len(width, height),
    ensures
        r is Ok ==> r->Ok_0@ == jpeg_of(pixels@, width, height, quality),
        r is Err <==> (width > MAX_JPEG_SIDE || height > MAX_JPEG_SIDE),
{
    let mut buffer = std::io::Cursor::new(Vec::new());
    let mut encoder = image::codecs::jpeg::JpegEncoder::new_with_quality(&mut buffer, quality);
    let result = encoder.encode(pixels, width, height, image::ColorType::Rgba8);
    result.map(|_| buffer.into_inner())
}

/// Relies on base64's `general_purpose::STANDARD.encode`: the text depends on
/// the bytes alone, is padded to a multiple of four characters, and uses the
/// standard alphabet.
#[verifier::external_body]
fn base64_encode(bytes: &Vec<u8>) -> (r: String)
    ensures
        r@ == base64_of(bytes@),
        r@.len() == base64_len(bytes@.len()),
        forall|i: int| 0 <= i < r@.len() ==> is_base64_char(#[trigger] r@[i]),
{
    base64::engine::general_purpose::STANDARD.encode(bytes)
}

/// Compresses a frame to JPEG at quality `JPEG_QUALITY` and renders the bytes
/// as base64 text. A buffer whose length does not fit the dimensions is
/// refused with `MalformedBuffer`; a frame with a side wider than JPEG allows
/// is refused with `Backend`; every other frame is encoded.
pub fn encode(raw: &RawFrame) -> (r: Result<EncodedFrame, EncodeError>)
    ensures
        !well_formed(*raw) <==> r == Err::<EncodedFrame, EncodeError>(EncodeError::MalformedBuffer),
        well_formed(*raw) && (raw.width > MAX_JPEG_SIDE || raw.height > MAX_JPEG_SIDE)
            ==> r == Err::<EncodedFrame, EncodeError>(EncodeError::Backend),
        well_formed(*raw) && raw.width <= MAX_JPEG_SIDE && raw.height <= MAX_JPEG_SIDE ==> r is Ok,
        r matches Ok(f) ==> {
            &&& well_formed(*raw)
            &&& f.jpeg@ == jpeg_of(raw.pixels@, raw.width, raw.height, JPEG_QUALITY)
            &&& f.text@ == base64_of(f.jpeg@)
            &&& f.text@.len() == base64_len(f.jpeg@.len())
            &&& forall|i: int| 0 <= i < f.text@.len() ==> is_base64_char(#[trigger] f.text@[i])
        },
{
    let w: u128 = raw.width as u128;
    let h: u128 = raw.height as u128;
    proof {
        assert(w * h <= 0xffff_fffe_0000_0001_u128) by (nonlinear_arith)
            requires
                w <= 0xffff_ffff_u128,
                h <= 0xffff_ffff_u128,
        ;
    }
    let wh: u128 = w * h;
    let expected: u128 = wh * 4;
    if raw.pixels.len() as u128 != expected {
        return Err(EncodeError::MalformedBuffer);
    }
    match jpeg_encode(&raw.pixels, raw.width, raw.height, JPEG_QUALITY) {
        Ok(jpeg) => {
            let text = base64_encode(&jpeg);
            Ok(EncodedFrame { jpeg, text })
        },
        Err(_) => Err(EncodeError::Backend),
    }
}

} // verus!
