//! Frame conversion: a raw RGBA buffer, possibly with row padding, becomes
//! packed RGB and then a JPEG image.

use image::codecs::jpeg::JpegEncoder;
use image::ImageEncoder;
use vstd::arithmetic::div_mod::lemma_fundamental_div_mod_converse;
use vstd::prelude::*;
use vstd::slice::slice_subrange;

verus! {

/// Error of the `image` crate, carried through unopened.
#[verifier::external_type_specification]
#[verifier::external_body]
pub struct ExImageError(image::ImageError);

/// One captured frame as the capture driver hands it over: RGBA, four bytes
/// per pixel, `row_pitch` bytes from the start of one row to the next.
#[derive(Clone, Copy, Debug, PartialEq, Eq)]
pub struct RawFrame<'a> {
    pub data: &'a [u8],
    pub width: u32,
    pub height: u32,
    pub row_pitch: u32,
}

/// Why a frame was dropped.
#[derive(Clone, Debug, PartialEq, Eq)]
pub enum ConversionError {
    /// The buffer does not hold the bytes that its dimensions announce.
    BufferSizeMismatch,
    /// The JPEG encoder refused the image; the text is the encoder's own.
    Encoder(String),
}

/// Bytes of one row of packed RGBA pixels.
pub open spec fn packed_row_len(width: u32) -> int {
    width as int * 4
}

/// A frame is padded when its rows lie further apart than their pixels need.
pub open spec fn has_padding(width: u32, row_pitch: u32) -> bool {
    row_pitch as int > packed_row_len(width)
}

/// The number of bytes a raw buffer of these dimensions holds.
pub open spec fn raw_len(width: u32, height: u32, row_pitch: u32) -> int {
    if has_padding(width, row_pitch) {
        row_pitch as int * height as int
    } else {
        packed_row_len(width) * height as int
    }
}

/// The rows of a padded buffer, joined without their padding.
pub open spec fn unpadded(data: Seq<u8>, width: u32, height: u32, row_pitch: u32) -> Seq<u8> {
    Seq::new(
        (packed_row_len(width) * height as int) as nat,
        |i: int| data[(i / packed_row_len(width)) * row_pitch as int + i % packed_row_len(width)],
    )
}

/// The tightly packed RGBA bytes of a frame.
pub open spec fn packed_rgba(data: Seq<u8>, width: u32, height: u32, row_pitch: u32) -> Seq<u8> {
    if has_padding(width, row_pitch) {
        unpadded(data, width, height, row_pitch)
    } else {
        data
    }
}

/// RGBA without its alpha channel: three bytes for every whole group of four.
pub open spec fn drop_alpha(rgba: Seq<u8>) -> Seq<u8> {
    Seq::new((rgba.len() / 4 * 3) as nat, |i: int| rgba[i / 3 * 4 + i % 3])
}

/// The image sizes that JPEG can hold.
pub open spec fn jpeg_dimensions_ok(width: u32, height: u32) -> bool {
    1 <= width <= 65535 && 1 <= height <= 65535
}

/// A JPEG stream starts with the start-of-image marker and ends with the
/// end-of-image marker.
pub open spec fn jpeg_framed(bytes: Seq<u8>) -> bool {
    &&& bytes.len() >= 4
    &&& bytes[0] == 0xFF
    &&& bytes[1] == 0xD8
    &&& bytes[bytes.len() - 2] == 0xFF
    &&& bytes[bytes.len() - 1] == 0xD9
}

/// The JPEG image that the `image` crate's encoder writes for packed RGB
/// pixels of the given dimensions at the given quality, or `None` where it
/// refuses them.
pub uninterp spec fn jpeg_encoding(rgb: Seq<u8>, width: u32, height: u32, quality: u8) -> Option<
    Seq<u8>,
>;

/// What converting a frame yields: the encoded image, or `None` where the
/// frame is dropped.
pub open spec fn converted(frame: RawFrame, quality: u8) -> Option<Seq<u8>> {
    if frame.data@.len() != raw_len(frame.width, frame.height, frame.row_pitch) {
        None
    } else {
        jpeg_encoding(
            drop_alpha(packed_rgba(frame.data@, frame.width, frame.height, frame.row_pitch)),
            frame.width,
            frame.height,
            quality,
        )
    }
}

/// On which frames conversion succeeds.
pub open spec fn convertible(frame: RawFrame) -> bool {
    &&& frame.data@.len() == raw_len(frame.width, frame.height, frame.row_pitch)
    &&& jpeg_dimensions_ok(frame.width, frame.height)
}

/// `JpegEncoder::new_with_quality` followed by `write_image` with
/// `ExtendedColorType::Rgb8`, into a fresh buffer of the given capacity.
/// The encoder panics unless the buffer holds three bytes per pixel, which
/// the precondition demands. It fails exactly when a dimension is zero or
/// above 65535, before writing anything; otherwise its output is a function
/// of the pixels, the dimensions and the quality, opens with the SOI marker
/// and closes with the EOI marker.
#[verifier::external_body]
fn encode_jpeg(rgb: &Vec<u8>, width: u32, height: u32, quality: u8, capacity: usize) -> (r: Result<
    Vec<u8>,
    image::ImageError,
>)
    requires
        rgb@.len() == width as int * height as int * 3,
    ensures
        r is Ok <==> jpeg_dimensions_ok(width, height),
        r is Ok <==> jpeg_encoding(rgb@, width, height, quality) is Some,
        r matches Ok(bytes) ==> jpeg_encoding(rgb@, width, height, quality) == Some(bytes@)
            && jpeg_framed(bytes@),
{
    let mut out: Vec<u8> = Vec::with_capacity(capacity);
    let encoder = JpegEncoder::new_with_quality(&mut out, quality);
    match encoder.write_image(rgb, width, height, image::ExtendedColorType::Rgb8) {
        Ok(()) => Ok(out),
        Err(e) => Err(e),
    }
}

impl<'a> RawFrame<'a> {
    /// Whether the rows carry padding.
    pub fn is_padded(&self) -> (padded: bool)
        ensures
            padded == has_padding(self.width, self.row_pitch),
    {
        self.row_pitch as u64 > self.width as u64 * 4
    }

    /// Whether the buffer holds exactly the bytes that the dimensions announce.
    pub fn is_well_sized(&self) -> (ok: bool)
        ensures
            ok == (self.data@.len() == raw_len(self.width, self.height, self.row_pitch)),
    {
        let height = self.height as u128;
        let expected: u128 = if self.is_padded() {
            assert(self.row_pitch as int * self.height as int <= 0xFFFF_FFFF * 0xFFFF_FFFF)
                by (nonlinear_arith)
                requires
                    0 <= self.row_pitch <= 0xFFFF_FFFF,
                    0 <= self.height <= 0xFFFF_FFFF,
            ;
            self.row_pitch as u128 * height
        } else {
            assert(self.width as int * 4 * self.height as int <= 0xFFFF_FFFF * 4 * 0xFFFF_FFFF)
                by (nonlinear_arith)
                requires
                    0 <= self.width <= 0xFFFF_FFFF,
                    0 <= self.height <= 0xFFFF_FFFF,
            ;
            self.width as u128 * 4 * height
        };
        self.data.len() as u128 == expected
    }
}

/// Joins the rows of a padded frame without their padding.
pub fn strip_padding(frame: &RawFrame) -> (packed: Vec<u8>)
    requires
        has_padding(frame.width, frame.row_pitch),
        frame.data@.len() == raw_len(frame.width, frame.height, frame.row_pitch),
    ensures
        packed@ == unpadded(frame.data@, frame.width, frame.height, frame.row_pitch),
{
    let row: usize = frame.width as usize * 4;
    let pitch: usize = frame.row_pitch as usize;
    let height: usize = frame.height as usize;
    let total: usize = frame.data.len();
    let mut packed: Vec<u8> = Vec::new();
    let mut y: usize = 0;
    while y < height
        invariant
            y <= height,
            row == packed_row_len(frame.width),
            pitch == frame.row_pitch,
            height == frame.height,
            row < pitch,
            frame.data@.len() == pitch * height,
            frame.data@.len() == total,
            packed@.len() == y * row,
            forall|i: int|
                0 <= i < y * row ==> #[trigger] packed@[i] == frame.data@[(i / row as int) * pitch
                    + i % row as int],
        decreases height - y,
    {
        proof {
            assert((y + 1) * pitch <= height * pitch) by (nonlinear_arith)
                requires
                    y + 1 <= height,
                    pitch >= 0,
            ;
            assert(height * pitch == pitch * height) by (nonlinear_arith);
            assert((y + 1) * pitch == y * pitch + pitch) by (nonlinear_arith);
            assert((y + 1) * row == y * row + row) by (nonlinear_arith);
            assert(y * pitch >= 0 && y * row >= 0) by (nonlinear_arith)
                requires
                    y >= 0,
                    pitch >= 0,
                    row >= 0,
            ;
        }
        let start: usize = y * pitch;
        let line = slice_subrange(frame.data, start, start + row);
        let ghost before = packed@;
        packed.extend_from_slice(line);
        proof {
            assert forall|i: int| 0 <= i < (y + 1) * row implies #[trigger] packed@[i]
                == frame.data@[(i / row as int) * pitch + i % row as int] by {
                if i >= y * row {
                    let x = i - y * row;
                    lemma_fundamental_div_mod_converse(i, row as int, y as int, x);
                    assert(line@[x] == frame.data@[start + x]);
                } else {
                    assert(packed@[i] == before[i]);
                }
            }
        }
        y += 1;
    }
    proof {
        assert(height * row == row * height) by (nonlinear_arith);
        assert(packed@ =~= unpadded(frame.data@, frame.width, frame.height, frame.row_pitch));
    }
    packed
}

/// Writes `rgba` without its alpha channel into `scratch`, which is resized
/// only where its length does not fit.
pub fn drop_alpha_into(rgba: &[u8], scratch: &mut Vec<u8>)
    ensures
        final(scratch)@ == drop_alpha(rgba@),
{
    let pixels: usize = rgba.len() / 4;
    let needed: usize = pixels * 3;
    if scratch.len() != needed {
        scratch.clear();
        scratch.resize(needed, 0);
    }
    let mut p: usize = 0;
    while p < pixels
        invariant
            p <= pixels,
            pixels == rgba@.len() / 4,
            rgba@.len() <= usize::MAX,
            scratch@.len() == pixels * 3,
            forall|j: int| 0 <= j < 3 * p ==> #[trigger] scratch@[j] == rgba@[j / 3 * 4 + j % 3],
        decreases pixels - p,
    {
        let src: usize = p * 4;
        let dst: usize = p * 3;
        scratch.set(dst, rgba[src]);
        scratch.set(dst + 1, rgba[src + 1]);
        scratch.set(dst + 2, rgba[src + 2]);
        p += 1;
    }
    assert(scratch@ =~= drop_alpha(rgba@));
}

/// Converts one frame into a JPEG image at the given quality. `scratch` is
/// the reusable RGB buffer; a frame of the wrong size leaves it untouched.
pub fn convert(frame: &RawFrame, quality: u8, scratch: &mut Vec<u8>) -> (r: Result<
    Vec<u8>,
    ConversionError,
>)
    ensures
        r is Ok <==> convertible(*frame),
        r is Ok <==> converted(*frame, quality) is Some,
        r matches Ok(bytes) ==> converted(*frame, quality) == Some(bytes@) && jpeg_framed(bytes@),
        r is Err ==> converted(*frame, quality) is None,
        r matches Err(ConversionError::BufferSizeMismatch) ==> frame.data@.len() != raw_len(
            frame.width,
            frame.height,
            frame.row_pitch,
        ) && final(scratch)@ == old(scratch)@,
        r matches Err(ConversionError::Encoder(_)) ==> frame.data@.len() == raw_len(
            frame.width,
            frame.height,
            frame.row_pitch,
        ) && !jpeg_dimensions_ok(frame.width, frame.height),
        frame.data@.len() == raw_len(frame.width, frame.height, frame.row_pitch)
            ==> final(scratch)@ == drop_alpha(
            packed_rgba(frame.data@, frame.width, frame.height, frame.row_pitch),
        ),
{
    if !frame.is_well_sized() {
        return Err(ConversionError::BufferSizeMismatch);
    }
    if frame.is_padded() {
        let packed = strip_padding(frame);
        drop_alpha_into(packed.as_slice(), scratch);
    } else {
        drop_alpha_into(frame.data, scratch);
    }
    proof {
        let w = frame.width as int;
        let h = frame.height as int;
        let rgba = packed_rgba(frame.data@, frame.width, frame.height, frame.row_pitch);
        assert(rgba.len() == w * 4 * h);
        assert(w * 4 * h == (w * h) * 4) by (nonlinear_arith);
        assert(rgba.len() / 4 * 3 == w * h * 3);
    }
    let capacity: usize = scratch.len() / 4;
    match encode_jpeg(scratch, frame.width, frame.height, quality, capacity) {
        Ok(bytes) => Ok(bytes),
        Err(e) => Err(ConversionError::Encoder(e.to_string())),
    }
}

} // verus!
