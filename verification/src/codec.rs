use vstd::prelude::*;

use crate::frame::{Frame, FrameView};

verus! {

/// The RGB raster that the image codec yields for a given capture buffer,
/// or nothing when the buffer is not a valid image. Decoding is a function
/// of the buffer bytes alone.
pub uninterp spec fn decoded_rgb_of(bytes: Seq<u8>) -> Option<FrameView>;

/// Relies on image's `ImageReader` (`with_guessed_format` over an in-memory
/// cursor, then `decode`) and `DynamicImage::into_rgb8`: the decoded raster
/// depends on the buffer bytes alone, and the RGB buffer it yields holds
/// exactly `width * height * 3` bytes.
#[verifier::external_body]
fn decode_rgb(buf: &[u8]) -> (r: Option<Frame>)
    ensures
        r matches Some(f) ==> f@.wf() && decoded_rgb_of(buf@) == Some(f@),
        r is None ==> decoded_rgb_of(buf@) is None,
{
    let reader = match image::ImageReader::new(std::io::Cursor::new(buf)).with_guessed_format() {
        Ok(reader) => reader,
        Err(_) => return None,
    };
    let rgb = match reader.decode() {
        Ok(img) => img.into_rgb8(),
        Err(_) => return None,
    };
    let width = rgb.width() as usize;
    let height = rgb.height() as usize;
    Some(Frame { width, height, data: rgb.into_raw() })
}

/// Decode one compressed capture buffer, auto-detecting its format, into a
/// well-formed RGB frame; `None` exactly when the codec cannot decode the
/// buffer.
pub fn decode_frame(buf: &[u8]) -> (r: Option<Frame>)
    ensures
        r matches Some(f) ==> f@.wf() && decoded_rgb_of(buf@) == Some(f@),
        r is Some <==> decoded_rgb_of(buf@) is Some,
{
    decode_rgb(buf)
}

} // verus!
