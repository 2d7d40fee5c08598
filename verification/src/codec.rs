//! The one call into the external image codec: encoding a blank canvas of
//! requested dimensions in a chosen format. Everything around the call is
//! verified; the encoded bytes themselves are known only by name.

use vstd::prelude::*;
use crate::mime::ImageFormat;

verus! {

/// The bytes the image codec produces for a blank RGB canvas of the given
/// dimensions in the format named by `format_tag`. They depend on nothing
/// but these three values, so they are left uninterpreted rather than
/// restated.
pub uninterp spec fn encoded_image_bytes(width: u32, height: u32, format_tag: u8) -> Seq<u8>;

/// Whether the codec succeeds in encoding a blank canvas of the given
/// dimensions in the format named by `format_tag`. Success, like the bytes
/// themselves, is deterministic in these three values: each encoder accepts
/// or rejects dimensions by fixed rules of its format.
pub uninterp spec fn encode_ok(width: u32, height: u32, format_tag: u8) -> bool;

/// A distinct tag for each supported format, used to name its encoder's
/// output.
pub open spec fn format_tag(f: ImageFormat) -> u8 {
    match f {
        ImageFormat::Png => 0,
        ImageFormat::Jpeg => 1,
        ImageFormat::Gif => 2,
        ImageFormat::Ico => 3,
    }
}

/// An encoding failure in the image codec, terminal for the request.
#[derive(Clone, Copy, Debug, PartialEq, Eq, Structural)]
pub struct EncodeFault;

/// Relies on `image::DynamicImage::new_rgb8` and `image::DynamicImage::write_to`:
/// a blank width x height RGB canvas is encoded into an in-memory sink in the
/// chosen format, and the bytes written depend only on the dimensions and the
/// format. `new_rgb8` panics when the pixel buffer length overflows `usize`,
/// so that much room is required; `write_to` reports any encoder failure as
/// an error.
#[verifier::external_body]
pub(crate) fn encode_blank_image(width: u32, height: u32, format: ImageFormat) -> (r: Result<
    Vec<u8>,
    EncodeFault,
>)
    requires
        width * height * 3 <= usize::MAX,
    ensures
        r is Ok <==> encode_ok(width, height, format_tag(format)),
        r matches Ok(bytes) ==> bytes@ == encoded_image_bytes(width, height, format_tag(format)),
{
    let img = image::DynamicImage::new_rgb8(width, height);
    let fmt = match format {
        ImageFormat::Png => image::ImageFormat::Png,
        ImageFormat::Jpeg => image::ImageFormat::Jpeg,
        ImageFormat::Gif => image::ImageFormat::Gif,
        ImageFormat::Ico => image::ImageFormat::Ico,
    };
    let mut sink = std::io::Cursor::new(Vec::new());
    match img.write_to(&mut sink, fmt) {
        Ok(()) => Ok(sink.into_inner()),
        Err(_) => Err(EncodeFault),
    }
}

} // verus!
