//! Reading the pictures that programs load: the bytes of an image file,
//! decoded in the format its path names, as RGBA pixels.
use vstd::prelude::*;

use crate::interpreter::util::error::LogoError;

verus! {

/// The image that `bytes` decode to in the format named by the extension of
/// `path`: its width, its height and its pixels, four bytes (red, green,
/// blue, alpha) each, row by row; `None` when the extension names no format
/// or the bytes are no image in it.
pub uninterp spec fn decoded_image(path: Seq<char>, bytes: Seq<u8>) -> Option<(u32, u32, Seq<u8>)>;

/// `image::ImageFormat::from_path`, then `image::load_from_memory_with_format`
/// and `DynamicImage::to_rgba8`: decodes `bytes` in the format that the
/// extension of `path` names. The result is the named image, and its pixel
/// buffer holds four bytes for each of its `width * height` pixels. Which
/// bytes decode to which image is left to the crate's decoders.
#[verifier::external_body]
fn decode_image(path: &str, bytes: &Vec<u8>) -> (r: Option<(u32, u32, Vec<u8>)>)
    ensures
        decoded_image(path@, bytes@) == match r {
            Some((w, h, px)) => Some((w, h, px@)),
            None => None,
        },
        r matches Some((w, h, px)) ==> px@.len() == w * h * 4,
{
    let Ok(format) = image::ImageFormat::from_path(path) else {
        return None;
    };
    match image::load_from_memory_with_format(bytes.as_slice(), format) {
        Ok(image) => {
            let rgba = image.to_rgba8();
            Some((rgba.width(), rgba.height(), rgba.into_raw()))
        },
        Err(_) => None,
    }
}

/// The message for a picture whose file could not be read.
pub open spec fn unreadable_message(path: Seq<char>) -> Seq<char> {
    "could not open path: "@ + path
}

/// The picture at `path`, given the bytes read from its file (`None` when
/// the file could not be read): its width, height and RGBA pixels, or the
/// error that the file could not be opened or holds no image in the format
/// its extension names.
pub fn image_data(path: &str, bytes: Option<Vec<u8>>) -> (r: Result<(u32, u32, Vec<u8>), LogoError>)
    ensures
        match bytes {
            None => r matches Err(e) && e.message@ == unreadable_message(path@),
            Some(b) => match decoded_image(path@, b@) {
                Some((w, h, px)) => r matches Ok((w2, h2, px2)) && w2 == w && h2 == h && px2@
                    == px && px.len() == w * h * 4,
                None => r matches Err(e) && e.message@ == "invalid image format"@,
            },
        },
{
    let Some(bytes) = bytes else {
        let mut message = String::from_str("could not open path: ");
        message.append(path);
        return Err(LogoError::new(message));
    };
    match decode_image(path, &bytes) {
        Some((w, h, px)) => Ok((w, h, px)),
        None => Err(LogoError::from_str("invalid image format")),
    }
}

} // verus!
