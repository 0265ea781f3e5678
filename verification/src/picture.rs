//! A page in its image form, as the `image` crate decodes it.
//!
//! The library carries a decoded image through without looking into it.

use image::{DynamicImage, ImageError};
use vstd::prelude::*;

verus! {

/// `image::DynamicImage`: a decoded image. Opaque here.
#[verifier::external_type_specification]
#[verifier::external_body]
pub struct ExDynamicImage(DynamicImage);

/// `image::ImageError`: why bytes could not be decoded. Opaque here.
#[verifier::external_type_specification]
#[verifier::external_body]
pub struct ExImageError(ImageError);

/// The image that `bytes` hold, as the `image` crate decodes them in the
/// format that their first bytes show. `None` where they show no format
/// that the crate was built with, or cannot be decoded in it.
pub uninterp spec fn decoding(bytes: Seq<u8>) -> Option<DynamicImage>;

/// Calls `image::guess_format` on `bytes` and, with the format it finds,
/// `image::load_from_memory_with_format`.
///
/// The contract only gives the answer its name: the same bytes always
/// decode to the same image, or always fail. Both functions go by the bytes
/// and by the formats that the crate was built with; unlike
/// `image::load_from_memory` they do not look into the formats that a
/// program may register while it runs.
#[verifier::external_body]
pub(crate) fn decode(bytes: &[u8]) -> (decoded: Result<DynamicImage, ImageError>)
    ensures
        match decoded {
            Ok(picture) => decoding(bytes@) == Some(picture),
            Err(_) => decoding(bytes@) is None,
        },
{
    match image::guess_format(bytes) {
        Ok(format) => image::load_from_memory_with_format(bytes, format),
        Err(error) => Err(error),
    }
}

/// `DynamicImage::clone` copies the pixels of every variant: the copy is the
/// same image.
pub assume_specification[ <DynamicImage as Clone>::clone ](picture: &DynamicImage) -> (copy:
    DynamicImage)
    ensures
        copy == *picture,
;

} // verus!
