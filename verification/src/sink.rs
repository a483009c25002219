//! The file sink's frame handling: validate a frame and rebuild an
//! encodable image from its buffer.
//!
//! Writing the encoded image to each configured output path — inferring
//! the container format from the path's extension and creating parent
//! directories — is file I/O and belongs to the caller; a failure on one
//! path must not keep it from attempting the rest.

use vstd::prelude::*;
use crate::frame::{
    Frame, FrameModel, MissingDim, ValidationError, frame_valid, validate_frame, validate_spec,
};
use crate::imageio::{image_dims, image_rgb_bytes, rgb_image_of_bytes};
use crate::report::{Error, error_of_validation};

verus! {

/// A frame the external encoder can take: it validates, its dimensions
/// fit the encoder's range, and three bytes per row-width fit the
/// platform's unsigned range, as the encoder sizes rows first.
pub open spec fn encodable(f: FrameModel) -> bool {
    &&& frame_valid(f)
    &&& f.width->0 <= u32::MAX
    &&& f.height->0 <= u32::MAX
    &&& f.width->0 * 3 <= usize::MAX
}

/// Validate `f` and rebuild an encodable image from its packed-RGB
/// buffer: the image carries exactly the frame's dimensions and bytes.
/// An invalid frame is refused with the owed error and nothing is
/// allocated for it.
pub fn encode_frame(f: &Frame) -> (r: Result<image::DynamicImage, Error>)
    ensures
        r matches Ok(img) ==> {
            &&& encodable(f@)
            &&& image_dims(img) == (f@.width->0 as u32, f@.height->0 as u32)
            &&& image_rgb_bytes(img) == f@.data
        },
        r matches Err(e) ==> {
            &&& !encodable(f@)
            &&& match validate_spec(f@.width, f@.height, f@.data.len() as usize) {
                Ok(_) => e is InvalidBuffer,
                Err(ValidationError::MissingDimensions(MissingDim::Width)) => (e matches Error::InvalidDimensions(m)
                    && m@ == "missing image.width"@),
                Err(ValidationError::MissingDimensions(MissingDim::Height)) => (e matches Error::InvalidDimensions(m)
                    && m@ == "missing image.height"@),
                Err(ValidationError::Overflow) => e is InvalidBuffer,
                Err(ValidationError::LengthMismatch { .. }) => e is InvalidBuffer,
            }
        },
{
    let (w, h) = match validate_frame(f.width, f.height, f.data.len()) {
        Ok(dims) => dims,
        Err(ve) => {
            return Err(error_of_validation(&ve));
        },
    };
    if w > u32::MAX as usize || h > u32::MAX as usize || w.checked_mul(3).is_none() {
        return Err(
            Error::InvalidBuffer(String::from_str("image dimensions exceed the encoder's range")),
        );
    }
    proof {
        assert(3 * w * h == w * h * 3) by (nonlinear_arith);
    }
    match rgb_image_of_bytes(w as u32, h as u32, f.data.clone()) {
        Some(img) => Ok(img),
        None => vstd::pervasive::unreached(),
    }
}

} // verus!
