//! The frame record and the buffer validator.
//!
//! A frame is immutable once constructed and is never partially applied:
//! before any consumer reinterprets `data` as pixels it must pass
//! [`validate_frame`], the single shared gate.

use vstd::prelude::*;

verus! {

/// The interchange entity: a packed-RGB pixel buffer (row-major, 3 bytes
/// per pixel, no row padding, no alpha) with declared dimensions and
/// optional identity and provenance.
#[derive(Clone, Debug, PartialEq, Eq)]
pub struct Frame {
    /// Stable identifier/URI for the frame.
    pub id: Option<String>,
    /// Pixel width, if declared.
    pub width: Option<usize>,
    /// Pixel height, if declared.
    pub height: Option<usize>,
    /// Packed RGB bytes; must be exactly `width * height * 3` long to be used.
    pub data: Vec<u8>,
    /// Provenance URI, e.g. the originating file location.
    pub source: Option<String>,
}

/// Mathematical model of a frame record: the same fields over `Seq`.
pub struct FrameModel {
    pub id: Option<Seq<char>>,
    pub width: Option<usize>,
    pub height: Option<usize>,
    pub data: Seq<u8>,
    pub source: Option<Seq<char>>,
}

impl View for Frame {
    type V = FrameModel;

    open spec fn view(&self) -> FrameModel {
        FrameModel {
            id: match self.id {
                Some(s) => Some(s@),
                None => None,
            },
            width: self.width,
            height: self.height,
            data: self.data@,
            source: match self.source {
                Some(s) => Some(s@),
                None => None,
            },
        }
    }
}

/// Which declared dimension a frame lacks; the width is checked first.
#[derive(Clone, Copy, Debug, PartialEq, Eq)]
pub enum MissingDim {
    Width,
    Height,
}

/// Why a frame's declared dimensions and byte buffer do not fit together.
#[derive(Clone, Copy, Debug, PartialEq, Eq)]
pub enum ValidationError {
    /// The named dimension is absent; the frame cannot be used.
    MissingDimensions(MissingDim),
    /// `width * height * 3` exceeds the platform's unsigned range.
    Overflow,
    /// The buffer holds `actual` bytes where `width * height * 3 == expected`.
    LengthMismatch { expected: usize, actual: usize },
}

/// What the validator returns for the given declared dimensions and buffer
/// length: either the validated `(width, height)` or the one failure that
/// applies, checked in the order missing-dimensions, overflow, mismatch.
pub open spec fn validate_spec(
    width: Option<usize>,
    height: Option<usize>,
    data_len: usize,
) -> Result<(usize, usize), ValidationError> {
    if width is None {
        Err(ValidationError::MissingDimensions(MissingDim::Width))
    } else if height is None {
        Err(ValidationError::MissingDimensions(MissingDim::Height))
    } else {
        let w = width->0;
        let h = height->0;
        if w * h * 3 > usize::MAX {
            Err(ValidationError::Overflow)
        } else if data_len != w * h * 3 {
            Err(ValidationError::LengthMismatch { expected: (w * h * 3) as usize, actual: data_len })
        } else {
            Ok((w, h))
        }
    }
}

/// The single shared gate: checks that `data_len` bytes can be read as a
/// `width` x `height` packed-RGB buffer.  Pure and deterministic; the
/// overflow check precedes any allocation sized by the product.
pub fn validate_frame(
    width: Option<usize>,
    height: Option<usize>,
    data_len: usize,
) -> (r: Result<(usize, usize), ValidationError>)
    ensures
        r == validate_spec(width, height, data_len),
{
    let w = match width {
        Some(w) => w,
        None => {
            return Err(ValidationError::MissingDimensions(MissingDim::Width));
        },
    };
    let h = match height {
        Some(h) => h,
        None => {
            return Err(ValidationError::MissingDimensions(MissingDim::Height));
        },
    };
    let expected = match w.checked_mul(h) {
        Some(px) => match px.checked_mul(3) {
            Some(n) => n,
            None => {
                return Err(ValidationError::Overflow);
            },
        },
        None => {
            proof {
                assert(w * h * 3 >= w * h) by (nonlinear_arith);
            }
            return Err(ValidationError::Overflow);
        },
    };
    if data_len != expected {
        return Err(ValidationError::LengthMismatch { expected, actual: data_len });
    }
    Ok((w, h))
}

/// A frame whose declared dimensions validate against its buffer.
pub open spec fn frame_valid(f: FrameModel) -> bool {
    &&& f.width is Some
    &&& f.height is Some
    &&& f.width->0 * f.height->0 * 3 <= usize::MAX
    &&& f.data.len() == f.width->0 * f.height->0 * 3
}

/// A buffer of exactly `w * h * 3` bytes validates, and any other length
/// fails with length-mismatch, for every `w, h` whose product is
/// representable.
pub proof fn lemma_exact_length_validates(w: usize, h: usize, data_len: usize)
    requires
        w * h * 3 <= usize::MAX,
    ensures
        data_len == w * h * 3 ==> validate_spec(Some(w), Some(h), data_len) == Ok::<_, ValidationError>((w, h)),
        data_len != w * h * 3 ==> validate_spec(Some(w), Some(h), data_len) == Err::<(usize, usize), _>(
            ValidationError::LengthMismatch { expected: (w * h * 3) as usize, actual: data_len },
        ),
{
}

/// A dimension pair whose `w * h * 3` exceeds the platform's unsigned range
/// is rejected as overflow, whatever the buffer length: no buffer of that
/// size is ever asked for.
pub proof fn lemma_overflow_rejected(w: usize, h: usize, data_len: usize)
    requires
        w * h * 3 > usize::MAX,
    ensures
        validate_spec(Some(w), Some(h), data_len) == Err::<(usize, usize), _>(ValidationError::Overflow),
{
}

} // verus!
