//! The error taxonomy, its exit-code mapping, and the verbosity rules for
//! diagnostics.
//!
//! Components return a closed variant type so that callers can branch on
//! the kind of failure; the mapping to the exit-code domain is total.  The
//! diagnostic gates say, for a given debug flag and verbosity level, which
//! messages print and whether the cause chain is appended; the caller that
//! owns the standard error stream performs the printing itself.

use vstd::prelude::*;
use crate::frame::{MissingDim, ValidationError};

verus! {

/// Error type for operations in the image module.
#[derive(Clone, Debug, PartialEq, Eq)]
pub enum Error {
    /// Reading, writing or resolving a resource failed while `context`.
    Io { context: String, message: String },
    /// The source image bytes could not be decoded.
    Decode(String),
    /// Missing or out-of-range dimensions for a frame about to be used.
    InvalidDimensions(String),
    /// The byte buffer does not fit the declared dimensions.
    InvalidBuffer(String),
    /// Serializing a frame to its structured text record failed.
    JsonLd(String),
    /// Unexpected backend condition, e.g. a window-surface failure.
    Other(String),
}

/// Process exit code for success.
pub const EX_OK: u8 = 0;

/// Process exit code for a usage error.
pub const EX_USAGE: u8 = 64;

/// Process exit code for malformed input data.
pub const EX_DATAERR: u8 = 65;

/// Process exit code for an internal software error.
pub const EX_SOFTWARE: u8 = 70;

/// Process exit code for an input/output error.
pub const EX_IOERR: u8 = 74;

/// The exit code owed to each failure kind.
pub open spec fn exit_code_spec(e: Error) -> u8 {
    match e {
        Error::Io { .. } => EX_IOERR,
        Error::Decode(_) => EX_DATAERR,
        Error::InvalidBuffer(_) => EX_DATAERR,
        Error::InvalidDimensions(_) => EX_USAGE,
        Error::JsonLd(_) => EX_SOFTWARE,
        Error::Other(_) => EX_SOFTWARE,
    }
}

/// Total mapping from the error taxonomy to the exit-code domain.
pub fn map_error_to_sysexit(err: &Error) -> (code: u8)
    ensures
        code == exit_code_spec(*err),
{
    match err {
        Error::Io { .. } => EX_IOERR,
        Error::Decode(_) => EX_DATAERR,
        Error::InvalidBuffer(_) => EX_DATAERR,
        Error::InvalidDimensions(_) => EX_USAGE,
        Error::JsonLd(_) => EX_SOFTWARE,
        Error::Other(_) => EX_SOFTWARE,
    }
}

/// The one-line human-readable summary owed for each failure.
pub open spec fn error_summary_spec(e: Error) -> Seq<char> {
    match e {
        Error::Io { context, message } => "I/O error while "@ + context@ + ": "@ + message@,
        Error::Decode(m) => "failed to decode image data: "@ + m@,
        Error::InvalidDimensions(m) => "invalid resize dimensions: "@ + m@,
        Error::InvalidBuffer(m) => "invalid image buffer: "@ + m@,
        Error::JsonLd(m) => "JSON-LD conversion failed: "@ + m@,
        Error::Other(m) => m@,
    }
}

impl Error {
    /// Render the one-line summary of this error.
    pub fn summary(&self) -> (r: String)
        ensures
            r@ == error_summary_spec(*self),
    {
        match self {
            Error::Io { context, message } => {
                let mut s = String::from_str("I/O error while ");
                s.append(context.as_str());
                s.append(": ");
                s.append(message.as_str());
                proof {
                    assert(s@ =~= error_summary_spec(*self));
                }
                s
            },
            Error::Decode(m) => {
                let mut s = String::from_str("failed to decode image data: ");
                s.append(m.as_str());
                s
            },
            Error::InvalidDimensions(m) => {
                let mut s = String::from_str("invalid resize dimensions: ");
                s.append(m.as_str());
                s
            },
            Error::InvalidBuffer(m) => {
                let mut s = String::from_str("invalid image buffer: ");
                s.append(m.as_str());
                s
            },
            Error::JsonLd(m) => {
                let mut s = String::from_str("JSON-LD conversion failed: ");
                s.append(m.as_str());
                s
            },
            Error::Other(m) => {
                let mut s = String::new();
                s.append(m.as_str());
                s
            },
        }
    }
}

/// The decimal digit characters, least significant last.
pub open spec fn digit_char(d: nat) -> char {
    if d == 0 { '0' }
    else if d == 1 { '1' }
    else if d == 2 { '2' }
    else if d == 3 { '3' }
    else if d == 4 { '4' }
    else if d == 5 { '5' }
    else if d == 6 { '6' }
    else if d == 7 { '7' }
    else if d == 8 { '8' }
    else { '9' }
}

/// The usual decimal rendering of `n`, with no leading zeros except for
/// `n == 0` itself.
pub open spec fn dec_digits(n: nat) -> Seq<char>
    decreases n,
{
    if n < 10 {
        seq![digit_char(n)]
    } else {
        dec_digits(n / 10).push(digit_char(n % 10))
    }
}

/// The single-character string for decimal digit `d`.
fn digit_str(d: usize) -> (r: &'static str)
    requires
        d < 10,
    ensures
        r@ == seq![digit_char(d as nat)],
{
    match d {
        0 => {
            proof { reveal_strlit("0"); assert("0"@ =~= seq!['0']); }
            "0"
        },
        1 => {
            proof { reveal_strlit("1"); assert("1"@ =~= seq!['1']); }
            "1"
        },
        2 => {
            proof { reveal_strlit("2"); assert("2"@ =~= seq!['2']); }
            "2"
        },
        3 => {
            proof { reveal_strlit("3"); assert("3"@ =~= seq!['3']); }
            "3"
        },
        4 => {
            proof { reveal_strlit("4"); assert("4"@ =~= seq!['4']); }
            "4"
        },
        5 => {
            proof { reveal_strlit("5"); assert("5"@ =~= seq!['5']); }
            "5"
        },
        6 => {
            proof { reveal_strlit("6"); assert("6"@ =~= seq!['6']); }
            "6"
        },
        7 => {
            proof { reveal_strlit("7"); assert("7"@ =~= seq!['7']); }
            "7"
        },
        8 => {
            proof { reveal_strlit("8"); assert("8"@ =~= seq!['8']); }
            "8"
        },
        _ => {
            proof { reveal_strlit("9"); assert("9"@ =~= seq!['9']); }
            "9"
        },
    }
}

/// Append the decimal rendering of `n` to `s`.
pub fn push_decimal(s: &mut String, n: usize)
    ensures
        final(s)@ == old(s)@ + dec_digits(n as nat),
    decreases n,
{
    if n >= 10 {
        push_decimal(s, n / 10);
    }
    let d = digit_str(n % 10);
    s.append(d);
    proof {
        assert(s@ =~= old(s)@ + dec_digits(n as nat));
    }
}

/// The error owed to each validation failure, message included; a
/// missing-dimension message names the absent field.
pub fn error_of_validation(e: &ValidationError) -> (r: Error)
    ensures
        match *e {
            ValidationError::MissingDimensions(MissingDim::Width) => (r matches Error::InvalidDimensions(m)
                && m@ == "missing image.width"@),
            ValidationError::MissingDimensions(MissingDim::Height) => (r matches Error::InvalidDimensions(m)
                && m@ == "missing image.height"@),
            ValidationError::Overflow => (r matches Error::InvalidBuffer(m)
                && m@ == "width*height*3 overflow"@),
            ValidationError::LengthMismatch { expected, actual } => (r matches Error::InvalidBuffer(m)
                && m@ == "byte length "@ + dec_digits(actual as nat)
                    + " does not match width*height*3 ("@ + dec_digits(expected as nat) + ")"@),
        },
{
    match e {
        ValidationError::MissingDimensions(MissingDim::Width) => Error::InvalidDimensions(
            String::from_str("missing image.width"),
        ),
        ValidationError::MissingDimensions(MissingDim::Height) => Error::InvalidDimensions(
            String::from_str("missing image.height"),
        ),
        ValidationError::Overflow => Error::InvalidBuffer(
            String::from_str("width*height*3 overflow"),
        ),
        ValidationError::LengthMismatch { expected, actual } => {
            let mut s = String::from_str("byte length ");
            push_decimal(&mut s, *actual);
            s.append(" does not match width*height*3 (");
            push_decimal(&mut s, *expected);
            s.append(")");
            proof {
                assert(s@ =~= "byte length "@ + dec_digits(*actual as nat)
                    + " does not match width*height*3 ("@ + dec_digits(*expected as nat) + ")"@);
            }
            Error::InvalidBuffer(s)
        },
    }
}

/// Whether an informational message prints at the given verbosity.
pub fn info_enabled(debug: bool, verbose: u8) -> (r: bool)
    ensures
        r == (debug || verbose >= 1),
{
    debug || verbose >= 1
}

/// How much of a warning prints at the given verbosity.
#[derive(Clone, Copy, Debug, PartialEq, Eq)]
pub enum WarnDetail {
    /// Nothing is printed.
    Silent,
    /// The message alone is printed.
    Summary,
    /// The message and its cause are printed.
    WithCause,
}

/// The warning detail owed at the given verbosity: the cause is shown from
/// verbosity two (or debug), the bare message from verbosity one, and
/// nothing below that.
pub open spec fn warn_detail_spec(debug: bool, verbose: u8) -> WarnDetail {
    if debug || verbose >= 2 {
        WarnDetail::WithCause
    } else if verbose >= 1 {
        WarnDetail::Summary
    } else {
        WarnDetail::Silent
    }
}

/// Resolve the warning detail for the given flags.
pub fn warn_detail(debug: bool, verbose: u8) -> (r: WarnDetail)
    ensures
        r == warn_detail_spec(debug, verbose),
{
    if debug || verbose >= 2 {
        WarnDetail::WithCause
    } else if verbose >= 1 {
        WarnDetail::Summary
    } else {
        WarnDetail::Silent
    }
}

/// Whether a fatal error's report appends the full cause chain.
pub fn cause_chain_enabled(debug: bool, verbose: u8) -> (r: bool)
    ensures
        r == (debug || verbose >= 2),
{
    debug || verbose >= 2
}

} // verus!
