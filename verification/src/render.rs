//! The render-loop state machine.
//!
//! The screen starts on a fixed default-sized placeholder framebuffer and
//! moves to displaying decoded frames.  Each tick drains the coalescing
//! mailbox; a drained frame is validated, unpacked into the framebuffer's
//! native pixel words, and retitles the window, while an invalid frame is
//! rejected without touching the shown content.  Presenting the
//! framebuffer through a window backend is the caller's part.

use vstd::prelude::*;
use crate::coalesce::Coalescer;
use crate::frame::{Frame, MissingDim, ValidationError, frame_valid, validate_frame, validate_spec};
use crate::report::{Error, dec_digits, error_of_validation, push_decimal};

verus! {

/// The packed word for one pixel: red in the most significant color byte,
/// green next, blue least significant, no alpha.
pub open spec fn pixel_word(r: u8, g: u8, b: u8) -> u32 {
    (r * 0x10000 + g * 0x100 + b) as u32
}

/// Unpack a validated `w` x `h` packed-RGB byte buffer into one pixel word
/// per pixel, in the same row-major order.
pub fn pack_rgb_pixels(data: &Vec<u8>, w: usize, h: usize) -> (buf: Vec<u32>)
    requires
        data@.len() == w * h * 3,
    ensures
        buf@.len() == w * h,
        forall|i: int|
            0 <= i < w * h ==> buf@[i] == pixel_word(
                data@[3 * i],
                data@[3 * i + 1],
                data@[3 * i + 2],
            ),
{
    let len = data.len();
    let n = len / 3;
    assert(3 * n <= len);
    let mut buf: Vec<u32> = Vec::new();
    let mut i: usize = 0;
    while i < n
        invariant
            n == w * h,
            data@.len() == 3 * n,
            3 * n <= usize::MAX,
            i <= n,
            buf@.len() == i,
            forall|j: int|
                0 <= j < i ==> buf@[j] == pixel_word(
                    data@[3 * j],
                    data@[3 * j + 1],
                    data@[3 * j + 2],
                ),
        decreases n - i,
    {
        let r = data[3 * i];
        let g = data[3 * i + 1];
        let b = data[3 * i + 2];
        buf.push((r as u32) * 0x10000 + (g as u32) * 0x100 + (b as u32));
        i = i + 1;
    }
    buf
}

/// The fixed application name a frame's missing `id` falls back to.
pub open spec fn default_title() -> Seq<char> {
    "ASIMOV"@
}

/// The window title owed for a frame: its `id`, or the fixed application
/// name, followed by the dimensions as ` (WxH)`.
pub open spec fn title_chars(id: Option<Seq<char>>, w: usize, h: usize) -> Seq<char> {
    (match id {
        Some(s) => s,
        None => default_title(),
    }) + " ("@ + dec_digits(w as nat) + "x"@ + dec_digits(h as nat) + ")"@
}

/// Render the window title for a frame's identity and dimensions.
pub fn frame_title(id: &Option<String>, w: usize, h: usize) -> (r: String)
    ensures
        r@ == title_chars(
            match *id {
                Some(s) => Some(s@),
                None => None,
            },
            w,
            h,
        ),
{
    let mut s = match id {
        Some(t) => t.clone(),
        None => String::from_str("ASIMOV"),
    };
    s.append(" (");
    push_decimal(&mut s, w);
    s.append("x");
    push_decimal(&mut s, h);
    s.append(")");
    proof {
        assert(s@ =~= title_chars(
            match *id {
                Some(t) => Some(t@),
                None => None,
            },
            w,
            h,
        ));
    }
    s
}

/// The consumer-owned framebuffer and its displayed dimensions.
pub struct Screen {
    /// Width of the framebuffer in pixels.
    pub width: usize,
    /// Height of the framebuffer in pixels.
    pub height: usize,
    /// One packed pixel word per pixel, row-major.
    pub framebuffer: Vec<u32>,
    /// Whether a decoded frame has been shown, or the placeholder is up.
    pub displaying: bool,
}

/// Width of the placeholder framebuffer shown before any frame arrives.
pub const PLACEHOLDER_WIDTH: usize = 320;

/// Height of the placeholder framebuffer shown before any frame arrives.
pub const PLACEHOLDER_HEIGHT: usize = 240;

/// A buffer of `n` zeroed pixel words.
fn zero_buffer(n: usize) -> (v: Vec<u32>)
    ensures
        v@.len() == n,
        forall|i: int| 0 <= i < n ==> v@[i] == 0u32,
{
    let mut v: Vec<u32> = Vec::new();
    let mut i: usize = 0;
    while i < n
        invariant
            i <= n,
            v@.len() == i,
            forall|j: int| 0 <= j < i ==> v@[j] == 0u32,
        decreases n - i,
    {
        v.push(0u32);
        i = i + 1;
    }
    v
}

impl Screen {
    /// The framebuffer always holds exactly one word per declared pixel.
    pub open spec fn wf(&self) -> bool {
        &&& self.framebuffer@.len() == self.width * self.height
        &&& self.width * self.height * 3 <= usize::MAX
    }

    /// The initial state: a default-sized all-black placeholder, with no
    /// frame shown yet.
    pub fn new() -> (s: Screen)
        ensures
            s.wf(),
            !s.displaying,
            s.width == PLACEHOLDER_WIDTH,
            s.height == PLACEHOLDER_HEIGHT,
            forall|i: int| 0 <= i < s.framebuffer@.len() ==> s.framebuffer@[i] == 0u32,
    {
        let framebuffer = zero_buffer(PLACEHOLDER_WIDTH * PLACEHOLDER_HEIGHT);
        Screen { width: PLACEHOLDER_WIDTH, height: PLACEHOLDER_HEIGHT, framebuffer, displaying: false }
    }

    /// Validate `f` and, on success, resize the framebuffer to its
    /// dimensions, unpack its bytes into pixel words, and return the new
    /// window title.  On failure the previous content is kept untouched
    /// and the owed error is returned.
    pub fn apply_frame(&mut self, f: &Frame) -> (r: Result<String, Error>)
        requires
            old(self).wf(),
        ensures
            final(self).wf(),
            match r {
                Ok(title) => {
                    &&& frame_valid(f@)
                    &&& final(self).displaying
                    &&& final(self).width == f@.width->0
                    &&& final(self).height == f@.height->0
                    &&& final(self).framebuffer@.len() == f@.width->0 * f@.height->0
                    &&& forall|i: int|
                        0 <= i < final(self).framebuffer@.len() ==> final(self).framebuffer@[i]
                            == pixel_word(f@.data[3 * i], f@.data[3 * i + 1], f@.data[3 * i + 2])
                    &&& title@ == title_chars(f@.id, f@.width->0, f@.height->0)
                },
                Err(e) => {
                    &&& !frame_valid(f@)
                    &&& *final(self) == *old(self)
                    &&& match validate_spec(f@.width, f@.height, f@.data.len() as usize) {
                        Ok(_) => false,
                        Err(ValidationError::MissingDimensions(MissingDim::Width)) => (e matches Error::InvalidDimensions(m)
                            && m@ == "missing image.width"@),
                        Err(ValidationError::MissingDimensions(MissingDim::Height)) => (e matches Error::InvalidDimensions(m)
                            && m@ == "missing image.height"@),
                        Err(ValidationError::Overflow) => e is InvalidBuffer,
                        Err(ValidationError::LengthMismatch { .. }) => e is InvalidBuffer,
                    }
                },
            },
    {
        match validate_frame(f.width, f.height, f.data.len()) {
            Ok((w, h)) => {
                let buf = pack_rgb_pixels(&f.data, w, h);
                self.width = w;
                self.height = h;
                self.framebuffer = buf;
                self.displaying = true;
                let title = frame_title(&f.id, w, h);
                Ok(title)
            },
            Err(ve) => Err(error_of_validation(&ve)),
        }
    }
}

/// What one render tick asks of the window backend.
#[derive(Clone, Debug, PartialEq, Eq)]
pub enum TickOutcome {
    /// No frame arrived: re-present the existing framebuffer unchanged.
    Idle,
    /// A frame was shown: set this title and present the framebuffer.
    Shown(String),
    /// A frame arrived but was invalid: report it, keep the old content,
    /// and re-present the existing framebuffer.
    Rejected(Error),
}

/// One render tick: drain the mailbox and apply whatever arrived.
pub fn render_tick(screen: &mut Screen, mail: &mut Coalescer) -> (r: TickOutcome)
    requires
        old(screen).wf(),
    ensures
        final(screen).wf(),
        final(mail).pending() is None,
        match old(mail).pending() {
            None => r is Idle && *final(screen) == *old(screen),
            Some(f) => {
                &&& (r is Idle == false)
                &&& frame_valid(f@) ==> (r matches TickOutcome::Shown(title)
                    && title@ == title_chars(f@.id, f@.width->0, f@.height->0)
                    && final(screen).displaying
                    && final(screen).width == f@.width->0
                    && final(screen).height == f@.height->0
                    && forall|i: int|
                        0 <= i < final(screen).framebuffer@.len() ==> final(screen).framebuffer@[i]
                            == pixel_word(f@.data[3 * i], f@.data[3 * i + 1], f@.data[3 * i + 2]))
                &&& !frame_valid(f@) ==> (r is Rejected && *final(screen) == *old(screen))
            },
        },
{
    match mail.drain_latest() {
        None => TickOutcome::Idle,
        Some(f) => match screen.apply_frame(&f) {
            Ok(title) => TickOutcome::Shown(title),
            Err(e) => TickOutcome::Rejected(e),
        },
    }
}

} // verus!
