//! The line stream: one structured text record per line, with optional
//! passthrough.
//!
//! A line arrives as its raw bytes, terminator included, and is
//! forwarded byte for byte when passthrough is on, independent of the
//! parse outcome; then the line is parsed as a frame record (the JSON
//! reader tolerates the surrounding whitespace).  A parse failure is
//! non-fatal and skips the line; a failure reading the underlying stream
//! is fatal and stops the loop; end of stream stops the loop cleanly.
//! The blocking reads themselves belong to the caller that owns the
//! input stream.

use vstd::prelude::*;
use crate::frame::{Frame, FrameModel};

verus! {

/// The frame record that one line of the stream parses to, or nothing for
/// a malformed line.  The outcome is a function of the line's bytes
/// alone.
pub uninterp spec fn frame_of_line(line: Seq<u8>) -> Option<FrameModel>;

/// Relies on serde_json::from_slice for know::classes::Image: parsing a
/// line of JSON-LD text is deterministic in the bytes, and yields the
/// record's id, width, height, data and source fields.
#[verifier::external_body]
fn parse_frame_line(line: &Vec<u8>) -> (r: Option<Frame>)
    ensures
        match r {
            Some(f) => frame_of_line(line@) == Some(f@),
            None => frame_of_line(line@) is None,
        },
{
    match serde_json::from_slice::<know::classes::Image>(line.as_slice()) {
        Ok(img) => Some(
            Frame {
                id: img.id,
                width: img.width,
                height: img.height,
                data: img.data,
                source: img.source,
            },
        ),
        Err(_) => None,
    }
}

/// An exact copy of a byte line.
fn copy_bytes(v: &Vec<u8>) -> (r: Vec<u8>)
    ensures
        r@ == v@,
{
    let mut r: Vec<u8> = Vec::new();
    let mut i: usize = 0;
    while i < v.len()
        invariant
            i <= v@.len(),
            r@ == v@.take(i as int),
        decreases v@.len() - i,
    {
        r.push(v[i]);
        proof {
            assert(v@.take(i + 1) =~= v@.take(i as int).push(v@[i as int]));
        }
        i = i + 1;
    }
    proof {
        assert(v@.take(v@.len() as int) =~= v@);
    }
    r
}

/// What one line of the stream asks of its consumer.
#[derive(Clone, Debug, PartialEq, Eq)]
pub struct LineHandled {
    /// The raw line to copy to the tee stream, when passthrough is on.
    pub forward: Option<Vec<u8>>,
    /// The parsed frame record, or nothing for a malformed line.
    pub frame: Option<Frame>,
}

/// Handle one line: forward its bytes verbatim when `passthrough` is on,
/// and parse it as a frame record.  Malformed lines yield no frame and
/// are otherwise handled like any other line.
pub fn handle_line(line: &Vec<u8>, passthrough: bool) -> (r: LineHandled)
    ensures
        passthrough ==> (r.forward matches Some(l) && l@ == line@),
        !passthrough ==> r.forward is None,
        match r.frame {
            Some(f) => frame_of_line(line@) == Some(f@),
            None => frame_of_line(line@) is None,
        },
{
    let forward = if passthrough {
        Some(copy_bytes(line))
    } else {
        None
    };
    let frame = parse_frame_line(line);
    LineHandled { forward, frame }
}

/// What arrived from the input stream for one iteration of the loop.
#[derive(Clone, Debug, PartialEq, Eq)]
pub enum StreamEvent {
    /// One line's raw bytes, its terminator included if it had one.
    Line(Vec<u8>),
    /// The underlying stream failed to read; the message describes it.
    ReadFailure(String),
    /// No more lines.
    EndOfInput,
}

/// What the loop does next.
#[derive(Clone, Debug, PartialEq, Eq)]
pub enum StreamStep {
    /// Forward and process as directed, then continue with the next line.
    Handled(LineHandled),
    /// Report the read failure and stop the loop.
    FatalRead(String),
    /// Stop the loop cleanly.
    Finished,
}

/// Decide one iteration of the record-stream loop: a line is handled and
/// the loop continues, a read failure is fatal, and end of stream ends
/// the loop cleanly.
pub fn stream_step(ev: StreamEvent, passthrough: bool) -> (r: StreamStep)
    ensures
        match ev {
            StreamEvent::Line(line) => (r matches StreamStep::Handled(h)
                && (passthrough ==> (h.forward matches Some(l) && l@ == line@))
                && (!passthrough ==> h.forward is None)
                && (match h.frame {
                    Some(f) => frame_of_line(line@) == Some(f@),
                    None => frame_of_line(line@) is None,
                })),
            StreamEvent::ReadFailure(m) => (r matches StreamStep::FatalRead(p) && p@ == m@),
            StreamEvent::EndOfInput => r is Finished,
        },
{
    match ev {
        StreamEvent::Line(line) => StreamStep::Handled(handle_line(&line, passthrough)),
        StreamEvent::ReadFailure(m) => StreamStep::FatalRead(m),
        StreamEvent::EndOfInput => StreamStep::Finished,
    }
}

/// The frames parsed out of a sequence of lines, in order, skipping the
/// malformed lines.
pub open spec fn parsed_frames_of(lines: Seq<Seq<u8>>) -> Seq<FrameModel>
    decreases lines.len(),
{
    if lines.len() == 0 {
        Seq::empty()
    } else {
        let rest = parsed_frames_of(lines.drop_last());
        match frame_of_line(lines.last()) {
            Some(f) => rest.push(f),
            None => rest,
        }
    }
}

/// Run the stream over a whole sequence of lines: with passthrough on,
/// every line is copied to the tee output byte for byte, in order,
/// whether or not it parses; and exactly the lines that parse become
/// frames, in order.  A malformed line is skipped without stopping the
/// stream.
pub fn process_lines(lines: &Vec<Vec<u8>>, passthrough: bool) -> (r: (Vec<Vec<u8>>, Vec<Frame>))
    ensures
        passthrough ==> (r.0@.len() == lines@.len() && forall|i: int|
            0 <= i < lines@.len() ==> r.0@[i]@ == lines@[i]@),
        !passthrough ==> r.0@.len() == 0,
        r.1@.map_values(|f: Frame| f@) == parsed_frames_of(lines@.map_values(|l: Vec<u8>| l@)),
{
    let mut forwarded: Vec<Vec<u8>> = Vec::new();
    let mut frames: Vec<Frame> = Vec::new();
    let mut i: usize = 0;
    while i < lines.len()
        invariant
            i <= lines@.len(),
            passthrough ==> (forwarded@.len() == i && forall|j: int|
                0 <= j < i ==> forwarded@[j]@ == lines@[j]@),
            !passthrough ==> forwarded@.len() == 0,
            frames@.map_values(|f: Frame| f@) == parsed_frames_of(
                lines@.map_values(|l: Vec<u8>| l@).take(i as int),
            ),
        decreases lines@.len() - i,
    {
        let ghost prev = lines@.map_values(|l: Vec<u8>| l@).take(i as int);
        let h = handle_line(&lines[i], passthrough);
        match h.forward {
            Some(l) => forwarded.push(l),
            None => {},
        }
        match h.frame {
            Some(f) => frames.push(f),
            None => {},
        }
        proof {
            let all = lines@.map_values(|l: Vec<u8>| l@);
            assert(all.take(i + 1).drop_last() =~= prev);
            assert(all.take(i + 1).last() == lines@[i as int]@);
            assert(frames@.map_values(|f: Frame| f@) =~= parsed_frames_of(all.take(i + 1)));
        }
        i = i + 1;
    }
    proof {
        let all = lines@.map_values(|l: Vec<u8>| l@);
        assert(all.take(lines@.len() as int) =~= all);
    }
    (forwarded, frames)
}

} // verus!
