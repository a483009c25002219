//! The frame coalescer: a single-slot mailbox between one producer and one
//! consumer.
//!
//! `push` overwrites whatever is pending and never blocks; `drain_latest`
//! empties the slot and hands back the most recent frame pushed since the
//! last drain.  Intermediate frames are silently dropped: once superseded,
//! a frame is never delivered.  The mailbox itself is sequential; a caller
//! that shares it between threads guards it from outside.

use vstd::prelude::*;
use crate::frame::Frame;

verus! {

/// Single-slot overwrite-on-push mailbox.
pub struct Coalescer {
    slot: Option<Frame>,
}

/// What a push leaves in the slot: the pushed frame, whatever was there.
pub open spec fn pushed(slot: Option<Frame>, f: Frame) -> Option<Frame> {
    Some(f)
}

impl Coalescer {
    /// The pending frame, if one has been pushed since the last drain.
    pub closed spec fn pending(&self) -> Option<Frame> {
        self.slot
    }

    /// A fresh mailbox holds nothing.
    pub fn new() -> (c: Coalescer)
        ensures
            c.pending() is None,
    {
        Coalescer { slot: None }
    }

    /// Overwrite the slot with `f`, discarding any superseded frame.
    pub fn push(&mut self, f: Frame)
        ensures
            final(self).pending() == pushed(old(self).pending(), f),
    {
        self.slot = Some(f);
    }

    /// Empty the slot, returning the most recent frame pushed since the
    /// last drain, or nothing if none arrived.
    pub fn drain_latest(&mut self) -> (r: Option<Frame>)
        ensures
            r == old(self).pending(),
            final(self).pending() is None,
    {
        self.slot.take()
    }
}

/// Coalescing law: after three pushes in order the slot holds exactly the
/// last frame, whatever it held before, so one drain yields it and the
/// superseded first and second are never observed.
pub proof fn lemma_drain_yields_latest(slot: Option<Frame>, f1: Frame, f2: Frame, f3: Frame)
    ensures
        pushed(pushed(pushed(slot, f1), f2), f3) == Some(f3),
{
}

} // verus!
