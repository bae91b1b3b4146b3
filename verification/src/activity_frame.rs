//! The transient spinner of a working agent.

use vstd::prelude::*;

verus! {

/// Milliseconds between two visible spinner frames.
pub const ACTIVITY_FRAME_INTERVAL_MILLIS: u64 = 100;

/// Number of frames in one spinner cycle.
pub const ACTIVITY_FRAME_COUNT: usize = 10;

/// Current frame of the transient working-agent indicator.
#[derive(Debug, Clone, Copy, PartialEq, Eq, Structural)]
pub struct ActivityFrame {
    /// Position in the cycle.
    pub index: usize,
}

/// The glyph of the frame at `index`.
pub open spec fn frame_glyph(index: nat) -> char {
    if index == 0 {
        '\u{280b}'
    } else if index == 1 {
        '\u{2819}'
    } else if index == 2 {
        '\u{2839}'
    } else if index == 3 {
        '\u{2838}'
    } else if index == 4 {
        '\u{283c}'
    } else if index == 5 {
        '\u{2834}'
    } else if index == 6 {
        '\u{2826}'
    } else if index == 7 {
        '\u{2827}'
    } else if index == 8 {
        '\u{2807}'
    } else {
        '\u{280f}'
    }
}

/// The frame that follows `frame`: one further, or the first after the last.
pub open spec fn next_frame(frame: nat) -> nat {
    if frame + 1 < ACTIVITY_FRAME_COUNT {
        frame + 1
    } else {
        0
    }
}

/// The frame reached after `steps` advances from `frame`.
pub open spec fn advanced(frame: nat, steps: nat) -> nat
    decreases steps,
{
    if steps == 0 {
        frame
    } else {
        next_frame(advanced(frame, (steps - 1) as nat))
    }
}

impl View for ActivityFrame {
    type V = nat;

    open spec fn view(&self) -> nat {
        self.index as nat
    }
}

impl ActivityFrame {
    /// A frame names one of the glyphs of the cycle.
    pub open spec fn wf(self) -> bool {
        self@ < ACTIVITY_FRAME_COUNT
    }

    /// Returns the first frame in the spinner cycle.
    pub fn initial() -> (frame: Self)
        ensures
            frame.wf(),
            frame@ == 0,
    {
        ActivityFrame { index: 0 }
    }

    /// Advances to the next frame, wrapping at the end of the cycle.
    pub fn next(self) -> (frame: Self)
        ensures
            frame.wf(),
            frame@ == next_frame(self@),
    {
        if self.index < ACTIVITY_FRAME_COUNT - 1 {
            ActivityFrame { index: self.index + 1 }
        } else {
            ActivityFrame { index: 0 }
        }
    }

    /// Returns the glyph for this frame.
    pub fn glyph(self) -> (glyph: char)
        ensures
            glyph == frame_glyph(self@),
    {
        match self.index {
            0 => '\u{280b}',
            1 => '\u{2819}',
            2 => '\u{2839}',
            3 => '\u{2838}',
            4 => '\u{283c}',
            5 => '\u{2834}',
            6 => '\u{2826}',
            7 => '\u{2827}',
            8 => '\u{2807}',
            _ => '\u{280f}',
        }
    }
}

/// Advancing is counting modulo the length of the cycle.
pub proof fn advancing_counts_modulo_the_cycle(frame: nat, steps: nat)
    requires
        frame < ACTIVITY_FRAME_COUNT,
    ensures
        advanced(frame, steps) == (frame + steps) % (ACTIVITY_FRAME_COUNT as nat),
    decreases steps,
{
    if steps > 0 {
        advancing_counts_modulo_the_cycle(frame, (steps - 1) as nat);
    }
}

/// A full cycle of advances returns to the frame it started from, and no
/// shorter run of advances does.
pub proof fn spinner_cycles(frame: nat, steps: nat)
    requires
        frame < ACTIVITY_FRAME_COUNT,
    ensures
        advanced(frame, ACTIVITY_FRAME_COUNT as nat) == frame,
        0 < steps < ACTIVITY_FRAME_COUNT ==> advanced(frame, steps) != frame,
{
    advancing_counts_modulo_the_cycle(frame, ACTIVITY_FRAME_COUNT as nat);
    advancing_counts_modulo_the_cycle(frame, steps);
}

} // verus!
