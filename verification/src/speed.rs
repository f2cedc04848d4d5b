//! Playback speed as a signed fixed-point number of frames per output frame.

use vstd::prelude::*;

verus! {

/// The raw value of the speed of one frame per output frame. A raw value
/// counts steps of `1 / SPEED_ONE` of a frame.
pub const SPEED_ONE: u64 = 0x1_0000_0000;

/// The absolute value of a raw speed.
pub open spec fn magnitude(raw: int) -> int {
    if raw < 0 {
        -raw
    } else {
        raw
    }
}

/// The part of the absolute value of a raw speed that lies below one frame.
pub open spec fn fraction(raw: int) -> int {
    magnitude(raw) % (SPEED_ONE as int)
}

/// A raw speed rounded to whole frames, halves away from zero.
pub open spec fn rounded(raw: int) -> int {
    let frames = (magnitude(raw) + SPEED_ONE / 2) / (SPEED_ONE as int);
    if raw < 0 {
        -frames
    } else {
        frames
    }
}

/// A raw speed of a whole number of frames is that number when rounded, and
/// has no fraction.
pub proof fn lemma_whole_frames(frames: int)
    ensures
        rounded(frames * SPEED_ONE) == frames,
        fraction(frames * SPEED_ONE) == 0,
        magnitude(frames * SPEED_ONE) == magnitude(frames) * SPEED_ONE,
{
}

/// A playback speed: zero is paused, a negative speed plays in reverse.
#[derive(Clone, Copy, Debug, PartialEq, Eq, Structural)]
pub struct Speed {
    raw: i64,
}

impl View for Speed {
    type V = int;

    /// The raw value: the speed in steps of `1 / SPEED_ONE` of a frame.
    closed spec fn view(&self) -> int {
        self.raw as int
    }
}

impl Speed {
    /// The speed with the given raw value.
    pub fn from_raw(raw: i64) -> (r: Speed)
        ensures
            r@ == raw,
    {
        Speed { raw }
    }

    /// The speed of `frames` whole frames per output frame.
    pub fn from_frames(frames: i32) -> (r: Speed)
        ensures
            r@ == frames * SPEED_ONE,
    {
        Speed { raw: (frames as i64) * 0x1_0000_0000 }
    }

    /// The raw value of the speed.
    pub fn raw(&self) -> (r: i64)
        ensures
            r == self@,
    {
        self.raw
    }

    /// Whether the speed is zero.
    pub fn is_paused(&self) -> (r: bool)
        ensures
            r == (self@ == 0),
    {
        self.raw == 0
    }

    /// Whether the speed plays in reverse.
    pub fn is_reverse(&self) -> (r: bool)
        ensures
            r == (self@ < 0),
    {
        self.raw < 0
    }

    /// The absolute value of the raw speed.
    pub fn magnitude(&self) -> (r: u64)
        ensures
            r == magnitude(self@),
    {
        if self.raw < 0 {
            (-(self.raw as i128)) as u64
        } else {
            self.raw as u64
        }
    }

    /// The part of the absolute speed below one frame, as a raw value.
    pub fn fraction(&self) -> (r: u64)
        ensures
            r == fraction(self@),
            r < SPEED_ONE,
    {
        self.magnitude() % SPEED_ONE
    }

    /// The speed rounded to whole frames, halves away from zero.
    pub fn rounded(&self) -> (r: i64)
        ensures
            r == rounded(self@),
            -0x8000_0000 <= r <= 0x8000_0000,
    {
        let frames: u64 = (self.magnitude() + SPEED_ONE / 2) / SPEED_ONE;
        if self.raw < 0 {
            -(frames as i64)
        } else {
            frames as i64
        }
    }
}

} // verus!
