//! A cursor over a buffer that yields its samples at any speed.

use crate::buffer::{BufferView, SamplesBuffer};
use crate::sample::Sample;
use crate::speed::{fraction, magnitude, rounded, Speed, SPEED_ONE};
use crate::time::{
    duration_nanos, duration_to_frames, frames_to_duration, frames_to_nanos, nanos_to_frames,
};
use std::sync::Arc;
use std::time::Duration;
use vstd::prelude::*;

verus! {

/// The state of a [`BufferPlayer`].
pub struct PlayerView<S> {
    /// The attached buffer.
    pub buffer: BufferView<S>,
    /// The channel of the next sample.
    pub channel: nat,
    /// The frame under the cursor.
    pub location: nat,
    /// The part of a frame, as a raw speed value below [`SPEED_ONE`], by
    /// which the cursor is ahead of `location`.
    pub interval: nat,
    /// The raw playback speed.
    pub speed: int,
    /// Whether the cursor wraps round at the ends of the buffer.
    pub loop_mode: bool,
}

impl<S> PlayerView<S> {
    /// Whether the next sample is silence and the cursor rests: the buffer
    /// is empty, or the speed amounts to less than one frame per second.
    pub open spec fn silent(self) -> bool {
        self.buffer.samples.len() == 0 || self.buffer.sample_rate * magnitude(self.speed)
            < SPEED_ONE
    }

    /// Whether the speed counts as a whole number of frames: its fraction
    /// amounts to less than one frame per second.
    pub open spec fn whole_step(self) -> bool {
        self.buffer.sample_rate * fraction(self.speed) < SPEED_ONE
    }

    /// The index of the sample under the cursor, kept inside the buffer.
    pub open spec fn sample_index(self) -> int {
        let wanted = self.location * self.buffer.channels + self.channel;
        let last = self.buffer.samples.len() - 1;
        if wanted < last {
            wanted as int
        } else if last < 0 {
            0
        } else {
            last
        }
    }

    /// The index of the sample one frame after the one under the cursor,
    /// wrapping round at the end of the samples.
    pub open spec fn ahead_index(self) -> int {
        (self.sample_index() + self.buffer.channels) % (self.buffer.samples.len() as int)
    }

    /// The denominator of the interpolation weight.
    pub open spec fn weight_denominator(self) -> int {
        (SPEED_ONE as int) / fraction(self.speed)
    }

    /// The numerator of the interpolation weight.
    pub open spec fn weight_numerator(self) -> int {
        (self.interval as int) / fraction(self.speed)
    }

    /// Whether the next sample is the last of its frame.
    pub open spec fn frame_ends(self) -> bool {
        self.channel + 1 >= self.buffer.channels
    }

    /// By how many frames the cursor moves at the end of the frame.
    pub open spec fn frame_advance(self) -> int {
        if self.whole_step() {
            rounded(self.speed)
        } else {
            (self.interval + self.speed) / (SPEED_ONE as int)
        }
    }

    /// The interval after the end of the frame.
    pub open spec fn next_interval(self) -> nat {
        if self.whole_step() {
            self.interval
        } else {
            ((self.interval + self.speed) % (SPEED_ONE as int)) as nat
        }
    }

    /// The frame that lies `delta` frames from the cursor: wrapped round
    /// the buffer when looping, else held at its ends.
    pub open spec fn moved(self, delta: int) -> nat {
        let target = self.location + delta;
        if self.loop_mode {
            (target % (self.buffer.frame_count() as int)) as nat
        } else if target < 0 {
            0
        } else if target > self.buffer.max_location() {
            self.buffer.max_location()
        } else {
            target as nat
        }
    }

    /// The state after the next sample.
    pub open spec fn after_sample(self) -> PlayerView<S> {
        if self.silent() {
            self
        } else {
            PlayerView {
                channel: (self.channel + 1) % self.buffer.channels,
                location: if self.frame_ends() {
                    self.moved(self.frame_advance())
                } else {
                    self.location
                },
                interval: if self.frame_ends() {
                    self.next_interval()
                } else {
                    self.interval
                },
                ..self
            }
        }
    }

    /// The location that a seek to `nanos` nanoseconds reaches.
    pub open spec fn location_at(self, nanos: nat) -> nat {
        let wanted = nanos_to_frames(nanos, self.buffer.sample_rate);
        if wanted < self.buffer.max_location() {
            wanted
        } else {
            self.buffer.max_location()
        }
    }

    /// The time of the cursor in nanoseconds, rounded down.
    pub open spec fn time_nanos(self) -> nat {
        frames_to_nanos(self.location, self.buffer.sample_rate)
    }
}

impl<S: Sample> PlayerView<S> {
    /// The next sample.
    pub open spec fn emitted(self) -> S {
        if self.silent() {
            S::silence()
        } else if self.whole_step() {
            self.buffer.samples[self.sample_index()]
        } else {
            S::blend(
                self.buffer.samples[self.sample_index()],
                self.buffer.samples[self.ahead_index()],
                self.weight_numerator() as u32,
                self.weight_denominator() as u32,
            )
        }
    }
}

/// A source that plays the SamplesBuffer at any speed.
pub struct BufferPlayer<S> {
    buffer: Arc<SamplesBuffer<S>>,
    channel: u16,
    location: usize,
    interval: u64,
    speed: Speed,
    loop_mode: bool,
}

impl<S> View for BufferPlayer<S> {
    type V = PlayerView<S>;

    closed spec fn view(&self) -> PlayerView<S> {
        PlayerView {
            buffer: self.buffer@,
            channel: self.channel as nat,
            location: self.location as nat,
            interval: self.interval as nat,
            speed: self.speed@,
            loop_mode: self.loop_mode,
        }
    }
}

impl<S> BufferPlayer<S> {
    /// The buffer that the player is attached to.
    pub closed spec fn attached(&self) -> Arc<SamplesBuffer<S>> {
        self.buffer
    }

    /// The interval stays below one frame.
    #[verifier::type_invariant]
    pub closed spec fn wf(&self) -> bool {
        self.interval < SPEED_ONE
    }

    /// A player at the start of `buffer`, at normal speed, not looping.
    pub fn new(buffer: Arc<SamplesBuffer<S>>) -> (r: BufferPlayer<S>)
        ensures
            r.attached() == buffer,
            r@ == (PlayerView {
                buffer: buffer@,
                channel: 0,
                location: 0,
                interval: 0,
                speed: SPEED_ONE as int,
                loop_mode: false,
            }),
    {
        BufferPlayer {
            buffer,
            channel: 0,
            location: 0,
            interval: 0,
            speed: Speed::from_raw(0x1_0000_0000),
            loop_mode: false,
        }
    }

    /// The playback speed.
    pub fn get_speed(&self) -> (r: Speed)
        ensures
            r@ == self@.speed,
    {
        self.speed
    }

    /// Sets the playback speed; the cursor stays where it is.
    pub fn set_speed(&mut self, speed: Speed)
        ensures
            final(self)@ == (PlayerView { speed: speed@, ..old(self)@ }),
            final(self).attached() == old(self).attached(),
    {
        proof {
            use_type_invariant(&*self);
        }
        self.speed = speed;
    }

    /// Attaches another buffer; the cursor keeps its location.
    pub fn set_buffer(&mut self, buffer: Arc<SamplesBuffer<S>>)
        ensures
            final(self)@ == (PlayerView { buffer: buffer@, ..old(self)@ }),
            final(self).attached() == buffer,
    {
        proof {
            use_type_invariant(&*self);
        }
        self.buffer = buffer;
    }

    /// Sets whether the cursor wraps round at the ends of the buffer.
    pub fn set_loop_mode(&mut self, loop_mode: bool)
        ensures
            final(self)@ == (PlayerView { loop_mode, ..old(self)@ }),
            final(self).attached() == old(self).attached(),
    {
        proof {
            use_type_invariant(&*self);
        }
        self.loop_mode = loop_mode;
    }

    /// The number of channels of the attached buffer.
    pub fn channels(&self) -> (r: u16)
        ensures
            r == self@.buffer.channels,
            self@.buffer.wf(),
    {
        self.buffer.channels()
    }

    /// The sample rate of the attached buffer.
    pub fn sample_rate(&self) -> (r: u32)
        ensures
            r == self@.buffer.sample_rate,
            self@.buffer.wf(),
    {
        self.buffer.sample_rate()
    }

    /// The time of the cursor.
    pub fn get_time(&self) -> (r: Duration)
        ensures
            duration_nanos(r) == self@.time_nanos(),
    {
        frames_to_duration(self.location, self.buffer.sample_rate())
    }

    /// The number of samples before the channels or the rate change: never
    /// known, since the buffer may be replaced at any time.
    pub fn current_frame_len(&self) -> (r: Option<usize>)
        ensures
            r is None,
    {
        None
    }

    /// The total playing time: never known, since a player that loops or
    /// pauses goes on without end.
    pub fn total_duration(&self) -> (r: Option<Duration>)
        ensures
            r is None,
    {
        None
    }
}

impl<S> BufferPlayer<S> {
    /// Moves the cursor to the frame that plays at `time`, or to the last
    /// frame where the buffer ends before that.
    pub fn set_time(&mut self, time: Duration)
        ensures
            final(self)@ == (PlayerView {
                location: old(self)@.location_at(duration_nanos(time)),
                ..old(self)@
            }),
            final(self).attached() == old(self).attached(),
    {
        proof {
            use_type_invariant(&*self);
        }
        let wanted: u128 = duration_to_frames(&time, self.buffer.sample_rate());
        let max_location: usize = self.buffer.frame_count().saturating_sub(1);
        if wanted < max_location as u128 {
            self.location = wanted as usize;
        } else {
            self.location = max_location;
        }
    }

    /// The index of the sample under the cursor, kept inside the buffer.
    fn current_sample_location(&self) -> (r: usize)
        ensures
            r == self@.sample_index(),
            self@.buffer.samples.len() > 0 ==> r < self@.buffer.samples.len(),
    {
        let channels: u16 = self.buffer.channels();
        assert(self.location * channels <= usize::MAX * u16::MAX) by (nonlinear_arith)
            requires
                self.location <= usize::MAX,
                channels <= u16::MAX,
        ;
        let wanted: u128 = (self.location as u128) * (channels as u128) + (self.channel as u128);
        let last: usize = self.buffer.len().saturating_sub(1);
        if wanted < last as u128 {
            wanted as usize
        } else {
            last
        }
    }

    /// The frame that lies `delta` frames from the cursor.
    fn moved(&self, delta: i64) -> (r: usize)
        requires
            self@.buffer.frame_count() > 0,
        ensures
            r == self@.moved(delta as int),
            r < self@.buffer.frame_count(),
    {
        let frames: usize = self.buffer.frame_count();
        let target: i128 = self.location as i128 + delta as i128;
        if self.loop_mode {
            if target >= 0 {
                (target as u128 % (frames as u128)) as usize
            } else {
                let back: u128 = ((-target) as u128) % (frames as u128);
                proof {
                    lemma_mod_of_negative(target as int, frames as int);
                }
                if back == 0 {
                    0
                } else {
                    frames - (back as usize)
                }
            }
        } else if target < 0 {
            0
        } else if target > (frames - 1) as i128 {
            frames - 1
        } else {
            target as usize
        }
    }
}

impl<S: Sample> BufferPlayer<S> {
    /// Yields the next sample and moves the cursor on. The stream never
    /// ends: an empty buffer and a paused player yield silence.
    pub fn next(&mut self) -> (r: Option<S>)
        ensures
            r == Some(old(self)@.emitted()),
            final(self)@ == old(self)@.after_sample(),
            final(self).attached() == old(self).attached(),
    {
        proof {
            use_type_invariant(&*self);
        }
        let len: usize = self.buffer.len();
        let rate: u32 = self.buffer.sample_rate();
        let channels: u16 = self.buffer.channels();
        let speed_size: u64 = self.speed.magnitude();
        assert(rate * speed_size <= u32::MAX * u64::MAX) by (nonlinear_arith)
            requires
                rate <= u32::MAX,
                speed_size <= u64::MAX,
        ;
        if len == 0 || (rate as u128) * (speed_size as u128) < SPEED_ONE as u128 {
            return Some(S::zero_value());
        }
        proof {
            self.buffer.lemma_frames();
        }
        let fract: u64 = self.speed.fraction();
        assert(rate * fract <= u32::MAX * u64::MAX) by (nonlinear_arith)
            requires
                rate <= u32::MAX,
                fract <= u64::MAX,
        ;
        // A fraction too small to count means that the speed is a whole number of frames.
        let whole: bool = (rate as u128) * (fract as u128) < SPEED_ONE as u128;
        let here: usize = self.current_sample_location();
        let value: S = if whole {
            self.buffer.sample(here)
        } else {
            assert(fract >= 2) by (nonlinear_arith)
                requires
                    rate * fract >= SPEED_ONE,
                    rate <= u32::MAX,
                    SPEED_ONE == 0x1_0000_0000,
            ;
            // The place between the two frames follows the fraction of the speed.
            let denominator: u64 = SPEED_ONE / fract;
            let numerator: u64 = self.interval / fract;
            assert(numerator <= denominator && 0 < denominator <= 0x8000_0000)
                by (nonlinear_arith)
                requires
                    numerator == self.interval / fract,
                    denominator == SPEED_ONE / fract,
                    self.interval < SPEED_ONE,
                    2 <= fract < SPEED_ONE,
                    SPEED_ONE == 0x1_0000_0000,
            ;
            let ahead: usize = ((here as u128 + channels as u128) % (len as u128)) as usize;
            let value0: S = self.buffer.sample(here);
            let value1: S = self.buffer.sample(ahead);
            S::lerp(value0, value1, numerator as u32, denominator as u32)
        };
        if self.channel as u32 + 1 >= channels as u32 {
            let delta: i64 = if whole {
                self.speed.rounded()
            } else {
                let total: i128 = self.interval as i128 + self.speed.raw() as i128;
                if total >= 0 {
                    self.interval = (total as u128 % (SPEED_ONE as u128)) as u64;
                    (total as u128 / (SPEED_ONE as u128)) as i64
                } else {
                    let back: u128 = (-total) as u128;
                    let back_frames: u128 = back / (SPEED_ONE as u128);
                    let back_rest: u128 = back % (SPEED_ONE as u128);
                    // The interval stays positive.
                    if back_rest == 0 {
                        self.interval = 0;
                        -(back_frames as i64)
                    } else {
                        self.interval = (SPEED_ONE as u128 - back_rest) as u64;
                        -(back_frames as i64) - 1
                    }
                }
            };
            self.location = self.moved(delta);
        }
        self.channel = ((self.channel as u32 + 1) % (channels as u32)) as u16;
        Some(value)
    }
}

/// The remainder of a negative number, from the remainder of its opposite.
pub proof fn lemma_mod_of_negative(x: int, m: int)
    requires
        x < 0,
        m > 0,
    ensures
        x % m == (if (-x) % m == 0 {
            0
        } else {
            m - (-x) % m
        }),
{
    let q = (-x) / m;
    let r = (-x) % m;
    assert(-x == m * q + r && 0 <= r < m) by (nonlinear_arith)
        requires
            q == (-x) / m,
            r == (-x) % m,
            m > 0,
    ;
    if r == 0 {
        assert(x == (-q) * m + 0) by (nonlinear_arith)
            requires
                -x == m * q + r,
                r == 0,
        ;
        vstd::arithmetic::div_mod::lemma_fundamental_div_mod_converse(x, m, -q, 0);
    } else {
        assert(x == (-q - 1) * m + (m - r)) by (nonlinear_arith)
            requires
                -x == m * q + r,
        ;
        vstd::arithmetic::div_mod::lemma_fundamental_div_mod_converse(x, m, -q - 1, m - r);
    }
}

} // verus!
