//! Fully decoded, immutable buffers of interleaved samples.

use crate::sample::Sample;
use crate::time::{duration_nanos, frames_to_duration, frames_to_nanos, NANOS_PER_SEC};
use std::time::Duration;
use vstd::prelude::*;

verus! {

/// What a [`SamplesBuffer`] holds.
pub struct BufferView<S> {
    /// The samples, interleaved by channel, in playback order.
    pub samples: Seq<S>,
    /// The number of channels.
    pub channels: nat,
    /// The number of frames per second.
    pub sample_rate: nat,
}

impl<S> BufferView<S> {
    /// Whole frames of at least one channel, at a positive rate, within
    /// what the machine can hold.
    pub open spec fn wf(self) -> bool {
        &&& 0 < self.channels <= u16::MAX
        &&& 0 < self.sample_rate <= u32::MAX
        &&& self.samples.len() <= usize::MAX
        &&& self.samples.len() % self.channels == 0
    }

    /// The number of frames: one sample of each channel makes one frame.
    pub open spec fn frame_count(self) -> nat {
        self.samples.len() / self.channels
    }

    /// The index of the last frame, or zero where there is no frame.
    pub open spec fn max_location(self) -> nat {
        if self.frame_count() == 0 {
            0
        } else {
            (self.frame_count() - 1) as nat
        }
    }

    /// The playing time in nanoseconds, rounded down.
    pub open spec fn duration_nanos(self) -> nat {
        frames_to_nanos(self.frame_count(), self.sample_rate)
    }
}

/// The playing time can be counted by samples as well as by frames: the
/// nanoseconds of all samples at the sample rate, divided among the
/// channels, are the nanoseconds of the frames.
pub proof fn lemma_duration_by_samples<S>(buffer: BufferView<S>)
    requires
        buffer.wf(),
    ensures
        buffer.duration_nanos() == (buffer.samples.len() * (NANOS_PER_SEC as nat)
            / buffer.sample_rate) / buffer.channels,
{
    let len = buffer.samples.len() as int;
    let channels = buffer.channels as int;
    let rate = buffer.sample_rate as int;
    let frames = buffer.frame_count() as int;
    let second = NANOS_PER_SEC as int;
    assert(len == frames * channels && 0 <= frames) by (nonlinear_arith)
        requires
            channels > 0,
            len >= 0,
            len % channels == 0,
            frames == len / channels,
    ;
    assert(0 <= len * second) by (nonlinear_arith)
        requires
            0 <= len,
            0 <= second,
    ;
    assert(0 <= frames * second) by (nonlinear_arith)
        requires
            0 <= frames,
            0 <= second,
    ;
    vstd::arithmetic::div_mod::lemma_div_denominator(len * second, rate, channels);
    vstd::arithmetic::div_mod::lemma_div_multiples_vanish_quotient(
        channels,
        frames * second,
        rate,
    );
    assert(channels * (frames * second) == len * second) by (nonlinear_arith)
        requires
            len == frames * channels,
    ;
    assert(channels * rate == rate * channels) by (nonlinear_arith);
}

/// How many samples complete the last frame of `len` samples in `channels`
/// channels.
pub open spec fn padding_len(len: nat, channels: nat) -> nat {
    if len % channels == 0 {
        0
    } else {
        (channels - len % channels) as nat
    }
}

/// `samples`, followed by as many `filler` samples as complete its last frame.
pub open spec fn padded<S>(samples: Seq<S>, channels: nat, filler: S) -> Seq<S> {
    samples + Seq::new(padding_len(samples.len(), channels), |i: int| filler)
}

/// A buffer of samples treated as a source.
pub struct SamplesBuffer<S> {
    data: Vec<S>,
    channels: u16,
    sample_rate: u32,
    duration: Duration,
}

impl<S> View for SamplesBuffer<S> {
    type V = BufferView<S>;

    closed spec fn view(&self) -> BufferView<S> {
        BufferView {
            samples: self.data@,
            channels: self.channels as nat,
            sample_rate: self.sample_rate as nat,
        }
    }
}

impl<S> SamplesBuffer<S> {
    /// The playing time kept with the buffer.
    pub closed spec fn cached_duration(&self) -> Duration {
        self.duration
    }

    /// A buffer holds whole frames of at least one channel at a positive
    /// rate, and the playing time that goes with them.
    #[verifier::type_invariant]
    pub closed spec fn wf(&self) -> bool {
        &&& self.channels != 0
        &&& self.sample_rate != 0
        &&& self.data@.len() <= usize::MAX
        &&& self.data@.len() % (self.channels as nat) == 0
        &&& duration_nanos(self.duration) == self@.duration_nanos()
    }

    /// What well-formedness means for the view.
    pub proof fn lemma_wf(&self)
        requires
            self.wf(),
        ensures
            self@.wf(),
            self@.samples.len() == self@.frame_count() * self@.channels,
            duration_nanos(self.cached_duration()) == self@.duration_nanos(),
    {
        let len = self@.samples.len();
        let ch = self@.channels;
        assert(len == (len / ch) * ch) by (nonlinear_arith)
            requires
                ch > 0,
                len % ch == 0,
        ;
    }

    /// A buffer that holds a sample holds a frame.
    pub proof fn lemma_frames(&self)
        requires
            self@.wf(),
        ensures
            self@.samples.len() == self@.frame_count() * self@.channels,
            self@.samples.len() > 0 ==> self@.frame_count() > 0,
    {
        let len = self@.samples.len();
        let ch = self@.channels;
        assert(len == (len / ch) * ch) by (nonlinear_arith)
            requires
                ch > 0,
                len % ch == 0,
        ;
        assert(len > 0 ==> len / ch > 0) by (nonlinear_arith)
            requires
                ch > 0,
                len == (len / ch) * ch,
        ;
    }

    /// The number of channels.
    pub fn channels(&self) -> (r: u16)
        ensures
            r == self@.channels,
            self@.wf(),
    {
        proof {
            use_type_invariant(self);
            self.lemma_wf();
        }
        self.channels
    }

    /// The number of frames per second.
    pub fn sample_rate(&self) -> (r: u32)
        ensures
            r == self@.sample_rate,
            self@.wf(),
    {
        proof {
            use_type_invariant(self);
            self.lemma_wf();
        }
        self.sample_rate
    }

    /// The number of samples, all channels together.
    pub fn len(&self) -> (r: usize)
        ensures
            r == self@.samples.len(),
            self@.wf(),
    {
        proof {
            use_type_invariant(self);
            self.lemma_wf();
        }
        self.data.len()
    }

    /// The number of frames.
    pub fn frame_count(&self) -> (r: usize)
        ensures
            r == self@.frame_count(),
            self@.wf(),
    {
        proof {
            use_type_invariant(self);
            self.lemma_wf();
        }
        self.data.len() / (self.channels as usize)
    }

    /// The sample at `index`.
    pub fn sample(&self, index: usize) -> (r: S) where S: Copy
        requires
            index < self@.samples.len(),
        ensures
            r == self@.samples[index as int],
    {
        self.data[index]
    }

    /// The playing time of the buffer.
    pub fn get_duration(&self) -> (r: Duration)
        ensures
            r == self.cached_duration(),
            duration_nanos(r) == self@.duration_nanos(),
            self@.wf(),
    {
        proof {
            use_type_invariant(self);
            self.lemma_wf();
        }
        self.duration
    }
}

impl<S: Sample> SamplesBuffer<S> {
    /// Builds a buffer from interleaved samples. Where the last frame is
    /// short, it is completed with silence.
    pub fn new(channels: u16, sample_rate: u32, data: Vec<S>) -> (r: SamplesBuffer<S>)
        requires
            channels != 0,
            sample_rate != 0,
        ensures
            r.wf(),
            r@.channels == channels,
            r@.sample_rate == sample_rate,
            r@.samples == padded(data@, channels as nat, S::silence()),
            duration_nanos(r.cached_duration()) == r@.duration_nanos(),
    {
        let mut data = data;
        let ghost given = data@;
        let remain_count: usize = data.len() % (channels as usize);
        if remain_count != 0 {
            let add_count: usize = channels as usize - remain_count;
            let mut added: usize = 0;
            while added < add_count
                invariant
                    added <= add_count,
                    data@ == given + Seq::new(added as nat, |i: int| S::silence()),
                decreases add_count - added,
            {
                data.push(S::zero_value());
                added = added + 1;
            }
        }
        assert(data@ == padded(given, channels as nat, S::silence()));
        assert(data@.len() % (channels as nat) == 0) by (nonlinear_arith)
            requires
                data@.len() == given.len() + padding_len(given.len(), channels as nat),
                channels != 0,
        ;
        let duration = frames_to_duration(data.len() / (channels as usize), sample_rate);
        SamplesBuffer { data, channels, sample_rate, duration }
    }
}

} // verus!
