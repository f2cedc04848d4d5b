//! Decoding an audio stream into a buffer, chunk by chunk, with progress
//! and cancellation.

use crate::buffer::{padded, SamplesBuffer};
use crate::sample::Sample;
use crate::slot::HandOff;
use crate::time::{duration_nanos, NANOS_PER_SEC};
use std::time::Duration;
use vstd::prelude::*;
use vstd::string::StringExecFns;

verus! {

/// The most samples that are decoded in one chunk. A request to stop is
/// noticed between two chunks.
pub const MAX_CHUNK: usize = 32768;

/// Why a load did not give a buffer.
#[derive(Debug)]
pub enum LoadError {
    /// The file could not be opened; the text says why.
    FileOpen(String),
    /// The stream could not be decoded; the text says why.
    Decode(String),
    /// A stop was requested before the stream was decoded.
    Cancelled,
}

impl LoadError {
    /// The text of the error, which begins with the step that failed.
    pub open spec fn message_text(self) -> Seq<char> {
        match self {
            LoadError::FileOpen(detail) => "error opening file: "@ + detail@,
            LoadError::Decode(detail) => "error decode audio: "@ + detail@,
            LoadError::Cancelled => "user stopped"@,
        }
    }

    /// The text of the error.
    pub fn message(&self) -> (r: String)
        ensures
            r@ == self.message_text(),
    {
        match self {
            LoadError::FileOpen(detail) => String::from_str("error opening file: ").concat(
                detail.as_str(),
            ),
            LoadError::Decode(detail) => String::from_str("error decode audio: ").concat(
                detail.as_str(),
            ),
            LoadError::Cancelled => String::from_str("user stopped"),
        }
    }
}

/// How much of a stream of known length has been decoded.
#[derive(Debug, Clone, Copy)]
pub struct Progress {
    /// The playing time of what has been decoded, in nanoseconds.
    pub decoded_nanos: u128,
    /// The playing time of the whole stream, in nanoseconds.
    pub total_nanos: u128,
}

/// How many samples to ask the decoder for, given the number of samples
/// that it says are left in its current frame, if it knows: nothing more
/// where none is left, else what is left, but no more than [`MAX_CHUNK`].
pub open spec fn chunk_request(frame_len: Option<usize>) -> Option<usize> {
    match frame_len {
        Some(n) => if n == 0 {
            None
        } else if n < MAX_CHUNK {
            Some(n)
        } else {
            Some(MAX_CHUNK)
        },
        None => Some(MAX_CHUNK),
    }
}

/// How many samples to ask the decoder for next; `None` where the stream
/// has ended.
pub fn requested_chunk(frame_len: Option<usize>) -> (r: Option<usize>)
    ensures
        r == chunk_request(frame_len),
        r matches Some(n) ==> 0 < n <= MAX_CHUNK,
{
    match frame_len {
        Some(0) => None,
        Some(n) => if n < MAX_CHUNK {
            Some(n)
        } else {
            Some(MAX_CHUNK)
        },
        None => Some(MAX_CHUNK),
    }
}

/// The playing time, in nanoseconds rounded down, of a chunk of `len`
/// samples.
pub open spec fn chunk_nanos(len: nat, sample_rate: nat, channels: nat) -> nat {
    len * (NANOS_PER_SEC as nat) / sample_rate / channels
}

/// What a [`Decoding`] holds.
pub struct DecodingView<S> {
    /// The samples decoded so far.
    pub samples: Seq<S>,
    /// The number of channels of the stream.
    pub channels: nat,
    /// The sample rate of the stream.
    pub sample_rate: nat,
    /// The playing time of the whole stream in nanoseconds, where known.
    pub total_nanos: Option<nat>,
    /// The playing time of the chunks decoded so far, in nanoseconds;
    /// counted only where the total is known.
    pub decoded_nanos: nat,
}

impl<S> DecodingView<S> {
    /// The progress to report, where the total is known.
    pub open spec fn progress(self) -> Option<Progress> {
        match self.total_nanos {
            Some(total) => Some(
                Progress { decoded_nanos: self.decoded_nanos as u128, total_nanos: total as u128 },
            ),
            None => None,
        }
    }

    /// The state after a chunk of samples has been taken in.
    pub open spec fn with_chunk(self, chunk: Seq<S>) -> DecodingView<S> {
        DecodingView {
            samples: self.samples + chunk,
            decoded_nanos: if self.total_nanos is Some {
                self.decoded_nanos + chunk_nanos(chunk.len(), self.sample_rate, self.channels)
            } else {
                self.decoded_nanos
            },
            ..self
        }
    }
}

/// What to do after a chunk.
#[derive(Debug)]
pub enum Step {
    /// The chunk was taken in. Publish the progress, if there is any, and
    /// decode the next chunk.
    More(Option<Progress>),
    /// The stream has ended: build the buffer.
    End,
}

/// The state of one decode task: what has been decoded so far of a
/// stream.
pub struct Decoding<S> {
    data: Vec<S>,
    channels: u16,
    sample_rate: u32,
    total_nanos: Option<u128>,
    decoded_nanos: u128,
}

impl<S> View for Decoding<S> {
    type V = DecodingView<S>;

    closed spec fn view(&self) -> DecodingView<S> {
        DecodingView {
            samples: self.data@,
            channels: self.channels as nat,
            sample_rate: self.sample_rate as nat,
            total_nanos: match self.total_nanos {
                Some(total) => Some(total as nat),
                None => None,
            },
            decoded_nanos: self.decoded_nanos as nat,
        }
    }
}

impl<S> Decoding<S> {
    /// The stream has a channel and a rate, and what has been decoded
    /// plays no longer than a second for each sample.
    pub closed spec fn wf(&self) -> bool {
        &&& self.channels != 0
        &&& self.sample_rate != 0
        &&& self.data@.len() <= usize::MAX
        &&& self.decoded_nanos <= self.data@.len() * NANOS_PER_SEC
    }

    /// Starts to decode a stream of the given format. `total_duration` is
    /// the playing time that the decoder reports, and `size_hint` the
    /// number of samples that it expects, where it knows them.
    pub fn new(
        channels: u16,
        sample_rate: u32,
        total_duration: Option<Duration>,
        size_hint: Option<usize>,
    ) -> (r: Decoding<S>)
        requires
            channels != 0,
            sample_rate != 0,
        ensures
            r.wf(),
            r@ == (DecodingView {
                samples: Seq::<S>::empty(),
                channels: channels as nat,
                sample_rate: sample_rate as nat,
                total_nanos: match total_duration {
                    Some(d) => Some(duration_nanos(d)),
                    None => None,
                },
                decoded_nanos: 0,
            }),
    {
        let data: Vec<S> = match size_hint {
            Some(size) => Vec::with_capacity(size),
            None => Vec::new(),
        };
        let total_nanos: Option<u128> = match total_duration {
            Some(d) => {
                let secs: u64 = d.as_secs();
                let nanos: u32 = d.subsec_nanos();
                assert(secs * NANOS_PER_SEC <= u64::MAX * NANOS_PER_SEC) by (nonlinear_arith)
                    requires
                        secs <= u64::MAX,
                ;
                Some((secs as u128) * (NANOS_PER_SEC as u128) + (nanos as u128))
            },
            None => None,
        };
        Decoding { data, channels, sample_rate, total_nanos, decoded_nanos: 0 }
    }

    /// Takes in the chunk that the decoder gave, unless the stream has
    /// ended (the chunk is empty) or a stop was requested meanwhile.
    ///
    /// The end of the stream is looked at first: a stop that comes after
    /// the last chunk does not cancel the load.
    pub fn accept(&mut self, chunk: Vec<S>, stop_requested: bool) -> (r: Result<Step, LoadError>)
        requires
            old(self).wf(),
        ensures
            final(self).wf(),
            chunk@.len() == 0 ==> r == Ok::<Step, LoadError>(Step::End) && final(self)@ == old(self)@,
            chunk@.len() != 0 && stop_requested ==> r == Err::<Step, LoadError>(
                LoadError::Cancelled,
            ) && final(self)@ == old(self)@,
            chunk@.len() != 0 && !stop_requested ==> final(self)@ == old(self)@.with_chunk(chunk@)
                && r == Ok::<Step, LoadError>(Step::More(final(self)@.progress())),
            final(self)@.decoded_nanos >= old(self)@.decoded_nanos,
    {
        let mut chunk = chunk;
        if chunk.len() == 0 {
            return Ok(Step::End);
        }
        if stop_requested {
            return Err(LoadError::Cancelled);
        }
        let len: usize = chunk.len();
        let ghost before = self.data@.len();
        assert((before + len) * NANOS_PER_SEC == before * NANOS_PER_SEC + len * NANOS_PER_SEC)
            by (nonlinear_arith);
        let progress: Option<Progress> = match self.total_nanos {
            Some(total) => {
                assert(len * NANOS_PER_SEC <= usize::MAX * NANOS_PER_SEC) by (nonlinear_arith)
                    requires
                        len <= usize::MAX,
                ;
                let chunk_ns: u128 = (len as u128) * (NANOS_PER_SEC as u128) / (
                self.sample_rate as u128) / (self.channels as u128);
                assert(chunk_ns <= len * NANOS_PER_SEC) by (nonlinear_arith)
                    requires
                        chunk_ns == (len * NANOS_PER_SEC) as int / (self.sample_rate as int) / (
                        self.channels as int),
                        self.sample_rate >= 1,
                        self.channels >= 1,
                ;
                assert(before * NANOS_PER_SEC <= usize::MAX * NANOS_PER_SEC) by (nonlinear_arith)
                    requires
                        before <= usize::MAX,
                ;
                self.decoded_nanos = self.decoded_nanos + chunk_ns;
                Some(Progress { decoded_nanos: self.decoded_nanos, total_nanos: total })
            },
            None => None,
        };
        self.data.append(&mut chunk);
        let held: usize = self.data.len();
        assert(held == before + len);
        Ok(Step::More(progress))
    }
}

impl<S: Sample> Decoding<S> {
    /// Builds the buffer from what has been decoded.
    pub fn finish(self) -> (r: SamplesBuffer<S>)
        requires
            self.wf(),
        ensures
            r.wf(),
            r@.channels == self@.channels,
            r@.sample_rate == self@.sample_rate,
            r@.samples == padded(self@.samples, self@.channels, S::silence()),
    {
        SamplesBuffer::new(self.channels, self.sample_rate, self.data)
    }
}

/// The outcome of a load.
pub type LoadResult<S> = Result<SamplesBuffer<S>, LoadError>;

/// What an [`AudioBufferLoader`] holds.
pub struct LoaderView<S> {
    /// The outcome of the load, from when the decode task has published
    /// it until it is taken.
    pub result: Option<LoadResult<S>>,
    /// Whether a stop has been requested.
    pub stop_requested: bool,
    /// The progress that the decode task reported last, if it reported
    /// any.
    pub progress: Option<Progress>,
}

impl<S> LoaderView<S> {
    /// The state in which the decode task has published `result`.
    pub open spec fn published(self, result: LoadResult<S>) -> LoaderView<S> {
        LoaderView { result: Some(result), ..self }
    }

    /// The state after the result was asked for.
    pub open spec fn taken(self) -> LoaderView<S> {
        LoaderView { result: None, ..self }
    }

    /// The state in which a stop has been requested.
    pub open spec fn stopped(self) -> LoaderView<S> {
        LoaderView { stop_requested: true, ..self }
    }
}

/// The outcome of a load is handed over once: as long as none has been
/// published, asking for it gives nothing and changes nothing; once one
/// has been published, the first to ask gets it, and whoever asks after
/// that gets nothing, however often.
pub proof fn lemma_result_taken_once<S>(loader: LoaderView<S>, result: LoadResult<S>)
    requires
        loader.result is None,
    ensures
        loader.taken() == loader,
        loader.published(result).result == Some(result),
        loader.published(result).taken().result is None,
        loader.published(result).taken().taken() == loader.published(result).taken(),
{
}

/// A request to stop stays: neither a second request nor anything else
/// that the two sides do takes it back.
pub proof fn lemma_stop_stays<S>(loader: LoaderView<S>, result: LoadResult<S>)
    ensures
        loader.stopped().stop_requested,
        loader.stopped().stopped() == loader.stopped(),
        loader.stopped().taken().stop_requested,
        loader.stopped().published(result).stop_requested,
{
}

/// What the side that asked for a load and its decode task share: the
/// outcome, the request to stop, and the progress.
pub struct AudioBufferLoader<S> {
    result: HandOff<LoadResult<S>>,
    stop: bool,
    progress: Option<Progress>,
}

impl<S> View for AudioBufferLoader<S> {
    type V = LoaderView<S>;

    closed spec fn view(&self) -> LoaderView<S> {
        LoaderView { result: self.result@, stop_requested: self.stop, progress: self.progress }
    }
}

impl<S> AudioBufferLoader<S> {
    /// The state at the start of a load: no outcome, no request to stop,
    /// no progress.
    pub fn new() -> (r: AudioBufferLoader<S>)
        ensures
            r@ == (LoaderView::<S> { result: None, stop_requested: false, progress: None }),
    {
        AudioBufferLoader { result: HandOff::new(), stop: false, progress: None }
    }

    /// Takes the outcome of the load, if the decode task has published it
    /// and nobody has taken it yet.
    pub fn try_get_value(&mut self) -> (r: Option<LoadResult<S>>)
        ensures
            r == old(self)@.result,
            final(self)@ == old(self)@.taken(),
    {
        self.result.take()
    }

    /// Requests the decode task to stop.
    pub fn stop_loading(&mut self)
        ensures
            final(self)@ == old(self)@.stopped(),
    {
        self.stop = true;
    }

    /// The progress that the decode task reported last, if it reported
    /// any.
    pub fn get_progress(&self) -> (r: Option<Progress>)
        ensures
            r == self@.progress,
    {
        self.progress
    }

    /// Whether a stop has been requested. For the decode task.
    pub fn is_stop_requested(&self) -> (r: bool)
        ensures
            r == self@.stop_requested,
    {
        self.stop
    }

    /// Reports progress. For the decode task.
    pub fn set_progress(&mut self, progress: Progress)
        ensures
            final(self)@ == (LoaderView { progress: Some(progress), ..old(self)@ }),
    {
        self.progress = Some(progress);
    }

    /// Publishes the outcome of the load. For the decode task, as its last
    /// step.
    pub fn publish(&mut self, result: LoadResult<S>)
        ensures
            final(self)@ == old(self)@.published(result),
    {
        self.result.put(result);
    }
}

} // verus!
