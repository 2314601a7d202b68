//! The integer side of the spectral analyzer: its configuration, and the
//! decisions of its poll loop.
use crate::ring::{consumed, seen_queued, SampleConsumer};
use vstd::prelude::*;

verus! {

/// The largest number of frames one capture callback may hand over; the
/// host's callback buffer must be strictly smaller.
pub const AUDIO_BUFF_SIZE: usize = 8192;

/// The largest window the analyzer takes.
pub const FFT_MAX_SIZE: usize = 8192;

/// The number of spectrum bins of the largest window.
pub const FFT_MAX_BUFF_SIZE: usize = 4097;

/// How many windows the hand-off ring holds.
pub const RING_WINDOWS: usize = 10;

/// The number of bins of the spectrum of a real window of `fft_size` samples.
pub open spec fn spec_bins(fft_size: nat) -> nat {
    fft_size / 2 + 1
}

/// The number of bins of the spectrum of a real window of `fft_size` samples,
/// `fft_size / 2 + 1`; each magnitude is divided by it.
pub fn fft_used_buff_size(fft_size: usize) -> (r: usize)
    ensures
        r == spec_bins(fft_size as nat),
{
    (fft_size / 2) + 1
}

/// The index of the centre of a window of `fft_size` samples, where the Hann
/// weight peaks.
pub fn window_centre(fft_size: usize) -> (r: usize)
    requires
        fft_size >= 1,
    ensures
        r == (fft_size - 1) / 2,
        r < fft_size,
{
    (fft_size - 1) / 2
}

/// A configuration that the analyzer or the capture node refuses.
#[derive(Debug, PartialEq, Eq, Structural)]
pub enum ConfigError {
    /// The window is shorter than two samples.
    FftSizeTooSmall { fft_size: usize },
    /// The window is longer than `FFT_MAX_SIZE`.
    FftSizeTooLarge { fft_size: usize },
    /// The host's callback buffer does not fit strictly inside the capture
    /// node's scratch buffer.
    FrameTooLarge { frame_size: usize, capacity: usize },
}

/// Checks the host's callback buffer size against the capacity of the capture
/// node's scratch buffer: it must be strictly smaller.
pub fn check_frame_size(frame_size: usize, capacity: usize) -> (r: Result<(), ConfigError>)
    ensures
        r is Ok <==> frame_size < capacity,
        r is Err ==> r == Err::<(), ConfigError>(ConfigError::FrameTooLarge { frame_size, capacity }),
{
    if frame_size < capacity {
        Ok(())
    } else {
        Err(ConfigError::FrameTooLarge { frame_size, capacity })
    }
}

/// The sizes the analyzer runs with.
pub struct AnalyzerConfig {
    /// Samples per window.
    pub fft_size: usize,
    /// Bins per spectrum frame, `fft_size / 2 + 1`.
    pub bins: usize,
    /// Samples the hand-off ring holds, `RING_WINDOWS` windows.
    pub ring_capacity: usize,
}

impl AnalyzerConfig {
    pub open spec fn wf(&self) -> bool {
        &&& 2 <= self.fft_size <= FFT_MAX_SIZE
        &&& self.bins == spec_bins(self.fft_size as nat)
        &&& self.ring_capacity == RING_WINDOWS * self.fft_size
    }

    /// The configuration for windows of `fft_size` samples fed by a host whose
    /// callbacks hand over `frame_size` frames. Refuses a window shorter than
    /// two samples or longer than `FFT_MAX_SIZE`, and then a callback buffer
    /// that is not strictly smaller than `AUDIO_BUFF_SIZE`.
    pub fn new(fft_size: usize, frame_size: usize) -> (r: Result<AnalyzerConfig, ConfigError>)
        ensures
            fft_size < 2 ==> r == Err::<AnalyzerConfig, ConfigError>(
                ConfigError::FftSizeTooSmall { fft_size },
            ),
            2 <= fft_size && fft_size > FFT_MAX_SIZE ==> r == Err::<AnalyzerConfig, ConfigError>(
                ConfigError::FftSizeTooLarge { fft_size },
            ),
            2 <= fft_size <= FFT_MAX_SIZE && frame_size >= AUDIO_BUFF_SIZE ==> r == Err::<
                AnalyzerConfig,
                ConfigError,
            >(ConfigError::FrameTooLarge { frame_size, capacity: AUDIO_BUFF_SIZE }),
            2 <= fft_size <= FFT_MAX_SIZE && frame_size < AUDIO_BUFF_SIZE ==> r is Ok && r->Ok_0.wf()
                && r->Ok_0.fft_size == fft_size,
    {
        if fft_size < 2 {
            return Err(ConfigError::FftSizeTooSmall { fft_size });
        }
        if fft_size > FFT_MAX_SIZE {
            return Err(ConfigError::FftSizeTooLarge { fft_size });
        }
        match check_frame_size(frame_size, AUDIO_BUFF_SIZE) {
            Err(e) => Err(e),
            Ok(()) => Ok(
                AnalyzerConfig {
                    fft_size,
                    bins: fft_used_buff_size(fft_size),
                    ring_capacity: RING_WINDOWS * fft_size,
                },
            ),
        }
    }
}

/// What the analyzer's loop does next.
#[derive(Debug, PartialEq, Eq, Structural)]
pub enum AnalyzerStep {
    /// Too few samples are queued: sleep for the poll interval and look again.
    Wait,
    /// Take this many samples, window and transform them, and publish the
    /// frame.
    Analyze { samples: usize },
    /// The consumer of the frames has gone: end the loop.
    Stop,
}

/// What one poll of the ring gave the analyzer's loop.
pub enum Polled {
    /// Too few samples were queued: sleep for the poll interval.
    Wait,
    /// A window of samples, oldest first, to transform and publish.
    Window(Vec<u32>),
    /// The consumer of the frames has gone: end the loop.
    Stop,
}

/// The state of the analyzer's poll loop.
pub struct Analyzer {
    fft_size: usize,
    stopped: bool,
}

impl Analyzer {
    pub closed spec fn spec_fft_size(&self) -> nat {
        self.fft_size as nat
    }

    pub closed spec fn spec_stopped(&self) -> bool {
        self.stopped
    }

    /// A running analyzer that takes windows of `config.fft_size` samples.
    pub fn new(config: &AnalyzerConfig) -> (r: Analyzer)
        requires
            config.wf(),
        ensures
            r.spec_fft_size() == config.fft_size,
            !r.spec_stopped(),
    {
        Analyzer { fft_size: config.fft_size, stopped: false }
    }

    pub fn fft_size(&self) -> (r: usize)
        ensures
            r == self.spec_fft_size(),
    {
        self.fft_size
    }

    pub fn is_stopped(&self) -> (r: bool)
        ensures
            r == self.spec_stopped(),
    {
        self.stopped
    }

    /// The next step, given how many samples are queued: a stopped analyzer
    /// stops; a running one analyzes a window when one is queued, and waits
    /// otherwise. It never takes a window from fewer samples than it holds.
    pub fn next_step(&self, available: usize) -> (r: AnalyzerStep)
        ensures
            self.spec_stopped() ==> r == AnalyzerStep::Stop,
            !self.spec_stopped() && available < self.spec_fft_size() ==> r == AnalyzerStep::Wait,
            !self.spec_stopped() && available >= self.spec_fft_size() ==> r
                == (AnalyzerStep::Analyze { samples: self.spec_fft_size() as usize }),
    {
        if self.stopped {
            AnalyzerStep::Stop
        } else if available < self.fft_size {
            AnalyzerStep::Wait
        } else {
            AnalyzerStep::Analyze { samples: self.fft_size }
        }
    }

    /// One poll of the ring: a stopped analyzer stops without touching the
    /// ring; a running one takes a window of the oldest `fft_size` samples
    /// when that many are queued, and waits otherwise.
    pub fn poll(&self, ring: &mut SampleConsumer) -> (r: Polled)
        ensures
            self.spec_stopped() <==> r is Stop,
            self.spec_stopped() ==> *final(ring) == *old(ring),
            r is Window ==> r->Window_0@.len() == self.spec_fft_size() && consumed(*final(ring))
                == consumed(*old(ring)) + r->Window_0@,
            !(r is Window) ==> consumed(*final(ring)) == consumed(*old(ring)),
            r is Wait ==> seen_queued(*final(ring)) < self.spec_fft_size(),
    {
        if self.stopped {
            return Polled::Stop;
        }
        let available = ring.len();
        match self.next_step(available) {
            AnalyzerStep::Stop => Polled::Stop,
            AnalyzerStep::Wait => Polled::Wait,
            AnalyzerStep::Analyze { samples } => match ring.take_window(samples) {
                Some(window) => Polled::Window(window),
                None => Polled::Wait,
            },
        }
    }

    /// Records whether the last frame reached its consumer: once a frame could
    /// not be delivered, the analyzer stays stopped.
    pub fn delivered(&mut self, sent: bool)
        ensures
            final(self).spec_fft_size() == old(self).spec_fft_size(),
            final(self).spec_stopped() == (old(self).spec_stopped() || !sent),
    {
        if !sent {
            self.stopped = true;
        }
    }
}

} // verus!
