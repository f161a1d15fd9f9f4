//! Audio sampling: per-frame amplitude snapshots and the sample-window
//! arithmetic of the amplitude sampler.

use vstd::prelude::*;

verus! {

/// The closed set of quantities the expression engine may read from an
/// [`AudioPacket`].
#[derive(Clone, Copy, PartialEq, Eq, Structural, Hash, Debug)]
pub enum AudioParam {
    Amplitude,
}

/// One frame's scalar audio snapshot.
///
/// The amplitude is carried as an opaque 32-bit word: the bit pattern of the
/// scalar that the embedding application computed from the decoded samples.
/// This crate never interprets the word numerically; it only routes it.
pub struct AudioPacket {
    amplitude: u32,
}

impl AudioPacket {
    /// The amplitude word held by this packet.
    pub closed spec fn spec_amplitude(&self) -> u32 {
        self.amplitude
    }

    /// The word an evaluator reads for a given parameter.
    pub open spec fn spec_param(&self, param: AudioParam) -> u32 {
        match param {
            AudioParam::Amplitude => self.spec_amplitude(),
        }
    }

    pub fn new(amplitude: u32) -> (packet: AudioPacket)
        ensures
            packet.spec_amplitude() == amplitude,
    {
        AudioPacket { amplitude }
    }

    pub fn get_param(&self, param: AudioParam) -> (value: u32)
        ensures
            value == self.spec_param(param),
    {
        match param {
            AudioParam::Amplitude => self.amplitude,
        }
    }
}

/// A half-open range of per-channel sample indices, or (scaled by the channel
/// count) of interleaved sample indices.
#[derive(Clone, Copy, PartialEq, Eq, Structural, Debug)]
pub struct SampleRange {
    pub first: u64,
    pub count: u64,
}

/// The windowed amplitude sampler's index arithmetic.
///
/// The decoded track itself stays with the embedding application; this type
/// holds its shape (sample rate, channel count, per-channel sample count) and
/// turns a playback position into the range of samples whose mean absolute
/// value is that position's amplitude.
///
/// The window is half a second wide and centred on the requested position.
/// It is clamped at the track's start — a position early in the track gets a
/// shortened window, not synthesised pre-roll silence — and at the track's
/// end, so the range never reaches past the decoded samples. A window that
/// would be empty (a position past the end of the track, or a sample rate too
/// low to fit any sample in the window) is reported explicitly rather than
/// sampled.
pub struct AudioSampler {
    sample_rate: u32,
    channel_count: u32,
    track_samples: u64,
}

impl AudioSampler {
    #[verifier::type_invariant]
    spec fn type_inv(self) -> bool {
        &&& self.sample_rate >= 1
        &&& self.channel_count >= 1
        &&& self.track_samples * self.channel_count <= u64::MAX
    }

    /// Samples per second of one channel.
    pub closed spec fn spec_sample_rate(&self) -> u32 {
        self.sample_rate
    }

    /// Interleaved channels in the track.
    pub closed spec fn spec_channel_count(&self) -> u32 {
        self.channel_count
    }

    /// Per-channel samples in the track.
    pub closed spec fn spec_track_samples(&self) -> u64 {
        self.track_samples
    }

    /// Per-channel samples in a full, unclamped window: half a second.
    pub open spec fn spec_window_samples(&self) -> int {
        self.spec_sample_rate() as int / 2
    }

    /// Per-channel samples between a window's start and its centre.
    pub open spec fn spec_half_window(&self) -> int {
        self.spec_window_samples() / 2
    }

    /// First per-channel sample of the window centred on `center`, clamped at
    /// the track's start.
    pub open spec fn spec_window_lo(&self, center: u64) -> int {
        if center >= self.spec_half_window() {
            center - self.spec_half_window()
        } else {
            0
        }
    }

    /// One past the last per-channel sample of the window centred on
    /// `center`, clamped at the track's end.
    pub open spec fn spec_window_hi(&self, center: u64) -> int {
        let ideal = center + self.spec_window_samples() - self.spec_half_window();
        if ideal <= self.spec_track_samples() {
            ideal
        } else {
            self.spec_track_samples() as int
        }
    }

    /// The per-channel sample range for the window centred on `center`, or
    /// `None` where the clamped window holds no sample.
    pub open spec fn spec_sample_range(&self, center: u64) -> Option<SampleRange> {
        let lo = self.spec_window_lo(center);
        let hi = self.spec_window_hi(center);
        if lo < hi {
            Some(SampleRange { first: lo as u64, count: (hi - lo) as u64 })
        } else {
            None
        }
    }

    pub fn new(sample_rate: u32, channel_count: u32, track_samples: u64) -> (sampler: AudioSampler)
        requires
            sample_rate >= 1,
            channel_count >= 1,
            track_samples * channel_count <= u64::MAX,
        ensures
            sampler.spec_sample_rate() == sample_rate,
            sampler.spec_channel_count() == channel_count,
            sampler.spec_track_samples() == track_samples,
    {
        AudioSampler { sample_rate, channel_count, track_samples }
    }

    /// The per-channel sample range whose mean absolute value is the
    /// amplitude at `center_sample` (a playback position expressed as a
    /// per-channel sample index).
    pub fn sample_range(&self, center_sample: u64) -> (range: Option<SampleRange>)
        ensures
            range == self.spec_sample_range(center_sample),
    {
        let window: u64 = (self.sample_rate / 2) as u64;
        let half: u64 = window / 2;
        let lo: u64 = if center_sample >= half {
            center_sample - half
        } else {
            0
        };
        if lo >= self.track_samples {
            return None;
        }
        let tail: u64 = self.track_samples - lo;
        let reach: u64 = center_sample - lo;
        let ideal_len: u64 = reach + (window - half);
        let count: u64 = if ideal_len <= tail {
            ideal_len
        } else {
            tail
        };
        if count == 0 {
            None
        } else {
            Some(SampleRange { first: lo, count })
        }
    }

    /// Scales a per-channel range to interleaved sample indices: all channels
    /// are read and summed into the one amplitude signal.
    pub fn interleaved_range(&self, range: SampleRange) -> (scaled: SampleRange)
        requires
            range.first + range.count <= self.spec_track_samples(),
        ensures
            scaled.first == range.first * self.spec_channel_count(),
            scaled.count == range.count * self.spec_channel_count(),
    {
        proof {
            use_type_invariant(self);
            let channels = self.channel_count as int;
            vstd::arithmetic::mul::lemma_mul_inequality(range.first as int, self.track_samples as int, channels);
            vstd::arithmetic::mul::lemma_mul_inequality(range.count as int, self.track_samples as int, channels);
        }
        let channels: u64 = self.channel_count as u64;
        SampleRange { first: range.first * channels, count: range.count * channels }
    }
}

/// At the start of the track the sampling window is clamped, not padded: the
/// position `0` yields exactly the half window that lies inside the track,
/// not a full window's worth of samples.
pub proof fn lemma_preroll_clamp(sampler: AudioSampler)
    requires
        sampler.spec_window_samples() >= 2,
        sampler.spec_window_samples() <= sampler.spec_track_samples(),
    ensures
        ({
            let range = sampler.spec_sample_range(0);
            &&& range is Some
            &&& range->0.first == 0
            &&& range->0.count == sampler.spec_window_samples() - sampler.spec_half_window()
        }),
{
}

/// Away from both ends of the track the window is never clamped: it holds a
/// full half second of samples.
pub proof fn lemma_interior_window_full(sampler: AudioSampler, center: u64)
    requires
        sampler.spec_window_samples() >= 1,
        center >= sampler.spec_half_window(),
        center + sampler.spec_window_samples() - sampler.spec_half_window()
            <= sampler.spec_track_samples(),
    ensures
        ({
            let range = sampler.spec_sample_range(center);
            &&& range is Some
            &&& range->0.first == center - sampler.spec_half_window()
            &&& range->0.count == sampler.spec_window_samples()
        }),
{
}

} // verus!
