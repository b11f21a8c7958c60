use vstd::prelude::*;

verus! {

/// Buffer size assumed when the device does not report one.
pub const DEFAULT_BUFFER_FRAMES: u32 = 1024;

/// How samples are stored in the container: integer PCM or IEEE float.
#[derive(Clone, Copy, Debug, PartialEq, Eq, Structural)]
pub enum SampleEncoding {
    Int,
    Float,
}

/// Picks the container encoding for a device sample format.
pub fn sample_format(is_float: bool) -> (r: SampleEncoding)
    ensures
        r == (if is_float { SampleEncoding::Float } else { SampleEncoding::Int }),
{
    if is_float {
        SampleEncoding::Float
    } else {
        SampleEncoding::Int
    }
}

/// The negotiated configuration of one capture stream.
#[derive(Clone, Copy, Debug, PartialEq, Eq, Structural)]
pub struct StreamConfig {
    pub channels: u16,
    pub sample_rate: u32,
    pub bits_per_sample: u16,
    pub encoding: SampleEncoding,
    /// Smallest buffer the device reports, if it reports one.
    pub buffer_frames: Option<u32>,
}

/// The format of a container file: what two segments must share to be merged.
#[derive(Clone, Copy, Debug, PartialEq, Eq, Structural)]
pub struct WavFormat {
    pub channels: u16,
    pub sample_rate: u32,
    pub bits_per_sample: u16,
    pub encoding: SampleEncoding,
}

impl StreamConfig {
    /// The number of frames the device delivers per callback.
    pub open spec fn nominal_frames(self) -> u32 {
        match self.buffer_frames {
            Some(f) => f,
            None => DEFAULT_BUFFER_FRAMES,
        }
    }

    /// The container format that segments of this stream are written in.
    pub fn wav_format(&self) -> (r: WavFormat)
        ensures
            r.channels == self.channels,
            r.sample_rate == self.sample_rate,
            r.bits_per_sample == self.bits_per_sample,
            r.encoding == self.encoding,
    {
        WavFormat {
            channels: self.channels,
            sample_rate: self.sample_rate,
            bits_per_sample: self.bits_per_sample,
            encoding: self.encoding,
        }
    }
}

/// The expected duration of one packet, held exactly as `frames / sample_rate`
/// seconds.
#[derive(Clone, Copy, Debug, PartialEq, Eq, Structural)]
pub struct PacketDuration {
    pub frames: u32,
    pub sample_rate: u32,
}

impl PacketDuration {
    /// A duration of zero, used while no session is running.
    pub fn zero() -> (r: PacketDuration)
        ensures
            r.frames == 0,
            r.sample_rate == 1,
    {
        PacketDuration { frames: 0, sample_rate: 1 }
    }

    /// The number of samples that this duration spans at `rate` samples per
    /// second, rounded down.
    pub open spec fn spec_samples_at(self, rate: u32) -> nat {
        (self.frames as nat * rate as nat / self.sample_rate as nat) as nat
    }

    /// Converts the duration to a sample count at `rate` samples per second.
    pub fn samples_at(&self, rate: u32) -> (r: u64)
        requires
            self.sample_rate > 0,
        ensures
            r == self.spec_samples_at(rate),
    {
        assert(self.frames as nat * rate as nat <= 0xffff_ffff_ffff_ffff) by (nonlinear_arith)
            requires self.frames <= 0xffff_ffff, rate <= 0xffff_ffff;
        let n: u64 = self.frames as u64 * rate as u64;
        n / self.sample_rate as u64
    }

    /// The duration in whole milliseconds, rounded down.
    pub fn as_millis(&self) -> (r: u64)
        requires
            self.sample_rate > 0,
        ensures
            r == self.frames as nat * 1000 / self.sample_rate as nat,
    {
        self.frames as u64 * 1000 / self.sample_rate as u64
    }
}

/// The expected duration of one packet of a stream: its nominal buffer size
/// over its sample rate.
pub fn calculate_expected_packet_duration(config: &StreamConfig) -> (r: PacketDuration)
    requires
        config.sample_rate > 0,
    ensures
        r.frames == config.nominal_frames(),
        r.sample_rate == config.sample_rate,
        r.spec_samples_at(config.sample_rate) == config.nominal_frames(),
{
    let frames = match config.buffer_frames {
        Some(f) => f,
        None => DEFAULT_BUFFER_FRAMES,
    };
    let r = PacketDuration { frames, sample_rate: config.sample_rate };
    assert(r.frames as nat * config.sample_rate as nat / config.sample_rate as nat == r.frames)
        by (nonlinear_arith)
        requires config.sample_rate > 0;
    r
}

} // verus!
