//! Parameter sets of the synthesizer and the quantities derived from them.
use vstd::prelude::*;

verus! {

/// Length of the observation window, in seconds.
pub const WINDOW_SECONDS: u64 = 2;

/// How many reference points the continuous waveform holds per sampling interval.
pub const INTERPOLATION_FACTOR: u64 = 20;

/// Number of millihertz in one hertz.
pub const MILLIHERTZ_PER_HERTZ: u64 = 1000;

/// Widest bit depth accepted: `2^bit_depth` must stay representable.
pub const MAX_BIT_DEPTH: u32 = 32;

/// A ratio of two integers, kept unreduced.
#[derive(Clone, Copy, Debug, PartialEq, Eq, Structural)]
pub struct Ratio {
    pub num: u128,
    pub den: u128,
}

/// Why a parameter set was refused.
#[derive(Clone, Copy, Debug, PartialEq, Eq, Structural)]
pub enum ParamError {
    /// The signal frequency is zero.
    NonPositiveFrequency,
    /// The sampling rate is zero or negative.
    NonPositiveSamplingRate,
    /// The reference waveform of the window would not fit in memory indices.
    SamplingRateTooLarge,
    /// The bit depth is zero or wider than `MAX_BIT_DEPTH`.
    BitDepthOutOfRange,
}

/// One parameter set: a label, the signal frequency (in millihertz, so that a
/// fractional frequency stays exact), the sampling rate in hertz and the number
/// of quantization bits.
#[derive(Clone, Debug)]
pub struct SignalParams {
    pub name: String,
    pub signal_freq_mhz: u64,
    pub sampling_rate: i64,
    pub bit_depth: u32,
    pub nyquist_ratio: Ratio,
}

/// Number of points of the sampled series at sampling rate `rate`.
pub open spec fn spec_sample_count(rate: int) -> int {
    WINDOW_SECONDS * rate
}

/// Number of points of the reference series: every point of the oversampled
/// grid from time zero up to and including the end of the window.
pub open spec fn spec_continuous_count(rate: int) -> int {
    WINDOW_SECONDS * rate * INTERPOLATION_FACTOR + 1
}

/// `2 × frequency / sampling rate`, with the frequency given in millihertz.
pub open spec fn spec_nyquist_ratio(freq_mhz: int, rate: int) -> Ratio {
    Ratio { num: (2 * freq_mhz) as u128, den: (MILLIHERTZ_PER_HERTZ * rate) as u128 }
}

/// Which error, if any, a parameter set is refused with; checked in this order.
pub open spec fn param_error(freq_mhz: u64, rate: i64, bit_depth: u32) -> Option<ParamError> {
    if freq_mhz == 0 {
        Some(ParamError::NonPositiveFrequency)
    } else if rate <= 0 {
        Some(ParamError::NonPositiveSamplingRate)
    } else if spec_continuous_count(rate as int) > usize::MAX {
        Some(ParamError::SamplingRateTooLarge)
    } else if bit_depth == 0 || bit_depth > MAX_BIT_DEPTH {
        Some(ParamError::BitDepthOutOfRange)
    } else {
        None
    }
}

impl Ratio {
    /// Whether the ratio is at least one, i.e. the signal aliases.
    pub fn is_aliasing(&self) -> (r: bool)
        requires
            self.den > 0,
        ensures
            r == (self.num >= self.den),
    {
        self.num >= self.den
    }
}

impl SignalParams {
    /// Well-formed: the fields satisfy every rule `new` checks, and the ratio
    /// is the one derived from them.
    pub open spec fn wf(&self) -> bool {
        &&& param_error(self.signal_freq_mhz, self.sampling_rate, self.bit_depth).is_none()
        &&& self.nyquist_ratio == spec_nyquist_ratio(
            self.signal_freq_mhz as int,
            self.sampling_rate as int,
        )
    }

    /// Validates a parameter set and derives its Nyquist ratio.
    pub fn new(name: &str, signal_freq_mhz: u64, sampling_rate: i64, bit_depth: u32) -> (r: Result<
        SignalParams,
        ParamError,
    >)
        ensures
            match param_error(signal_freq_mhz, sampling_rate, bit_depth) {
                Some(e) => r == Err::<SignalParams, ParamError>(e),
                None => r is Ok,
            },
            r matches Ok(p) ==> {
                &&& p.wf()
                &&& p.name@ == name@
                &&& p.signal_freq_mhz == signal_freq_mhz
                &&& p.sampling_rate == sampling_rate
                &&& p.bit_depth == bit_depth
                &&& p.nyquist_ratio == spec_nyquist_ratio(
                    signal_freq_mhz as int,
                    sampling_rate as int,
                )
            },
    {
        if signal_freq_mhz == 0 {
            return Err(ParamError::NonPositiveFrequency);
        }
        if sampling_rate <= 0 {
            return Err(ParamError::NonPositiveSamplingRate);
        }
        let rate = sampling_rate as u64;
        if rate > ((usize::MAX as u64) - 1) / (WINDOW_SECONDS * INTERPOLATION_FACTOR) {
            return Err(ParamError::SamplingRateTooLarge);
        }
        if bit_depth == 0 || bit_depth > MAX_BIT_DEPTH {
            return Err(ParamError::BitDepthOutOfRange);
        }
        let nyquist_ratio = Ratio {
            num: 2 * (signal_freq_mhz as u128),
            den: (MILLIHERTZ_PER_HERTZ as u128) * (rate as u128),
        };
        Ok(SignalParams { name: name.to_string(), signal_freq_mhz, sampling_rate, bit_depth, nyquist_ratio })
    }

    /// Number of points of the sampled series: `floor(window × rate)`.
    pub fn sample_count(&self) -> (r: usize)
        requires
            self.wf(),
        ensures
            r == spec_sample_count(self.sampling_rate as int),
    {
        (WINDOW_SECONDS as usize) * (self.sampling_rate as usize)
    }

    /// Number of points of the reference series:
    /// `floor(window × rate × interpolation factor) + 1`.
    pub fn continuous_count(&self) -> (r: usize)
        requires
            self.wf(),
        ensures
            r == spec_continuous_count(self.sampling_rate as int),
    {
        (WINDOW_SECONDS as usize) * (self.sampling_rate as usize) * (INTERPOLATION_FACTOR as usize) + 1
    }
}

} // verus!
