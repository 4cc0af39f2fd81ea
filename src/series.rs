//! The two series of a parameter set: the sampled, quantized series and the
//! finely spaced reference grid of the continuous waveform.
//!
//! Times are exact: a `TimePoint` is `ticks / ticks_per_second` seconds. The
//! waveform's values themselves are computed by the caller and handed in as
//! fixed-point amplitudes (see `quantize`).
use crate::params::{
    spec_continuous_count, spec_sample_count, SignalParams, INTERPOLATION_FACTOR, WINDOW_SECONDS,
};
use crate::quantize::{
    dequantize, in_amplitude_range, lemma_level_in_range, lemma_requantize_is_identity, level_amplitude, quantize,
    quantized_level, valid_bit_depth,
};
use vstd::prelude::*;

verus! {

/// The instant `ticks / ticks_per_second` seconds after the start of the window.
#[derive(Clone, Copy, Debug, PartialEq, Eq, Structural)]
pub struct TimePoint {
    pub ticks: u64,
    pub ticks_per_second: u64,
}

/// `t` is the sampling grid of `p`: point `i` lies at `i × (1 / rate)` seconds,
/// for `i` in `0 .. floor(window × rate)`.
pub open spec fn is_sample_grid(p: SignalParams, t: Seq<TimePoint>) -> bool {
    &&& t.len() == spec_sample_count(p.sampling_rate as int)
    &&& forall|i: int|
        0 <= i < t.len() ==> #[trigger] t[i] == (TimePoint {
            ticks: i as u64,
            ticks_per_second: p.sampling_rate as u64,
        })
}

/// `t` is the reference grid of `p`: point `j` lies at
/// `j × (1 / rate) / interpolation factor` seconds, for every `j` whose time
/// does not pass the end of the window.
pub open spec fn is_continuous_grid(p: SignalParams, t: Seq<TimePoint>) -> bool {
    &&& t.len() == spec_continuous_count(p.sampling_rate as int)
    &&& forall|j: int|
        0 <= j < t.len() ==> #[trigger] t[j] == (TimePoint {
            ticks: j as u64,
            ticks_per_second: (p.sampling_rate * INTERPOLATION_FACTOR) as u64,
        })
}

/// `q` is `raw` quantized point by point at `bit_depth`, as fixed-point amplitudes.
pub open spec fn is_quantized_series(bit_depth: u32, raw: Seq<i64>, q: Seq<i64>) -> bool {
    &&& q.len() == raw.len()
    &&& forall|i: int|
        0 <= i < q.len() ==> #[trigger] q[i] == level_amplitude(
            bit_depth as nat,
            quantized_level(bit_depth as nat, raw[i] as int),
        )
}

impl TimePoint {
    /// Whether the instant lies within the observation window.
    pub open spec fn within_window(self) -> bool {
        self.ticks <= WINDOW_SECONDS * self.ticks_per_second
    }
}

impl SignalParams {
    /// The sampling instants of the window.
    pub fn sample_times(&self) -> (r: Vec<TimePoint>)
        requires
            self.wf(),
        ensures
            is_sample_grid(*self, r@),
            forall|i: int| 0 <= i < r@.len() ==> (#[trigger] r@[i]).within_window(),
    {
        let n = self.sample_count();
        let per_second = self.sampling_rate as u64;
        let mut r: Vec<TimePoint> = Vec::with_capacity(n);
        let mut i: usize = 0;
        while i < n
            invariant
                self.wf(),
                n == spec_sample_count(self.sampling_rate as int),
                per_second == self.sampling_rate,
                i <= n,
                r@.len() == i,
                forall|k: int|
                    0 <= k < i ==> #[trigger] r@[k] == (TimePoint {
                        ticks: k as u64,
                        ticks_per_second: per_second,
                    }),
            decreases n - i,
        {
            r.push(TimePoint { ticks: i as u64, ticks_per_second: per_second });
            i = i + 1;
        }
        r
    }

    /// The reference instants of the window, `INTERPOLATION_FACTOR` per
    /// sampling interval, the end of the window included.
    pub fn continuous_times(&self) -> (r: Vec<TimePoint>)
        requires
            self.wf(),
        ensures
            is_continuous_grid(*self, r@),
            forall|j: int| 0 <= j < r@.len() ==> (#[trigger] r@[j]).within_window(),
    {
        let n = self.continuous_count();
        let per_second = (self.sampling_rate as u64) * INTERPOLATION_FACTOR;
        let mut r: Vec<TimePoint> = Vec::with_capacity(n);
        let mut j: usize = 0;
        while j < n
            invariant
                self.wf(),
                n == spec_continuous_count(self.sampling_rate as int),
                per_second == self.sampling_rate * INTERPOLATION_FACTOR,
                j <= n,
                r@.len() == j,
                forall|k: int|
                    0 <= k < j ==> #[trigger] r@[k] == (TimePoint {
                        ticks: k as u64,
                        ticks_per_second: per_second,
                    }),
            decreases n - j,
        {
            r.push(TimePoint { ticks: j as u64, ticks_per_second: per_second });
            j = j + 1;
        }
        r
    }

    /// Quantizes the raw sampled amplitudes at this parameter set's bit depth.
    pub fn quantize_samples(&self, raw: &Vec<i64>) -> (r: Vec<i64>)
        requires
            self.wf(),
            forall|i: int| 0 <= i < raw@.len() ==> in_amplitude_range(#[trigger] raw@[i] as int),
        ensures
            is_quantized_series(self.bit_depth, raw@, r@),
            forall|i: int| 0 <= i < r@.len() ==> in_amplitude_range(#[trigger] r@[i] as int),
    {
        let b = self.bit_depth;
        let mut r: Vec<i64> = Vec::with_capacity(raw.len());
        let mut i: usize = 0;
        while i < raw.len()
            invariant
                valid_bit_depth(b),
                b == self.bit_depth,
                forall|k: int| 0 <= k < raw@.len() ==> in_amplitude_range(#[trigger] raw@[k] as int),
                i <= raw@.len(),
                r@.len() == i,
                forall|k: int|
                    0 <= k < i ==> #[trigger] r@[k] == level_amplitude(
                        b as nat,
                        quantized_level(b as nat, raw@[k] as int),
                    ),
                forall|k: int| 0 <= k < i ==> in_amplitude_range(#[trigger] r@[k] as int),
            decreases raw@.len() - i,
        {
            proof {
                lemma_level_in_range(b, raw@[i as int] as int);
            }
            let q = quantize(b, raw[i]);
            r.push(dequantize(b, q));
            i = i + 1;
        }
        r
    }
}

/// The series are functions of their inputs: two runs on equal parameter sets
/// and equal raw amplitudes yield equal time grids and equal quantized series.
pub proof fn lemma_series_are_deterministic(
    p1: SignalParams,
    p2: SignalParams,
    raw1: Seq<i64>,
    raw2: Seq<i64>,
    samples1: Seq<TimePoint>,
    samples2: Seq<TimePoint>,
    reference1: Seq<TimePoint>,
    reference2: Seq<TimePoint>,
    q1: Seq<i64>,
    q2: Seq<i64>,
)
    requires
        p1 == p2,
        raw1 == raw2,
        is_sample_grid(p1, samples1),
        is_sample_grid(p2, samples2),
        is_continuous_grid(p1, reference1),
        is_continuous_grid(p2, reference2),
        is_quantized_series(p1.bit_depth, raw1, q1),
        is_quantized_series(p2.bit_depth, raw2, q2),
    ensures
        samples1 == samples2,
        reference1 == reference2,
        q1 == q2,
{
    assert(samples1 =~= samples2);
    assert(reference1 =~= reference2);
    assert(q1 =~= q2);
}

/// A quantized series is its own quantization: quantizing it again at the
/// same bit depth gives it back unchanged.
pub proof fn lemma_requantized_series_unchanged(bit_depth: u32, raw: Seq<i64>, q: Seq<i64>)
    requires
        valid_bit_depth(bit_depth),
        is_quantized_series(bit_depth, raw, q),
    ensures
        is_quantized_series(bit_depth, q, q),
{
    assert forall|i: int| 0 <= i < q.len() implies #[trigger] q[i] == level_amplitude(
        bit_depth as nat,
        quantized_level(bit_depth as nat, q[i] as int),
    ) by {
        lemma_requantize_is_identity(bit_depth, raw[i] as int);
    }
}

} // verus!
