use vstd::prelude::*;

verus! {

/// Size of the transform the analyzer applies to its window.
pub const FFT_SIZE: usize = 4096;

/// Lowest frequency, in Hz, that the bands cover.
pub const MIN_FREQUENCY: u32 = 50;

/// Highest frequency, in Hz, that the bands cover.
pub const MAX_FREQUENCY: u32 = 8000;

/// Highest bin index the bands may reach: half the transform size.
pub const MAX_BIN: usize = 2048;

/// Why a band analysis cannot be planned.
#[derive(Clone, Copy, Debug, PartialEq, Eq, Structural)]
pub enum AnalysisError {
    /// A band count of 0 was asked for.
    NoBands,
    /// The sample rate is 0.
    ZeroSampleRate,
    /// The boundaries given are not one more than the bands.
    BoundaryCount,
}

pub open spec fn min_nat(a: nat, b: nat) -> nat {
    if a <= b {
        a
    } else {
        b
    }
}

/// The transform bin of `freq` Hz at `rate` samples per second,
/// `freq * FFT_SIZE / rate` rounded down, and at most `MAX_BIN`.
pub open spec fn spec_frequency_bin(freq: nat, rate: nat) -> nat
    recommends
        rate > 0,
{
    min_nat(freq * (FFT_SIZE as nat) / rate, MAX_BIN as nat)
}

/// The transform bin of a frequency.
pub fn frequency_bin(freq: u32, sample_rate: u32) -> (b: usize)
    requires
        sample_rate > 0,
    ensures
        b == spec_frequency_bin(freq as nat, sample_rate as nat),
{
    let scaled: u64 = freq as u64 * FFT_SIZE as u64;
    let bin: u64 = scaled / sample_rate as u64;
    if bin > MAX_BIN as u64 {
        MAX_BIN
    } else {
        bin as usize
    }
}

/// What the analysis of one window needs besides the samples: how many
/// bands, the sample rate, and the bins of the lowest and highest frequency.
#[derive(Clone, Copy, Debug, PartialEq, Eq, Structural)]
pub struct BandPlan {
    pub band_count: usize,
    pub sample_rate: u32,
    pub low_bin: usize,
    pub high_bin: usize,
}

/// The plan for `band_count` bands at `sample_rate`.
pub open spec fn spec_band_plan(band_count: usize, sample_rate: u32) -> BandPlan
    recommends
        sample_rate > 0,
{
    BandPlan {
        band_count,
        sample_rate,
        low_bin: spec_frequency_bin(MIN_FREQUENCY as nat, sample_rate as nat) as usize,
        high_bin: spec_frequency_bin(MAX_FREQUENCY as nat, sample_rate as nat) as usize,
    }
}

/// Checks the parameters of an analysis and computes its bin range. A band
/// count of 0 is refused first, then a sample rate of 0.
pub fn plan_bands(band_count: usize, sample_rate: u32) -> (r: Result<BandPlan, AnalysisError>)
    ensures
        band_count == 0 ==> r == Err::<BandPlan, AnalysisError>(AnalysisError::NoBands),
        band_count > 0 && sample_rate == 0 ==> r == Err::<BandPlan, AnalysisError>(
            AnalysisError::ZeroSampleRate,
        ),
        band_count > 0 && sample_rate > 0 ==> r == Ok::<BandPlan, AnalysisError>(
            spec_band_plan(band_count, sample_rate),
        ),
{
    if band_count == 0 {
        return Err(AnalysisError::NoBands);
    }
    if sample_rate == 0 {
        return Err(AnalysisError::ZeroSampleRate);
    }
    Ok(BandPlan {
        band_count,
        sample_rate,
        low_bin: frequency_bin(MIN_FREQUENCY, sample_rate),
        high_bin: frequency_bin(MAX_FREQUENCY, sample_rate),
    })
}

/// The bins `start..end` of one band; empty when `start == end`.
#[derive(Clone, Copy, Debug, PartialEq, Eq, Structural)]
pub struct BandRange {
    pub start: usize,
    pub end: usize,
}

impl BandRange {
    /// The bin in the middle of the band, `(start + end) / 2`.
    pub fn center_bin(&self) -> (c: usize)
        ensures
            c == (self.start + self.end) / 2,
    {
        self.start / 2 + self.end / 2 + (self.start % 2 + self.end % 2) / 2
    }

    /// Whether the band holds no bin.
    pub fn is_empty(&self) -> (b: bool)
        ensures
            b == (self.end <= self.start),
    {
        self.end <= self.start
    }
}

/// `b` held to `low..=high`.
pub open spec fn clamp_bin(b: nat, low: nat, high: nat) -> nat {
    if b > high {
        if low > high {
            low
        } else {
            high
        }
    } else if b < low {
        low
    } else {
        b
    }
}

/// The band between two boundaries, both held to the plan's bin range; a
/// band whose end would fall before its start is empty.
pub open spec fn spec_band_range(plan: BandPlan, a: nat, b: nat) -> BandRange {
    let start = clamp_bin(a, plan.low_bin as nat, plan.high_bin as nat);
    let end = clamp_bin(b, plan.low_bin as nat, plan.high_bin as nat);
    BandRange { start: start as usize, end: if end < start { start as usize } else { end as usize } }
}

fn clamp_to_plan(plan: &BandPlan, b: usize) -> (r: usize)
    ensures
        r == clamp_bin(b as nat, plan.low_bin as nat, plan.high_bin as nat),
{
    if b > plan.high_bin {
        if plan.low_bin > plan.high_bin {
            plan.low_bin
        } else {
            plan.high_bin
        }
    } else if b < plan.low_bin {
        plan.low_bin
    } else {
        b
    }
}

/// The bins of each band, from the `band_count + 1` boundaries spaced
/// between the plan's lowest and highest bin. Band `i` runs from boundary
/// `i` to boundary `i + 1`; boundaries in ascending order give contiguous,
/// non-overlapping bands.
pub fn band_ranges(plan: &BandPlan, boundaries: &[usize]) -> (r: Result<
    Vec<BandRange>,
    AnalysisError,
>)
    ensures
        r is Err <==> boundaries@.len() != plan.band_count + 1,
        r is Err ==> r == Err::<Vec<BandRange>, AnalysisError>(AnalysisError::BoundaryCount),
        r matches Ok(v) ==> {
            &&& v@.len() == plan.band_count
            &&& forall|i: int|
                0 <= i < v@.len() ==> #[trigger] v@[i] == spec_band_range(
                    *plan,
                    boundaries@[i] as nat,
                    boundaries@[i + 1] as nat,
                )
        },
{
    if boundaries.len() == 0 || boundaries.len() - 1 != plan.band_count {
        return Err(AnalysisError::BoundaryCount);
    }
    let mut v: Vec<BandRange> = Vec::new();
    let mut i: usize = 0;
    while i < plan.band_count
        invariant
            boundaries@.len() == plan.band_count + 1,
            i <= plan.band_count,
            v@.len() == i,
            forall|j: int|
                0 <= j < i ==> #[trigger] v@[j] == spec_band_range(
                    *plan,
                    boundaries@[j] as nat,
                    boundaries@[j + 1] as nat,
                ),
        decreases plan.band_count - i,
    {
        let start = clamp_to_plan(plan, boundaries[i]);
        let end = clamp_to_plan(plan, boundaries[i + 1]);
        let range = if end < start {
            BandRange { start, end: start }
        } else {
            BandRange { start, end }
        };
        v.push(range);
        i = i + 1;
    }
    Ok(v)
}

/// Ascending boundaries give bands that follow each other without gap or
/// overlap, each within the plan's bin range and at most `MAX_BIN`.
pub proof fn lemma_bands_contiguous(plan: BandPlan, boundaries: Seq<usize>)
    requires
        plan == spec_band_plan(plan.band_count, plan.sample_rate),
        plan.sample_rate > 0,
        boundaries.len() == plan.band_count + 1,
        forall|i: int, j: int| 0 <= i <= j < boundaries.len() ==> boundaries[i] <= boundaries[j],
    ensures
        forall|i: int|
            0 <= i < plan.band_count ==> {
                let r = #[trigger] spec_band_range(plan, boundaries[i] as nat, boundaries[i + 1] as nat);
                plan.low_bin <= r.start <= r.end <= plan.high_bin <= MAX_BIN
            },
        forall|i: int|
            0 <= i < plan.band_count - 1 ==> #[trigger] spec_band_range(
                plan,
                boundaries[i] as nat,
                boundaries[i + 1] as nat,
            ).end == spec_band_range(plan, boundaries[i + 1] as nat, boundaries[i + 2] as nat).start,
{
    let rate = plan.sample_rate as nat;
    assert(MIN_FREQUENCY as nat * 4096 <= MAX_FREQUENCY as nat * 4096);
    assert((MIN_FREQUENCY as nat * 4096) / rate <= (MAX_FREQUENCY as nat * 4096) / rate) by (
    nonlinear_arith)
        requires
            rate > 0,
            MIN_FREQUENCY as nat * 4096 <= MAX_FREQUENCY as nat * 4096,
    ;
    assert forall|i: int| 0 <= i < plan.band_count - 1 implies #[trigger] spec_band_range(
        plan,
        boundaries[i] as nat,
        boundaries[i + 1] as nat,
    ).end == spec_band_range(plan, boundaries[i + 1] as nat, boundaries[i + 2] as nat).start by {
        assert(boundaries[i] <= boundaries[i + 1]);
    }
}

} // verus!
