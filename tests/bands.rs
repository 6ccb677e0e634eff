use iter_num_tools::log_space;
use openwhisper::{
    band_ranges, frequency_bin, plan_bands, AnalysisError, BandPlan, BandRange, FFT_SIZE,
};
use rustfft::{num_complex::Complex, FftPlanner};

fn boundaries(plan: &BandPlan) -> Vec<usize> {
    log_space(plan.low_bin as f32..=plan.high_bin as f32, plan.band_count + 1)
        .map(|x| x as usize)
        .collect()
}

#[test]
fn plan_at_sixteen_khz() {
    let plan = plan_bands(16, 16000).unwrap();
    assert_eq!(
        plan,
        BandPlan { band_count: 16, sample_rate: 16000, low_bin: 12, high_bin: 2048 }
    );
}

#[test]
fn plan_at_cd_rate() {
    let plan = plan_bands(8, 44100).unwrap();
    assert_eq!(plan.low_bin, 4);
    assert_eq!(plan.high_bin, 743);
}

#[test]
fn zero_bands_rejected() {
    assert_eq!(plan_bands(0, 16000), Err(AnalysisError::NoBands));
    assert_eq!(plan_bands(0, 0), Err(AnalysisError::NoBands));
}

#[test]
fn zero_rate_rejected() {
    assert_eq!(plan_bands(4, 0), Err(AnalysisError::ZeroSampleRate));
}

#[test]
fn bins_of_frequencies() {
    assert_eq!(frequency_bin(1000, 16000), 256);
    assert_eq!(frequency_bin(50, 48000), 4);
    assert_eq!(frequency_bin(8000, 48000), 682);
    assert_eq!(frequency_bin(8000, 8000), 2048);
    assert_eq!(frequency_bin(0, 8000), 0);
}

#[test]
fn ranges_follow_boundaries() {
    let plan = plan_bands(3, 16000).unwrap();
    let r = band_ranges(&plan, &[12, 40, 40, 3000]).unwrap();
    assert_eq!(
        r,
        vec![
            BandRange { start: 12, end: 40 },
            BandRange { start: 40, end: 40 },
            BandRange { start: 40, end: 2048 },
        ]
    );
    assert!(r[1].is_empty());
    assert!(!r[0].is_empty());
    assert_eq!(r[0].center_bin(), 26);
    assert_eq!(BandRange { start: 3, end: 6 }.center_bin(), 4);
}

#[test]
fn ranges_clamp_to_plan() {
    let plan = plan_bands(2, 16000).unwrap();
    let r = band_ranges(&plan, &[0, 100, 50]).unwrap();
    assert_eq!(r, vec![BandRange { start: 12, end: 100 }, BandRange { start: 100, end: 100 }]);
}

#[test]
fn wrong_boundary_count_rejected() {
    let plan = plan_bands(3, 16000).unwrap();
    assert_eq!(band_ranges(&plan, &[1, 2, 3]), Err(AnalysisError::BoundaryCount));
    assert_eq!(band_ranges(&plan, &[]), Err(AnalysisError::BoundaryCount));
}

#[test]
fn one_range_per_band() {
    for n in [1usize, 2, 16, 64] {
        let plan = plan_bands(n, 48000).unwrap();
        let r = band_ranges(&plan, &boundaries(&plan)).unwrap();
        assert_eq!(r.len(), n);
        for w in r.windows(2) {
            assert_eq!(w[0].end, w[1].start);
        }
    }
}

#[test]
fn sine_lands_in_its_band() {
    let rate = 16000u32;
    let plan = plan_bands(16, rate).unwrap();
    let ranges = band_ranges(&plan, &boundaries(&plan)).unwrap();
    let mut buffer: Vec<Complex<f32>> = (0..FFT_SIZE)
        .map(|i| {
            let t = i as f32 / rate as f32;
            Complex::new((2.0 * std::f32::consts::PI * 1000.0 * t).sin(), 0.0)
        })
        .collect();
    FftPlanner::new().plan_fft_forward(FFT_SIZE).process(&mut buffer);
    let averages: Vec<f32> = ranges
        .iter()
        .map(|r| {
            if r.is_empty() {
                0.0
            } else {
                buffer[r.start..r.end].iter().map(|c| c.norm()).sum::<f32>()
                    / (r.end - r.start) as f32
            }
        })
        .collect();
    let bin = frequency_bin(1000, rate);
    let peak = ranges.iter().position(|r| r.start <= bin && bin < r.end).unwrap();
    let low = frequency_bin(200, rate);
    let high = frequency_bin(4000, rate);
    for (i, r) in ranges.iter().enumerate() {
        if r.end <= low || r.start > high {
            assert!(averages[peak] > 10.0 * averages[i] + 1.0);
        }
    }
}
