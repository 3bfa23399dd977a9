use wispr::sample::{
    loud_pcm, loud_rms, pcm_from_pcm_buffer, pcm_from_scaled, pcm_from_scaled_buffer,
    FLUSH_THRESHOLD, FULL_SCALE, LOUDNESS_THRESHOLD_BITS, POSITIVE_INFINITY_BITS,
};

/// What a float sample is stored as when it is clipped to [-1, 1], scaled and
/// truncated in floating point.
fn clip_scale_truncate(sample: f32) -> i16 {
    let clipped = if sample > 1.0 {
        1.0
    } else if sample < -1.0 {
        -1.0
    } else {
        sample
    };
    (clipped * 32767.0) as i16
}

fn scaled(sample: f32) -> i32 {
    (sample * 32767.0) as i32
}

#[test]
fn scaled_sample_within_range_is_kept() {
    assert_eq!(pcm_from_scaled(0), 0);
    assert_eq!(pcm_from_scaled(1), 1);
    assert_eq!(pcm_from_scaled(-1), -1);
    assert_eq!(pcm_from_scaled(12345), 12345);
    assert_eq!(pcm_from_scaled(-12345), -12345);
    assert_eq!(pcm_from_scaled(32767), 32767);
    assert_eq!(pcm_from_scaled(-32767), -32767);
}

#[test]
fn scaled_sample_above_full_scale_saturates() {
    assert_eq!(pcm_from_scaled(32768), 32767);
    assert_eq!(pcm_from_scaled(40000), 32767);
    assert_eq!(pcm_from_scaled(65534), 32767);
    assert_eq!(pcm_from_scaled(i32::MAX), 32767);
}

#[test]
fn scaled_sample_below_full_scale_saturates() {
    assert_eq!(pcm_from_scaled(-32768), -32767);
    assert_eq!(pcm_from_scaled(-40000), -32767);
    assert_eq!(pcm_from_scaled(-65534), -32767);
    assert_eq!(pcm_from_scaled(i32::MIN), -32767);
}

#[test]
fn float_buffer_beyond_unit_range_is_written_saturated() {
    let samples: [f32; 8] = [1.5, -1.5, 2.0, -2.0, 1.0, -1.0, 1000.0, -1000.0];
    let input: Vec<i32> = samples.iter().map(|&s| scaled(s)).collect();
    let out = pcm_from_scaled_buffer(&input);
    assert_eq!(out, vec![32767, -32767, 32767, -32767, 32767, -32767, 32767, -32767]);
}

#[test]
fn float_conversion_agrees_with_clip_scale_truncate() {
    let samples: [f32; 16] = [
        0.0,
        -0.0,
        0.5,
        -0.5,
        0.25,
        -0.75,
        0.999_99,
        -0.999_99,
        1.0,
        -1.0,
        1.000_000_1,
        -1.000_000_1,
        3.0e38,
        -3.0e38,
        0.000_03,
        -0.000_03,
    ];
    for &s in samples.iter() {
        assert_eq!(pcm_from_scaled(scaled(s)), clip_scale_truncate(s), "sample {}", s);
    }
}

#[test]
fn float_conversion_of_non_finite_samples() {
    assert_eq!(pcm_from_scaled(scaled(f32::NAN)), clip_scale_truncate(f32::NAN));
    assert_eq!(pcm_from_scaled(scaled(f32::NAN)), 0);
    assert_eq!(pcm_from_scaled(scaled(f32::INFINITY)), 32767);
    assert_eq!(pcm_from_scaled(scaled(f32::NEG_INFINITY)), -32767);
    assert_eq!(clip_scale_truncate(f32::INFINITY), 32767);
    assert_eq!(clip_scale_truncate(f32::NEG_INFINITY), -32767);
}

#[test]
fn float_conversion_sweep_agrees_with_clip_scale_truncate() {
    let mut s: f32 = -1.25;
    while s <= 1.25 {
        assert_eq!(pcm_from_scaled(scaled(s)), clip_scale_truncate(s), "sample {}", s);
        s += 0.000_37;
    }
}

#[test]
fn scaled_buffer_is_converted_in_order() {
    let out = pcm_from_scaled_buffer(&[0, 16383, -16383, 32767, 32768, -32768, -99999]);
    assert_eq!(out, vec![0, 16383, -16383, 32767, 32767, -32767, -32767]);
    assert_eq!(pcm_from_scaled_buffer(&[]), Vec::<i16>::new());
}

#[test]
fn pcm_buffer_is_copied_as_it_came() {
    let data: [i16; 6] = [0, 1, -1, i16::MAX, i16::MIN, 1234];
    assert_eq!(pcm_from_pcm_buffer(&data), data.to_vec());
    assert_eq!(pcm_from_pcm_buffer(&[]), Vec::<i16>::new());
}

#[test]
fn empty_pcm_buffer_is_not_loud() {
    assert!(!loud_pcm(&[]));
}

#[test]
fn silent_pcm_buffer_is_not_loud() {
    assert!(!loud_pcm(&[0; 512]));
}

#[test]
fn constant_pcm_buffer_is_loud_from_99() {
    // 0.003 * 32767 = 98.301: a constant buffer is loud from 99 on.
    assert!(!loud_pcm(&[98; 64]));
    assert!(loud_pcm(&[99; 64]));
    assert!(!loud_pcm(&[-98; 64]));
    assert!(loud_pcm(&[-99; 64]));
    assert!(!loud_pcm(&[98]));
    assert!(loud_pcm(&[99]));
}

#[test]
fn single_peak_pcm_buffer_threshold() {
    // One sample v among four: loud when 1_000_000 * v^2 > 9 * 32767^2 * 4,
    // that is when v^2 > 38652.3: from 197 on.
    assert!(!loud_pcm(&[0, 0, 0, 196]));
    assert!(loud_pcm(&[0, 0, 0, 197]));
    assert!(loud_pcm(&[197, 0, 0, 0]));
}

#[test]
fn extreme_pcm_buffer_is_loud() {
    assert!(loud_pcm(&[i16::MIN; 4096]));
    assert!(loud_pcm(&[i16::MAX; 4096]));
}

#[test]
fn loudness_matches_float_rms_away_from_threshold() {
    let buffers: [Vec<i16>; 5] = [
        vec![10, -20, 30, -40, 50],
        vec![500, -500, 500, -500],
        vec![0, 0, 0, 0, 3000],
        vec![90, 91, 92, 93, 94, 95],
        vec![120, -130, 110, -105],
    ];
    for b in buffers.iter() {
        let mean_square: f64 =
            b.iter().map(|&s| (s as f64 / 32767.0) * (s as f64 / 32767.0)).sum::<f64>()
                / b.len() as f64;
        assert_eq!(loud_pcm(b), mean_square.sqrt() > 0.003, "buffer {:?}", b);
    }
}

#[test]
fn threshold_bits_are_those_of_the_threshold() {
    assert_eq!(LOUDNESS_THRESHOLD_BITS, 0.003f32.to_bits());
    assert_eq!(POSITIVE_INFINITY_BITS, f32::INFINITY.to_bits());
}

#[test]
fn rms_reading_at_threshold_is_not_loud() {
    assert!(!loud_rms(0.003f32.to_bits()));
    assert!(loud_rms(0.003f32.to_bits() + 1));
    assert!(!loud_rms(0.003f32.to_bits() - 1));
}

#[test]
fn rms_reading_is_compared_as_the_float_is() {
    let readings: [f32; 12] = [
        0.0,
        1.0e-9,
        0.001,
        0.002_999,
        0.003,
        0.003_001,
        0.01,
        0.5,
        1.0,
        25.0,
        f32::MAX,
        f32::MIN_POSITIVE,
    ];
    for &r in readings.iter() {
        assert_eq!(loud_rms(r.to_bits()), r > 0.003, "reading {}", r);
    }
}

#[test]
fn rms_reading_that_is_no_number_is_not_loud() {
    assert!(!loud_rms(f32::NAN.to_bits()));
    assert!(!loud_rms(0x7F80_0001));
    assert!(!loud_rms(0x7FFF_FFFF));
    assert!(!loud_rms(0xFFC0_0000));
}

#[test]
fn infinite_rms_reading_is_loud() {
    assert!(loud_rms(f32::INFINITY.to_bits()));
}

#[test]
fn negative_rms_reading_is_not_loud() {
    assert!(!loud_rms((-0.0f32).to_bits()));
    assert!(!loud_rms((-1.0f32).to_bits()));
    assert!(!loud_rms(f32::NEG_INFINITY.to_bits()));
}

#[test]
fn sample_constants() {
    assert_eq!(FULL_SCALE, 32767);
    assert_eq!(FLUSH_THRESHOLD, 1000);
}
