use num_complex::Complex32;
use realfft::RealFftPlanner;
use spectrak::analyzer::{fft_used_buff_size, Analyzer, AnalyzerConfig, Polled};
use spectrak::ring::SampleRing;
use std::f32::consts::PI;

fn spectrum_of(samples: &[f32], fft_size: usize) -> Vec<f32> {
    let config = AnalyzerConfig::new(fft_size, 256).unwrap();
    let analyzer = Analyzer::new(&config);
    let (mut producer, mut consumer) = SampleRing::new(config.ring_capacity).split();
    let bits: Vec<u32> = samples.iter().map(|x| x.to_bits()).collect();
    for block in bits.chunks(256) {
        assert!(producer.push_block(block));
    }
    let window = match analyzer.poll(&mut consumer) {
        Polled::Window(w) => w,
        _ => panic!("a full window is queued"),
    };
    let m = (fft_size - 1) as f32;
    let mut input: Vec<f32> = window
        .iter()
        .enumerate()
        .map(|(i, b)| f32::from_bits(*b) * (0.5 - 0.5 * (2.0 * PI * i as f32 / m).cos()))
        .collect();
    let fft = RealFftPlanner::<f32>::new().plan_fft_forward(fft_size);
    let mut output: Vec<Complex32> = fft.make_output_vec();
    fft.process(&mut input, &mut output).unwrap();
    let bins = fft_used_buff_size(fft_size);
    assert_eq!(output.len(), bins);
    output.iter().map(|x| x.norm_sqr().sqrt() / bins as f32).collect()
}

#[test]
fn zero_input_gives_zero_frame_of_513_bins() {
    let frame = spectrum_of(&vec![0.0f32; 1024], 1024);
    assert_eq!(frame.len(), 513);
    assert!(frame.iter().all(|m| m.abs() < 1e-6));
}

#[test]
fn sine_at_bin_100_peaks_at_bin_100() {
    let samples: Vec<f32> = (0..1024).map(|n| (2.0 * PI * 100.0 * n as f32 / 1024.0).sin()).collect();
    let frame = spectrum_of(&samples, 1024);
    assert_eq!(frame.len(), 513);
    let (peak, peak_value) = frame
        .iter()
        .copied()
        .enumerate()
        .fold((0, 0.0f32), |best, (i, m)| if m > best.1 { (i, m) } else { best });
    assert_eq!(peak, 100);
    for (i, m) in frame.iter().enumerate() {
        assert!(*m >= 0.0);
        if (i as i64 - 100).abs() > 2 {
            assert!(*m < peak_value * 0.01, "bin {} is {} against peak {}", i, m, peak_value);
        }
    }
}

#[test]
fn constant_input_concentrates_in_dc_bin() {
    let frame = spectrum_of(&vec![0.5f32; 1024], 1024);
    assert!(frame[0] > 0.0);
    for m in &frame[2..] {
        assert!(*m < frame[0] * 1e-3);
    }
}
