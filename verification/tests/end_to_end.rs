use audio_spectrum::audio_processor::{
    amplitude_history, apply_window, capture_block, drain_frame, normalize_into, sample_transport,
    smooth_into,
};
use audio_spectrum::fft_buffer::FFTDimensions;
use audio_spectrum::pacing::{frame_interval_us, Action, AnalysisLoop, Event};
use audio_spectrum::renderer::{Renderer, SurfaceSize};
use audio_spectrum::spectrogram::{Spectrogram, UNIT_BITS};
use rustfft::num_complex::Complex32;
use rustfft::FftPlanner;
use std::f32::consts::PI;

const DB_LO: f32 = -100.0;
const DB_HI: f32 = -10.0;

fn blackman(sample: f32, n: f32, len: f32) -> f32 {
    let a0 = (1.0 - 0.16) / 2.0;
    let a1 = 0.5;
    let a2 = 0.16 / 2.0;
    sample * (a0 - a1 * f32::cos((2.0 * PI * n) / len) + a2 * f32::cos((4.0 * PI * n) / len))
}

fn normalize(amplitude: f32) -> f32 {
    let db = (20.0 * f32::log10(amplitude)).clamp(DB_LO, DB_HI);
    (db - DB_LO) / (DB_HI - DB_LO)
}

fn tone(frequency: f32, sample_rate: f32, from: usize, count: usize) -> Vec<u32> {
    (from..from + count)
        .map(|n| (0.5 * f32::sin(2.0 * PI * frequency * n as f32 / sample_rate)).to_bits())
        .collect()
}

#[test]
fn pure_tone_lights_up_its_bin() {
    let sample_rate = 44_100u32;
    let frequency = 440.0f32;
    let dimensions = FFTDimensions::new(1024, 100, 0.8f32.to_bits(), 4);
    let fft_size = dimensions.fft_size;
    let width = dimensions.texture_width() as usize;
    let smoothing = f32::from_bits(dimensions.smoothing);

    let (mut producer, mut consumer) = sample_transport(&dimensions);
    let mut texture = Spectrogram::new(&dimensions);
    let mut renderer = Renderer::new(SurfaceSize { width: 640, height: 480 }, &dimensions);
    let interval = frame_interval_us(fft_size, sample_rate).unwrap();
    let mut machine = AnalysisLoop::new(interval);

    let fft = FftPlanner::<f32>::new().plan_fft_forward(fft_size);
    let mut scratch = vec![Complex32::default(); fft.get_inplace_scratch_len()];
    let mut amplitudes = amplitude_history(&dimensions);
    assert_eq!(amplitudes, vec![0u32; 512]);
    let mut magnitudes = vec![0u32; width];
    let mut frame = vec![0u32; fft_size];
    let mut transformed = vec![Complex32::default(); fft_size];
    let mut row = vec![0u32; width];

    let cycles = 30;
    let mut underruns = 0;
    let mut overflows = 0;
    for cycle in 0..cycles {
        assert_eq!(
            machine.step(Event::Tick { elapsed_us: interval as u128 + 1 }),
            Some(Action::Drain)
        );
        let underrun = drain_frame(&mut consumer, &mut frame);
        if underrun {
            underruns += 1;
        }
        apply_window(&mut frame, |sample, n, len| {
            blackman(f32::from_bits(sample), n as f32, len as f32).to_bits()
        });
        for (i, bits) in frame.iter().enumerate() {
            transformed[i] = Complex32::new(f32::from_bits(*bits), 0.0);
        }
        assert_eq!(
            machine.step(Event::Drained { underrun }),
            Some(Action::Transform { report_underrun: underrun })
        );
        fft.process_with_scratch(&mut transformed, &mut scratch);
        assert_eq!(machine.step(Event::Transformed), Some(Action::Publish));
        for i in 0..width {
            magnitudes[i] = (transformed[i] / fft_size as f32).norm().to_bits();
        }
        smooth_into(&mut amplitudes, &magnitudes, |previous, magnitude| {
            (smoothing * f32::from_bits(previous) + (1.0 - smoothing) * f32::from_bits(magnitude))
                .to_bits()
        });
        normalize_into(&mut row, &amplitudes, |amplitude| {
            normalize(f32::from_bits(amplitude)).to_bits()
        });
        assert!(texture.accepts(row.len()));
        texture.publish(&row);
        assert!(matches!(
            machine.step(Event::Published { spent_us: 500 }),
            Some(Action::Sleep { .. })
        ));
        assert_eq!(machine.step(Event::Woke), Some(Action::Poll));

        // The capture side delivers the next block while the analysis sleeps.
        if capture_block(&mut producer, &tone(frequency, sample_rate as f32, cycle * fft_size, fft_size)) {
            overflows += 1;
        }
    }
    assert_eq!(underruns, 0);
    assert_eq!(overflows, 0);

    renderer.update(Some(&texture));
    let newest: Vec<f32> = renderer.fft_buffer.buffer[..width]
        .iter()
        .map(|bits| f32::from_bits(*bits))
        .collect();
    let expected_bin = (frequency * fft_size as f32 / sample_rate as f32).round() as usize;
    assert_eq!(expected_bin, 10);
    for (bin, value) in newest.iter().enumerate() {
        assert!((0.0..=1.0).contains(value));
        if bin != expected_bin {
            assert!(
                *value < newest[expected_bin],
                "bin {} holds {}, bin {} holds {}",
                bin,
                value,
                expected_bin,
                newest[expected_bin]
            );
        }
    }
    // Half amplitude under this window peaks near -20 dB.
    assert!(newest[expected_bin] > 0.85 && newest[expected_bin] < 0.92);
    for cell in texture.cells() {
        assert!(*cell <= UNIT_BITS);
    }
    // The oldest rows were written while the queue still held silence.
    let silent_row = &texture.cells()[(cycles - 1) * width..cycles * width];
    assert!(silent_row.iter().all(|cell| *cell == 0));
    // Only the bins shown were smoothed.
    assert!(amplitudes[width..].iter().all(|bin| *bin == 0));
    assert!(f32::from_bits(amplitudes[expected_bin]) > 0.09);
    // Rows never written stay zero.
    assert!(texture.cells()[cycles * width..].iter().all(|cell| *cell == 0));
}
