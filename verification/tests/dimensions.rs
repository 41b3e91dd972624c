use audio_spectrum::fft_buffer::{FFTBuffer, FFTDimensions, BYTES_PER_CELL, DEFAULT_SMOOTHING};

#[test]
fn default_dimensions() {
    let d = FFTDimensions::default();
    assert_eq!(d.fft_size, 1024);
    assert_eq!(d.time_slices, 100);
    assert_eq!(d.ring_factor, 4);
    assert_eq!(f32::from_bits(d.smoothing), 0.8);
    assert_eq!(d.texture_width(), 256);
    assert_eq!(d.texture_height(), 100);
    assert_eq!(d.texture_size(), 25_600);
    assert_eq!(d.ring_size(), 4096);
}

#[test]
fn default_smoothing_is_four_fifths() {
    assert_eq!(DEFAULT_SMOOTHING, 0.8f32.to_bits());
}

#[test]
fn texture_width_is_a_quarter_of_every_power_of_two() {
    let mut fft_size: usize = 1;
    while fft_size <= 1 << 20 {
        for ring_factor in 1..6 {
            assert!(FFTDimensions::fits(fft_size, 7, ring_factor));
            let d = FFTDimensions::new(fft_size, 7, DEFAULT_SMOOTHING, ring_factor);
            assert!(d.is_power_of_two());
            assert_eq!(d.texture_width() as usize, fft_size / 4);
            assert_eq!(d.texture_height(), 7);
            assert_eq!(d.texture_size(), (fft_size / 4) * 7);
            assert_eq!(d.ring_size(), fft_size * ring_factor);
            if fft_size >= 4 {
                assert_eq!(4 * d.texture_width() as usize, fft_size);
            }
        }
        fft_size *= 2;
    }
}

#[test]
fn width_rounds_down_for_other_sizes() {
    let d = FFTDimensions::new(1000, 3, 0, 2);
    assert!(!d.is_power_of_two());
    assert_eq!(d.texture_width(), 250);
    let d = FFTDimensions::new(7, 3, 0, 2);
    assert_eq!(d.texture_width(), 1);
    assert_eq!(d.texture_size(), 3);
    let d = FFTDimensions::new(3, 3, 0, 2);
    assert_eq!(d.texture_width(), 0);
    assert_eq!(d.texture_size(), 0);
    assert_eq!(d.ring_size(), 6);
}

#[test]
fn power_of_two_is_told_apart() {
    for (size, expected) in [
        (0usize, false),
        (1, true),
        (2, true),
        (3, false),
        (4, true),
        (6, false),
        (1023, false),
        (1024, true),
        (1025, false),
        (1536, false),
        (usize::MAX, false),
        (1 << 31, true),
    ] {
        let d = FFTDimensions { fft_size: size, time_slices: 1, smoothing: 0, ring_factor: 0 };
        assert_eq!(d.is_power_of_two(), expected, "size {}", size);
    }
}

#[test]
fn fits_refuses_sizes_that_overflow() {
    assert!(FFTDimensions::fits(1024, 100, 4));
    assert!(FFTDimensions::fits(0, 0, 0));
    assert!(!FFTDimensions::fits(usize::MAX, 1, 2));
    assert!(!FFTDimensions::fits(1024, usize::MAX, 1));
    // 65536 / 4 * 262144 = 2^32, one more than a 32-bit count holds.
    assert!(!FFTDimensions::fits(1 << 16, 1 << 18, 1));
    assert!(FFTDimensions::fits(1 << 16, (1 << 18) - 1, 1));
}

#[test]
fn staging_copy_starts_zeroed() {
    let d = FFTDimensions::new(16, 3, 0, 2);
    let copy = FFTBuffer::from_buffer(&d);
    assert_eq!(copy.width, 4);
    assert_eq!(copy.height, 3);
    assert_eq!(copy.buffer, vec![0u32; 12]);
    assert_eq!(copy.bytes_per_row(), Some(16));
    assert_eq!(copy.rows_per_image(), Some(3));
    assert_eq!(BYTES_PER_CELL, 4);
}

#[test]
fn empty_texture_has_no_stride() {
    let d = FFTDimensions::new(2, 0, 0, 1);
    let copy = FFTBuffer::from_buffer(&d);
    assert_eq!(copy.buffer.len(), 0);
    assert_eq!(copy.bytes_per_row(), None);
    assert_eq!(copy.rows_per_image(), None);
}
