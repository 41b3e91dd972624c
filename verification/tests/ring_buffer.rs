use audio_spectrum::audio_processor::{
    capture_block, capture_buffer_frames, drain_frame, sample_or_silence, sample_transport,
    SILENCE,
};
use audio_spectrum::fft_buffer::FFTDimensions;
use audio_spectrum::ring::SampleRing;

#[test]
fn push_then_pop_returns_samples_in_order() {
    let mut ring = SampleRing::new(4);
    assert_eq!(ring.capacity(), 4);
    assert_eq!(ring.push(1), Ok(()));
    assert_eq!(ring.push(2), Ok(()));
    assert_eq!(ring.pop(), Some(1));
    assert_eq!(ring.push(3), Ok(()));
    assert_eq!(ring.pop(), Some(2));
    assert_eq!(ring.pop(), Some(3));
    assert_eq!(ring.pop(), None);
}

#[test]
fn fifo_order_survives_wrapping_around() {
    let mut ring = SampleRing::new(3);
    let mut next_in: u32 = 0;
    let mut next_out: u32 = 0;
    for round in 0..50u32 {
        let pushes = 1 + round % 3;
        for _ in 0..pushes {
            if ring.push(next_in).is_ok() {
                next_in += 1;
            }
        }
        let pops = 1 + (round / 2) % 3;
        for _ in 0..pops {
            if let Some(sample) = ring.pop() {
                assert_eq!(sample, next_out);
                next_out += 1;
            }
        }
        assert!(next_in - next_out <= 3);
    }
    while let Some(sample) = ring.pop() {
        assert_eq!(sample, next_out);
        next_out += 1;
    }
    assert_eq!(next_in, next_out);
    assert!(next_in > 3);
}

#[test]
fn push_beyond_capacity_fails_and_keeps_the_queue() {
    let mut ring = SampleRing::new(2);
    assert_eq!(ring.push(10), Ok(()));
    assert_eq!(ring.push(20), Ok(()));
    assert_eq!(ring.push(30), Err(30));
    assert_eq!(ring.push(40), Err(40));
    assert_eq!(ring.pop(), Some(10));
    assert_eq!(ring.pop(), Some(20));
    assert_eq!(ring.pop(), None);
}

#[test]
fn pop_on_empty_reports_empty() {
    let mut ring = SampleRing::new(1);
    assert_eq!(ring.pop(), None);
    assert_eq!(ring.pop(), None);
    assert_eq!(ring.push(7), Ok(()));
    assert_eq!(ring.pop(), Some(7));
    assert_eq!(ring.pop(), None);
}

#[test]
fn filled_ring_is_full_of_silence() {
    let mut ring = SampleRing::filled(5);
    assert_eq!(ring.capacity(), 5);
    assert_eq!(ring.push(1), Err(1));
    for _ in 0..5 {
        assert_eq!(ring.pop(), Some(0));
    }
    assert_eq!(ring.pop(), None);
}

#[test]
fn samples_keep_their_bits() {
    let mut ring = SampleRing::new(4);
    for value in [0.0f32, -0.0, 1.5, f32::MIN_POSITIVE, -123.456] {
        assert_eq!(ring.push(value.to_bits()), Ok(()));
        assert_eq!(ring.pop().map(f32::from_bits).map(f32::to_bits), Some(value.to_bits()));
    }
}

#[test]
fn halves_share_the_queue() {
    let mut ring = SampleRing::new(3);
    assert_eq!(ring.push(1), Ok(()));
    let (mut producer, mut consumer) = ring.split();
    assert_eq!(producer.push(2), Ok(()));
    assert_eq!(producer.push(3), Ok(()));
    assert_eq!(producer.push(4), Err(4));
    assert_eq!(consumer.pop(), Some(1));
    assert_eq!(producer.push(5), Ok(()));
    assert_eq!(consumer.pop(), Some(2));
    assert_eq!(consumer.pop(), Some(3));
    assert_eq!(consumer.pop(), Some(5));
    assert_eq!(consumer.pop(), None);
}

#[test]
fn transport_starts_full_of_silence() {
    let d = FFTDimensions::new(4, 10, 0, 2);
    let (mut producer, mut consumer) = sample_transport(&d);
    // Eight samples of silence are queued, so nothing more goes in.
    assert_eq!(producer.push(1), Err(1));
    for _ in 0..8 {
        assert_eq!(consumer.pop(), Some(SILENCE));
    }
    assert_eq!(consumer.pop(), None);
    assert_eq!(producer.push(1), Ok(()));
    assert_eq!(consumer.pop(), Some(1));
}

#[test]
fn capture_block_queues_a_block_that_fits() {
    let (mut producer, mut consumer) = SampleRing::new(8).split();
    assert!(!capture_block(&mut producer, &[1, 2, 3]));
    assert!(!capture_block(&mut producer, &[]));
    assert!(!capture_block(&mut producer, &[4, 5]));
    for expected in 1..=5 {
        assert_eq!(consumer.pop(), Some(expected));
    }
    assert_eq!(consumer.pop(), None);
}

#[test]
fn capture_block_drops_what_does_not_fit() {
    let (mut producer, mut consumer) = SampleRing::new(4).split();
    assert!(!capture_block(&mut producer, &[1, 2, 3]));
    // One place is left: 4 gets in, 5 and 6 are dropped.
    assert!(capture_block(&mut producer, &[4, 5, 6]));
    // The flag is per block.
    assert_eq!(consumer.pop(), Some(1));
    assert!(!capture_block(&mut producer, &[7]));
    assert!(capture_block(&mut producer, &[8]));
    for expected in [2, 3, 4, 7] {
        assert_eq!(consumer.pop(), Some(expected));
    }
    assert_eq!(consumer.pop(), None);
}

#[test]
fn drain_frame_takes_one_frame_in_order() {
    let (mut producer, mut consumer) = SampleRing::new(8).split();
    assert!(!capture_block(&mut producer, &[1, 2, 3, 4, 5, 6]));
    let mut frame = vec![99u32; 4];
    assert!(!drain_frame(&mut consumer, &mut frame));
    assert_eq!(frame, vec![1, 2, 3, 4]);
    assert_eq!(consumer.pop(), Some(5));
    assert_eq!(consumer.pop(), Some(6));
}

#[test]
fn drain_frame_fills_an_underrun_with_silence() {
    let (mut producer, mut consumer) = SampleRing::new(8).split();
    assert!(!capture_block(&mut producer, &[1, 2]));
    let mut frame = vec![99u32; 4];
    assert!(drain_frame(&mut consumer, &mut frame));
    assert_eq!(frame, vec![1, 2, SILENCE, SILENCE]);

    // The queue is empty: a whole frame of silence.
    let mut frame = vec![99u32; 3];
    assert!(drain_frame(&mut consumer, &mut frame));
    assert_eq!(frame, vec![SILENCE; 3]);

    // An empty frame asks for nothing and cannot underrun.
    let mut frame: Vec<u32> = Vec::new();
    assert!(!drain_frame(&mut consumer, &mut frame));
    assert!(frame.is_empty());
}

#[test]
fn drain_after_start_up_yields_silence_without_underrun() {
    let d = FFTDimensions::new(4, 10, 0, 2);
    let (_producer, mut consumer) = sample_transport(&d);
    let mut frame = vec![99u32; 4];
    assert!(!drain_frame(&mut consumer, &mut frame));
    assert_eq!(frame, vec![0; 4]);
    assert!(!drain_frame(&mut consumer, &mut frame));
    assert!(drain_frame(&mut consumer, &mut frame));
}

#[test]
fn missing_sample_becomes_silence() {
    assert_eq!(sample_or_silence(Some(17)), (17, false));
    assert_eq!(sample_or_silence(Some(0)), (0, false));
    assert_eq!(sample_or_silence(None), (0, true));
    assert_eq!(f32::from_bits(SILENCE), 0.0);
}

#[test]
fn capture_block_size_follows_the_transform() {
    assert_eq!(capture_buffer_frames(true, 1024), Some(1024));
    assert_eq!(capture_buffer_frames(false, 1024), None);
    assert_eq!(capture_buffer_frames(true, 0), Some(0));
    assert_eq!(capture_buffer_frames(true, u32::MAX as usize), Some(u32::MAX));
    if usize::BITS > 32 {
        assert_eq!(capture_buffer_frames(true, u32::MAX as usize + 1), None);
    }
}
