//! What the application keeps from frame to frame: the pipeline's sizes and a
//! frame-rate reading that is refreshed twice a second.

use crate::fft_buffer::FFTDimensions;
use vstd::prelude::*;

verus! {

/// Microseconds between two refreshes of the frame-rate reading.
pub const FPS_UPDATE_RATE_US: u128 = 500_000;

/// Microseconds in a second.
pub const MICROS_PER_SECOND: u128 = 1_000_000;

/// Frames per second at `frame_us` microseconds per frame, rounded down.
pub open spec fn spec_fps(frame_us: nat) -> nat
    recommends
        frame_us > 0,
{
    1_000_000nat / frame_us
}

/// The state that lasts from frame to frame.
pub struct State {
    /// The sizes of the pipeline.
    pub fft_dimensions: FFTDimensions,
    /// The frame rate as of the last refresh.
    pub delayed_fps: u64,
}

impl State {
    /// The default dimensions and a first frame-rate reading of 60.
    pub fn new() -> (state: Self)
        ensures
            state.fft_dimensions.wf(),
            state.fft_dimensions.fft_size == 1024,
            state.fft_dimensions.time_slices == 100,
            state.fft_dimensions.ring_factor == 4,
            state.delayed_fps == 60,
    {
        State { fft_dimensions: FFTDimensions::default(), delayed_fps: 60 }
    }

    /// The frame rate that a frame time of `frame_us` microseconds amounts
    /// to. A frame takes some time.
    pub fn get_fps(&self, frame_us: u128) -> (fps: u64)
        requires
            frame_us > 0,
        ensures
            fps == spec_fps(frame_us as nat),
    {
        (MICROS_PER_SECOND / frame_us) as u64
    }

    /// Ends a frame. Once more than half a second has passed since the
    /// reading was last refreshed, it is set to the rate of the frame just
    /// ended, and the caller restarts its refresh clock.
    pub fn update(&mut self, since_refresh_us: u128, frame_us: u128) -> (refreshed: bool)
        requires
            since_refresh_us > FPS_UPDATE_RATE_US ==> frame_us > 0,
        ensures
            refreshed == (since_refresh_us > FPS_UPDATE_RATE_US),
            final(self).fft_dimensions == old(self).fft_dimensions,
            final(self).delayed_fps == if refreshed {
                spec_fps(frame_us as nat) as u64
            } else {
                old(self).delayed_fps
            },
    {
        if since_refresh_us > FPS_UPDATE_RATE_US {
            self.delayed_fps = self.get_fps(frame_us);
            true
        } else {
            false
        }
    }
}

} // verus!
