//! The sizes of the pipeline, and the renderer's own copy of the spectrogram
//! from which the texture is uploaded.

use vstd::arithmetic::power2::is_pow2;
use vstd::prelude::*;

verus! {

/// Sizes of the spectral pipeline, chosen once at start-up.
///
/// Every derived size is a function of these four values alone.
#[derive(Clone, Copy, Debug)]
pub struct FFTDimensions {
    /// Number of samples in one transform.
    pub fft_size: usize,
    /// Number of spectra kept: the height of the texture.
    pub time_slices: usize,
    /// Bit pattern of the smoothing coefficient, the weight of the previous
    /// magnitude in the running average.
    pub smoothing: u32,
    /// Capacity of the sample queue, in transforms.
    pub ring_factor: usize,
}

/// Bit pattern of the default smoothing coefficient, 0.8 in single precision.
pub const DEFAULT_SMOOTHING: u32 = 0x3F4C_CCCD;

/// Bytes that one cell of the texture takes: a single-precision value.
pub const BYTES_PER_CELL: u32 = 4;

/// Whether the derived sizes of these four values fit the integer types that
/// carry them.
pub open spec fn dimensions_fit(fft_size: usize, time_slices: usize, ring_factor: usize) -> bool {
    &&& fft_size / 4 <= u32::MAX
    &&& time_slices <= u32::MAX
    &&& (fft_size / 4) * time_slices <= u32::MAX
    &&& fft_size * ring_factor <= usize::MAX
}

impl FFTDimensions {
    /// The derived sizes are representable.
    pub open spec fn wf(&self) -> bool {
        dimensions_fit(self.fft_size, self.time_slices, self.ring_factor)
    }

    /// Width of the texture: the lower quarter of the spectrum.
    pub open spec fn spec_texture_width(&self) -> nat {
        self.fft_size as nat / 4
    }

    /// Height of the texture: one row per spectrum kept.
    pub open spec fn spec_texture_height(&self) -> nat {
        self.time_slices as nat
    }

    /// Number of cells in the texture.
    pub open spec fn spec_texture_size(&self) -> nat {
        self.spec_texture_width() * self.spec_texture_height()
    }

    /// Capacity of the sample queue.
    pub open spec fn spec_ring_size(&self) -> nat {
        self.fft_size as nat * self.ring_factor as nat
    }

    /// Tells whether `new` accepts these values.
    pub fn fits(fft_size: usize, time_slices: usize, ring_factor: usize) -> (ok: bool)
        ensures
            ok == dimensions_fit(fft_size, time_slices, ring_factor),
    {
        if fft_size / 4 > u32::MAX as usize || time_slices > u32::MAX as usize {
            return false;
        }
        let cells = (fft_size / 4).checked_mul(time_slices);
        let ring = fft_size.checked_mul(ring_factor);
        match (cells, ring) {
            (Some(c), Some(_)) => c <= u32::MAX as usize,
            _ => false,
        }
    }

    /// The dimensions made of these four values, whose derived sizes have to
    /// be representable.
    pub fn new(fft_size: usize, time_slices: usize, smoothing: u32, ring_factor: usize) -> (d: Self)
        requires
            dimensions_fit(fft_size, time_slices, ring_factor),
        ensures
            d.wf(),
            d.fft_size == fft_size,
            d.time_slices == time_slices,
            d.smoothing == smoothing,
            d.ring_factor == ring_factor,
    {
        FFTDimensions { fft_size, time_slices, smoothing, ring_factor }
    }

    /// Whether the transform size is a power of two, the sizes for which the
    /// transform is fastest. Other sizes are accepted all the same.
    pub fn is_power_of_two(&self) -> (b: bool)
        ensures
            b == is_pow2(self.fft_size as int),
    {
        let mut n: usize = self.fft_size;
        if n == 0 {
            proof {
                reveal(is_pow2);
            }
            return false;
        }
        while n % 2 == 0
            invariant
                n > 0,
                is_pow2(n as int) == is_pow2(self.fft_size as int),
            decreases n,
        {
            proof {
                reveal(is_pow2);
            }
            n = n / 2;
        }
        proof {
            reveal(is_pow2);
        }
        n == 1
    }

    /// A quarter of the transform size: the bins from 0 to about 10 kHz of a
    /// 44.1 kHz source.
    pub fn texture_width(&self) -> (w: u32)
        requires
            self.wf(),
        ensures
            w == self.spec_texture_width(),
            w == self.fft_size / 4,
    {
        (self.fft_size / 4) as u32
    }

    /// One row per spectrum kept.
    pub fn texture_height(&self) -> (h: u32)
        requires
            self.wf(),
        ensures
            h == self.spec_texture_height(),
    {
        self.time_slices as u32
    }

    /// Cells in the texture: width times height.
    pub fn texture_size(&self) -> (n: usize)
        requires
            self.wf(),
        ensures
            n == self.spec_texture_size(),
    {
        (self.fft_size / 4) * self.time_slices
    }

    /// Samples that the queue between capture and analysis holds.
    pub fn ring_size(&self) -> (n: usize)
        requires
            self.wf(),
        ensures
            n == self.spec_ring_size(),
            n == self.fft_size * self.ring_factor as nat,
    {
        self.fft_size * self.ring_factor
    }
}

/// For a transform size that is a power of two and a queue factor of at
/// least one, the texture is a quarter of the transform wide, exactly so from
/// a size of four on, and the queue holds the factor's number of transforms.
pub proof fn lemma_derived_sizes(d: FFTDimensions)
    requires
        is_pow2(d.fft_size as int),
        d.ring_factor >= 1,
    ensures
        d.spec_texture_width() == d.fft_size / 4,
        d.fft_size >= 4 ==> 4 * d.spec_texture_width() == d.fft_size,
        d.spec_texture_height() == d.time_slices,
        d.spec_texture_size() == d.spec_texture_width() * d.time_slices,
        d.spec_ring_size() == d.fft_size * d.ring_factor,
        d.spec_ring_size() >= d.fft_size,
{
    reveal(is_pow2);
    if d.fft_size >= 4 {
        let half = d.fft_size as int / 2;
        assert(is_pow2(half));
        assert(half % 2 == 0);
    }
    assert(d.spec_ring_size() >= d.fft_size) by (nonlinear_arith)
        requires
            d.spec_ring_size() == d.fft_size * d.ring_factor,
            d.ring_factor >= 1,
    ;
}

impl Default for FFTDimensions {
    /// Transforms of 1024 samples, 100 spectra of history, a smoothing of 0.8
    /// and a queue of four transforms.
    fn default() -> (d: Self)
        ensures
            d.wf(),
            d.fft_size == 1024,
            d.time_slices == 100,
            d.smoothing == DEFAULT_SMOOTHING,
            d.ring_factor == 4,
    {
        FFTDimensions::new(1024, 100, DEFAULT_SMOOTHING, 4)
    }
}

/// The renderer's copy of the spectrogram, laid out as the texture it is
/// uploaded to: `height` rows of `width` cells.
pub struct FFTBuffer {
    pub buffer: Vec<u32>,
    pub width: u32,
    pub height: u32,
}

impl FFTBuffer {
    /// The buffer holds one cell for each texel.
    pub open spec fn wf(&self) -> bool {
        self.buffer@.len() == self.width * self.height
    }

    /// A copy for a texture of the given dimensions, every cell zero.
    pub fn from_buffer(fft_dimensions: &FFTDimensions) -> (copy: Self)
        requires
            fft_dimensions.wf(),
        ensures
            copy.wf(),
            copy.width == fft_dimensions.spec_texture_width(),
            copy.height == fft_dimensions.spec_texture_height(),
            copy.buffer@ == Seq::new(fft_dimensions.spec_texture_size(), |i: int| 0u32),
    {
        let size = fft_dimensions.texture_size();
        let mut buffer: Vec<u32> = Vec::with_capacity(size);
        while buffer.len() < size
            invariant
                buffer@.len() <= size,
                buffer@ == Seq::new(buffer@.len(), |i: int| 0u32),
            decreases size - buffer@.len(),
        {
            buffer.push(0);
        }
        FFTBuffer {
            buffer,
            width: fft_dimensions.texture_width(),
            height: fft_dimensions.texture_height(),
        }
    }

    /// Bytes from one row of the texture to the next, or `None` for a texture
    /// without columns.
    pub fn bytes_per_row(&self) -> (stride: Option<u32>)
        requires
            BYTES_PER_CELL * self.width <= u32::MAX,
        ensures
            stride == if self.width == 0 {
                None
            } else {
                Some((BYTES_PER_CELL * self.width) as u32)
            },
    {
        if self.width == 0 {
            None
        } else {
            Some(BYTES_PER_CELL * self.width)
        }
    }

    /// Rows in the texture, or `None` for a texture without rows.
    pub fn rows_per_image(&self) -> (rows: Option<u32>)
        ensures
            rows == if self.height == 0 {
                None
            } else {
                Some(self.height)
            },
    {
        if self.height == 0 {
            None
        } else {
            Some(self.height)
        }
    }
}

} // verus!
