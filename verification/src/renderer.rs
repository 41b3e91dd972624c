//! What the renderer decides and keeps without a graphics device: the size
//! it draws at, its copy of the spectrogram, and the surface format it asks
//! for.

use crate::fft_buffer::{FFTBuffer, FFTDimensions};
use crate::spectrogram::Spectrogram;
use vstd::prelude::*;

verus! {

/// The size of the drawing surface in physical pixels.
#[derive(Clone, Copy, Debug, PartialEq, Eq, Structural)]
pub struct SurfaceSize {
    pub width: u32,
    pub height: u32,
}

impl SurfaceSize {
    /// A surface can be configured at this size: it has pixels.
    pub open spec fn drawable(&self) -> bool {
        self.width > 0 && self.height > 0
    }
}

/// The renderer, as far as it is independent of the device it draws with.
pub struct Renderer {
    /// The size that the surface is configured at.
    pub size: SurfaceSize,
    /// The copy of the spectrogram that is uploaded each frame.
    pub fft_buffer: FFTBuffer,
}

impl Renderer {
    /// A renderer for a surface of the given size, with a zeroed copy of the
    /// spectrogram.
    pub fn new(size: SurfaceSize, fft_dimensions: &FFTDimensions) -> (renderer: Self)
        requires
            fft_dimensions.wf(),
        ensures
            renderer.size == size,
            renderer.fft_buffer.wf(),
            renderer.fft_buffer.width == fft_dimensions.spec_texture_width(),
            renderer.fft_buffer.height == fft_dimensions.spec_texture_height(),
            renderer.fft_buffer.buffer@ == Seq::new(
                fft_dimensions.spec_texture_size(),
                |i: int| 0u32,
            ),
    {
        Renderer { size, fft_buffer: FFTBuffer::from_buffer(fft_dimensions) }
    }

    /// Takes over a new size if a surface can be configured at it, and tells
    /// whether it did, so that the surface is configured anew. A window that
    /// is minimized reports a size without pixels, which is ignored.
    pub fn resize(&mut self, new_size: SurfaceSize) -> (resized: bool)
        ensures
            resized == new_size.drawable(),
            final(self).size == if resized {
                new_size
            } else {
                old(self).size
            },
            final(self).fft_buffer == old(self).fft_buffer,
    {
        if new_size.width > 0 && new_size.height > 0 {
            self.size = new_size;
            true
        } else {
            false
        }
    }

    /// Takes over what the analysis published, if the renderer got hold of
    /// it. When it did not, because the writer held the lock, the copy stays
    /// as it is and the frame shows the previous spectra once more. The
    /// renderer never waits for the writer.
    pub fn update(&mut self, published: Option<&Spectrogram>)
        requires
            published matches Some(texture) ==> texture@.len() == old(self).fft_buffer.buffer@.len(),
        ensures
            final(self).size == old(self).size,
            final(self).fft_buffer.width == old(self).fft_buffer.width,
            final(self).fft_buffer.height == old(self).fft_buffer.height,
            old(self).fft_buffer.wf() ==> final(self).fft_buffer.wf(),
            final(self).fft_buffer.buffer@ == match published {
                Some(texture) => texture@,
                None => old(self).fft_buffer.buffer@,
            },
    {
        match published {
            Some(texture) => {
                let cells = texture.cells();
                let total = self.fft_buffer.buffer.len();
                let mut i: usize = 0;
                while i < total
                    invariant
                        i <= total,
                        total == cells@.len(),
                        self.fft_buffer.buffer@.len() == total,
                        self.size == old(self).size,
                        self.fft_buffer.width == old(self).fft_buffer.width,
                        self.fft_buffer.height == old(self).fft_buffer.height,
                        forall|j: int|
                            0 <= j < i ==> #[trigger] self.fft_buffer.buffer@[j] == cells@[j],
                    decreases total - i,
                {
                    self.fft_buffer.buffer[i] = cells[i];
                    i = i + 1;
                }
                proof {
                    assert(self.fft_buffer.buffer@ =~= texture@);
                }
            },
            None => {},
        }
    }
}

/// Picks the surface format, as an index into the formats that the surface
/// offers, each given by whether it is an sRGB format: the first that is not,
/// so that the shader's output is shown unconverted, and the first of all
/// where every format is sRGB. The surface offers at least one format.
pub fn pick_surface_format(srgb: &[bool]) -> (index: usize)
    requires
        srgb@.len() > 0,
    ensures
        index < srgb@.len(),
        forall|i: int| 0 <= i < index ==> srgb@[i],
        !srgb@[index as int] || (index == 0 && forall|i: int| 0 <= i < srgb@.len() ==> srgb@[i]),
{
    let mut i: usize = 0;
    while i < srgb.len()
        invariant
            i <= srgb@.len(),
            forall|j: int| 0 <= j < i ==> srgb@[j],
        decreases srgb@.len() - i,
    {
        if !srgb[i] {
            return i;
        }
        i = i + 1;
    }
    0
}

} // verus!
