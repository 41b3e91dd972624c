//! The scrolling spectrogram: the most recent spectra, newest first, as one
//! flat row-major texture shared between the analysis loop, which writes it,
//! and the renderer, which reads it.

use crate::fft_buffer::FFTDimensions;
use vstd::prelude::*;

verus! {

/// Bit pattern of 1.0 in single precision. The bit patterns of the values
/// from 0.0 to 1.0 are exactly the integers from 0 to this one, in the same
/// order.
pub const UNIT_BITS: u32 = 0x3F80_0000;

/// Every cell holds a magnitude in the unit interval.
pub open spec fn is_normalized(cells: Seq<u32>) -> bool {
    forall|i: int| 0 <= i < cells.len() ==> #[trigger] cells[i] <= UNIT_BITS
}

/// Row `k` of a row-major texture whose rows are `width` cells wide.
pub open spec fn row_of(cells: Seq<u32>, width: nat, k: int) -> Seq<u32> {
    cells.subrange(k * width, (k + 1) * width)
}

/// The texture after one more spectrum: the new row in front, every older row
/// one place further back, the oldest gone.
pub open spec fn spec_publish(cells: Seq<u32>, row: Seq<u32>) -> Seq<u32>
    recommends
        row.len() <= cells.len(),
{
    row + cells.take(cells.len() - row.len())
}

/// The texture after the spectra `rows`, given oldest first, were published
/// one after the other.
pub open spec fn spec_publish_all(cells: Seq<u32>, rows: Seq<Seq<u32>>) -> Seq<u32>
    decreases rows.len(),
{
    if rows.len() == 0 {
        cells
    } else {
        spec_publish(spec_publish_all(cells, rows.drop_last()), rows.last())
    }
}

proof fn lemma_row_bounds(width: nat, height: nat, k: int)
    requires
        0 <= k < height,
    ensures
        0 <= k * width,
        (k + 1) * width == k * width + width,
        (k + 1) * width <= width * height,
{
    assert(0 <= k * width) by (nonlinear_arith)
        requires
            0 <= k,
            0 <= width,
    ;
    assert((k + 1) * width == k * width + width) by (nonlinear_arith);
    assert((k + 1) * width <= width * height) by (nonlinear_arith)
        requires
            k + 1 <= height,
            0 <= width,
    ;
}

/// One publication moves every row one place back and puts the new spectrum
/// in row 0.
pub proof fn lemma_publish_rows(
    cells: Seq<u32>,
    row: Seq<u32>,
    width: nat,
    height: nat,
    k: int,
)
    requires
        cells.len() == width * height,
        row.len() == width,
        0 <= k < height,
    ensures
        spec_publish(cells, row).len() == cells.len(),
        k == 0 ==> row_of(spec_publish(cells, row), width, k) == row,
        k > 0 ==> row_of(spec_publish(cells, row), width, k) == row_of(cells, width, k - 1),
{
    lemma_row_bounds(width, height, k);
    lemma_row_bounds(width, height, 0);
    let after = spec_publish(cells, row);
    assert(width <= cells.len());
    if k == 0 {
        assert(row_of(after, width, k) =~= row);
    } else {
        lemma_row_bounds(width, height, k - 1);
        assert(row_of(after, width, k) =~= row_of(cells, width, k - 1));
    }
}

/// Rows stay in time order. After the spectra `rows` (oldest first) were
/// published into a texture of `height` rows, row `k` holds the spectrum
/// published `k` cycles before the last one, for every `k` below both
/// `height` and the number of spectra; spectra older than the last `height`
/// are gone. With fewer spectra than rows, the rows behind them hold what the
/// texture held at the start, moved back by the number of spectra.
pub proof fn lemma_rows_in_time_order(
    cells: Seq<u32>,
    rows: Seq<Seq<u32>>,
    width: nat,
    height: nat,
    k: int,
)
    requires
        cells.len() == width * height,
        forall|j: int| 0 <= j < rows.len() ==> (#[trigger] rows[j]).len() == width,
        0 <= k < height,
    ensures
        spec_publish_all(cells, rows).len() == cells.len(),
        k < rows.len() ==> row_of(spec_publish_all(cells, rows), width, k) == rows[rows.len() - 1
            - k],
        k >= rows.len() ==> row_of(spec_publish_all(cells, rows), width, k) == row_of(
            cells,
            width,
            k - rows.len(),
        ),
    decreases rows.len(),
{
    if rows.len() > 0 {
        let earlier = rows.drop_last();
        let before = spec_publish_all(cells, earlier);
        lemma_rows_in_time_order(cells, earlier, width, height, 0);
        lemma_publish_rows(before, rows.last(), width, height, k);
        if k > 0 {
            lemma_rows_in_time_order(cells, earlier, width, height, k - 1);
            if k - 1 < earlier.len() {
                assert(earlier[earlier.len() - 1 - (k - 1)] == rows[rows.len() - 1 - k]);
            }
        }
    }
}

/// Publishing keeps a normalized texture normalized, as long as the new
/// spectrum is.
pub proof fn lemma_publish_keeps_normalized(cells: Seq<u32>, row: Seq<u32>)
    requires
        row.len() <= cells.len(),
        is_normalized(cells),
        is_normalized(row),
    ensures
        is_normalized(spec_publish(cells, row)),
{
}

/// The spectrogram texture: `height` rows of `width` cells, row 0 the newest.
pub struct Spectrogram {
    width: usize,
    height: usize,
    cells: Vec<u32>,
}

impl View for Spectrogram {
    type V = Seq<u32>;

    /// The cells in row-major order.
    closed spec fn view(&self) -> Seq<u32> {
        self.cells@
    }
}

impl Spectrogram {
    /// Cells per row: one per frequency bin shown.
    pub closed spec fn spec_width(&self) -> nat {
        self.width as nat
    }

    /// Rows: one per spectrum kept.
    pub closed spec fn spec_height(&self) -> nat {
        self.height as nat
    }

    /// Row `k`, the spectrum published `k` cycles before the newest.
    pub open spec fn row(&self, k: int) -> Seq<u32> {
        row_of(self@, self.spec_width(), k)
    }

    #[verifier::type_invariant]
    spec fn inv(&self) -> bool {
        self.cells@.len() == self.width * self.height
    }

    /// A texture of the given dimensions, every cell zero.
    pub fn new(dimensions: &FFTDimensions) -> (texture: Self)
        requires
            dimensions.wf(),
        ensures
            texture.spec_width() == dimensions.spec_texture_width(),
            texture.spec_height() == dimensions.spec_texture_height(),
            texture@ == Seq::new(dimensions.spec_texture_size(), |i: int| 0u32),
            is_normalized(texture@),
    {
        let width = dimensions.texture_width() as usize;
        let height = dimensions.texture_height() as usize;
        let size = dimensions.texture_size();
        let mut cells: Vec<u32> = Vec::with_capacity(size);
        while cells.len() < size
            invariant
                cells@.len() <= size,
                cells@ == Seq::new(cells@.len(), |i: int| 0u32),
            decreases size - cells@.len(),
        {
            cells.push(0);
        }
        Spectrogram { width, height, cells }
    }

    /// Cells per row.
    pub fn width(&self) -> (w: usize)
        ensures
            w == self.spec_width(),
    {
        self.width
    }

    /// Number of rows.
    pub fn height(&self) -> (h: usize)
        ensures
            h == self.spec_height(),
    {
        self.height
    }

    /// The cells in row-major order, `width * height` of them.
    pub fn cells(&self) -> (cells: &Vec<u32>)
        ensures
            cells@ == self@,
            cells@.len() == self.spec_width() * self.spec_height(),
    {
        proof {
            use_type_invariant(self);
        }
        &self.cells
    }

    /// Whether `publish` accepts a row of this length.
    pub fn accepts(&self, row_len: usize) -> (ok: bool)
        ensures
            ok == (row_len == self.spec_width() && (self.spec_height() > 0 || row_len == 0)),
    {
        row_len == self.width && (self.height > 0 || row_len == 0)
    }

    /// Scrolls the texture back by one row and writes `row` as the newest
    /// spectrum. The row that was oldest is dropped. Nothing is allocated.
    ///
    /// The texture has to have a row to write to.
    pub fn publish(&mut self, row: &[u32])
        requires
            row@.len() == old(self).spec_width(),
            old(self).spec_height() > 0 || row@.len() == 0,
        ensures
            final(self).spec_width() == old(self).spec_width(),
            final(self).spec_height() == old(self).spec_height(),
            final(self)@ == spec_publish(old(self)@, row@),
            is_normalized(old(self)@) && is_normalized(row@) ==> is_normalized(final(self)@),
    {
        proof {
            use_type_invariant(&*self);
            assert(row@.len() <= self.cells@.len()) by (nonlinear_arith)
                requires
                    self.cells@.len() == self.width * self.height,
                    row@.len() == self.width,
                    self.height > 0 || row@.len() == 0,
            ;
        }
        let width = row.len();
        let total = self.cells.len();
        let ghost start = self.cells@;
        let mut i: usize = total;
        while i > width
            invariant
                width <= i <= total,
                total == start.len(),
                self.cells@.len() == total,
                total == self.width * self.height,
                self.width == old(self).width,
                self.height == old(self).height,
                forall|j: int| 0 <= j < i ==> #[trigger] self.cells@[j] == start[j],
                forall|j: int| i <= j < total ==> #[trigger] self.cells@[j] == start[j - width],
            decreases i,
        {
            i = i - 1;
            let moved = self.cells[i - width];
            self.cells[i] = moved;
        }
        let mut j: usize = 0;
        while j < width
            invariant
                j <= width <= total,
                width == row@.len(),
                total == start.len(),
                self.cells@.len() == total,
                total == self.width * self.height,
                self.width == old(self).width,
                self.height == old(self).height,
                forall|m: int| 0 <= m < j ==> #[trigger] self.cells@[m] == row@[m],
                forall|m: int| width <= m < total ==> #[trigger] self.cells@[m] == start[m - width],
            decreases width - j,
        {
            self.cells[j] = row[j];
            j = j + 1;
        }
        proof {
            assert(self.cells@ =~= spec_publish(start, row@));
        }
    }
}

} // verus!
