//! The motion statistics of one tile of a frame.

use vstd::prelude::*;
use vstd::slice::slice_subrange;

verus! {

/// A motion vector, in eighths of a pixel.
#[derive(Debug, Clone, Copy, PartialEq, Eq, Structural, Default)]
pub struct MotionVector {
    /// Vertical component.
    pub row: i16,
    /// Horizontal component.
    pub col: i16,
}

/// Motion estimation results for one block.
#[derive(Debug, Clone, Copy, PartialEq, Eq, Structural, Default)]
pub struct MEStats {
    /// The motion vector found.
    pub mv: MotionVector,
    /// The sum of absolute differences, normalized by block size.
    pub normalized_sad: u32,
}

/// Statistics of a block with no motion and no difference.
pub open spec fn zero_stats() -> MEStats {
    MEStats { mv: MotionVector { row: 0, col: 0 }, normalized_sad: 0 }
}

/// The motion statistics of a frame: `rows` rows of `cols` blocks each.
#[derive(Debug, Clone)]
pub struct FrameMEStats {
    /// The statistics, row after row.
    pub stats: Vec<MEStats>,
    /// Number of block columns.
    pub cols: usize,
    /// Number of block rows.
    pub rows: usize,
}

impl FrameMEStats {
    /// The statistics hold exactly `rows * cols` blocks.
    pub open spec fn wf(&self) -> bool {
        self.stats@.len() == self.cols * self.rows
    }

    /// Statistics for `cols` by `rows` blocks, all zero.
    pub fn new(cols: usize, rows: usize) -> (r: FrameMEStats)
        requires
            cols * rows <= usize::MAX,
        ensures
            r.wf(),
            r.cols == cols,
            r.rows == rows,
            forall|i: int| 0 <= i < r.stats@.len() ==> #[trigger] r.stats@[i] == zero_stats(),
    {
        let n = cols * rows;
        let mut stats: Vec<MEStats> = Vec::with_capacity(n);
        let mut i: usize = 0;
        while i < n
            invariant
                i <= n,
                stats@.len() == i,
                forall|j: int| 0 <= j < i ==> #[trigger] stats@[j] == zero_stats(),
            decreases n - i,
        {
            stats.push(MEStats { mv: MotionVector { row: 0, col: 0 }, normalized_sad: 0 });
            i = i + 1;
        }
        FrameMEStats { stats, cols, rows }
    }

    /// Row `index` of the statistics.
    pub fn row(&self, index: usize) -> (r: &[MEStats])
        requires
            self.wf(),
            index < self.rows,
        ensures
            r@ == self.stats@.subrange(index * self.cols, index * self.cols + self.cols),
            r@.len() == self.cols,
            index * self.cols + self.cols <= self.stats@.len(),
    {
        let n = self.stats.len();
        proof {
            assert(index * self.cols + self.cols <= self.cols * self.rows) by (nonlinear_arith)
                requires
                    index < self.rows,
            ;
            assert(index * self.cols <= index * self.cols + self.cols);
            assert(n == self.cols * self.rows);
        }
        slice_subrange(self.stats.as_slice(), index * self.cols, index * self.cols + self.cols)
    }
}

/// Tiled view of the motion statistics of a frame: `rows` rows of `cols`
/// blocks starting at block `(x, y)`, in units of mode-info blocks.
#[derive(Debug)]
pub struct TileMEStats<'a> {
    frame: &'a FrameMEStats,
    x: usize,
    y: usize,
    cols: usize,
    rows: usize,
    stride: usize,
}

impl<'a> TileMEStats<'a> {
    /// The frame statistics viewed.
    pub closed spec fn frame(&self) -> &'a FrameMEStats {
        self.frame
    }

    /// The position and size of the tile, and the frame's row length.
    pub closed spec fn spec_geometry(&self) -> (usize, usize, usize, usize, usize) {
        (self.x, self.y, self.cols, self.rows, self.stride)
    }

    /// The tile lies within the frame.
    pub closed spec fn wf(&self) -> bool {
        &&& self.frame.wf()
        &&& self.x + self.cols <= self.frame.cols
        &&& self.y + self.rows <= self.frame.rows
        &&& self.stride == self.frame.cols
    }

    /// The statistics of block `(col, row)` of the tile.
    pub open spec fn spec_at(&self, row: int, col: int) -> MEStats {
        let (x, y, _, _, stride) = self.spec_geometry();
        self.frame().stats@[(y + row) * stride + x + col]
    }

    /// A view of `rows` rows of `cols` blocks of the frame statistics,
    /// starting at block `(x, y)`, which must lie in the frame.
    pub fn new(frame_mvs: &'a FrameMEStats, x: usize, y: usize, cols: usize, rows: usize) -> (r: Self)
        requires
            frame_mvs.wf(),
            x + cols <= frame_mvs.cols,
            y + rows <= frame_mvs.rows,
            x < frame_mvs.cols,
            y < frame_mvs.rows,
        ensures
            r.wf(),
            r.frame() == frame_mvs,
            r.spec_geometry() == (x, y, cols, rows, frame_mvs.cols),
    {
        TileMEStats { frame: frame_mvs, x, y, cols, rows, stride: frame_mvs.cols }
    }

    /// The column of the first block of the tile.
    pub fn x(&self) -> (r: usize)
        ensures
            r == self.spec_geometry().0,
    {
        self.x
    }

    /// The row of the first block of the tile.
    pub fn y(&self) -> (r: usize)
        ensures
            r == self.spec_geometry().1,
    {
        self.y
    }

    /// The number of block columns of the tile.
    pub fn cols(&self) -> (r: usize)
        ensures
            r == self.spec_geometry().2,
    {
        self.cols
    }

    /// The number of block rows of the tile.
    pub fn rows(&self) -> (r: usize)
        ensures
            r == self.spec_geometry().3,
    {
        self.rows
    }

    /// Row `index` of the tile: its `cols` blocks.
    pub fn row(&self, index: usize) -> (r: &[MEStats])
        requires
            self.wf(),
            index < self.spec_geometry().3,
        ensures
            r@.len() == self.spec_geometry().2,
            forall|c: int| 0 <= c < r@.len() ==> #[trigger] r@[c] == self.spec_at(index as int, c),
    {
        let frame_row = self.frame.row(self.y + index);
        let r = slice_subrange(frame_row, self.x, self.x + self.cols);
        proof {
            let base = (self.y + index) * self.frame.cols;
            assert forall|c: int| 0 <= c < r@.len() implies #[trigger] r@[c] == self.spec_at(index as int, c) by {
                assert(r@[c] == frame_row@[self.x + c]);
                assert(frame_row@[self.x + c] == self.frame.stats@[base + self.x + c]);
            }
        }
        r
    }
}

} // verus!
