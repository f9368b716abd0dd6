//! The icon atlas: uniform square cells, enumerated row-major from the
//! top-left corner.

use vstd::prelude::*;

use crate::graphics::IntRect;

verus! {

/// The geometry of an icon atlas. The texture itself stays with whoever draws
/// it; what the lookup needs is its size in pixels and the cell size.
#[derive(Clone, Copy, Debug, PartialEq, Eq, Structural)]
pub struct Iconset {
    pub width: u32,
    pub height: u32,
    pub icon_size: u32,
}

impl Iconset {
    /// At least one whole cell fits the atlas.
    pub open spec fn is_valid(&self) -> bool {
        &&& self.icon_size > 0
        &&& self.width >= self.icon_size
        &&& self.height >= self.icon_size
    }

    pub open spec fn cols(&self) -> int {
        self.width as int / self.icon_size as int
    }

    pub open spec fn rows(&self) -> int {
        self.height as int / self.icon_size as int
    }

    /// How many whole cells the atlas holds.
    pub open spec fn capacity(&self) -> int {
        self.rows() * self.cols()
    }

    /// The region of cell `index`; an index past the last cell gives cell 0.
    pub open spec fn cell(&self, index: int) -> IntRect {
        let i = if index < self.capacity() { index } else { 0 };
        IntRect {
            left: ((i % self.cols()) * self.icon_size) as u32,
            top: ((i / self.cols()) * self.icon_size) as u32,
            width: self.icon_size,
            height: self.icon_size,
        }
    }

    pub fn new(width: u32, height: u32, icon_size: u32) -> (r: Iconset)
        ensures
            r == (Iconset { width, height, icon_size }),
    {
        Iconset { width, height, icon_size }
    }

    /// The atlas region of icon `index`.
    pub fn get(&self, index: usize) -> (r: IntRect)
        requires
            self.is_valid(),
        ensures
            r == self.cell(index as int),
    {
        let size = self.icon_size;
        let cols = self.width / size;
        let rows = self.height / size;
        proof {
            assert(cols >= 1) by (nonlinear_arith)
                requires cols == self.width / size, self.width >= size, size > 0;
            assert(rows >= 1) by (nonlinear_arith)
                requires rows == self.height / size, self.height >= size, size > 0;
            assert(cols as int * rows as int <= u32::MAX as int * u32::MAX as int)
                by (nonlinear_arith)
                requires cols <= u32::MAX, rows <= u32::MAX;
        }
        let capacity: u64 = cols as u64 * rows as u64;
        let i: u64 = if (index as u64) < capacity { index as u64 } else { 0 };
        let row: u64 = i / cols as u64;
        let col: u64 = i % cols as u64;
        proof {
            assert(rows as int * cols as int == self.capacity());
            assert(cols as int * rows as int >= 1) by (nonlinear_arith)
                requires cols >= 1, rows >= 1;
            assert(i < cols as int * rows as int);
            assert(row < rows) by (nonlinear_arith)
                requires row == i / (cols as u64), i < cols as int * rows as int, cols >= 1;
            assert(col < cols);
            assert(row * size as int <= self.height as int) by (nonlinear_arith)
                requires row < rows, rows == self.height / size, size > 0;
            assert(col * size as int <= self.width as int) by (nonlinear_arith)
                requires col < cols, cols == self.width / size, size > 0;
        }
        let r = IntRect {
            left: (col * size as u64) as u32,
            top: (row * size as u64) as u32,
            width: size,
            height: size,
        };
        proof {
            let j = if (index as int) < self.capacity() { index as int } else { 0 };
            assert(j == i as int);
            assert(r.left == ((j % self.cols()) * size) as u32);
            assert(r.top == ((j / self.cols()) * size) as u32);
        }
        r
    }
}

/// An index at or past the atlas's capacity gives the same region as index 0.
pub proof fn lemma_out_of_range_icon_is_first(icons: Iconset, index: int)
    requires
        icons.is_valid(),
        index >= icons.capacity(),
    ensures
        icons.cell(index) == icons.cell(0),
{
}

} // verus!
