use vstd::prelude::*;

verus! {

/// A character grid the size of the terminal, drawn into cell by cell and
/// flushed to the screen by the caller.
pub struct Frame {
    pub width: usize,
    pub height: usize,
    pub vec: Vec<Vec<char>>,
}

impl Frame {
    /// `height` rows of `width` cells each.
    pub open spec fn wf(&self) -> bool {
        &&& self.vec@.len() == self.height
        &&& forall|j: int| 0 <= j < self.vec@.len() ==> (#[trigger] self.vec@[j])@.len() == self.width
    }

    /// The character at column `x` of row `y`.
    pub open spec fn cell(&self, x: int, y: int) -> char {
        self.vec@[y]@[x]
    }

    /// A fresh grid of the given size, filled with the background
    /// character.  The terminal's size is measured by the caller.
    pub fn new(width: usize, height: usize, background: char) -> (r: Frame)
        ensures
            r.wf(),
            r.width == width,
            r.height == height,
            forall|x: int, y: int|
                #![trigger r.cell(x, y)]
                0 <= x < width && 0 <= y < height ==> r.cell(x, y) == background,
    {
        let mut vec: Vec<Vec<char>> = Vec::new();
        let mut j: usize = 0;
        while j < height
            invariant
                j <= height,
                vec@.len() == j,
                forall|q: int| 0 <= q < j ==> (#[trigger] vec@[q])@.len() == width,
                forall|q: int, p: int|
                    #![trigger vec@[q]@[p]]
                    0 <= q < j && 0 <= p < width ==> vec@[q]@[p] == background,
            decreases height - j,
        {
            let mut row: Vec<char> = Vec::new();
            let mut i: usize = 0;
            while i < width
                invariant
                    i <= width,
                    row@.len() == i,
                    forall|p: int| 0 <= p < i ==> #[trigger] row@[p] == background,
                decreases width - i,
            {
                row.push(background);
                i = i + 1;
            }
            vec.push(row);
            j = j + 1;
        }
        Frame { width, height, vec }
    }

    /// Whether the terminal now measures a different size than this grid.
    pub fn size_changed(&self, width: usize, height: usize) -> (r: bool)
        ensures
            r == (width != self.width || height != self.height),
    {
        width != self.width || height != self.height
    }

    /// Whether the cell lies on the grid.
    pub fn inside_usize(&self, x: usize, y: usize) -> (r: bool)
        ensures
            r == (x < self.width && y < self.height),
    {
        x < self.width && y < self.height
    }

    /// The character at column `x` of row `y`.
    pub fn get(&self, x: usize, y: usize) -> (r: char)
        requires
            self.wf(),
            x < self.width,
            y < self.height,
        ensures
            r == self.cell(x as int, y as int),
    {
        self.vec[y][x]
    }

    /// Write one cell if it lies on the grid; report whether it did.
    pub fn try_set_usize(&mut self, x: usize, y: usize, value: char) -> (r: bool)
        requires
            old(self).wf(),
        ensures
            final(self).wf(),
            final(self).width == old(self).width,
            final(self).height == old(self).height,
            r == (x < old(self).width && y < old(self).height),
            !r ==> *final(self) == *old(self),
            r ==> forall|p: int, q: int|
                #![trigger final(self).cell(p, q)]
                0 <= p < old(self).width && 0 <= q < old(self).height ==> final(self).cell(p, q)
                    == (if p == x && q == y {
                    value
                } else {
                    old(self).cell(p, q)
                }),
            r ==> final(self).vec@.len() == old(self).vec@.len(),
    {
        if !self.inside_usize(x, y) {
            false
        } else {
            self.vec[y][x] = value;
            true
        }
    }

    /// Copy a rendered block onto the grid with its top-left corner at
    /// `(x, y)`; cells falling off the grid are dropped.
    pub fn try_set_window(&mut self, x: usize, y: usize, render: Vec<Vec<char>>)
        requires
            old(self).wf(),
            y + render@.len() <= usize::MAX,
            forall|j: int| 0 <= j < render@.len() ==> x + (#[trigger] render@[j])@.len() <= usize::MAX,
        ensures
            final(self).wf(),
            final(self).width == old(self).width,
            final(self).height == old(self).height,
            forall|p: int, q: int|
                #![trigger final(self).cell(p, q)]
                0 <= p < old(self).width && 0 <= q < old(self).height ==> final(self).cell(p, q)
                    == (if y <= q < y + render@.len() && x <= p && p - x < render@[q - y]@.len() {
                    render@[q - y]@[p - x]
                } else {
                    old(self).cell(p, q)
                }),
    {
        let rows: usize = render.len();
        let mut j: usize = 0;
        while j < rows
            invariant
                rows == render@.len(),
                j <= rows,
                self.wf(),
                self.width == old(self).width,
                self.height == old(self).height,
                y + render@.len() <= usize::MAX,
                forall|q: int|
                    0 <= q < render@.len() ==> x + (#[trigger] render@[q])@.len() <= usize::MAX,
                forall|p: int, q: int|
                    #![trigger self.cell(p, q)]
                    0 <= p < old(self).width && 0 <= q < old(self).height ==> self.cell(p, q) == (
                    if y <= q < y + j && x <= p && p - x < render@[q - y]@.len() {
                        render@[q - y]@[p - x]
                    } else {
                        old(self).cell(p, q)
                    }),
            decreases rows - j,
        {
            let cols: usize = render[j].len();
            let mut i: usize = 0;
            while i < cols
                invariant
                    rows == render@.len(),
                    j < rows,
                    cols == render@[j as int]@.len(),
                    i <= cols,
                    self.wf(),
                    self.width == old(self).width,
                    self.height == old(self).height,
                    y + render@.len() <= usize::MAX,
                    x + render@[j as int]@.len() <= usize::MAX,
                    forall|p: int, q: int|
                        #![trigger self.cell(p, q)]
                        0 <= p < old(self).width && 0 <= q < old(self).height ==> self.cell(p, q)
                            == (if y <= q < y + j && x <= p && p - x < render@[q - y]@.len() {
                            render@[q - y]@[p - x]
                        } else if q == y + j && x <= p && p - x < i {
                            render@[j as int]@[p - x]
                        } else {
                            old(self).cell(p, q)
                        }),
                decreases cols - i,
            {
                let value: char = render[j][i];
                self.try_set_usize(i + x, j + y, value);
                i = i + 1;
            }
            j = j + 1;
        }
    }
}

} // verus!
