use vstd::prelude::*;

verus! {

/// A rectangular grid of per-pixel brightness levels (0 = off, positive = on).
///
/// Every frame used with one matrix shares that matrix's dimensions; the
/// predicate [`grid_wf`] records that a grid is rectangular with at least one
/// row and one column.
#[derive(Debug, PartialEq, Eq)]
pub struct Frame {
    pub grid: Vec<Vec<u8>>,
}

/// Error raised when a grid offered to the library is not rectangular.
#[derive(Clone, Copy, Debug, PartialEq, Eq)]
pub enum FrameError {
    /// The rows do not all share one width of at least one column, or there
    /// are no rows at all.
    DimensionMismatch,
}

impl View for Frame {
    type V = Seq<Seq<u8>>;

    open spec fn view(&self) -> Seq<Seq<u8>> {
        self.grid@.map(|_r: int, row: Vec<u8>| row@)
    }
}

/// A rectangular grid with at least one row and one column.
pub open spec fn grid_wf(g: Seq<Seq<u8>>) -> bool {
    &&& g.len() >= 1
    &&& g[0].len() >= 1
    &&& forall|r: int| 0 <= r < g.len() ==> (#[trigger] g[r]).len() == g[0].len()
}

/// The all-off grid of the given dimensions.
pub open spec fn blank_view(rows: nat, cols: nat) -> Seq<Seq<u8>> {
    Seq::new(rows, |_r: int| Seq::new(cols, |_c: int| 0u8))
}

/// One row shifted left by `k` columns: pixels leave over the left edge and
/// zeros enter on the right.
pub open spec fn row_shifted_left(row: Seq<u8>, k: nat) -> Seq<u8> {
    Seq::new(row.len(), |c: int| if c + k < row.len() { row[c + k] } else { 0u8 })
}

/// One row shifted right by `k` columns: pixels leave over the right edge and
/// zeros enter on the left.
pub open spec fn row_shifted_right(row: Seq<u8>, k: nat) -> Seq<u8> {
    Seq::new(row.len(), |c: int| if c - k >= 0 { row[c - k] } else { 0u8 })
}

/// A grid with every row shifted left by `k` columns.
pub open spec fn shifted_left(g: Seq<Seq<u8>>, k: nat) -> Seq<Seq<u8>> {
    Seq::new(g.len(), |r: int| row_shifted_left(g[r], k))
}

/// A grid with every row shifted right by `k` columns.
pub open spec fn shifted_right(g: Seq<Seq<u8>>, k: nat) -> Seq<Seq<u8>> {
    Seq::new(g.len(), |r: int| row_shifted_right(g[r], k))
}

/// The brighter of two pixel levels.
pub open spec fn pixel_max(x: u8, y: u8) -> u8 {
    if x >= y { x } else { y }
}

/// The pointwise maximum of two grids of equal dimensions.
pub open spec fn merged(a: Seq<Seq<u8>>, b: Seq<Seq<u8>>) -> Seq<Seq<u8>> {
    Seq::new(a.len(), |r: int| Seq::new(a[r].len(), |c: int| pixel_max(a[r][c], b[r][c])))
}

impl Frame {
    /// The frame's grid is rectangular and non-degenerate.
    pub open spec fn wf(&self) -> bool {
        grid_wf(self@)
    }

    pub open spec fn spec_rows(&self) -> nat {
        self@.len()
    }

    pub open spec fn spec_cols(&self) -> nat {
        self@[0].len()
    }

    /// Number of rows of the grid.
    pub fn rows(&self) -> (n: usize)
        ensures
            n == self.spec_rows(),
    {
        self.grid.len()
    }

    /// Number of columns of the grid.
    pub fn cols(&self) -> (n: usize)
        requires
            self.wf(),
        ensures
            n == self.spec_cols(),
    {
        self.grid[0].len()
    }

    /// The all-off frame of the given dimensions.
    pub fn blank(rows: usize, cols: usize) -> (f: Frame)
        requires
            rows >= 1,
            cols >= 1,
        ensures
            f@ == blank_view(rows as nat, cols as nat),
            f.wf(),
            f.spec_rows() == rows,
            f.spec_cols() == cols,
    {
        let mut grid: Vec<Vec<u8>> = Vec::new();
        let mut r: usize = 0;
        while r < rows
            invariant
                r <= rows,
                grid@.len() == r,
                forall|i: int| 0 <= i < r ==> (#[trigger] grid@[i])@.len() == cols,
                forall|i: int, j: int|
                    0 <= i < r && 0 <= j < cols ==> (#[trigger] grid@[i]@[j]) == 0u8,
            decreases rows - r,
        {
            let mut row: Vec<u8> = Vec::new();
            let mut c: usize = 0;
            while c < cols
                invariant
                    c <= cols,
                    row@.len() == c,
                    forall|j: int| 0 <= j < c ==> (#[trigger] row@[j]) == 0u8,
                decreases cols - c,
            {
                row.push(0u8);
                c = c + 1;
            }
            grid.push(row);
            r = r + 1;
        }
        let f = Frame { grid };
        proof {
            assert(f@ =~~= blank_view(rows as nat, cols as nat));
        }
        f
    }

    /// An identical copy of this frame.
    pub fn copy_of(&self) -> (f: Frame)
        ensures
            f@ == self@,
    {
        let mut grid: Vec<Vec<u8>> = Vec::new();
        let mut r: usize = 0;
        while r < self.grid.len()
            invariant
                r <= self.grid@.len(),
                grid@.len() == r,
                forall|i: int| 0 <= i < r ==> (#[trigger] grid@[i])@ == self@[i],
            decreases self.grid@.len() - r,
        {
            let src: &Vec<u8> = &self.grid[r];
            let mut row: Vec<u8> = Vec::new();
            let mut c: usize = 0;
            while c < src.len()
                invariant
                    c <= src@.len(),
                    row@.len() == c,
                    forall|j: int| 0 <= j < c ==> (#[trigger] row@[j]) == src@[j],
                decreases src@.len() - c,
            {
                row.push(src[c]);
                c = c + 1;
            }
            proof {
                assert(row@ =~= src@);
            }
            grid.push(row);
            r = r + 1;
        }
        let f = Frame { grid };
        proof {
            assert(f@ =~~= self@);
        }
        f
    }

    /// Builds a frame from the given rows. A grid whose rows do not all share
    /// one width of at least one column is rejected rather than truncated.
    pub fn from_rows(grid: Vec<Vec<u8>>) -> (r: Result<Frame, FrameError>)
        ensures
            match r {
                Ok(f) => {
                    &&& f.grid == grid
                    &&& f.wf()
                },
                Err(e) => {
                    &&& e == FrameError::DimensionMismatch
                    &&& !grid_wf(grid@.map(|_r: int, row: Vec<u8>| row@))
                },
            },
    {
        if grid.len() == 0 {
            return Err(FrameError::DimensionMismatch);
        }
        let width = grid[0].len();
        if width == 0 {
            return Err(FrameError::DimensionMismatch);
        }
        let mut r: usize = 0;
        while r < grid.len()
            invariant
                r <= grid@.len(),
                grid@.len() >= 1,
                width == grid@[0]@.len(),
                width >= 1,
                forall|i: int| 0 <= i < r ==> (#[trigger] grid@[i])@.len() == width,
            decreases grid@.len() - r,
        {
            if grid[r].len() != width {
                proof {
                    let gv = grid@.map(|_r: int, row: Vec<u8>| row@);
                    assert(gv[r as int] == grid@[r as int]@);
                    assert(gv[0] == grid@[0]@);
                    assert(gv[r as int].len() != gv[0].len());
                }
                return Err(FrameError::DimensionMismatch);
            }
            r = r + 1;
        }
        let f = Frame { grid };
        Ok(f)
    }
}

/// Law: shifting a grid by zero columns, in either direction, changes nothing.
pub proof fn lemma_shift_zero(g: Seq<Seq<u8>>)
    ensures
        shifted_left(g, 0) == g,
        shifted_right(g, 0) == g,
{
    assert(shifted_left(g, 0) =~~= g);
    assert(shifted_right(g, 0) =~~= g);
}

/// Law: shifting a grid by its full width or more, in either direction,
/// leaves nothing: every pixel has been discarded over an edge and replaced
/// by zero-fill.
pub proof fn lemma_shift_past_width(g: Seq<Seq<u8>>, k: nat)
    requires
        grid_wf(g),
        k >= g[0].len(),
    ensures
        shifted_left(g, k) == blank_view(g.len(), g[0].len()),
        shifted_right(g, k) == blank_view(g.len(), g[0].len()),
{
    assert(shifted_left(g, k) =~~= blank_view(g.len(), g[0].len()));
    assert(shifted_right(g, k) =~~= blank_view(g.len(), g[0].len()));
}

/// Law: merging a grid with the all-off grid of its dimensions gives the
/// grid back unchanged.
pub proof fn lemma_merge_blank(g: Seq<Seq<u8>>)
    requires
        grid_wf(g),
    ensures
        merged(g, blank_view(g.len(), g[0].len())) == g,
{
    assert(merged(g, blank_view(g.len(), g[0].len())) =~~= g);
}

/// Law: when two grids of equal dimensions have no position at which both
/// are on, their merge is the union of both: each pixel carries whichever
/// grid's level is on there, and a merged pixel is on exactly when it is on
/// in either grid. The second conclusion holds of any merge, overlap or not.
pub proof fn lemma_merge_disjoint(a: Seq<Seq<u8>>, b: Seq<Seq<u8>>)
    requires
        grid_wf(a),
        grid_wf(b),
        a.len() == b.len(),
        a[0].len() == b[0].len(),
        forall|r: int, c: int|
            0 <= r < a.len() && 0 <= c < a[0].len() ==> !((#[trigger] a[r][c]) > 0 && b[r][c] > 0),
    ensures
        forall|r: int, c: int|
            0 <= r < a.len() && 0 <= c < a[0].len() ==> (#[trigger] merged(a, b)[r][c]) == (
            if a[r][c] > 0 {
                a[r][c]
            } else {
                b[r][c]
            }),
        forall|r: int, c: int|
            0 <= r < a.len() && 0 <= c < a[0].len() ==> ((#[trigger] merged(a, b)[r][c]) > 0 <==> (
            a[r][c] > 0 || b[r][c] > 0)),
{
}

} // verus!
