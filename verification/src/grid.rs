//! The pixel grid: a `width * height` array of colors in row-major order
//! with bounds-checked reads and writes, plus a dirty flag that records
//! whether the grid has changed since it was last mirrored into a display
//! surface.

use vstd::prelude::*;
use vstd::pervasive::VecAdditionalExecFns;
use crate::color::{Color, default_color, CHANNEL_ONE, CHANNEL_HALF};

verus! {

/// Mathematical model of a [`PixelGrid`]: its dimensions, its cells in
/// row-major order (cell `(x, y)` at index `y * width + x`), and the
/// dirty flag.
pub ghost struct GridView {
    pub width: nat,
    pub height: nat,
    pub cells: Seq<Color>,
    pub dirty: bool,
}

impl GridView {
    /// The grid's structural invariant: one cell per `(x, y)` slot.
    pub open spec fn wf(self) -> bool {
        self.cells.len() == self.width * self.height
    }

    /// Whether `(x, y)` addresses a cell.
    pub open spec fn in_bounds(self, x: int, y: int) -> bool {
        0 <= x < self.width && 0 <= y < self.height
    }

    /// Row-major index of cell `(x, y)`.
    pub open spec fn idx(self, x: int, y: int) -> int {
        y * self.width + x
    }

    /// A bounds-checked read: the cell at `(x, y)`, or `None` outside the
    /// grid.
    pub open spec fn read(self, x: int, y: int) -> Option<Color> {
        if self.in_bounds(x, y) {
            Some(self.cells[self.idx(x, y)])
        } else {
            None
        }
    }

    /// A bounds-checked write: the grid with cell `(x, y)` replaced by `c`
    /// and the dirty flag raised; outside the grid, the grid unchanged.
    pub open spec fn write(self, x: int, y: int, c: Color) -> GridView {
        if self.in_bounds(x, y) {
            GridView { cells: self.cells.update(self.idx(x, y), c), dirty: true, ..self }
        } else {
            self
        }
    }

    /// The grid with the dirty flag lowered, as after a successful sync.
    pub open spec fn cleaned(self) -> GridView {
        GridView { dirty: false, ..self }
    }
}

/// Every in-bounds cell of a well-formed grid has its row-major index
/// inside the cell array, and distinct cells have distinct indices.
pub proof fn lemma_grid_indexing(g: GridView)
    requires
        g.wf(),
    ensures
        forall|x: int, y: int|
            g.in_bounds(x, y) ==> 0 <= #[trigger] g.idx(x, y) < g.cells.len(),
        forall|x1: int, y1: int, x2: int, y2: int|
            g.in_bounds(x1, y1) && g.in_bounds(x2, y2) && (x1 != x2 || y1 != y2)
                ==> #[trigger] g.idx(x1, y1) != #[trigger] g.idx(x2, y2),
{
    assert forall|x: int, y: int| g.in_bounds(x, y)
        implies 0 <= #[trigger] g.idx(x, y) < g.cells.len() by {
        lemma_row_major_index_in_range(g.width, g.height, x, y);
    }
    assert forall|x1: int, y1: int, x2: int, y2: int|
        g.in_bounds(x1, y1) && g.in_bounds(x2, y2) && (x1 != x2 || y1 != y2)
            implies #[trigger] g.idx(x1, y1) != #[trigger] g.idx(x2, y2) by {
        lemma_distinct_cells_distinct_indices(g.width, g.height, x1, y1, x2, y2);
    }
}

proof fn lemma_row_major_index_in_range(w: nat, h: nat, x: int, y: int)
    by (nonlinear_arith)
    requires
        0 <= x < w,
        0 <= y < h,
    ensures
        0 <= y * w + x < w * h,
{
}

proof fn lemma_distinct_cells_distinct_indices(w: nat, h: nat, x1: int, y1: int, x2: int, y2: int)
    by (nonlinear_arith)
    requires
        0 <= x1 < w,
        0 <= y1 < h,
        0 <= x2 < w,
        0 <= y2 < h,
        x1 != x2 || y1 != y2,
    ensures
        y1 * w + x1 != y2 * w + x2,
{
}

/// A 2D grid of [`Color`] cells stored row-major, created with fixed
/// dimensions (recreate to resize). Every successful write raises the
/// dirty flag; a sync lowers it.
pub struct PixelGrid {
    width: usize,
    height: usize,
    cells: Vec<Color>,
    dirty: bool,
}

impl View for PixelGrid {
    type V = GridView;

    closed spec fn view(&self) -> GridView {
        GridView {
            width: self.width as nat,
            height: self.height as nat,
            cells: self.cells@,
            dirty: self.dirty,
        }
    }
}

impl PixelGrid {
    /// Creates a `width * height` grid with every cell at the default
    /// color. The fresh grid is dirty, so the first sync encodes it.
    pub fn new(width: usize, height: usize) -> (g: PixelGrid)
        requires
            width * height <= usize::MAX,
        ensures
            g@.wf(),
            g@.width == width,
            g@.height == height,
            g@.dirty,
            forall|i: int| 0 <= i < g@.cells.len() ==> g@.cells[i] == default_color(),
    {
        let n: usize = width * height;
        let mut cells: Vec<Color> = Vec::with_capacity(n);
        let mut i: usize = 0;
        while i < n
            invariant
                i <= n,
                cells@.len() == i,
                forall|j: int| 0 <= j < i ==> cells@[j] == default_color(),
            decreases n - i,
        {
            cells.push(Color::default());
            i = i + 1;
        }
        PixelGrid { width, height, cells, dirty: true }
    }

    /// The grid's width in cells.
    pub fn width(&self) -> (w: usize)
        ensures
            w == self@.width,
    {
        self.width
    }

    /// The grid's height in cells.
    pub fn height(&self) -> (h: usize)
        ensures
            h == self@.height,
    {
        self.height
    }

    /// Whether the grid has changed since the last sync.
    pub fn is_dirty(&self) -> (d: bool)
        ensures
            d == self@.dirty,
    {
        self.dirty
    }

    /// Bounds-checked read of cell `(x, y)`; `None` outside the grid.
    pub fn get(&self, x: usize, y: usize) -> (r: Option<Color>)
        requires
            self@.wf(),
        ensures
            r == self@.read(x as int, y as int),
    {
        if x < self.width && y < self.height {
            // The cell count is a vector length, so the index fits usize.
            let _len: usize = self.cells.len();
            proof {
                lemma_row_major_index_in_range(self@.width, self@.height, x as int, y as int);
            }
            let i: usize = y * self.width + x;
            Some(self.cells[i])
        } else {
            None
        }
    }

    /// Bounds-checked write of cell `(x, y)`. On success the cell holds
    /// `c` afterwards and the grid is marked dirty; outside the grid
    /// nothing is written and `false` comes back.
    pub fn set(&mut self, x: usize, y: usize, c: Color) -> (ok: bool)
        requires
            old(self)@.wf(),
        ensures
            ok == old(self)@.in_bounds(x as int, y as int),
            final(self)@ == old(self)@.write(x as int, y as int, c),
            final(self)@.wf(),
    {
        if x < self.width && y < self.height {
            // The cell count is a vector length, so the index fits usize.
            let _len: usize = self.cells.len();
            proof {
                lemma_row_major_index_in_range(self@.width, self@.height, x as int, y as int);
            }
            let i: usize = y * self.width + x;
            self.cells.set(i, c);
            self.dirty = true;
            true
        } else {
            false
        }
    }

    /// Lowers the dirty flag, as the sync step does after mirroring the
    /// grid into its surface.
    pub(crate) fn mark_clean(&mut self)
        ensures
            final(self)@ == old(self)@.cleaned(),
    {
        self.dirty = false;
    }

    /// Fills the grid with the sample gradient: red grows with `x`, green
    /// with `y` (both as `coordinate / 255`), blue `0.5`, alpha `1.0`.
    pub fn fill_gradient(&mut self)
        requires
            old(self)@.wf(),
            old(self)@.width <= 4096,
            old(self)@.height <= 4096,
        ensures
            final(self)@.wf(),
            final(self)@.width == old(self)@.width,
            final(self)@.height == old(self)@.height,
            final(self)@.dirty == (old(self)@.dirty || old(self)@.width * old(self)@.height > 0),
            forall|x: int, y: int|
                final(self)@.in_bounds(x, y) ==> final(self)@.read(x, y)
                    == Some(gradient_color(x, y)),
    {
        let ghost g0 = self@;
        let width = self.width;
        let height = self.height;
        let mut x: usize = 0;
        while x < width
            invariant
                self@.wf(),
                self@.width == g0.width,
                self@.height == g0.height,
                width == g0.width,
                height == g0.height,
                g0.width <= 4096,
                g0.height <= 4096,
                x <= width,
                self@.dirty == (g0.dirty || (x > 0 && height > 0)),
                forall|xi: int, yi: int|
                    0 <= xi < x && 0 <= yi < height ==> #[trigger] self@.read(xi, yi)
                        == Some(gradient_color(xi, yi)),
            decreases width - x,
        {
            let mut y: usize = 0;
            while y < height
                invariant
                    self@.wf(),
                    self@.width == g0.width,
                    self@.height == g0.height,
                    width == g0.width,
                    height == g0.height,
                    g0.width <= 4096,
                    g0.height <= 4096,
                    x < width,
                    y <= height,
                    self@.dirty == (g0.dirty || (x > 0 && height > 0) || y > 0),
                    forall|xi: int, yi: int|
                        0 <= xi < x && 0 <= yi < height ==> #[trigger] self@.read(xi, yi)
                            == Some(gradient_color(xi, yi)),
                    forall|yi: int|
                        0 <= yi < y ==> #[trigger] self@.read(x as int, yi)
                            == Some(gradient_color(x as int, yi)),
                decreases height - y,
            {
                let red: u32 = (x as u32) * CHANNEL_ONE / 255;
                let green: u32 = (y as u32) * CHANNEL_ONE / 255;
                let c = Color { red, green, blue: CHANNEL_HALF, alpha: CHANNEL_ONE };
                let ghost before = self@;
                self.set(x, y, c);
                proof {
                    let gnew = self@;
                    lemma_grid_indexing(before);
                    lemma_grid_indexing(gnew);
                    assert(c == gradient_color(x as int, y as int));
                    assert(gnew.cells == before.cells.update(
                        before.idx(x as int, y as int),
                        c,
                    ));
                    assert forall|xi: int, yi: int| 0 <= xi < x && 0 <= yi < height
                        implies #[trigger] gnew.read(xi, yi) == Some(gradient_color(xi, yi)) by {
                        assert(before.read(xi, yi) == Some(gradient_color(xi, yi)));
                        assert(gnew.idx(xi, yi) == before.idx(xi, yi));
                        assert(before.idx(xi, yi) != before.idx(x as int, y as int));
                    }
                    assert forall|yi: int| 0 <= yi < y + 1
                        implies #[trigger] gnew.read(x as int, yi)
                            == Some(gradient_color(x as int, yi)) by {
                        if yi < y {
                            assert(before.read(x as int, yi)
                                == Some(gradient_color(x as int, yi)));
                            assert(before.idx(x as int, yi) != before.idx(x as int, y as int));
                        }
                    }
                }
                y = y + 1;
            }
            x = x + 1;
        }
        proof {
            assert((g0.width * g0.height > 0) == (g0.width > 0 && g0.height > 0))
                by (nonlinear_arith);
        }
    }
}

/// The sample gradient's color at cell `(x, y)`.
pub open spec fn gradient_color(x: int, y: int) -> Color {
    Color {
        red: (x * CHANNEL_ONE / 255) as u32,
        green: (y * CHANNEL_ONE / 255) as u32,
        blue: CHANNEL_HALF,
        alpha: CHANNEL_ONE,
    }
}

/// Writing a valid cell and then reading it back yields exactly the
/// written color.
pub proof fn lemma_set_then_get(g: GridView, x: int, y: int, c: Color)
    requires
        g.wf(),
        g.in_bounds(x, y),
    ensures
        g.write(x, y, c).read(x, y) == Some(c),
{
    lemma_row_major_index_in_range(g.width, g.height, x, y);
}

/// Out-of-range coordinates read as absent and write as a no-op: the grid
/// is left exactly as it was.
pub proof fn lemma_out_of_range_access(g: GridView, x: int, y: int, c: Color)
    requires
        !g.in_bounds(x, y),
    ensures
        g.read(x, y) is None,
        g.write(x, y, c) == g,
{
}

} // verus!
