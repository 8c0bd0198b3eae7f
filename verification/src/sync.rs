//! Mirroring a [`PixelGrid`] into a flat RGBA byte surface.
//!
//! The encoder walks the cells in row-major order (x fastest) and emits
//! four bytes per cell — red, green, blue, alpha — so the byte layout
//! matches a texture whose row stride is the grid width. The sync step
//! re-encodes only when the grid is dirty and clears the flag afterwards;
//! a surface whose byte length does not match the grid is a setup error
//! and is loudly rejected, never partially written.

use vstd::prelude::*;
use crate::color::{channel_byte, color_byte, default_color, Color, CHANNEL_ONE};
use crate::grid::{GridView, PixelGrid, lemma_grid_indexing};

verus! {

/// Mathematical model of a [`DisplaySurface`]: its dimensions, its raw
/// bytes, and whether it samples nearest-neighbor.
pub ghost struct SurfaceView {
    pub width: nat,
    pub height: nat,
    pub bytes: Seq<u8>,
    pub nearest: bool,
}

impl SurfaceView {
    /// Whether this surface can mirror grid `g`: equal dimensions and a
    /// byte buffer of exactly `width * height * 4` bytes.
    pub open spec fn matches(self, g: GridView) -> bool {
        self.width == g.width && self.height == g.height && self.bytes.len() == g.width * g.height
            * 4
    }
}

/// The displayable byte mirror of a grid: RGBA bytes, one group of four
/// per cell, plus the grid's dimensions and a nearest-neighbor sampling
/// mark so cells show as crisp blocks, never interpolated.
pub struct DisplaySurface {
    width: usize,
    height: usize,
    bytes: Vec<u8>,
    nearest: bool,
}

impl View for DisplaySurface {
    type V = SurfaceView;

    closed spec fn view(&self) -> SurfaceView {
        SurfaceView {
            width: self.width as nat,
            height: self.height as nat,
            bytes: self.bytes@,
            nearest: self.nearest,
        }
    }
}

impl DisplaySurface {
    /// Creates the surface for a grid: matching dimensions, the grid's
    /// current encoding as initial bytes, and nearest-neighbor sampling.
    pub fn create(grid: &PixelGrid) -> (s: DisplaySurface)
        requires
            grid@.wf(),
            grid@.width * grid@.height * 4 <= usize::MAX,
        ensures
            s@.matches(grid@),
            s@.bytes == encode_spec(grid@),
            s@.nearest,
    {
        DisplaySurface {
            width: grid.width(),
            height: grid.height(),
            bytes: encode(grid),
            nearest: true,
        }
    }

    /// The surface's width in pixels.
    pub fn width(&self) -> (w: usize)
        ensures
            w == self@.width,
    {
        self.width
    }

    /// The surface's height in pixels.
    pub fn height(&self) -> (h: usize)
        ensures
            h == self@.height,
    {
        self.height
    }

    /// The surface's raw bytes, for the renderer to upload.
    pub fn bytes(&self) -> (b: &Vec<u8>)
        ensures
            b@ == self@.bytes,
    {
        &self.bytes
    }

    /// Whether the surface samples nearest-neighbor.
    pub fn is_nearest(&self) -> (n: bool)
        ensures
            n == self@.nearest,
    {
        self.nearest
    }
}

/// The sync step's failure: the surface targeted by a write does not
/// match the grid's dimensions — a setup error, loudly rejected.
#[derive(Clone, Copy, PartialEq, Eq, Structural, Debug)]
pub enum SyncError {
    DimensionMismatch,
}

/// One per-tick sync: does nothing while the grid is clean; otherwise
/// re-encodes the whole grid into the surface and clears the dirty flag,
/// or rejects a mismatched surface without touching anything.
///
/// Returns `Ok(true)` exactly when encoding work was performed.
pub fn sync(grid: &mut PixelGrid, surface: &mut DisplaySurface) -> (r: Result<bool, SyncError>)
    requires
        old(grid)@.wf(),
        old(grid)@.width * old(grid)@.height * 4 <= usize::MAX,
    ensures
        r == (if !old(grid)@.dirty {
            Ok::<bool, SyncError>(false)
        } else if !old(surface)@.matches(old(grid)@) {
            Err::<bool, SyncError>(SyncError::DimensionMismatch)
        } else {
            Ok::<bool, SyncError>(true)
        }),
        final(grid)@ == (if old(grid)@.dirty && old(surface)@.matches(old(grid)@) {
            old(grid)@.cleaned()
        } else {
            old(grid)@
        }),
        final(surface)@ == (if old(grid)@.dirty && old(surface)@.matches(old(grid)@) {
            (SurfaceView { bytes: encode_spec(old(grid)@), ..old(surface)@ })
        } else {
            old(surface)@
        }),
{
    if !grid.is_dirty() {
        return Ok(false);
    }
    let w = grid.width();
    let h = grid.height();
    let expected: usize = w * h * 4;
    if surface.width != w || surface.height != h || surface.bytes.len() != expected {
        return Err(SyncError::DimensionMismatch);
    }
    surface.bytes = encode(grid);
    grid.mark_clean();
    Ok(true)
}

/// Encoding a grid of all-default colors yields `width * height * 4`
/// bytes, every one of them the default channel's byte.
pub proof fn lemma_encode_default(g: GridView)
    requires
        g.wf(),
        forall|i: int| 0 <= i < g.cells.len() ==> g.cells[i] == default_color(),
    ensures
        encode_spec(g).len() == g.width * g.height * 4,
        channel_byte(CHANNEL_ONE as int) == 255,
        forall|j: int|
            0 <= j < encode_spec(g).len() ==> encode_spec(g)[j] == channel_byte(
                CHANNEL_ONE as int,
            ),
{
    assert forall|j: int| 0 <= j < encode_spec(g).len()
        implies encode_spec(g)[j] == channel_byte(CHANNEL_ONE as int) by {
        assert(0 <= j / 4 < g.cells.len()) by (nonlinear_arith)
            requires
                0 <= j < g.cells.len() * 4,
        ;
        assert(g.cells[j / 4] == default_color());
    }
}

/// The bytes a grid encodes to: `width * height * 4` bytes, where byte
/// `i` is byte `i % 4` of the color of cell `i / 4` in row-major order.
pub open spec fn encode_spec(g: GridView) -> Seq<u8> {
    Seq::new((g.width * g.height * 4) as nat, |i: int| color_byte(g.cells[i / 4], i % 4) as u8)
}

/// Encodes the grid, cell by cell, into a fresh byte buffer whose exact
/// final capacity is reserved up front.
pub fn encode(grid: &PixelGrid) -> (out: Vec<u8>)
    requires
        grid@.wf(),
        grid@.width * grid@.height * 4 <= usize::MAX,
    ensures
        out@ == encode_spec(grid@),
{
    let ghost g = grid@;
    let width = grid.width();
    let height = grid.height();
    proof {
        lemma_grid_indexing(g);
    }
    let total: usize = width * height * 4;
    let mut out: Vec<u8> = Vec::with_capacity(total);
    let mut y: usize = 0;
    while y < height
        invariant
            g == grid@,
            g.wf(),
            g.width == width,
            g.height == height,
            g.width * g.height * 4 <= usize::MAX,
            y <= height,
            out@.len() == y * width * 4,
            forall|i: int| 0 <= i < out@.len() ==> out@[i] == encode_spec(g)[i],
        decreases height - y,
    {
        let mut x: usize = 0;
        proof {
            lemma_encode_row_bound(g.width as int, g.height as int, y as int);
        }
        while x < width
            invariant
                g == grid@,
                g.wf(),
                g.width == width,
                g.height == height,
                g.width * g.height * 4 <= usize::MAX,
                y < height,
                x <= width,
                (y * width + x) * 4 <= g.width * g.height * 4,
                out@.len() == (y * width + x) * 4,
                forall|i: int| 0 <= i < out@.len() ==> out@[i] == encode_spec(g)[i],
            decreases width - x,
        {
            proof {
                lemma_grid_indexing(g);
                lemma_encode_cell_bound(g.width as int, g.height as int, x as int, y as int);
            }
            let c: Color = grid.get(x, y).unwrap();
            let ghost cell: int = y * width + x;
            proof {
                assert(c == g.cells[cell]);
                lemma_byte_positions(cell);
            }
            out.push(crate::color::encode_channel(c.red));
            out.push(crate::color::encode_channel(c.green));
            out.push(crate::color::encode_channel(c.blue));
            out.push(crate::color::encode_channel(c.alpha));
            x = x + 1;
            proof {
                assert((y * width + x) * 4 == (cell + 1) * 4);
            }
        }
        y = y + 1;
        proof {
            assert((y * width) * 4 == ((y - 1) * width + width) * 4) by (nonlinear_arith);
        }
    }
    proof {
        assert(out@.len() == height * width * 4);
        assert(g.width * g.height * 4 == height * width * 4) by (nonlinear_arith)
            requires
                g.width == width && g.height == height,
        ;
        assert(out@ =~= encode_spec(g));
    }
    out
}

/// For a row index inside the grid, the bytes written so far stay within
/// the total.
proof fn lemma_encode_row_bound(w: int, h: int, y: int)
    by (nonlinear_arith)
    requires
        w >= 0,
        0 <= y < h,
    ensures
        (y * w + 0) * 4 <= w * h * 4,
{
}

/// For a cell inside the grid, its index and its four byte positions stay
/// within the totals.
proof fn lemma_encode_cell_bound(w: int, h: int, x: int, y: int)
    by (nonlinear_arith)
    requires
        0 <= x < w,
        0 <= y < h,
    ensures
        0 <= y * w + x,
        (y * w + x + 1) * 4 <= w * h * 4,
        (y * w + x) * 4 == y * w * 4 + x * 4,
{
}

/// The four byte positions of cell `i` map back to cell `i` and channel
/// `0..4` under the encoder's `i / 4`, `i % 4` addressing.
proof fn lemma_byte_positions(i: int)
    requires
        i >= 0,
    ensures
        (4 * i) / 4 == i && (4 * i) % 4 == 0,
        (4 * i + 1) / 4 == i && (4 * i + 1) % 4 == 1,
        (4 * i + 2) / 4 == i && (4 * i + 2) % 4 == 2,
        (4 * i + 3) / 4 == i && (4 * i + 3) % 4 == 3,
{
    assert((4 * i) / 4 == i && (4 * i) % 4 == 0) by (nonlinear_arith)
        requires
            i >= 0,
    ;
    assert((4 * i + 1) / 4 == i && (4 * i + 1) % 4 == 1) by (nonlinear_arith)
        requires
            i >= 0,
    ;
    assert((4 * i + 2) / 4 == i && (4 * i + 2) % 4 == 2) by (nonlinear_arith)
        requires
            i >= 0,
    ;
    assert((4 * i + 3) / 4 == i && (4 * i + 3) % 4 == 3) by (nonlinear_arith)
        requires
            i >= 0,
    ;
}

} // verus!
