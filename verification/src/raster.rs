//! Shared rasterization skeleton.
//!
//! Every face element renders the same way: scan a rectangle of cells,
//! decide per cell whether the pixel is inside the element's shape and how
//! bright it is, and hand accepted cells to the mirrored pixel drawer. The
//! scan loop and its write-sequence specification live here once; each
//! element contributes only its per-cell decision.

use vstd::prelude::*;
use vstd::arithmetic::div_mod::{
    lemma_div_nonincreasing, lemma_div_pos_is_pos, lemma_fundamental_div_mod,
    lemma_fundamental_div_mod_converse, lemma_mod_bound,
};
use crate::canvas::{spec_draw_writes, Canvas, PixelDrawer, PixelWrite};
use crate::color::ColorPalette;
use crate::state::{RenderContext, SharedFaceState};

verus! {

/// One accepted cell: local brightness (centi-units of [0, 255]), shimmer
/// color index, and the logical pixel it lands on.
#[derive(Debug, Clone, Copy, PartialEq, Eq, Structural)]
pub struct DrawCmd {
    pub bright: i64,
    pub color_index: i64,
    pub x: i32,
    pub y: i32,
}

impl DrawCmd {
    /// The ranges `PixelDrawer::draw` accepts.
    pub open spec fn wf(self) -> bool {
        &&& 0 <= self.bright <= 25500
        &&& -1_000_000_000_000 <= self.color_index <= 1_000_000_000_000
    }
}

/// Floor division by a positive divisor, the rounding every boundary-curve
/// evaluation uses: the result is the largest integer at most `n / d`.
pub fn div_floor(n: i64, d: i64) -> (q: i64)
    requires
        0 < d <= 1_000_000,
        -1_000_000_000_000 <= n <= 1_000_000_000_000,
    ensures
        q == n as int / d as int,
        n >= 0 ==> 0 <= q <= n,
        n < 0 ==> n <= q <= 0,
{
    if n >= 0 {
        proof {
            lemma_div_pos_is_pos(n as int, d as int);
            lemma_div_nonincreasing(n as int, d as int);
        }
        n / d
    } else {
        let m = -n;
        let q1 = (m + d - 1) / d;
        proof {
            lemma_div_pos_is_pos(m as int + d as int - 1, d as int);
            lemma_fundamental_div_mod(m as int, d as int);
            let q0 = m as int / d as int;
            let r0 = m as int % d as int;
            lemma_mod_bound(m as int, d as int);
            assert((-q0) * d == -(d * q0)) by (nonlinear_arith);
            assert((q0 + 1) * d == d * q0 + d) by (nonlinear_arith);
            assert((-(q0 + 1)) * d == -(d * q0) - d) by (nonlinear_arith);
            if r0 == 0 {
                lemma_fundamental_div_mod_converse(m as int + d as int - 1, d as int, q0, d as int - 1);
                lemma_fundamental_div_mod_converse(n as int, d as int, -q0, 0);
                assert(q0 <= d * q0) by (nonlinear_arith)
                    requires
                        1 <= d,
                        0 <= q0;
            } else {
                lemma_fundamental_div_mod_converse(m as int + d as int - 1, d as int, q0 + 1, r0 - 1);
                lemma_fundamental_div_mod_converse(n as int, d as int, -(q0 + 1), d as int - r0);
                assert(q0 <= d * q0) by (nonlinear_arith)
                    requires
                        1 <= d,
                        0 <= q0;
            }
        }
        -q1
    }
}

/// Division truncating toward zero by a positive divisor: the rounding of
/// a whole-pixel corner taken from a centi-unit position.
pub open spec fn spec_div_trunc(n: int, d: int) -> int {
    if n >= 0 {
        n / d
    } else {
        -((-n) / d)
    }
}

/// Evaluate the truncating division.
pub fn div_trunc(n: i64, d: i64) -> (q: i64)
    requires
        0 < d <= 1_000_000,
        -1_000_000_000_000 <= n <= 1_000_000_000_000,
    ensures
        q == spec_div_trunc(n as int, d as int),
        n >= 0 ==> 0 <= q <= n,
        n < 0 ==> n <= q <= 0,
{
    if n >= 0 {
        proof {
            lemma_div_pos_is_pos(n as int, d as int);
            lemma_div_nonincreasing(n as int, d as int);
        }
        n / d
    } else {
        let m = -n;
        proof {
            lemma_div_pos_is_pos(m as int, d as int);
            lemma_div_nonincreasing(m as int, d as int);
        }
        -(m / d)
    }
}

/// The writes one cell of a scan contributes: what the drawer appends for
/// the cell's command, or nothing where the cell is outside the shape.
pub open spec fn spec_cell_writes(
    cell: spec_fn(int, int) -> Option<DrawCmd>,
    brightness: int,
    palette: ColorPalette,
    i: int,
    j: int,
) -> Seq<PixelWrite> {
    match cell(i, j) {
        Option::Some(c) => spec_draw_writes(
            c.bright as int,
            c.color_index as int,
            c.x as int,
            c.y as int,
            brightness,
            palette,
        ),
        Option::None => Seq::empty(),
    }
}

/// The writes of one scan row: cells `(i, 0) .. (i, j_count)` in order.
pub open spec fn spec_row_writes(
    cell: spec_fn(int, int) -> Option<DrawCmd>,
    brightness: int,
    palette: ColorPalette,
    i: int,
    j_count: int,
) -> Seq<PixelWrite>
    decreases j_count,
{
    if j_count <= 0 {
        Seq::empty()
    } else {
        spec_row_writes(cell, brightness, palette, i, j_count - 1)
            + spec_cell_writes(cell, brightness, palette, i, j_count - 1)
    }
}

/// The writes of a full scan: rows `0 .. i_count`, each of `j_count`
/// cells, in scan order.
pub open spec fn spec_rect_writes(
    cell: spec_fn(int, int) -> Option<DrawCmd>,
    brightness: int,
    palette: ColorPalette,
    i_count: int,
    j_count: int,
) -> Seq<PixelWrite>
    decreases i_count,
{
    if i_count <= 0 {
        Seq::empty()
    } else {
        spec_rect_writes(cell, brightness, palette, i_count - 1, j_count)
            + spec_row_writes(cell, brightness, palette, i_count - 1, j_count)
    }
}

/// A shape that renders by scanning a rectangle of cells.
pub trait Raster {
    /// Ranges of the shape's own parameters that its cell decision relies
    /// on (positions within a panel of the display, say).
    spec fn inv(&self) -> bool;

    /// The per-cell decision: `Some` with brightness, color index and
    /// target pixel where the cell lies inside the shape.
    spec fn spec_cell(&self, ctx: RenderContext, ss: SharedFaceState, i: int, j: int) -> Option<
        DrawCmd,
    >;

    /// Evaluate the per-cell decision.
    fn cell(&self, ctx: &RenderContext, ss: &SharedFaceState, i: i32, j: i32) -> (r: Option<
        DrawCmd,
    >)
        requires
            self.inv(),
            ctx.wf(),
            ss.wf(),
            0 <= i <= 1000,
            0 <= j <= 1000,
        ensures
            r == self.spec_cell(*ctx, *ss, i as int, j as int),
            (r matches Option::Some(c) ==> c.wf()),
    ;
}

/// Scan the rectangle `[0, i_count) x [0, j_count)` and draw every cell the
/// shape accepts, in row-major order.
#[verifier::loop_isolation(false)]
pub fn raster_scan<T: Raster>(
    elem: &T,
    canvas: &mut Canvas,
    ctx: &RenderContext,
    ss: &SharedFaceState,
    drawer: &PixelDrawer,
    i_count: i32,
    j_count: i32,
)
    requires
        elem.inv(),
        ctx.wf(),
        ss.wf(),
        0 <= i_count <= 1000,
        0 <= j_count <= 1000,
    ensures
        final(canvas)@ == old(canvas)@ + spec_rect_writes(
            (|i: int, j: int| elem.spec_cell(*ctx, *ss, i, j)),
            ctx.brightness as int,
            ctx.palette,
            i_count as int,
            j_count as int,
        ),
{
    let ghost cellf = (|i: int, j: int| elem.spec_cell(*ctx, *ss, i, j));
    let ghost b = ctx.brightness as int;
    let ghost p = ctx.palette;
    let mut i: i32 = 0;
    while i < i_count
        invariant
            0 <= i <= i_count,
            canvas@ == old(canvas)@ + spec_rect_writes(cellf, b, p, i as int, j_count as int),
        decreases i_count - i,
    {
        let mut j: i32 = 0;
        while j < j_count
            invariant
                0 <= j <= j_count,
                canvas@ == old(canvas)@ + spec_rect_writes(cellf, b, p, i as int, j_count as int)
                    + spec_row_writes(cellf, b, p, i as int, j as int),
            decreases j_count - j,
        {
            let r = elem.cell(ctx, ss, i, j);
            match r {
                Option::Some(c) => {
                    drawer.draw(canvas, c.bright, c.color_index, c.x, c.y, ctx.brightness, ctx.palette);
                },
                Option::None => {},
            }
            proof {
                assert(canvas@ =~= old(canvas)@ + spec_rect_writes(cellf, b, p, i as int, j_count as int)
                    + spec_row_writes(cellf, b, p, i as int, j as int + 1));
            }
            j += 1;
        }
        proof {
            assert(canvas@ =~= old(canvas)@ + spec_rect_writes(cellf, b, p, i as int + 1, j_count as int));
        }
        i += 1;
    }
}

} // verus!
