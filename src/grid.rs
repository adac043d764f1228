//! The grid of gauges: how many rows, how wide each cell is, and where a
//! core's gauge stands.
//!
//! Cores are laid out in row-major order, `min_width` gauges to a row. A
//! cell whose index names no core shows the aggregate gauge instead.
use vstd::prelude::*;
use vstd::arithmetic::div_mod::lemma_fundamental_div_mod_converse;

verus! {

/// The planner was given a value that no grid can be made from.
#[derive(Clone, Copy, Debug, PartialEq, Eq, Structural)]
pub enum ConfigError {
    /// A row must hold at least one gauge.
    ZeroWidth,
    /// The core count and the width together leave no room to count the
    /// grid's cells.
    TooLarge,
}

/// The layout of one dashboard: `row_count` rows of core gauges, each
/// `columns_per_row` cells wide, followed by `extra_rows` auxiliary rows.
#[derive(Clone, Copy, Debug, PartialEq, Eq, Structural)]
pub struct GridSpec {
    pub row_count: usize,
    pub columns_per_row: usize,
    pub extra_rows: usize,
    pub cell_width_percent: u16,
    pub cell_height_percent: u16,
}

/// Rows needed for `core_count` cores at `min_width` to a row: one row
/// while the cores fit in it, else enough rows for every core.
pub open spec fn rows_for(core_count: int, min_width: int) -> int {
    if core_count < min_width {
        1
    } else if core_count % min_width == 0 {
        core_count / min_width
    } else {
        core_count / min_width + 1
    }
}

/// The share of the screen, in whole percent, that one of `n` equal parts
/// takes. The division truncates, so the parts may leave a thin margin.
pub open spec fn percent_of(n: int) -> int {
    100int / n
}

/// The cell of row `row`, column `col`, counted in row-major order.
pub open spec fn linear_index_of(row: int, col: int, min_width: int) -> int {
    row * min_width + col
}

/// The row and column of the cell with linear index `index`.
pub open spec fn position_of(index: int, min_width: int) -> (int, int) {
    (index / min_width, index % min_width)
}

/// The layout that `plan` makes of its arguments.
pub open spec fn planned(core_count: int, min_width: int, extra_rows: int) -> GridSpec {
    GridSpec {
        row_count: rows_for(core_count, min_width) as usize,
        columns_per_row: min_width as usize,
        extra_rows: extra_rows as usize,
        cell_width_percent: percent_of(min_width) as u16,
        cell_height_percent: percent_of(rows_for(core_count, min_width) + extra_rows) as u16,
    }
}

/// What `plan` returns on its arguments.
pub open spec fn plan_result(core_count: int, min_width: int, extra_rows: int) -> Result<
    GridSpec,
    ConfigError,
> {
    if min_width == 0 {
        Err(ConfigError::ZeroWidth)
    } else {
        Ok(planned(core_count, min_width, extra_rows))
    }
}

/// Every positive count of rows of a positive width has room for its cores.
pub proof fn lemma_rows_bounds(core_count: int, min_width: int)
    requires
        core_count >= 0,
        min_width >= 1,
    ensures
        rows_for(core_count, min_width) >= 1,
        rows_for(core_count, min_width) * min_width >= core_count,
        rows_for(core_count, min_width) <= if core_count >= 1 { core_count } else { 1 },
        rows_for(core_count, min_width) * min_width < core_count + min_width || core_count
            < min_width,
{
    let q = core_count / min_width;
    let r = core_count % min_width;
    assert(core_count == min_width * q + r && 0 <= r < min_width) by (nonlinear_arith)
        requires
            min_width >= 1,
            q == core_count / min_width,
            r == core_count % min_width,
    ;
    if core_count >= min_width {
        assert(q >= 1) by (nonlinear_arith)
            requires
                core_count == min_width * q + r,
                0 <= r < min_width,
                core_count >= min_width,
        ;
        assert(q <= core_count) by (nonlinear_arith)
            requires
                core_count == min_width * q + r,
                0 <= r,
                min_width >= 1,
                q >= 1,
        ;
        if r == 0 {
            assert(q * min_width == core_count) by (nonlinear_arith)
                requires
                    core_count == min_width * q + r,
                    r == 0,
            ;
        } else {
            assert((q + 1) * min_width >= core_count && (q + 1) * min_width < core_count
                + min_width) by (nonlinear_arith)
                requires
                    core_count == min_width * q + r,
                    0 < r < min_width,
            ;
            assert(q + 1 <= core_count) by (nonlinear_arith)
                requires
                    core_count == min_width * q + r,
                    0 < r < min_width,
                    q >= 1,
            ;
        }
    }
}

/// A grid of `min_width` columns has a cell for each of `core_count` cores:
/// `rows_for(core_count, min_width) * min_width >= core_count`.
pub proof fn lemma_rows_cover_cores(core_count: int, min_width: int)
    requires
        core_count >= 1,
        min_width >= 1,
    ensures
        rows_for(core_count, min_width) * min_width >= core_count,
{
    lemma_rows_bounds(core_count, min_width);
}

/// Going from a cell's row and column to its linear index and back gives
/// the same row and column, and going from a linear index to a position
/// and back gives the same index, for every cell of a grid `min_width`
/// cells wide.
pub proof fn lemma_index_round_trip(row: int, col: int, min_width: int)
    requires
        min_width >= 1,
        row >= 0,
        0 <= col < min_width,
    ensures
        position_of(linear_index_of(row, col, min_width), min_width) == (row, col),
        linear_index_of(
            position_of(linear_index_of(row, col, min_width), min_width).0,
            position_of(linear_index_of(row, col, min_width), min_width).1,
            min_width,
        ) == linear_index_of(row, col, min_width),
{
    lemma_fundamental_div_mod_converse(row * min_width + col, min_width, row, col);
}

/// A linear index that stands in a grid `min_width` wide maps to a cell of
/// that grid, and back to itself.
pub proof fn lemma_position_round_trip(index: int, min_width: int)
    requires
        min_width >= 1,
        index >= 0,
    ensures
        position_of(index, min_width).0 >= 0,
        0 <= position_of(index, min_width).1 < min_width,
        linear_index_of(position_of(index, min_width).0, position_of(index, min_width).1, min_width)
            == index,
{
    let q = index / min_width;
    let r = index % min_width;
    assert(index == q * min_width + r && 0 <= r < min_width && q >= 0) by (nonlinear_arith)
        requires
            min_width >= 1,
            index >= 0,
            q == index / min_width,
            r == index % min_width,
    ;
}

/// Planning the same inputs twice gives the same layout.
pub proof fn lemma_plan_idempotent(
    core_count: usize,
    min_width: usize,
    extra_rows: usize,
    first: Result<GridSpec, ConfigError>,
    second: Result<GridSpec, ConfigError>,
)
    requires
        first == plan_result(core_count as int, min_width as int, extra_rows as int),
        second == plan_result(core_count as int, min_width as int, extra_rows as int),
    ensures
        first == second,
{
}

/// The number of rows of core gauges for `core_count` cores at `min_width`
/// to a row.
pub fn row_count(core_count: usize, min_width: usize) -> (r: usize)
    requires
        min_width >= 1,
    ensures
        r == rows_for(core_count as int, min_width as int),
        r >= 1,
        r * min_width >= core_count,
{
    proof {
        lemma_rows_bounds(core_count as int, min_width as int);
    }
    if core_count < min_width {
        1
    } else if core_count % min_width == 0 {
        core_count / min_width
    } else {
        core_count / min_width + 1
    }
}

/// The share, in whole percent, of one of `n` equal parts; truncating.
pub fn cell_percent(n: usize) -> (r: u16)
    requires
        n >= 1,
    ensures
        r == percent_of(n as int),
        r <= 100,
        n <= 100 ==> r >= 1,
{
    proof {
        if n <= 100 {
            assert(100int / (n as int) >= 1) by (nonlinear_arith)
                requires
                    1 <= n <= 100,
            ;
        }
    }
    (100 / n) as u16
}

/// The linear index of the cell in row `row`, column `col`.
pub fn linear_index(row: usize, col: usize, min_width: usize) -> (r: usize)
    requires
        row * min_width + col <= usize::MAX,
    ensures
        r == linear_index_of(row as int, col as int, min_width as int),
{
    proof {
        assert(0 <= row * min_width <= row * min_width + col) by (nonlinear_arith)
            requires
                row * min_width + col <= usize::MAX,
        ;
    }
    row * min_width + col
}

/// The row and column of the cell with linear index `index`.
pub fn cell_position(index: usize, min_width: usize) -> (r: (usize, usize))
    requires
        min_width >= 1,
    ensures
        r.0 == position_of(index as int, min_width as int).0,
        r.1 == position_of(index as int, min_width as int).1,
        r.1 < min_width,
{
    (index / min_width, index % min_width)
}

/// Whether linear index `index` names one of `core_count` cores.
pub fn is_valid_index(index: usize, core_count: usize) -> (r: bool)
    ensures
        r == (index < core_count),
{
    index < core_count
}

/// Lays out `core_count` cores at `min_width` gauges to a row, with
/// `extra_rows` auxiliary rows below them. A width of zero is refused.
pub fn plan(core_count: usize, min_width: usize, extra_rows: usize) -> (r: Result<
    GridSpec,
    ConfigError,
>)
    requires
        core_count + extra_rows < usize::MAX,
    ensures
        r == plan_result(core_count as int, min_width as int, extra_rows as int),
        r is Err <==> min_width == 0,
        r matches Ok(g) ==> g.row_count >= 1 && g.row_count * g.columns_per_row >= core_count,
{
    if min_width == 0 {
        return Err(ConfigError::ZeroWidth);
    }
    Ok(layout(core_count, min_width, extra_rows))
}

/// The layout of `core_count` cores at `min_width` gauges to a row, with
/// `extra_rows` auxiliary rows below them.
pub fn layout(core_count: usize, min_width: usize, extra_rows: usize) -> (g: GridSpec)
    requires
        min_width >= 1,
        core_count + extra_rows < usize::MAX,
    ensures
        g == planned(core_count as int, min_width as int, extra_rows as int),
        g.row_count >= 1,
        g.row_count * g.columns_per_row >= core_count,
{
    let rows = row_count(core_count, min_width);
    proof {
        lemma_rows_bounds(core_count as int, min_width as int);
    }
    GridSpec {
        row_count: rows,
        columns_per_row: min_width,
        extra_rows,
        cell_width_percent: cell_percent(min_width),
        cell_height_percent: cell_percent(rows + extra_rows),
    }
}

} // verus!
