use vstd::prelude::*;
use crate::ops::Vec2;

verus! {

/// The shapes a group can arrange its agents in.
#[derive(Debug, Copy, Clone, PartialEq, Eq)]
pub enum FormationKind {
    /// Loose jitter around the target, for a group that is under way.
    Default,
    /// A scatter inside a disk, for a group with nothing to do.
    Idle,
    /// A block of rows along the x axis.
    Phalanx,
    /// A block of rows along a given direction.
    Directional,
}

/// Column and row of place `index` in a block that is `width` places wide,
/// filled row by row. A block of no width has the single cell `(0, 0)`.
pub open spec fn grid_cell(index: int, width: int) -> (int, int) {
    if width == 0 {
        (0, 0)
    } else {
        (index % width, index / width)
    }
}

/// The cell of agent `index` in a block of `width` columns: column
/// `index mod width`, row `index div width`; `(0, 0)` where `width` is 0.
pub fn phalanx_formation(index: usize, width: usize) -> (cell: Vec2<usize>)
    ensures
        (cell.x as int, cell.y as int) == grid_cell(index as int, width as int),
{
    if width == 0 {
        Vec2 { x: 0, y: 0 }
    } else {
        Vec2 { x: index % width, y: index / width }
    }
}

/// The cells of the first `count` agents in a block of `form_width` columns.
pub fn calculate_formation(count: usize, form_width: usize) -> (cells: Vec<Vec2<usize>>)
    ensures
        cells@.len() == count,
        forall|i: int|
            0 <= i < count ==> (cells@[i].x as int, cells@[i].y as int) == #[trigger] grid_cell(
                i,
                form_width as int,
            ),
{
    let mut cells: Vec<Vec2<usize>> = Vec::with_capacity(count);
    let mut i: usize = 0;
    while i < count
        invariant
            i <= count,
            cells@.len() == i,
            forall|k: int|
                0 <= k < i ==> (cells@[k].x as int, cells@[k].y as int) == #[trigger] grid_cell(
                    k,
                    form_width as int,
                ),
        decreases count - i,
    {
        cells.push(phalanx_formation(i, form_width));
        i = i + 1;
    }
    cells
}

/// In a block of positive width every place has a cell of its own, inside the
/// block's columns, and the cell gives the place back.
pub proof fn lemma_grid_cell_places(index: int, width: int)
    requires
        0 <= index,
        0 < width,
    ensures
        0 <= grid_cell(index, width).0 < width,
        0 <= grid_cell(index, width).1,
        grid_cell(index, width).1 * width + grid_cell(index, width).0 == index,
{
    vstd::arithmetic::div_mod::lemma_fundamental_div_mod(index, width);
    vstd::arithmetic::div_mod::lemma_mod_bound(index, width);
    vstd::arithmetic::div_mod::lemma_div_pos_is_pos(index, width);
    assert(width * (index / width) == (index / width) * width) by (nonlinear_arith);
}

/// In a block of positive width no two places share a cell.
pub proof fn lemma_grid_cells_distinct(i: int, j: int, width: int)
    requires
        0 <= i,
        0 <= j,
        0 < width,
        grid_cell(i, width) == grid_cell(j, width),
    ensures
        i == j,
{
    lemma_grid_cell_places(i, width);
    lemma_grid_cell_places(j, width);
}

} // verus!
