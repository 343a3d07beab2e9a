use vstd::prelude::*;

verus! {

/// Number of columns of the tool grid for a panel of width `available`:
/// the width divided by one button's footprint (button width plus
/// spacing), but never fewer than one column.
pub open spec fn grid_columns(available: int, footprint: int) -> int
    recommends
        footprint > 0,
{
    if available / footprint < 1 {
        1
    } else {
        available / footprint
    }
}

/// Computes how many fixed-size buttons fit in one grid row.
pub fn columns_for_width(available: usize, button_width: usize, spacing: usize) -> (cols: usize)
    requires
        0 < button_width + spacing <= usize::MAX,
    ensures
        cols as int == grid_columns(available as int, button_width + spacing),
{
    let footprint: usize = button_width + spacing;
    let cols: usize = available / footprint;
    if cols < 1 {
        1
    } else {
        cols
    }
}

/// A new grid row starts before the button at `pos` exactly when `pos`
/// is a positive multiple of the column count.
pub fn needs_row_break(pos: usize, cols: usize) -> (r: bool)
    requires
        cols > 0,
    ensures
        r == (pos > 0 && pos % cols == 0),
{
    pos > 0 && pos % cols == 0
}

} // verus!
