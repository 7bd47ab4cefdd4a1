//! Layout of the wall grid: one tile every ten pixels across the window,
//! laid out row by row from the window's corner.
use vstd::arithmetic::div_mod::lemma_fundamental_div_mod_converse;
use vstd::prelude::*;

verus! {

/// Distance in pixels between the corners of neighbouring tiles.
pub const TILE_PITCH: i32 = 10;

/// The corner of one tile, in whole pixels from the window's corner.
#[derive(Clone, Copy, Debug, PartialEq, Eq, Structural)]
pub struct Cell {
    /// Column offset in pixels.
    pub i: i32,
    /// Row offset in pixels.
    pub j: i32,
}

/// How many tiles fit along an edge of `len` pixels: one at each multiple
/// of the pitch below `len`.
pub open spec fn tiles_along_spec(len: int) -> int {
    if len <= 0 {
        0
    } else {
        (len + TILE_PITCH - 1) / TILE_PITCH as int
    }
}

/// The `k`-th tile of a grid `cols` tiles wide, rows filled in order.
pub open spec fn grid_cell(k: int, cols: int) -> (int, int) {
    (TILE_PITCH * (k % cols), TILE_PITCH * (k / cols))
}

/// Number of tiles along an edge of `len` pixels.
pub fn tiles_along(len: i32) -> (r: usize)
    ensures
        r == tiles_along_spec(len as int),
{
    if len <= 0 {
        0
    } else {
        let whole = len / TILE_PITCH;
        if len % TILE_PITCH != 0 {
            (whole + 1) as usize
        } else {
            whole as usize
        }
    }
}

/// The corners of all tiles of a `width` by `height` window, row by row,
/// each row from left to right. A window with an edge of no positive
/// length holds no tile.
pub fn grid_cells(width: i32, height: i32) -> (r: Vec<Cell>)
    ensures
        r@.len() == tiles_along_spec(height as int) * tiles_along_spec(width as int),
        forall|k: int|
            #![trigger r@[k]]
            0 <= k < r@.len() ==> (r@[k].i as int, r@[k].j as int) == grid_cell(
                k,
                tiles_along_spec(width as int),
            ),
        forall|k: int|
            #![trigger r@[k]]
            0 <= k < r@.len() ==> 0 <= r@[k].i < width && 0 <= r@[k].j < height,
{
    let cols = tiles_along(width);
    let rows = tiles_along(height);
    let mut out: Vec<Cell> = Vec::new();
    let mut row: usize = 0;
    while row < rows
        invariant
            cols == tiles_along_spec(width as int),
            rows == tiles_along_spec(height as int),
            row <= rows,
            out@.len() == row * cols,
            forall|k: int|
                #![trigger out@[k]]
                0 <= k < out@.len() ==> (out@[k].i as int, out@[k].j as int) == grid_cell(
                    k,
                    cols as int,
                ) && 0 <= out@[k].i < width && 0 <= out@[k].j < height,
        decreases rows - row,
    {
        let mut col: usize = 0;
        while col < cols
            invariant
                cols == tiles_along_spec(width as int),
                rows == tiles_along_spec(height as int),
                row < rows,
                col <= cols,
                out@.len() == row * cols + col,
                forall|k: int|
                    #![trigger out@[k]]
                    0 <= k < out@.len() ==> (out@[k].i as int, out@[k].j as int) == grid_cell(
                        k,
                        cols as int,
                    ) && 0 <= out@[k].i < width && 0 <= out@[k].j < height,
            decreases cols - col,
        {
            proof {
                lemma_fundamental_div_mod_converse(
                    (row * cols + col) as int,
                    cols as int,
                    row as int,
                    col as int,
                );
            }
            let cell = Cell { i: TILE_PITCH * col as i32, j: TILE_PITCH * row as i32 };
            out.push(cell);
            col = col + 1;
        }
        assert(out@.len() == (row + 1) * cols) by (nonlinear_arith)
            requires
                out@.len() == row * cols + cols,
        ;
        row = row + 1;
    }
    out
}

} // verus!
