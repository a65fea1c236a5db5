//! Layout of the sprite sheet: a grid of frames, one animation per row.

use vstd::prelude::*;

verus! {

/// Number of columns of the sheet's grid.
pub const SHEET_COLS: usize = 27;

/// Number of rows of the sheet's grid.
pub const SHEET_ROWS: usize = 9;

pub const ROW_IDLE1: usize = 0;

pub const ROW_WALK_R: usize = 1;

pub const ROW_IDLE2: usize = 2;

pub const ROW_GIVING_FLOWERS: usize = 3;

pub const ROW_JUMP_R: usize = 4;

pub const ROW_LAND_R: usize = 5;

pub const ROW_SLEEP: usize = 6;

pub const ROW_HIDE: usize = 7;

pub const ROW_CLIMB_R: usize = 8;

/// How many frames a row of the sheet holds; 0 for a row the sheet lacks.
pub open spec fn frames_in_row(row: int) -> int {
    if row == 0 {
        13
    } else if row == 1 {
        5
    } else if row == 2 {
        17
    } else if row == 3 {
        27
    } else if row == 4 {
        1
    } else if row == 5 {
        9
    } else if row == 6 {
        1
    } else if row == 7 {
        8
    } else if row == 8 {
        8
    } else {
        0
    }
}

/// The frame count of `row`.
pub fn row_frames(row: usize) -> (n: usize)
    ensures
        n == frames_in_row(row as int),
        row < SHEET_ROWS ==> 1 <= n <= SHEET_COLS,
{
    match row {
        0 => 13,
        1 => 5,
        2 => 17,
        3 => 27,
        4 => 1,
        5 => 9,
        6 => 1,
        7 => 8,
        8 => 8,
        _ => 0,
    }
}

/// Atlas index of the frame at `row`, `col`; the grid is numbered row by row.
pub fn row_col_to_index(row: usize, col: usize) -> (index: usize)
    requires
        row * SHEET_COLS + col <= usize::MAX,
    ensures
        index == row * SHEET_COLS + col,
{
    row * SHEET_COLS + col
}

/// Atlas index of the first frame of `row`.
pub fn row_start(row: usize) -> (index: usize)
    requires
        row * SHEET_COLS <= usize::MAX,
    ensures
        index == row * SHEET_COLS,
{
    row * SHEET_COLS
}

/// Width and height in pixels of one frame of a sheet image of
/// `image_w` by `image_h` pixels, rounded down.
pub fn cell_size(image_w: u32, image_h: u32) -> (cell: (u32, u32))
    ensures
        cell.0 == image_w as int / SHEET_COLS as int,
        cell.1 == image_h as int / SHEET_ROWS as int,
{
    (image_w / 27, image_h / 9)
}

/// Every row of the sheet holds at least one frame and no more than the grid is wide.
pub proof fn lemma_rows_are_populated(row: int)
    requires
        0 <= row < SHEET_ROWS,
    ensures
        1 <= frames_in_row(row) <= SHEET_COLS,
{
}

} // verus!
