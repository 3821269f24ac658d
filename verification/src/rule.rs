//! The Game of Life rule for a single cell: count the live cells among the
//! 8 neighbors (zero-padded at the border) and decide the cell's next state.

use vstd::prelude::*;
use crate::board::Board;
use crate::board::cell_at;

verus! {

/// The number of Alive cells among the 8 neighbors of (row, col); positions
/// outside the grid contribute 0.
pub open spec fn neighbor_sum(s: Seq<u8>, w: int, h: int, row: int, col: int) -> int {
    cell_at(s, w, h, row - 1, col - 1) + cell_at(s, w, h, row - 1, col) + cell_at(
        s,
        w,
        h,
        row - 1,
        col + 1,
    ) + cell_at(s, w, h, row, col - 1) + cell_at(s, w, h, row, col + 1) + cell_at(
        s,
        w,
        h,
        row + 1,
        col - 1,
    ) + cell_at(s, w, h, row + 1, col) + cell_at(s, w, h, row + 1, col + 1)
}

/// The canonical rule: an Alive cell survives with 2 or 3 live neighbors,
/// a Dead cell comes alive with exactly 3, and every other cell is Dead in
/// the next generation.
pub open spec fn next_cell(s: Seq<u8>, w: int, h: int, row: int, col: int) -> u8 {
    if cell_at(s, w, h, row, col) != 0 {
        if neighbor_sum(s, w, h, row, col) == 2 || neighbor_sum(s, w, h, row, col) == 3 {
            1u8
        } else {
            0u8
        }
    } else {
        if neighbor_sum(s, w, h, row, col) == 3 {
            1u8
        } else {
            0u8
        }
    }
}

/// The cell value at offset (dr, dc) from (r, c), Dead when that position
/// falls outside the grid.
pub fn get_offset(board: &Board, r: usize, c: usize, dc: i32, dr: i32) -> (v: u8)
    requires
        board.wf(),
        r < board.height,
        c < board.width,
        -1 <= dc <= 1,
        -1 <= dr <= 1,
    ensures
        v == cell_at(board@, board.width as int, board.height as int, r + dr, c + dc),
        v <= 1,
{
    if dr < 0 && r == 0 {
        return 0u8;
    }
    if dc < 0 && c == 0 {
        return 0u8;
    }
    let row: usize = if dr < 0 {
        r - 1
    } else if dr > 0 {
        r + 1
    } else {
        r
    };
    let col: usize = if dc < 0 {
        c - 1
    } else if dc > 0 {
        c + 1
    } else {
        c
    };
    board.get(row, col)
}

/// The next state of cell (r, c): the rule engine for one cell.
pub fn next_state(board: &Board, r: usize, c: usize) -> (v: u8)
    requires
        board.wf(),
        r < board.height,
        c < board.width,
    ensures
        v == next_cell(board@, board.width as int, board.height as int, r as int, c as int),
        v <= 1,
{
    // each neighbor reads as 0 or 1, so eight terms cannot overflow a u8
    let count_neighbors: u8 = get_offset(board, r, c, 0, 1) + get_offset(board, r, c, 1, 1)
        + get_offset(board, r, c, 1, 0) + get_offset(board, r, c, 1, -1) + get_offset(
        board,
        r,
        c,
        0,
        -1,
    ) + get_offset(board, r, c, -1, -1) + get_offset(board, r, c, -1, 0) + get_offset(
        board,
        r,
        c,
        -1,
        1,
    );
    if get_offset(board, r, c, 0, 0) != 0 {
        if count_neighbors == 2 || count_neighbors == 3 {
            1u8
        } else {
            0u8
        }
    } else {
        if count_neighbors == 3 {
            1u8
        } else {
            0u8
        }
    }
}

/// Writes the next state of cell (r, c) of `board` into `next_board`.
pub fn game_of_life(board: &Board, next_board: &mut Board, r: usize, c: usize)
    requires
        board.wf(),
        old(next_board).wf(),
        old(next_board).width == board.width,
        old(next_board).height == board.height,
        r < board.height,
        c < board.width,
    ensures
        final(next_board).wf(),
        final(next_board).width == board.width,
        final(next_board).height == board.height,
        final(next_board)@ == old(next_board)@.update(
            (r * board.width + c) as int,
            next_cell(board@, board.width as int, board.height as int, r as int, c as int),
        ),
{
    let value: u8 = next_state(board, r, c);
    next_board.set(r, c, value);
}

/// Law: an Alive cell stays Alive exactly when it has 2 or 3 live
/// neighbors; with any other count it becomes Dead.
pub proof fn lemma_alive_cell_rule(s: Seq<u8>, w: int, h: int, row: int, col: int)
    requires
        cell_at(s, w, h, row, col) != 0,
    ensures
        next_cell(s, w, h, row, col) == (if neighbor_sum(s, w, h, row, col) == 2
            || neighbor_sum(s, w, h, row, col) == 3 {
            1u8
        } else {
            0u8
        }),
{
}

/// Law: a Dead cell becomes Alive exactly when it has 3 live neighbors;
/// with any other count it stays Dead.
pub proof fn lemma_dead_cell_rule(s: Seq<u8>, w: int, h: int, row: int, col: int)
    requires
        cell_at(s, w, h, row, col) == 0,
    ensures
        next_cell(s, w, h, row, col) == (if neighbor_sum(s, w, h, row, col) == 3 {
            1u8
        } else {
            0u8
        }),
{
}

/// Law: a position outside the grid always reads as Dead, so it
/// contributes 0 to any neighbor sum: border cells never wrap.
pub proof fn lemma_out_of_bounds_reads_dead(s: Seq<u8>, w: int, h: int, row: int, col: int)
    requires
        row < 0 || row >= h || col < 0 || col >= w,
    ensures
        cell_at(s, w, h, row, col) == 0,
{
}

} // verus!
