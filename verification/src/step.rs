//! The step executor: applies the rule to every cell of the current board
//! and produces the next generation as a fresh board. Two strategies are
//! offered — cell by cell, and row by row (the unit a data-parallel caller
//! fans out) — and both are proved to produce the same output.

use vstd::prelude::*;
use vstd::arithmetic::div_mod::lemma_fundamental_div_mod_converse_div;
use vstd::arithmetic::div_mod::lemma_fundamental_div_mod_converse_mod;
use crate::board::Board;
use crate::rule::next_cell;
use crate::rule::next_state;
use crate::rule::game_of_life;

verus! {

/// The whole next generation of a board `s` of width `w` and height `h`:
/// cell i of the result is the rule applied at (i / w, i % w).
pub open spec fn step_spec(s: Seq<u8>, w: int, h: int) -> Seq<u8> {
    Seq::new((w * h) as nat, |i: int| next_cell(s, w, h, i / w, i % w))
}

/// Sequential strategy: computes the next generation cell by cell.
pub fn step(board: &Board) -> (next: Board)
    requires
        board.wf(),
    ensures
        next.wf(),
        next.width == board.width,
        next.height == board.height,
        next@ == step_spec(board@, board.width as int, board.height as int),
{
    let w: usize = board.width;
    let h: usize = board.height;
    let n: usize = board.cells.len();
    proof {
        // the board's own buffer shows that w * h fits in usize
        assert(w * h == n);
    }
    let mut next: Board = Board::new(w, h);
    let ghost target: Seq<u8> = step_spec(board@, w as int, h as int);
    let mut r: usize = 0;
    while r < h
        invariant
            board.wf(),
            next.wf(),
            next.width == w,
            next.height == h,
            w == board.width,
            h == board.height,
            r <= h,
            next@.len() == w * h,
            target == step_spec(board@, w as int, h as int),
            target.len() == w * h,
            forall|j: int| 0 <= j < r * w ==> next@[j] == target[j],
        decreases h - r,
    {
        let mut c: usize = 0;
        while c < w
            invariant
                board.wf(),
                next.wf(),
                next.width == w,
                next.height == h,
                w == board.width,
                h == board.height,
                r < h,
                c <= w,
                next@.len() == w * h,
                target == step_spec(board@, w as int, h as int),
                target.len() == w * h,
                forall|j: int| 0 <= j < r * w + c ==> next@[j] == target[j],
            decreases w - c,
        {
            game_of_life(board, &mut next, r, c);
            proof {
                assert(r * w + c < w * h) by (nonlinear_arith)
                    requires
                        r < h,
                        c < w,
                ;
                lemma_fundamental_div_mod_converse_div(r * w + c, w as int, r as int, c as int);
                lemma_fundamental_div_mod_converse_mod(r * w + c, w as int, r as int, c as int);
                assert(target[r * w + c] == next_cell(
                    board@,
                    w as int,
                    h as int,
                    r as int,
                    c as int,
                ));
            }
            c = c + 1;
        }
        proof {
            assert(r * w + w == (r + 1) * w) by (nonlinear_arith);
        }
        r = r + 1;
    }
    proof {
        assert(h * w == w * h) by (nonlinear_arith);
        assert(next@ =~= target);
    }
    next
}

/// One row of the next generation, computed from the read-only current
/// board alone: the unit of work a data-parallel strategy hands to each
/// worker.
pub fn step_row(board: &Board, r: usize) -> (row: Vec<u8>)
    requires
        board.wf(),
        r < board.height,
    ensures
        row@.len() == board.width,
        forall|c: int|
            0 <= c < board.width ==> row@[c] == next_cell(
                board@,
                board.width as int,
                board.height as int,
                r as int,
                c,
            ),
{
    let w: usize = board.width;
    let mut row: Vec<u8> = Vec::new();
    let mut c: usize = 0;
    while c < w
        invariant
            board.wf(),
            w == board.width,
            r < board.height,
            c <= w,
            row@.len() == c,
            forall|k: int|
                0 <= k < c ==> row@[k] == next_cell(
                    board@,
                    board.width as int,
                    board.height as int,
                    r as int,
                    k,
                ),
        decreases w - c,
    {
        let v: u8 = next_state(board, r, c);
        row.push(v);
        c = c + 1;
    }
    row
}

/// Row-decomposed strategy: computes each row independently and joins the
/// rows in order. Executed here sequentially; a parallel caller may compute
/// the rows on separate workers and must join them in the same order.
pub fn step_by_rows(board: &Board) -> (next: Board)
    requires
        board.wf(),
    ensures
        next.wf(),
        next.width == board.width,
        next.height == board.height,
        next@ == step_spec(board@, board.width as int, board.height as int),
{
    let w: usize = board.width;
    let h: usize = board.height;
    let n: usize = board.cells.len();
    proof {
        // the board's own buffer shows that w * h fits in usize
        assert(w * h == n);
    }
    let ghost target: Seq<u8> = step_spec(board@, w as int, h as int);
    let mut cells: Vec<u8> = Vec::new();
    let mut r: usize = 0;
    while r < h
        invariant
            board.wf(),
            w == board.width,
            h == board.height,
            w * h <= usize::MAX,
            r <= h,
            cells@.len() == r * w,
            target == step_spec(board@, w as int, h as int),
            target.len() == w * h,
            forall|j: int| 0 <= j < r * w ==> cells@[j] == target[j],
        decreases h - r,
    {
        let mut row: Vec<u8> = step_row(board, r);
        proof {
            assert((r + 1) * w == r * w + w) by (nonlinear_arith);
            assert(r * w + w <= h * w) by (nonlinear_arith)
                requires
                    r < h,
            ;
            assert(h * w == w * h) by (nonlinear_arith);
        }
        cells.append(&mut row);
        proof {
            assert forall|j: int| 0 <= j < (r + 1) * w implies cells@[j] == target[j] by {
                if j >= r * w {
                    let c = j - r * w;
                    lemma_fundamental_div_mod_converse_div(j, w as int, r as int, c);
                    lemma_fundamental_div_mod_converse_mod(j, w as int, r as int, c);
                }
            }
        }
        r = r + 1;
    }
    proof {
        assert(h * w == w * h) by (nonlinear_arith);
    }
    let next: Board = Board { width: w, height: h, cells };
    proof {
        assert(next@ =~= target);
        assert forall|i: int| 0 <= i < next@.len() implies next@[i] <= 1 by {
            assert(next@[i] == target[i]);
        }
    }
    next
}

/// Law: the step is deterministic — any two strategies whose outputs both
/// equal the specified next generation of the same input board produce
/// bit-identical output.
pub proof fn lemma_strategies_agree(s: Seq<u8>, w: int, h: int, a: Seq<u8>, b: Seq<u8>)
    requires
        a == step_spec(s, w, h),
        b == step_spec(s, w, h),
    ensures
        a == b,
{
}

} // verus!
