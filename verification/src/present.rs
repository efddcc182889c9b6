//! Diff-based presentation: comparing the back grid against the front grid
//! and emitting one write per changed cell — never more — so that output
//! volume is bounded by the size of the delta, not by the screen.

use vstd::prelude::*;
use crate::screen::{GridView, ScreenElement, TerminalScreen, EMPTY_CHAR};

verus! {

/// One presentation operation: move the terminal cursor to `(x, y)`, set
/// the foreground color, and emit `character`.
#[derive(Clone, Copy, PartialEq, Eq, Structural, Debug)]
pub struct PresentOp {
    pub x: usize,
    pub y: usize,
    pub r: u8,
    pub g: u8,
    pub b: u8,
    pub character: char,
}

/// What a cell's character looks like on the terminal: the empty sentinel
/// is emitted as a literal space.
pub open spec fn display_char(c: char) -> char {
    if c == EMPTY_CHAR {
        ' '
    } else {
        c
    }
}

/// The presentation operation for the cell at row-major index `i` of the
/// back grid.
pub open spec fn op_for_cell(back: GridView, i: int) -> PresentOp
    recommends
        back.wf(),
        back.width > 0,
        0 <= i < back.cells.len(),
{
    PresentOp {
        x: (i % back.width as int) as usize,
        y: (i / back.width as int) as usize,
        r: back.cells[i].r,
        g: back.cells[i].g,
        b: back.cells[i].b,
        character: display_char(back.cells[i].character),
    }
}

/// How many of the first `n` cells differ between the two grids.
pub open spec fn diff_count(front: Seq<ScreenElement>, back: Seq<ScreenElement>, n: int) -> int
    decreases n,
{
    if n <= 0 {
        0
    } else {
        diff_count(front, back, n - 1) + if front[n - 1] != back[n - 1] {
            1int
        } else {
            0int
        }
    }
}

/// The presentation operations for the first `n` cells, in row-major
/// order: exactly one operation per differing cell.
pub open spec fn diff_ops(front: GridView, back: GridView, n: int) -> Seq<PresentOp>
    decreases n,
{
    if n <= 0 {
        Seq::empty()
    } else {
        let rest = diff_ops(front, back, n - 1);
        if front.cells[n - 1] != back.cells[n - 1] {
            rest.push(op_for_cell(back, n - 1))
        } else {
            rest
        }
    }
}

/// The number of operations that presentation emits equals the number of
/// cells on which the two grids differ.
pub proof fn lemma_diff_ops_len(front: GridView, back: GridView, n: int)
    ensures
        diff_ops(front, back, n).len() == diff_count(front.cells, back.cells, n),
    decreases n,
{
    if n > 0 {
        lemma_diff_ops_len(front, back, n - 1);
    }
}

/// Compares every back-grid cell against the front grid, copies changed
/// cells into the front grid, and returns the operations to emit: exactly
/// one cursor-move-and-write per changed cell, in row-major order.  The
/// logical pointer position is untouched.
pub fn present_buffers(front: &mut TerminalScreen, back: &TerminalScreen) -> (ops: Vec<PresentOp>)
    requires
        old(front).wf(),
        back.wf(),
        old(front).width == back.width,
        old(front).height == back.height,
    ensures
        final(front).wf(),
        final(front).width == old(front).width,
        final(front).height == old(front).height,
        final(front)@.cells == back@.cells,
        ops@ == diff_ops(old(front)@, back@, back@.cells.len() as int),
        ops@.len() == diff_count(old(front)@.cells, back@.cells, back@.cells.len() as int),
{
    let mut ops: Vec<PresentOp> = Vec::new();
    let height: usize = back.height;
    let width: usize = back.width;
    let total: usize = back.buffer.len();
    proof {
        crate::screen::lemma_grid_size_bound(width as int, height as int);
        assert(width == 0 ==> width * height == 0) by (nonlinear_arith);
    }
    let mut pos: usize = 0;
    while pos < total
        invariant
            old(front).wf(),
            back.wf(),
            old(front).width == back.width,
            old(front).height == back.height,
            width == back.width,
            height == back.height,
            total == back.buffer@.len(),
            total == back@.cells.len(),
            pos <= total,
            width == 0 ==> total == 0,
            front.width == old(front).width,
            front.height == old(front).height,
            front.buffer@.len() == old(front).buffer@.len(),
            old(front).buffer@.len() == back.buffer@.len(),
            forall|j: int| 0 <= j < pos ==> front.buffer@[j] == back.buffer@[j],
            forall|j: int|
                pos <= j < front.buffer@.len() ==> front.buffer@[j] == old(front).buffer@[j],
            ops@ == diff_ops(old(front)@, back@, pos as int),
        decreases total - pos,
    {
        let front_cell: ScreenElement = front.buffer[pos];
        let back_cell: ScreenElement = back.buffer[pos];
        let character_diff: bool = front_cell.character != back_cell.character;
        let rgb_diff: bool = front_cell.r != back_cell.r || front_cell.g != back_cell.g
            || front_cell.b != back_cell.b;
        if character_diff || rgb_diff {
            front.buffer[pos] = back_cell;
            let display: char = if back_cell.character == EMPTY_CHAR {
                ' '
            } else {
                back_cell.character
            };
            let op = PresentOp {
                x: pos % width,
                y: pos / width,
                r: back_cell.r,
                g: back_cell.g,
                b: back_cell.b,
                character: display,
            };
            ops.push(op);
            proof {
                assert(op == op_for_cell(back@, pos as int));
            }
        } else {
            proof {
                assert(front_cell == back_cell);
            }
        }
        pos = pos + 1;
    }
    proof {
        assert(front@.cells =~= back@.cells);
        lemma_diff_ops_len(old(front)@, back@, back@.cells.len() as int);
    }
    ops
}

} // verus!
