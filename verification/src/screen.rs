//! The cell grid: a fixed-size two-dimensional array of display cells,
//! stored row-major, together with the clipped write operations that widgets
//! use to paint.

use vstd::prelude::*;

verus! {

/// The sentinel character that marks a cell as empty.  It is distinct from a
/// space; presentation renders it as a blank space.
pub const EMPTY_CHAR: char = '\0';

/// Grid coordinates are confined to the signed 16-bit range that the
/// cursor and the platform viewport use.
pub const MAX_SCREEN_DIM: usize = 0x7fff;

/// A single display cell: one character and its RGB foreground color.
#[derive(Clone, Copy, PartialEq, Eq, Structural, Debug)]
pub struct ScreenElement {
    pub character: char,
    pub r: u8,
    pub g: u8,
    pub b: u8,
}

/// The cell every grid position holds after allocation or a resize.
pub open spec fn blank_cell() -> ScreenElement {
    ScreenElement { character: EMPTY_CHAR, r: 0, g: 0, b: 0 }
}

/// The cell at position `j` after a run of `n` characters of `s` has been
/// painted starting at cell index `start`: a freshly painted cell inside the
/// run, the original cell outside it.
pub open spec fn string_run_cell(
    orig: Seq<ScreenElement>,
    s: Seq<char>,
    start: int,
    n: int,
    r: u8,
    g: u8,
    b: u8,
    j: int,
) -> ScreenElement {
    if start <= j < start + n {
        ScreenElement { character: s[j - start], r, g, b }
    } else {
        orig[j]
    }
}

/// The mathematical model of a grid: a row-major cell sequence and its
/// dimensions.
pub ghost struct GridView {
    pub cells: Seq<ScreenElement>,
    pub width: nat,
    pub height: nat,
}

impl GridView {
    /// A well-formed grid holds exactly `width * height` cells and fits the
    /// 16-bit coordinate space.
    pub open spec fn wf(self) -> bool {
        self.cells.len() == self.width * self.height
            && self.width <= MAX_SCREEN_DIM
            && self.height <= MAX_SCREEN_DIM
    }

    /// Row-major index of the cell at column `x`, row `y`.
    pub open spec fn idx(self, x: int, y: int) -> int {
        x + y * self.width
    }

    pub open spec fn in_bounds(self, x: int, y: int) -> bool {
        0 <= x < self.width && 0 <= y < self.height
    }

    pub open spec fn cell(self, x: int, y: int) -> ScreenElement
        recommends
            self.wf(),
            self.in_bounds(x, y),
    {
        self.cells[self.idx(x, y)]
    }

    pub open spec fn all_blank(self) -> bool {
        forall|i: int| 0 <= i < self.cells.len() ==> self.cells[i] == blank_cell()
    }

    /// The grid after one clipped character write: out-of-range coordinates
    /// leave the grid unchanged.
    pub open spec fn write_char(self, character: char, r: u8, g: u8, b: u8, x: int, y: int) -> GridView {
        if self.in_bounds(x, y) {
            GridView {
                cells: self.cells.update(self.idx(x, y), ScreenElement { character, r, g, b }),
                width: self.width,
                height: self.height,
            }
        } else {
            self
        }
    }

    /// How many characters of a string starting at column `x` are painted:
    /// the whole string when it fits, and otherwise exactly the remaining
    /// row width.
    pub open spec fn clipped_len(self, len: int, x: int) -> int {
        if len + x <= self.width {
            len
        } else {
            self.width - x
        }
    }

    /// The grid after one clipped string write.  A string whose start lies
    /// outside the grid is dropped entirely; otherwise its first
    /// `clipped_len` characters land on row `y` starting at column `x`.
    pub open spec fn write_string(self, s: Seq<char>, r: u8, g: u8, b: u8, x: int, y: int) -> GridView {
        if !self.in_bounds(x, y) {
            self
        } else {
            let n = self.clipped_len(s.len() as int, x);
            let start = self.idx(x, y);
            GridView {
                cells: Seq::new(
                    self.cells.len(),
                    |j: int| string_run_cell(self.cells, s, start, n, r, g, b, j),
                ),
                width: self.width,
                height: self.height,
            }
        }
    }
}

/// One of the two display grids (`front` holds what the terminal currently
/// shows, `back` holds the frame being painted).
pub struct TerminalScreen {
    pub buffer: Vec<ScreenElement>,
    pub width: usize,
    pub height: usize,
}

impl View for TerminalScreen {
    type V = GridView;

    open spec fn view(&self) -> GridView {
        GridView { cells: self.buffer@, width: self.width as nat, height: self.height as nat }
    }
}

impl TerminalScreen {
    pub open spec fn wf(self) -> bool {
        self@.wf()
    }
}

/// A cell's row-major index lies below the grid's cell count.
pub proof fn lemma_row_major_index(x: int, y: int, w: int, h: int)
    requires
        0 <= x < w,
        0 <= y < h,
    ensures
        0 <= x + y * w < w * h,
{
    assert(0 <= x + y * w < w * h) by (nonlinear_arith)
        requires
            0 <= x < w,
            0 <= y < h,
    ;
}

/// A grid's cell count is bounded by the square of the dimension bound.
pub proof fn lemma_grid_size_bound(w: int, h: int)
    requires
        0 <= w <= MAX_SCREEN_DIM,
        0 <= h <= MAX_SCREEN_DIM,
    ensures
        w * h <= MAX_SCREEN_DIM * MAX_SCREEN_DIM,
{
    assert(w * h <= MAX_SCREEN_DIM * MAX_SCREEN_DIM) by (nonlinear_arith)
        requires
            0 <= w <= MAX_SCREEN_DIM,
            0 <= h <= MAX_SCREEN_DIM,
    ;
}

/// A fresh grid of the given dimensions with every cell blank.
pub fn new_terminal_screen(width: usize, height: usize) -> (screen: TerminalScreen)
    requires
        width <= MAX_SCREEN_DIM,
        height <= MAX_SCREEN_DIM,
    ensures
        screen.wf(),
        screen.width == width,
        screen.height == height,
        screen@.all_blank(),
{
    proof {
        lemma_grid_size_bound(width as int, height as int);
    }
    let cell_count: usize = width * height;
    let mut buffer: Vec<ScreenElement> = Vec::new();
    let mut i: usize = 0;
    while i < cell_count
        invariant
            i <= cell_count,
            buffer@.len() == i,
            forall|j: int| 0 <= j < i ==> buffer@[j] == blank_cell(),
        decreases cell_count - i,
    {
        buffer.push(ScreenElement { character: EMPTY_CHAR, r: 0, g: 0, b: 0 });
        i = i + 1;
    }
    TerminalScreen { buffer, width, height }
}

/// Paints one character at `(x, y)`; negative or out-of-range coordinates
/// are a no-op.
pub fn write_char_at_pos(
    screen: &mut TerminalScreen,
    character: char,
    r: u8,
    g: u8,
    b: u8,
    x: i16,
    y: i16,
)
    requires
        old(screen).wf(),
    ensures
        final(screen).wf(),
        final(screen)@ == old(screen)@.write_char(character, r, g, b, x as int, y as int),
{
    if x < 0 || y < 0 {
        return ;
    }
    let xu: usize = x as usize;
    let yu: usize = y as usize;
    if xu >= screen.width || yu >= screen.height {
        return ;
    }
    proof {
        lemma_row_major_index(xu as int, yu as int, screen.width as int, screen.height as int);
        lemma_grid_size_bound(screen.width as int, screen.height as int);
    }
    let pos: usize = xu + yu * screen.width;
    screen.buffer[pos] = ScreenElement { character, r, g, b };
}

/// Paints a run of characters on row `y` starting at column `x`, truncated
/// to the row; a start outside the grid is a no-op.
pub fn write_string_at_pos(
    screen: &mut TerminalScreen,
    str: &[char],
    r: u8,
    g: u8,
    b: u8,
    x: i16,
    y: i16,
)
    requires
        old(screen).wf(),
    ensures
        final(screen).wf(),
        final(screen)@ == old(screen)@.write_string(str@, r, g, b, x as int, y as int),
{
    if x < 0 || y < 0 {
        return ;
    }
    let xu: usize = x as usize;
    let yu: usize = y as usize;
    if xu >= screen.width || yu >= screen.height {
        return ;
    }
    proof {
        lemma_row_major_index(xu as int, yu as int, screen.width as int, screen.height as int);
        lemma_grid_size_bound(screen.width as int, screen.height as int);
        assert((yu + 1) * screen.width <= screen.height * screen.width) by (nonlinear_arith)
            requires
                yu < screen.height,
                0 <= screen.width,
        ;
    }
    let start_pos: usize = xu + yu * screen.width;
    let normalized_len: usize = if str.len() <= screen.width - xu {
        str.len()
    } else {
        screen.width - xu
    };
    proof {
        assert(old(screen)@.cells.len() == old(screen)@.width * old(screen)@.height);
        assert(start_pos + normalized_len <= yu * screen.width + screen.width);
        assert(yu * screen.width + screen.width <= screen.width * screen.height)
            by (nonlinear_arith)
            requires
                yu < screen.height,
                0 <= screen.width,
        ;
    }
    let mut i: usize = 0;
    while i < normalized_len
        invariant
            old(screen).wf(),
            old(screen)@.in_bounds(x as int, y as int),
            start_pos == old(screen)@.idx(x as int, y as int),
            normalized_len == old(screen)@.clipped_len(str@.len() as int, x as int),
            start_pos + normalized_len <= screen.buffer@.len(),
            screen.buffer@.len() <= usize::MAX,
            i <= normalized_len,
            normalized_len <= str@.len(),
            screen.buffer@.len() == old(screen).buffer@.len(),
            screen.width == old(screen).width,
            screen.height == old(screen).height,
            forall|j: int|
                start_pos <= j < start_pos + i ==> screen.buffer@[j] == (ScreenElement {
                    character: str@[j - start_pos],
                    r,
                    g,
                    b,
                }),
            forall|j: int|
                0 <= j < screen.buffer@.len() && !(start_pos <= j < start_pos + i)
                    ==> screen.buffer@[j] == old(screen).buffer@[j],
        decreases normalized_len - i,
    {
        screen.buffer[start_pos + i] = ScreenElement { character: str[i], r, g, b };
        i = i + 1;
    }
    proof {
        let target = old(screen)@.write_string(str@, r, g, b, x as int, y as int);
        assert(target.cells.len() == old(screen)@.cells.len());
        assert forall|j: int| 0 <= j < screen.buffer@.len() implies screen.buffer@[j]
            == target.cells[j] by {
            if start_pos <= j < start_pos + normalized_len {
                assert(screen.buffer@[j] == (ScreenElement {
                    character: str@[j - start_pos],
                    r,
                    g,
                    b,
                }));
            } else {
                assert(screen.buffer@[j] == old(screen).buffer@[j]);
            }
        }
        assert(screen@.cells =~= target.cells);
    }
}

} // verus!
