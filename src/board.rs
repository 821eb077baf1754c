//! The board: an 8×8 grid of squares, each with a checkerboard colour.

use vstd::prelude::*;

verus! {

/// Number of files, and of ranks, of the board.
pub const BOARD_SIZE: u8 = 8;

/// One cell of the grid, at file `x` and rank `y`, both in `0..8`.
#[derive(Clone, Copy, Debug, PartialEq, Eq, Structural)]
pub struct Square {
    pub x: u8,
    pub y: u8,
}

/// The two colours of the checkerboard.
#[derive(Clone, Copy, Debug, PartialEq, Eq, Structural)]
pub enum SquareColor {
    Light,
    Dark,
}

/// The colour of the cell at `(x, y)`: light exactly when `x + y + 1` is even.
pub open spec fn color_of(x: int, y: int) -> SquareColor {
    if (x + y + 1) % 2 == 0 {
        SquareColor::Light
    } else {
        SquareColor::Dark
    }
}

/// Two cells that differ by one in exactly one coordinate.
pub open spec fn adjacent(a: Square, b: Square) -> bool {
    ||| (a.x == b.x && (a.y + 1 == b.y || b.y + 1 == a.y))
    ||| (a.y == b.y && (a.x + 1 == b.x || b.x + 1 == a.x))
}

/// The place of the cell `(x, y)` in the board's list of squares.
pub open spec fn square_index(x: int, y: int) -> int {
    x * BOARD_SIZE + y
}

/// The board as built: the 64 cells, file by file, each file from rank 0 up.
pub open spec fn board_squares() -> Seq<Square> {
    Seq::new(64, |k: int| Square { x: (k / 8) as u8, y: (k % 8) as u8 })
}

impl Square {
    /// The cell lies on the board.
    pub open spec fn wf(&self) -> bool {
        self.x < BOARD_SIZE && self.y < BOARD_SIZE
    }

    /// The checkerboard colour of this cell.
    pub fn color(&self) -> (r: SquareColor)
        ensures
            r == color_of(self.x as int, self.y as int),
    {
        square_color(self.x, self.y)
    }
}

/// The checkerboard colour of the cell at `(x, y)`.
pub fn square_color(x: u8, y: u8) -> (r: SquareColor)
    ensures
        r == color_of(x as int, y as int),
{
    if (x as u16 + y as u16 + 1) % 2 == 0 {
        SquareColor::Light
    } else {
        SquareColor::Dark
    }
}

/// Where a grid cell stands in space: file on the first axis, rank on the
/// third, at height zero.
pub fn grid_to_world(x: u8, y: u8) -> (r: (u8, u8, u8))
    ensures
        r == (x, 0u8, y),
{
    (x, 0, y)
}

/// Builds the 64 squares of the board, file by file.
pub fn create_board() -> (r: Vec<Square>)
    ensures
        r@ == board_squares(),
{
    let mut squares: Vec<Square> = Vec::new();
    let mut i: u8 = 0;
    while i < BOARD_SIZE
        invariant
            i <= BOARD_SIZE,
            squares@ == board_squares().take(i * 8),
        decreases BOARD_SIZE - i,
    {
        let mut j: u8 = 0;
        while j < BOARD_SIZE
            invariant
                i < BOARD_SIZE,
                j <= BOARD_SIZE,
                squares@ == board_squares().take(i * 8 + j),
            decreases BOARD_SIZE - j,
        {
            squares.push(Square { x: i, y: j });
            proof {
                let k = i * 8 + j;
                assert(k / 8 == i as int && k % 8 == j as int);
                assert(squares@ =~= board_squares().take(k + 1));
            }
            j = j + 1;
        }
        i = i + 1;
    }
    assert(squares@ =~= board_squares());
    squares
}

/// The board holds every cell of the 8×8 grid exactly once, and each cell
/// `(x, y)` sits at place `8 * x + y`.
pub proof fn lemma_board_complete()
    ensures
        board_squares().len() == 64,
        board_squares().no_duplicates(),
        forall|s: Square| #[trigger] board_squares().contains(s) <==> s.wf(),
        forall|s: Square| s.wf() ==> #[trigger] board_squares()[square_index(s.x as int, s.y as int)] == s,
{
    let b = board_squares();
    assert forall|s: Square| s.wf() implies #[trigger] b[square_index(s.x as int, s.y as int)] == s by {
        let k = square_index(s.x as int, s.y as int);
        assert(k / 8 == s.x as int && k % 8 == s.y as int);
    }
    assert forall|s: Square| #[trigger] b.contains(s) <==> s.wf() by {
        if s.wf() {
            let k = square_index(s.x as int, s.y as int);
            assert(k / 8 == s.x as int && k % 8 == s.y as int);
            assert(b[k] == s);
        }
    }
    assert forall|i: int, j: int| 0 <= i < b.len() && 0 <= j < b.len() && i != j implies b[i] != b[j] by {
        assert(i == 8 * (i / 8) + i % 8);
        assert(j == 8 * (j / 8) + j % 8);
    }
}

/// Cells next to each other always have different colours.
pub proof fn lemma_adjacent_colors_differ(a: Square, b: Square)
    requires
        a.wf(),
        b.wf(),
        adjacent(a, b),
    ensures
        color_of(a.x as int, a.y as int) != color_of(b.x as int, b.y as int),
{
}

} // verus!
