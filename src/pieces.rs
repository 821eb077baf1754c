//! The pieces: their colours and kinds, the opening layout, and the fixed
//! visual parts that each kind of piece is drawn with.

use vstd::prelude::*;
use crate::board::{grid_to_world, BOARD_SIZE};

verus! {

/// The side a piece belongs to.
#[derive(Clone, Copy, Debug, PartialEq, Eq, Structural)]
pub enum PieceColor {
    White,
    Black,
}

/// The kind of a piece.
#[derive(Clone, Copy, Debug, PartialEq, Eq, Structural)]
pub enum PieceType {
    King,
    Queen,
    Bishop,
    Knight,
    Rook,
    Pawn,
}

/// A piece, with the grid cell `(x, y)` it is meant to stand on: `x` is the
/// rank counted from White's side, `y` the file.
#[derive(Clone, Copy, Debug, PartialEq, Eq, Structural)]
pub struct Piece {
    pub color: PieceColor,
    pub piece_type: PieceType,
    pub x: u8,
    pub y: u8,
}

impl Piece {
    /// The target cell lies on the board.
    pub open spec fn wf(&self) -> bool {
        self.x < BOARD_SIZE && self.y < BOARD_SIZE
    }

    /// The point in space that the piece moves toward: its target cell at
    /// height zero.
    pub fn target(&self) -> (r: (u8, u8, u8))
        ensures
            r == (self.x, 0u8, self.y),
    {
        grid_to_world(self.x, self.y)
    }
}

/// The rank that holds a side's pieces other than pawns.
pub open spec fn home_rank(color: PieceColor) -> int {
    match color {
        PieceColor::White => 0,
        PieceColor::Black => 7,
    }
}

/// The rank that holds a side's pawns.
pub open spec fn pawn_rank(color: PieceColor) -> int {
    match color {
        PieceColor::White => 1,
        PieceColor::Black => 6,
    }
}

/// The kind of piece that opens on file `file` of the home rank:
/// rook, knight, bishop, queen, king, bishop, knight, rook.
pub open spec fn back_rank_type(file: int) -> PieceType {
    if file == 0 || file == 7 {
        PieceType::Rook
    } else if file == 1 || file == 6 {
        PieceType::Knight
    } else if file == 2 || file == 5 {
        PieceType::Bishop
    } else if file == 3 {
        PieceType::Queen
    } else {
        PieceType::King
    }
}

/// One side's sixteen pieces in the order they are set up: the home rank
/// from file 0 to file 7, then the pawns from file 0 to file 7.
pub open spec fn side_layout(color: PieceColor) -> Seq<Piece> {
    Seq::new(
        16,
        |i: int|
            if i < 8 {
                Piece { color, piece_type: back_rank_type(i), x: home_rank(color) as u8, y: i as u8 }
            } else {
                Piece { color, piece_type: PieceType::Pawn, x: pawn_rank(color) as u8, y: (i - 8) as u8 }
            },
    )
}

/// The opening position: White's sixteen pieces, then Black's.
pub open spec fn initial_layout() -> Seq<Piece> {
    side_layout(PieceColor::White) + side_layout(PieceColor::Black)
}

/// The number of pieces among the first `n` of `s` for which `f` holds.
pub open spec fn count_prefix(s: Seq<Piece>, f: spec_fn(Piece) -> bool, n: nat) -> nat
    decreases n,
{
    if n == 0 {
        0
    } else {
        count_prefix(s, f, (n - 1) as nat) + if f(s[n - 1]) { 1nat } else { 0nat }
    }
}

/// The number of pieces in `s` for which `f` holds.
pub open spec fn count_where(s: Seq<Piece>, f: spec_fn(Piece) -> bool) -> nat {
    count_prefix(s, f, s.len())
}

/// The number of pieces of one side in `s`.
pub open spec fn count_color(s: Seq<Piece>, color: PieceColor) -> nat {
    count_where(s, |p: Piece| p.color == color)
}

/// The number of pieces of one side and one kind in `s`.
pub open spec fn count_kind(s: Seq<Piece>, color: PieceColor, piece_type: PieceType) -> nat {
    count_where(s, |p: Piece| p.color == color && p.piece_type == piece_type)
}

/// How many pieces of a kind each side has at the start.
pub open spec fn opening_count(piece_type: PieceType) -> nat {
    match piece_type {
        PieceType::King => 1,
        PieceType::Queen => 1,
        PieceType::Bishop => 2,
        PieceType::Knight => 2,
        PieceType::Rook => 2,
        PieceType::Pawn => 8,
    }
}

/// The kind of piece that opens on file `file` of the home rank.
pub fn back_rank_piece(file: u8) -> (r: PieceType)
    requires
        file < BOARD_SIZE,
    ensures
        r == back_rank_type(file as int),
{
    if file == 0 || file == 7 {
        PieceType::Rook
    } else if file == 1 || file == 6 {
        PieceType::Knight
    } else if file == 2 || file == 5 {
        PieceType::Bishop
    } else if file == 3 {
        PieceType::Queen
    } else {
        PieceType::King
    }
}

/// Appends one side's sixteen pieces, home rank first, then pawns.
fn push_side(pieces: &mut Vec<Piece>, color: PieceColor, home: u8, pawns: u8)
    requires
        home as int == home_rank(color),
        pawns as int == pawn_rank(color),
    ensures
        final(pieces)@ == old(pieces)@ + side_layout(color),
{
    let ghost start = pieces@;
    let mut i: u8 = 0;
    while i < BOARD_SIZE
        invariant
            i <= BOARD_SIZE,
            home as int == home_rank(color),
            pieces@ == start + side_layout(color).take(i as int),
        decreases BOARD_SIZE - i,
    {
        let piece_type = back_rank_piece(i);
        pieces.push(Piece { color, piece_type, x: home, y: i });
        assert(pieces@ =~= start + side_layout(color).take(i + 1));
        i = i + 1;
    }
    let mut j: u8 = 0;
    while j < BOARD_SIZE
        invariant
            j <= BOARD_SIZE,
            pawns as int == pawn_rank(color),
            pieces@ == start + side_layout(color).take(8 + j),
        decreases BOARD_SIZE - j,
    {
        pieces.push(Piece { color, piece_type: PieceType::Pawn, x: pawns, y: j });
        assert(pieces@ =~= start + side_layout(color).take(8 + j + 1));
        j = j + 1;
    }
    assert(side_layout(color).take(16) =~= side_layout(color));
}

/// Builds the 32 pieces of the opening position: White's home rank on rank 0
/// and pawns on rank 1, Black's home rank on rank 7 and pawns on rank 6.
pub fn create_pieces() -> (r: Vec<Piece>)
    ensures
        r@ == initial_layout(),
{
    let mut pieces: Vec<Piece> = Vec::new();
    push_side(&mut pieces, PieceColor::White, 0, 1);
    push_side(&mut pieces, PieceColor::Black, 7, 6);
    assert(pieces@ =~= initial_layout());
    pieces
}

proof fn lemma_count_prefix_of_front(a: Seq<Piece>, b: Seq<Piece>, f: spec_fn(Piece) -> bool, n: nat)
    requires
        n <= a.len(),
    ensures
        count_prefix(a + b, f, n) == count_prefix(a, f, n),
    decreases n,
{
    if n > 0 {
        lemma_count_prefix_of_front(a, b, f, (n - 1) as nat);
    }
}

proof fn lemma_count_prefix_of_back(a: Seq<Piece>, b: Seq<Piece>, f: spec_fn(Piece) -> bool, n: nat)
    requires
        n <= b.len(),
    ensures
        count_prefix(a + b, f, a.len() + n) == count_prefix(a, f, a.len()) + count_prefix(b, f, n),
    decreases n,
{
    if n == 0 {
        lemma_count_prefix_of_front(a, b, f, a.len());
    } else {
        lemma_count_prefix_of_back(a, b, f, (n - 1) as nat);
        assert((a + b)[a.len() + n - 1] == b[n - 1]);
    }
}

/// Counting over two sequences laid end to end adds the two counts.
proof fn lemma_count_append(a: Seq<Piece>, b: Seq<Piece>, f: spec_fn(Piece) -> bool)
    ensures
        count_where(a + b, f) == count_where(a, f) + count_where(b, f),
{
    lemma_count_prefix_of_back(a, b, f, b.len());
}

proof fn lemma_side_counts(side: PieceColor, color: PieceColor, piece_type: PieceType)
    ensures
        count_color(side_layout(side), color) == if side == color { 16nat } else { 0nat },
        count_kind(side_layout(side), color, piece_type) == if side == color {
            opening_count(piece_type)
        } else {
            0nat
        },
{
    reveal_with_fuel(count_prefix, 17);
}

/// The opening position holds 32 pieces on the board, sixteen a side; each
/// side has eight pawns, two rooks, two knights, two bishops, one queen and
/// one king. White's home rank is rank 0 and its pawns stand on rank 1,
/// Black's are ranks 7 and 6, and each home rank reads rook, knight, bishop,
/// queen, king, bishop, knight, rook from file 0 to file 7.
pub proof fn lemma_layout_complete()
    ensures
        initial_layout().len() == 32,
        forall|i: int| 0 <= i < 32 ==> (#[trigger] initial_layout()[i]).wf(),
        forall|color: PieceColor| #[trigger] count_color(initial_layout(), color) == 16,
        forall|color: PieceColor, piece_type: PieceType|
            #[trigger] count_kind(initial_layout(), color, piece_type) == opening_count(piece_type),
        forall|i: int|
            0 <= i < 32 && (#[trigger] initial_layout()[i]).piece_type == PieceType::Pawn
                ==> initial_layout()[i].x == pawn_rank(initial_layout()[i].color),
        forall|i: int|
            0 <= i < 32 && (#[trigger] initial_layout()[i]).piece_type != PieceType::Pawn ==> {
                &&& initial_layout()[i].x == home_rank(initial_layout()[i].color)
                &&& initial_layout()[i].piece_type == back_rank_type(initial_layout()[i].y as int)
            },
        forall|color: PieceColor, file: u8|
            file < BOARD_SIZE ==> #[trigger] initial_layout().contains(
                Piece { color, piece_type: back_rank_type(file as int), x: home_rank(color) as u8, y: file },
            ),
        forall|color: PieceColor, file: u8|
            file < BOARD_SIZE ==> #[trigger] initial_layout().contains(
                Piece { color, piece_type: PieceType::Pawn, x: pawn_rank(color) as u8, y: file },
            ),
{
    let w = side_layout(PieceColor::White);
    let b = side_layout(PieceColor::Black);
    let l = initial_layout();
    assert forall|color: PieceColor| #[trigger] count_color(l, color) == 16 by {
        lemma_count_append(w, b, |p: Piece| p.color == color);
        lemma_side_counts(PieceColor::White, color, PieceType::Pawn);
        lemma_side_counts(PieceColor::Black, color, PieceType::Pawn);
    }
    assert forall|color: PieceColor, piece_type: PieceType|
        #[trigger] count_kind(l, color, piece_type) == opening_count(piece_type) by {
        lemma_count_append(w, b, |p: Piece| p.color == color && p.piece_type == piece_type);
        lemma_side_counts(PieceColor::White, color, piece_type);
        lemma_side_counts(PieceColor::Black, color, piece_type);
    }
    assert forall|color: PieceColor, file: u8| file < BOARD_SIZE implies #[trigger] l.contains(
        Piece { color, piece_type: back_rank_type(file as int), x: home_rank(color) as u8, y: file },
    ) by {
        let k = if color == PieceColor::White { file as int } else { 16 + file as int };
        assert(l[k] == Piece { color, piece_type: back_rank_type(file as int), x: home_rank(color) as u8, y: file });
    }
    assert forall|color: PieceColor, file: u8| file < BOARD_SIZE implies #[trigger] l.contains(
        Piece { color, piece_type: PieceType::Pawn, x: pawn_rank(color) as u8, y: file },
    ) by {
        let k = if color == PieceColor::White { 8 + file as int } else { 24 + file as int };
        assert(l[k] == Piece { color, piece_type: PieceType::Pawn, x: pawn_rank(color) as u8, y: file });
    }
}

} // verus!
