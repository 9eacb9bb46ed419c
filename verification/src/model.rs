//! The board data model: pieces, squares, moves, castling rights, and the
//! spec-level view of a board together with its well-formedness.

use vstd::prelude::*;

verus! {

/// The side a piece belongs to, and whose turn it is.
#[derive(Clone, Copy, PartialEq, Eq, Structural, Debug)]
pub enum Color {
    White,
    Black,
}

/// The six chess piece kinds.
#[derive(Clone, Copy, PartialEq, Eq, Structural, Debug)]
pub enum PieceKind {
    King,
    Queen,
    Rook,
    Bishop,
    Knight,
    Pawn,
}

/// A piece is a color together with a kind; pieces are immutable values,
/// replaced rather than mutated when they move.
#[derive(Clone, Copy, PartialEq, Eq, Structural, Debug)]
pub struct Piece {
    pub color: Color,
    pub kind: PieceKind,
}

/// A board coordinate. Row 0 is Black's back rank, row 7 is White's.
#[derive(Clone, Copy, PartialEq, Eq, Structural, Debug)]
pub struct Square {
    pub row: usize,
    pub col: usize,
}

impl Square {
    /// Whether this square is the one at `(row, col)`; used by the rendering
    /// layer to decide which tile to highlight as selected.
    pub fn is_selected(&self, row: usize, col: usize) -> (r: bool)
        ensures
            r == (self.row == row && self.col == col),
    {
        self.row == row && self.col == col
    }
}

/// One ply: the origin square and the destination square.
#[derive(Clone, Copy, PartialEq, Eq, Structural, Debug)]
pub struct Move {
    pub from: Square,
    pub to: Square,
}

/// Which castling rights remain: a flag per king and rook recording whether
/// that piece has left its home square.
#[derive(Clone, Copy, PartialEq, Eq, Structural, Debug)]
pub struct CastleRights {
    pub white_king_moved: bool,
    pub white_left_rook_moved: bool,
    pub white_right_rook_moved: bool,
    pub black_king_moved: bool,
    pub black_left_rook_moved: bool,
    pub black_right_rook_moved: bool,
}

impl CastleRights {
    /// All four castling rights granted, as at game start.
    pub fn initial() -> (r: CastleRights)
        ensures
            r == CastleRights::initial_spec(),
    {
        CastleRights {
            white_king_moved: false,
            white_left_rook_moved: false,
            white_right_rook_moved: false,
            black_king_moved: false,
            black_left_rook_moved: false,
            black_right_rook_moved: false,
        }
    }

    pub open spec fn initial_spec() -> CastleRights {
        CastleRights {
            white_king_moved: false,
            white_left_rook_moved: false,
            white_right_rook_moved: false,
            black_king_moved: false,
            black_left_rook_moved: false,
            black_right_rook_moved: false,
        }
    }
}

/// A board is an 8x8 grid of optional pieces; its mathematical view.
pub type Board = Vec<Vec<Option<Piece>>>;

pub type BoardView = Seq<Seq<Option<Piece>>>;

/// The mathematical view of a board: the grid as a sequence of row sequences.
pub open spec fn bview(b: Seq<Vec<Option<Piece>>>) -> BoardView {
    Seq::new(b.len(), |i: int| b[i]@)
}

pub open spec fn square_in_range(s: Square) -> bool {
    s.row < 8 && s.col < 8
}

pub open spec fn board_wf(b: BoardView) -> bool {
    b.len() == 8 && forall|i: int| 0 <= i < 8 ==> (#[trigger] b[i]).len() == 8
}

/// The piece (if any) standing on square `s`.
pub open spec fn piece_at(b: BoardView, s: Square) -> Option<Piece> {
    b[s.row as int][s.col as int]
}

/// The color that may act when `white_turn` holds, or not.
pub open spec fn turn_color(white_turn: bool) -> Color {
    if white_turn {
        Color::White
    } else {
        Color::Black
    }
}

pub open spec fn back_rank(c: Color) -> Seq<Option<Piece>> {
    seq![
        Some(Piece { color: c, kind: PieceKind::Rook }),
        Some(Piece { color: c, kind: PieceKind::Knight }),
        Some(Piece { color: c, kind: PieceKind::Bishop }),
        Some(Piece { color: c, kind: PieceKind::Queen }),
        Some(Piece { color: c, kind: PieceKind::King }),
        Some(Piece { color: c, kind: PieceKind::Bishop }),
        Some(Piece { color: c, kind: PieceKind::Knight }),
        Some(Piece { color: c, kind: PieceKind::Rook }),
    ]
}

pub open spec fn pawn_rank(c: Color) -> Seq<Option<Piece>> {
    Seq::new(8, |i: int| Some(Piece { color: c, kind: PieceKind::Pawn }))
}

pub open spec fn empty_rank() -> Seq<Option<Piece>> {
    Seq::new(8, |i: int| None)
}

/// The standard chess starting position: ranks 0 and 1 Black, ranks 6 and 7
/// White, ranks 2 through 5 empty.
pub open spec fn initial_board() -> BoardView {
    seq![
        back_rank(Color::Black),
        pawn_rank(Color::Black),
        empty_rank(),
        empty_rank(),
        empty_rank(),
        empty_rank(),
        pawn_rank(Color::White),
        back_rank(Color::White),
    ]
}

pub proof fn lemma_initial_board_wf()
    ensures
        board_wf(initial_board()),
{
    assert forall|i: int| 0 <= i < 8 implies (#[trigger] initial_board()[i]).len() == 8 by {
        assert(back_rank(Color::Black).len() == 8);
        assert(back_rank(Color::White).len() == 8);
        assert(pawn_rank(Color::Black).len() == 8);
        assert(pawn_rank(Color::White).len() == 8);
        assert(empty_rank().len() == 8);
    }
}

fn back_rank_row(c: Color) -> (r: Vec<Option<Piece>>)
    ensures
        r@ == back_rank(c),
{
    let r: Vec<Option<Piece>> = vec![
        Some(Piece { color: c, kind: PieceKind::Rook }),
        Some(Piece { color: c, kind: PieceKind::Knight }),
        Some(Piece { color: c, kind: PieceKind::Bishop }),
        Some(Piece { color: c, kind: PieceKind::Queen }),
        Some(Piece { color: c, kind: PieceKind::King }),
        Some(Piece { color: c, kind: PieceKind::Bishop }),
        Some(Piece { color: c, kind: PieceKind::Knight }),
        Some(Piece { color: c, kind: PieceKind::Rook }),
    ];
    proof {
        assert(r@ =~= back_rank(c));
    }
    r
}

fn pawn_rank_row(c: Color) -> (r: Vec<Option<Piece>>)
    ensures
        r@ == pawn_rank(c),
{
    let p = Some(Piece { color: c, kind: PieceKind::Pawn });
    let r: Vec<Option<Piece>> = vec![p, p, p, p, p, p, p, p];
    proof {
        assert(r@ =~= pawn_rank(c));
    }
    r
}

fn empty_row() -> (r: Vec<Option<Piece>>)
    ensures
        r@ == empty_rank(),
{
    let r: Vec<Option<Piece>> = vec![None, None, None, None, None, None, None, None];
    proof {
        assert(r@ =~= empty_rank());
    }
    r
}

/// Builds the starting position board.
pub fn starting_board() -> (r: Board)
    ensures
        bview(r@) == initial_board(),
        board_wf(bview(r@)),
{
    let r: Board = vec![
        back_rank_row(Color::Black),
        pawn_rank_row(Color::Black),
        empty_row(),
        empty_row(),
        empty_row(),
        empty_row(),
        pawn_rank_row(Color::White),
        back_rank_row(Color::White),
    ];
    proof {
        assert(bview(r@) =~~= initial_board());
    }
    r
}

/// The glyph the rendering layer shows for a piece.
pub open spec fn piece_glyph(p: Piece) -> Seq<char> {
    match p.color {
        Color::White => match p.kind {
            PieceKind::King => "\u{2654}"@,
            PieceKind::Queen => "\u{2655}"@,
            PieceKind::Rook => "\u{2656}"@,
            PieceKind::Bishop => "\u{2657}"@,
            PieceKind::Knight => "\u{2658}"@,
            PieceKind::Pawn => "\u{2659}"@,
        },
        Color::Black => match p.kind {
            PieceKind::King => "\u{265A}"@,
            PieceKind::Queen => "\u{265B}"@,
            PieceKind::Rook => "\u{265C}"@,
            PieceKind::Bishop => "\u{265D}"@,
            PieceKind::Knight => "\u{265E}"@,
            PieceKind::Pawn => "\u{265F}"@,
        },
    }
}

/// Maps a piece to the glyph shown on its tile.
pub fn display_piece(piece: Piece) -> (r: &'static str)
    ensures
        r@ == piece_glyph(piece),
{
    match piece.color {
        Color::White => match piece.kind {
            PieceKind::King => "\u{2654}",
            PieceKind::Queen => "\u{2655}",
            PieceKind::Rook => "\u{2656}",
            PieceKind::Bishop => "\u{2657}",
            PieceKind::Knight => "\u{2658}",
            PieceKind::Pawn => "\u{2659}",
        },
        Color::Black => match piece.kind {
            PieceKind::King => "\u{265A}",
            PieceKind::Queen => "\u{265B}",
            PieceKind::Rook => "\u{265C}",
            PieceKind::Bishop => "\u{265D}",
            PieceKind::Knight => "\u{265E}",
            PieceKind::Pawn => "\u{265F}",
        },
    }
}

} // verus!
