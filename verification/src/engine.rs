//! The narrow interface to the external move-generation engine.
//!
//! The engine is consulted once per selection: given the clicked square and
//! the full board context it returns every destination it considers legal for
//! the piece standing there. Everything the core stores is converted to and
//! from the engine's own representation here; the board and the castling
//! record are handed over as fresh copies, so scratch mutation the engine
//! performs while exploring (it plays moves out and takes them back to test
//! for check) never leaks into the core's state.

use vstd::prelude::*;
use crate::model::{
    bview, board_wf, Board, BoardView, CastleRights, Color, Move, Piece, PieceKind, Square,
};
use rust_fish_chess_engine::chess_functionality::moves::calculate_possible_moves;
use rust_fish_chess_engine::chess_functionality::moves::king::CastleState;
use rust_fish_chess_engine::chess_functionality::moves::Move as FishMove;
use rust_fish_chess_engine::Piece as FishPiece;
use rust_fish_chess_engine::PieceType as FishPieceType;

verus! {

#[verifier::external_type_specification]
#[verifier::external_body]
pub struct ExFishPiece(FishPiece);

#[verifier::external_type_specification]
#[verifier::external_body]
pub struct ExFishMove(FishMove);

#[verifier::external_type_specification]
#[verifier::external_body]
pub struct ExCastleState(CastleState);

/// What the engine answers for a given query: `Some` of the move list on
/// success, `None` where it reports an error. Move generation reads nothing
/// but its arguments, so the answer is a function of them alone; this names
/// that function.
pub uninterp spec fn engine_moves_of(
    b: BoardView,
    row: int,
    col: int,
    white_turn: bool,
    prev: Option<Move>,
    castle: CastleRights,
) -> Option<Seq<Move>>;

/// A board the engine accepts without faulting: its move search indexes the
/// rank behind a pawn unconditionally, so a White pawn on row 0 or a Black
/// pawn on row 7 (reachable here, since the core applies no promotion) is
/// kept away from it.
pub open spec fn engine_query_safe(b: BoardView) -> bool {
    forall|c: int|
        0 <= c < 8 ==> {
            &&& #[trigger] b[0][c] != Some(Piece { color: Color::White, kind: PieceKind::Pawn })
            &&& b[7][c] != Some(Piece { color: Color::Black, kind: PieceKind::Pawn })
        }
}

/// Builds the engine's value for one of our pieces.
#[verifier::external_body]
fn piece_to_engine(p: &Piece) -> FishPiece {
    let kind = match p.kind {
        PieceKind::King => FishPieceType::King,
        PieceKind::Queen => FishPieceType::Queen,
        PieceKind::Rook => FishPieceType::Rook,
        PieceKind::Bishop => FishPieceType::Bishop,
        PieceKind::Knight => FishPieceType::Knight,
        PieceKind::Pawn => FishPieceType::Pawn,
    };
    match p.color {
        Color::White => FishPiece::White(kind),
        Color::Black => FishPiece::Black(kind),
    }
}

/// Builds the engine's value for one of our moves. The engine reads only the
/// two positions of a previous move, never its special-rule tag.
#[verifier::external_body]
fn move_to_engine(m: &Move) -> FishMove {
    FishMove {
        current_pos: (m.from.row, m.from.col),
        new_pos: (m.to.row, m.to.col),
        special_rule: None,
    }
}

/// Reads the two positions out of an engine move.
#[verifier::external_body]
fn move_from_engine(m: &FishMove) -> Move {
    Move {
        from: Square { row: m.current_pos.0, col: m.current_pos.1 },
        to: Square { row: m.new_pos.0, col: m.new_pos.1 },
    }
}

/// Builds the engine's castling record from our rights flags.
#[verifier::external_body]
fn castle_to_engine(c: &CastleRights) -> CastleState {
    CastleState {
        white_king_moved: c.white_king_moved,
        white_left_rook_moved: c.white_left_rook_moved,
        white_right_rook_moved: c.white_right_rook_moved,
        black_king_moved: c.black_king_moved,
        black_left_rook_moved: c.black_left_rook_moved,
        black_right_rook_moved: c.black_right_rook_moved,
    }
}

/// Relies on rust_fish_chess_engine's calculate_possible_moves: a
/// deterministic query over the arguments handed to it, answering the legal
/// destinations for the piece on the given square, or an error. Its answer is
/// named by `engine_moves_of`; nothing more is assumed of it.
#[verifier::external_body]
pub(crate) fn engine_moves(
    row: usize,
    col: usize,
    board: &Board,
    white_turn: bool,
    prev: &Option<Move>,
    castle: &CastleRights,
) -> (r: Option<Vec<Move>>)
    requires
        board_wf(bview(board@)),
        row < 8,
        col < 8,
        engine_query_safe(bview(board@)),
    ensures
        match r {
            Some(v) => engine_moves_of(
                bview(board@),
                row as int,
                col as int,
                white_turn,
                *prev,
                *castle,
            ) == Some(v@),
            None => engine_moves_of(
                bview(board@),
                row as int,
                col as int,
                white_turn,
                *prev,
                *castle,
            ) is None,
        },
{
    let mut b: Vec<Vec<Option<FishPiece>>> = board
        .iter()
        .map(|rw| rw.iter().map(|t| t.as_ref().map(piece_to_engine)).collect())
        .collect();
    let p = prev.as_ref().map(move_to_engine);
    let mut cs = castle_to_engine(castle);
    let res = calculate_possible_moves(row, col, &mut b, false, white_turn, &p, &mut cs, false);
    match res {
        Ok(ms) => Some(ms.iter().map(move_from_engine).collect()),
        Err(_) => None,
    }
}

} // verus!
