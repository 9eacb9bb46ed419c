use chess_board_core::game::GameState;
use chess_board_core::model::{Color, Move, Piece, PieceKind, Square};

fn sq(row: usize, col: usize) -> Square {
    Square { row, col }
}

fn white(kind: PieceKind) -> Piece {
    Piece { color: Color::White, kind }
}

fn black(kind: PieceKind) -> Piece {
    Piece { color: Color::Black, kind }
}

#[test]
fn select_white_pawn_offers_single_and_double_step() {
    let mut g = GameState::new();
    g.click(6, 4);
    assert_eq!(g.selection, Some(sq(6, 4)));
    assert!(!g.candidates.is_empty());
    assert!(g.candidates.iter().any(|m| m.from == sq(6, 4) && m.to == sq(5, 4)));
    assert!(g.candidates.iter().any(|m| m.from == sq(6, 4) && m.to == sq(4, 4)));
    assert!(g.has_candidate_to(5, 4));
    assert!(g.has_candidate_to(4, 4));
    assert!(!g.has_candidate_to(3, 4));
    // Selecting never flips the turn or touches the board.
    assert!(g.white_turn);
    assert_eq!(g.board[6][4], Some(white(PieceKind::Pawn)));
    assert_eq!(g.previous_move, None);
}

#[test]
fn double_step_pawn_move_is_applied() {
    let mut g = GameState::new();
    g.click(6, 4);
    let board_before = g.board.clone();
    g.click(4, 4);
    assert_eq!(g.board[6][4], None);
    assert_eq!(g.board[4][4], Some(white(PieceKind::Pawn)));
    assert!(!g.white_turn);
    assert_eq!(g.previous_move, Some(Move { from: sq(6, 4), to: sq(4, 4) }));
    assert_eq!(g.selection, None);
    assert!(g.candidates.is_empty());
    // Origin and destination are the only cells the move touched.
    for r in 0..8 {
        for c in 0..8 {
            if (r, c) != (6, 4) && (r, c) != (4, 4) {
                assert_eq!(g.board[r][c], board_before[r][c]);
            }
        }
    }
}

#[test]
fn reselecting_replaces_the_candidate_set() {
    let mut g = GameState::new();
    g.click(6, 4);
    assert!(g.candidates.iter().all(|m| m.from == sq(6, 4)));
    g.click(6, 0);
    assert_eq!(g.selection, Some(sq(6, 0)));
    assert!(!g.candidates.is_empty());
    assert!(g.candidates.iter().all(|m| m.from == sq(6, 0)));
    assert!(g.has_candidate_to(5, 0));
    assert!(!g.has_candidate_to(5, 4));
}

#[test]
fn black_pawn_selectable_once_turn_has_passed() {
    let mut g = GameState::new();
    g.click(6, 4);
    g.click(4, 4);
    g.click(1, 3);
    assert_eq!(g.selection, Some(sq(1, 3)));
    assert!(!g.candidates.is_empty());
    assert!(g.candidates.iter().any(|m| m.to == sq(2, 3)));
    assert!(g.candidates.iter().any(|m| m.to == sq(3, 3)));
}

#[test]
fn clicking_opponent_piece_changes_nothing() {
    let mut g = GameState::new();
    g.click(6, 4);
    g.click(4, 4);
    // Black to move; clicking the white rook must be ignored entirely.
    let board_before = g.board.clone();
    let castle_before = g.castle;
    g.click(6, 0);
    assert_eq!(g.board, board_before);
    assert!(!g.white_turn);
    assert_eq!(g.selection, None);
    assert!(g.candidates.is_empty());
    assert_eq!(g.previous_move, Some(Move { from: sq(6, 4), to: sq(4, 4) }));
    assert_eq!(g.castle, castle_before);
}

#[test]
fn wrong_color_click_keeps_prior_selection() {
    let mut g = GameState::new();
    g.click(6, 4);
    let cands_before = g.candidates.clone();
    let board_before = g.board.clone();
    // White to move; the black rook at (0,0) cannot be selected.
    g.click(0, 0);
    assert_eq!(g.selection, Some(sq(6, 4)));
    assert_eq!(g.candidates, cands_before);
    assert_eq!(g.board, board_before);
    assert!(g.white_turn);
    assert_eq!(g.previous_move, None);
}

#[test]
fn empty_non_candidate_square_is_a_no_op() {
    let mut g = GameState::new();
    g.click(6, 4);
    let cands_before = g.candidates.clone();
    let board_before = g.board.clone();
    // (3,0) is empty and no pawn candidate aims there.
    g.click(3, 0);
    assert_eq!(g.selection, Some(sq(6, 4)));
    assert_eq!(g.candidates, cands_before);
    assert_eq!(g.board, board_before);
    assert!(g.white_turn);
    assert_eq!(g.previous_move, None);
}

#[test]
fn capture_overwrites_the_taken_piece() {
    let mut g = GameState::new();
    g.click(6, 4);
    g.click(4, 4); // e-pawn two up
    g.click(1, 3);
    g.click(3, 3); // d-pawn two up
    g.click(4, 4); // reselect the white pawn
    assert_eq!(g.selection, Some(sq(4, 4)));
    assert!(g.has_candidate_to(3, 3));
    g.click(3, 3); // capture
    assert_eq!(g.board[3][3], Some(white(PieceKind::Pawn)));
    assert_eq!(g.board[4][4], None);
    assert_eq!(g.previous_move, Some(Move { from: sq(4, 4), to: sq(3, 3) }));
    // The captured black pawn exists nowhere on the board.
    let black_pawns = g
        .board
        .iter()
        .flatten()
        .filter(|t| **t == Some(black(PieceKind::Pawn)))
        .count();
    assert_eq!(black_pawns, 7);
}

#[test]
fn turn_alternates_only_with_applied_moves() {
    let mut g = GameState::new();
    assert!(g.white_turn);
    g.click(6, 4); // select: no flip
    assert!(g.white_turn);
    g.click(5, 4); // move: flip
    assert!(!g.white_turn);
    g.click(0, 0); // wrong-color click: no flip
    assert!(!g.white_turn);
    g.click(1, 0); // select black pawn: no flip
    assert!(!g.white_turn);
    g.click(3, 0); // move: flip
    assert!(g.white_turn);
}

#[test]
fn rook_leaving_home_square_forfeits_its_castling_right() {
    let mut g = GameState::new();
    g.click(6, 0);
    g.click(4, 0); // a-pawn two up
    g.click(1, 4);
    g.click(3, 4); // black reply
    g.click(7, 0);
    assert_eq!(g.selection, Some(sq(7, 0)));
    assert!(g.has_candidate_to(6, 0));
    g.click(6, 0); // rook up
    assert!(g.castle.white_left_rook_moved);
    assert!(!g.castle.white_right_rook_moved);
    assert!(!g.castle.white_king_moved);
    assert!(!g.castle.black_king_moved);
}

#[test]
fn far_rank_pawn_keeps_engine_unasked() {
    let mut g = GameState::new();
    // A white pawn standing on row 0 (the core applies no promotion) makes
    // the board one the engine cannot be queried about: selection still
    // happens, the candidate set stays empty.
    g.board[0][0] = Some(white(PieceKind::Pawn));
    g.click(6, 4);
    assert_eq!(g.selection, Some(sq(6, 4)));
    assert!(g.candidates.is_empty());
}

#[test]
fn fresh_game_state() {
    let g = GameState::new();
    assert!(g.white_turn);
    assert_eq!(g.selection, None);
    assert!(g.candidates.is_empty());
    assert_eq!(g.previous_move, None);
    assert!(!g.castle.white_king_moved);
    assert!(!g.castle.black_left_rook_moved);
    assert_eq!(g.board.len(), 8);
    for row in &g.board {
        assert_eq!(row.len(), 8);
    }
    assert_eq!(g.board[0][0], Some(black(PieceKind::Rook)));
    assert_eq!(g.board[0][4], Some(black(PieceKind::King)));
    assert_eq!(g.board[1][7], Some(black(PieceKind::Pawn)));
    assert_eq!(g.board[4][4], None);
    assert_eq!(g.board[6][2], Some(white(PieceKind::Pawn)));
    assert_eq!(g.board[7][3], Some(white(PieceKind::Queen)));
    assert_eq!(g.board[7][4], Some(white(PieceKind::King)));
}
