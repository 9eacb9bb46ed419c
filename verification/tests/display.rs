use chess_board_core::model::{display_piece, Color, Piece, PieceKind, Square};

fn piece(color: Color, kind: PieceKind) -> Piece {
    Piece { color, kind }
}

#[test]
fn white_glyphs() {
    assert_eq!(display_piece(piece(Color::White, PieceKind::King)), "\u{2654}");
    assert_eq!(display_piece(piece(Color::White, PieceKind::Queen)), "\u{2655}");
    assert_eq!(display_piece(piece(Color::White, PieceKind::Rook)), "\u{2656}");
    assert_eq!(display_piece(piece(Color::White, PieceKind::Bishop)), "\u{2657}");
    assert_eq!(display_piece(piece(Color::White, PieceKind::Knight)), "\u{2658}");
    assert_eq!(display_piece(piece(Color::White, PieceKind::Pawn)), "\u{2659}");
}

#[test]
fn black_glyphs() {
    assert_eq!(display_piece(piece(Color::Black, PieceKind::King)), "\u{265A}");
    assert_eq!(display_piece(piece(Color::Black, PieceKind::Queen)), "\u{265B}");
    assert_eq!(display_piece(piece(Color::Black, PieceKind::Rook)), "\u{265C}");
    assert_eq!(display_piece(piece(Color::Black, PieceKind::Bishop)), "\u{265D}");
    assert_eq!(display_piece(piece(Color::Black, PieceKind::Knight)), "\u{265E}");
    assert_eq!(display_piece(piece(Color::Black, PieceKind::Pawn)), "\u{265F}");
}

#[test]
fn is_selected_compares_coordinates() {
    let s = Square { row: 3, col: 5 };
    assert!(s.is_selected(3, 5));
    assert!(!s.is_selected(3, 4));
    assert!(!s.is_selected(5, 3));
}
