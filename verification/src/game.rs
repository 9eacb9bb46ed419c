//! The click-driven state machine: selection, turn enforcement, move
//! application, and the bookkeeping threaded through to the move engine.

use vstd::prelude::*;
use crate::engine::{engine_moves, engine_moves_of, engine_query_safe};
use crate::model::{
    bview, board_wf, piece_at, square_in_range, starting_board, turn_color, Board, BoardView,
    CastleRights, Color, Move, Piece, PieceKind, Square,
};

verus! {

/// The first stored candidate whose destination is `sq`, if any; the order of
/// the scan is the order in which the engine listed the moves.
pub open spec fn find_match(cands: Seq<Move>, sq: Square) -> Option<Move>
    decreases cands.len(),
{
    if cands.len() == 0 {
        None
    } else if cands[0].to == sq {
        Some(cands[0])
    } else {
        find_match(cands.drop_first(), sq)
    }
}

/// A matched candidate is one of the stored moves and aims at the clicked
/// square; a miss means no stored move does.
pub proof fn lemma_find_match(cands: Seq<Move>, sq: Square)
    ensures
        match find_match(cands, sq) {
            Some(m) => m.to == sq && exists|i: int| 0 <= i < cands.len() && cands[i] == m,
            None => forall|i: int| 0 <= i < cands.len() ==> (#[trigger] cands[i]).to != sq,
        },
    decreases cands.len(),
{
    if cands.len() > 0 && cands[0].to != sq {
        lemma_find_match(cands.drop_first(), sq);
        match find_match(cands.drop_first(), sq) {
            Some(m) => {
                let i = choose|i: int|
                    0 <= i < cands.drop_first().len() && cands.drop_first()[i] == m;
                assert(cands[i + 1] == m);
            }
            None => {
                assert forall|i: int| 0 <= i < cands.len() implies (#[trigger] cands[i]).to
                    != sq by {
                    if i > 0 {
                        assert(cands.drop_first()[i - 1] == cands[i]);
                    }
                }
            }
        }
    }
}

/// The board after a move: the origin's piece is written into the destination
/// cell, then the origin cell is cleared; any piece standing on the
/// destination is overwritten and gone.
pub open spec fn board_after_move(b: BoardView, m: Move) -> BoardView {
    let placed = b.update(m.to.row as int, b[m.to.row as int].update(m.to.col as int, piece_at(b, m.from)));
    placed.update(
        m.from.row as int,
        placed[m.from.row as int].update(m.from.col as int, None),
    )
}

/// Castling rights after a move: a king or rook leaving its home square
/// forfeits the matching rights, exactly as the engine's own record-keeping
/// does; every other move leaves the rights as they were.
pub open spec fn updated_rights(c: CastleRights, m: Move) -> CastleRights {
    CastleRights {
        white_king_moved: c.white_king_moved || m.from == (Square { row: 7, col: 4 }),
        white_left_rook_moved: c.white_left_rook_moved || m.from == (Square { row: 7, col: 0 }),
        white_right_rook_moved: c.white_right_rook_moved || m.from == (Square { row: 7, col: 7 }),
        black_king_moved: c.black_king_moved || m.from == (Square { row: 0, col: 4 }),
        black_left_rook_moved: c.black_left_rook_moved || m.from == (Square { row: 0, col: 0 }),
        black_right_rook_moved: c.black_right_rook_moved || m.from == (Square { row: 0, col: 7 }),
    }
}

fn update_castle_rights(c: CastleRights, m: Move) -> (r: CastleRights)
    ensures
        r == updated_rights(c, m),
{
    CastleRights {
        white_king_moved: c.white_king_moved || (m.from.row == 7 && m.from.col == 4),
        white_left_rook_moved: c.white_left_rook_moved || (m.from.row == 7 && m.from.col == 0),
        white_right_rook_moved: c.white_right_rook_moved || (m.from.row == 7 && m.from.col == 7),
        black_king_moved: c.black_king_moved || (m.from.row == 0 && m.from.col == 4),
        black_left_rook_moved: c.black_left_rook_moved || (m.from.row == 0 && m.from.col == 0),
        black_right_rook_moved: c.black_right_rook_moved || (m.from.row == 0 && m.from.col == 7),
    }
}

/// What the stored candidate set keeps of an engine answer: the moves that
/// start at the selected square and stay on the board.
pub open spec fn cand_pred(origin: Square) -> spec_fn(Move) -> bool {
    |m: Move| m.from == origin && square_in_range(m.to)
}

/// The candidate set stored after selecting `sq`: the engine's answer,
/// restricted to moves out of `sq`; empty where the engine cannot be asked or
/// reports an error.
pub open spec fn fresh_candidates(
    b: BoardView,
    sq: Square,
    white_turn: bool,
    prev: Option<Move>,
    castle: CastleRights,
) -> Seq<Move> {
    if engine_query_safe(b) {
        match engine_moves_of(b, sq.row as int, sq.col as int, white_turn, prev, castle) {
            Some(s) => s.filter(cand_pred(sq)),
            None => Seq::empty(),
        }
    } else {
        Seq::empty()
    }
}

/// Keeps the moves out of `origin` whose destination is on the board, in
/// the order the engine listed them.
fn restrict_candidates(ms: &Vec<Move>, origin: Square) -> (r: Vec<Move>)
    ensures
        r@ == ms@.filter(cand_pred(origin)),
{
    let mut r: Vec<Move> = Vec::new();
    let mut i: usize = 0;
    proof {
        assert(ms@.take(0).filter(cand_pred(origin)) =~= Seq::<Move>::empty());
    }
    while i < ms.len()
        invariant
            i <= ms@.len(),
            r@ == ms@.take(i as int).filter(cand_pred(origin)),
        decreases ms@.len() - i,
    {
        let m = ms[i];
        if m.from.row == origin.row && m.from.col == origin.col && m.to.row < 8 && m.to.col < 8 {
            r.push(m);
        }
        proof {
            reveal(Seq::filter);
            assert(ms@.take(i + 1).drop_last() =~= ms@.take(i as int));
            assert(ms@.take(i + 1).last() == ms@[i as int]);
        }
        i = i + 1;
    }
    proof {
        assert(ms@.take(ms@.len() as int) =~= ms@);
    }
    r
}

/// Scans the stored candidates for the first one aiming at `sq`.
fn find_candidate(cands: &Vec<Move>, sq: Square) -> (r: Option<Move>)
    ensures
        r == find_match(cands@, sq),
{
    let mut i: usize = 0;
    proof {
        assert(cands@.skip(0) =~= cands@);
    }
    while i < cands.len()
        invariant
            i <= cands@.len(),
            find_match(cands@, sq) == find_match(cands@.skip(i as int), sq),
        decreases cands@.len() - i,
    {
        let m = cands[i];
        if m.to.row == sq.row && m.to.col == sq.col {
            proof {
                assert(cands@.skip(i as int)[0] == m);
                assert(m.to == sq);
            }
            return Some(m);
        }
        proof {
            assert(cands@.skip(i as int)[0] == m);
            assert(cands@.skip(i as int).drop_first() =~= cands@.skip(i + 1));
        }
        i = i + 1;
    }
    proof {
        assert(cands@.skip(cands@.len() as int).len() == 0);
    }
    None
}

/// Whether the engine can be asked about this board (see `engine_query_safe`).
fn board_query_safe(b: &Board) -> (r: bool)
    requires
        board_wf(bview(b@)),
    ensures
        r == engine_query_safe(bview(b@)),
{
    let mut c: usize = 0;
    while c < 8
        invariant
            c <= 8,
            board_wf(bview(b@)),
            forall|j: int|
                0 <= j < c ==> {
                    &&& #[trigger] bview(b@)[0][j] != Some(
                        Piece { color: Color::White, kind: PieceKind::Pawn },
                    )
                    &&& bview(b@)[7][j] != Some(
                        Piece { color: Color::Black, kind: PieceKind::Pawn },
                    )
                },
        decreases 8 - c,
    {
        match b[0][c] {
            Some(p) => {
                if p.color == Color::White && p.kind == PieceKind::Pawn {
                    proof {
                        assert(bview(b@)[0][c as int] == Some(
                            Piece { color: Color::White, kind: PieceKind::Pawn },
                        ));
                    }
                    return false;
                }
            }
            None => {}
        }
        match b[7][c] {
            Some(p) => {
                if p.color == Color::Black && p.kind == PieceKind::Pawn {
                    proof {
                        assert(bview(b@)[7][c as int] == Some(
                            Piece { color: Color::Black, kind: PieceKind::Pawn },
                        ));
                    }
                    return false;
                }
            }
            None => {}
        }
        c = c + 1;
    }
    true
}

/// What one click does, as a relation between the state before (`pre`) and
/// after (`post`). In strict order: a click on a stored candidate's
/// destination applies that move and nothing else; otherwise a click on a
/// piece of the side to move selects it and refreshes the candidate set from
/// the engine; any other click changes nothing.
pub open spec fn click_transition(pre: GameState, post: GameState, sq: Square) -> bool {
    match find_match(pre.candidates@, sq) {
        Some(m) => {
            &&& post.bd() == board_after_move(pre.bd(), m)
            &&& post.white_turn == !pre.white_turn
            &&& post.selection is None
            &&& post.candidates@ == Seq::<Move>::empty()
            &&& post.previous_move == Some(m)
            &&& post.castle == updated_rights(pre.castle, m)
        },
        None => {
            &&& post.board == pre.board
            &&& post.white_turn == pre.white_turn
            &&& post.previous_move == pre.previous_move
            &&& post.castle == pre.castle
            &&& match piece_at(pre.bd(), sq) {
                Some(p) => if p.color == turn_color(pre.white_turn) {
                    &&& post.selection == Some(sq)
                    &&& post.candidates@ == fresh_candidates(
                        pre.bd(),
                        sq,
                        pre.white_turn,
                        pre.previous_move,
                        pre.castle,
                    )
                } else {
                    post == pre
                },
                None => post == pre,
            }
        },
    }
}

/// The whole interactive state: what the rendering layer reads and the click
/// dispatcher writes.
pub struct GameState {
    /// The 8x8 grid of optional pieces.
    pub board: Board,
    /// Whether White is the side to move.
    pub white_turn: bool,
    /// The currently picked-up square, if any.
    pub selection: Option<Square>,
    /// The legal destinations for the current selection, per the engine.
    pub candidates: Vec<Move>,
    /// The last applied move; the engine needs it for en passant.
    pub previous_move: Option<Move>,
    /// Which castling rights remain.
    pub castle: CastleRights,
}

impl GameState {
    /// The mathematical view of the board.
    pub open spec fn bd(self) -> BoardView {
        bview(self.board@)
    }

    /// The state's invariant: the board is 8x8; a present selection sits on
    /// the board and holds a piece of the side to move, an absent one keeps
    /// the candidate set empty; every stored candidate starts at the
    /// selection and aims at a board square; an applied previous move lies on
    /// the board.
    pub open spec fn wf(self) -> bool {
        &&& board_wf(self.bd())
        &&& match self.selection {
            Some(sq) => {
                &&& square_in_range(sq)
                &&& (piece_at(self.bd(), sq) matches Some(p) && p.color == turn_color(
                    self.white_turn,
                ))
                &&& forall|i: int|
                    0 <= i < self.candidates@.len() ==> cand_pred(sq)(
                        #[trigger] self.candidates@[i],
                    )
            },
            None => self.candidates@.len() == 0,
        }
        &&& match self.previous_move {
            Some(m) => square_in_range(m.from) && square_in_range(m.to),
            None => true,
        }
    }

    /// Fresh game: starting position, White to move, nothing selected, no
    /// previous move, all castling rights granted.
    pub fn new() -> (r: GameState)
        ensures
            r.bd() == crate::model::initial_board(),
            r.white_turn,
            r.selection is None,
            r.candidates@ == Seq::<Move>::empty(),
            r.previous_move is None,
            r.castle == CastleRights::initial_spec(),
            r.wf(),
    {
        let r = GameState {
            board: starting_board(),
            white_turn: true,
            selection: None,
            candidates: Vec::new(),
            previous_move: None,
            castle: CastleRights::initial(),
        };
        proof {
            crate::model::lemma_initial_board_wf();
        }
        r
    }

    /// The click dispatcher, the single state-transition entry point.
    ///
    /// In strict order: a click on a stored candidate's destination applies
    /// that move (the piece is written into the destination, the origin is
    /// cleared, the turn flips, selection and candidates are reset, the move
    /// is recorded, castling rights are updated) and nothing else happens
    /// this click. Otherwise a click on a piece of the side to move selects
    /// it and asks the engine for fresh candidates; an engine failure leaves
    /// the candidate set empty with the selection in place. Any other click
    /// changes nothing.
    pub fn on_click(&mut self, sq: Square)
        requires
            old(self).wf(),
            square_in_range(sq),
        ensures
            final(self).wf(),
            click_transition(*old(self), *final(self), sq),
    {
        let found = find_candidate(&self.candidates, sq);
        proof {
            lemma_find_match(self.candidates@, sq);
        }
        match found {
            Some(m) => {
                proof {
                    let i = choose|i: int|
                        0 <= i < self.candidates@.len() && self.candidates@[i] == m;
                    assert(cand_pred(old(self).selection->Some_0)(self.candidates@[i]));
                    assert(square_in_range(m.from) && square_in_range(m.to));
                    assert(self.board@.len() == 8 && self.board@[m.from.row as int]@.len() == 8
                        && self.board@[m.to.row as int]@.len() == 8);
                }
                let piece = self.board[m.from.row][m.from.col];
                self.board[m.to.row][m.to.col] = piece;
                self.board[m.from.row][m.from.col] = None;
                self.white_turn = !self.white_turn;
                self.selection = None;
                self.candidates = Vec::new();
                self.previous_move = Some(m);
                self.castle = update_castle_rights(self.castle, m);
                proof {
                    assert(piece == piece_at(old(self).bd(), m.from));
                    assert(self.bd() =~~= board_after_move(old(self).bd(), m));
                    assert forall|i: int| 0 <= i < 8 implies (#[trigger] self.bd()[i]).len()
                        == 8 by {
                        assert(old(self).bd()[i].len() == 8);
                    }
                }
            }
            None => {
                proof {
                    assert(bview(self.board@).len() == self.board@.len());
                    assert(bview(self.board@)[sq.row as int] == self.board@[sq.row as int]@);
                    assert(bview(self.board@)[sq.row as int].len() == 8);
                }
                let cell = self.board[sq.row][sq.col];
                match cell {
                    Some(p) => {
                        let mover = if self.white_turn {
                            Color::White
                        } else {
                            Color::Black
                        };
                        if p.color == mover {
                            self.selection = Some(sq);
                            let safe = board_query_safe(&self.board);
                            if safe {
                                let answer = engine_moves(
                                    sq.row,
                                    sq.col,
                                    &self.board,
                                    self.white_turn,
                                    &self.previous_move,
                                    &self.castle,
                                );
                                match answer {
                                    Some(ms) => {
                                        self.candidates = restrict_candidates(&ms, sq);
                                        proof {
                                            assert forall|i: int|
                                                0 <= i < self.candidates@.len() implies cand_pred(
                                                sq,
                                            )(#[trigger] self.candidates@[i]) by {
                                                ms@.lemma_filter_pred(cand_pred(sq), i);
                                            }
                                        }
                                    }
                                    None => {
                                        self.candidates = Vec::new();
                                    }
                                }
                            } else {
                                self.candidates = Vec::new();
                            }
                        }
                    }
                    None => {}
                }
            }
        }
    }

    /// The outward click entry point: forwards the clicked tile's coordinates
    /// to the dispatcher.
    pub fn click(&mut self, row: usize, col: usize)
        requires
            old(self).wf(),
            row < 8,
            col < 8,
        ensures
            final(self).wf(),
            click_transition(*old(self), *final(self), (Square { row, col })),
    {
        self.on_click(Square { row, col });
    }

    /// Whether some stored candidate aims at `(row, col)`; the rendering
    /// layer highlights such tiles as reachable.
    pub fn has_candidate_to(&self, row: usize, col: usize) -> (r: bool)
        ensures
            r == (find_match(self.candidates@, (Square { row, col })) is Some),
    {
        let found = find_candidate(&self.candidates, Square { row, col });
        match found {
            Some(_) => true,
            None => false,
        }
    }
}

} // verus!
