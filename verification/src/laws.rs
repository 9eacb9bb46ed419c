//! The guarantees the click dispatcher gives, stated over its transition
//! relation and proved once and for all.

use vstd::prelude::*;
use crate::game::{cand_pred, click_transition, find_match, lemma_find_match, GameState};
use crate::model::{piece_at, square_in_range, turn_color, Move, Square};

verus! {

/// Turn enforcement: a click that matches no candidate and lands on a piece
/// of the side not to move changes nothing; in particular it never changes
/// the selection.
pub proof fn law_turn_enforcement(pre: GameState, post: GameState, sq: Square)
    requires
        click_transition(pre, post, sq),
        find_match(pre.candidates@, sq) is None,
        piece_at(pre.bd(), sq) matches Some(p) && p.color != turn_color(pre.white_turn),
    ensures
        post == pre,
        post.selection == pre.selection,
{
}

/// Move exclusivity: once a click matches a stored candidate, the move is
/// the dispatcher's only action: no selection survives the click, no fresh
/// candidates are requested, and every board cell other than the move's
/// origin and destination is left exactly as it was.
pub proof fn law_move_exclusivity(pre: GameState, post: GameState, sq: Square, m: Move)
    requires
        pre.wf(),
        click_transition(pre, post, sq),
        find_match(pre.candidates@, sq) == Some(m),
    ensures
        post.selection is None,
        post.candidates@.len() == 0,
        forall|r: int, c: int|
            0 <= r < 8 && 0 <= c < 8 && !(r == m.from.row && c == m.from.col) && !(r == m.to.row
                && c == m.to.col) ==> post.bd()[r][c] == pre.bd()[r][c],
{
    lemma_find_match(pre.candidates@, sq);
    let i = choose|i: int| 0 <= i < pre.candidates@.len() && pre.candidates@[i] == m;
    assert(cand_pred(pre.selection->Some_0)(pre.candidates@[i]));
    assert(square_in_range(m.from) && square_in_range(m.to));
}

/// Alternation: the turn flips exactly when a click applies a move; clicks
/// that only select, or do nothing, never flip it.
pub proof fn law_turn_alternation(pre: GameState, post: GameState, sq: Square)
    requires
        click_transition(pre, post, sq),
    ensures
        (post.white_turn != pre.white_turn) <==> (find_match(pre.candidates@, sq) is Some),
{
}

/// Post-move reset: after any applied move the selection and the candidate
/// set are both empty.
pub proof fn law_post_move_reset(pre: GameState, post: GameState, sq: Square)
    requires
        click_transition(pre, post, sq),
        find_match(pre.candidates@, sq) is Some,
    ensures
        post.selection is None,
        post.candidates@.len() == 0,
{
}

/// One step of previous-move fidelity: an applied move is recorded exactly,
/// and any other click leaves the record alone.
pub proof fn law_previous_move_step(pre: GameState, post: GameState, sq: Square)
    requires
        click_transition(pre, post, sq),
    ensures
        match find_match(pre.candidates@, sq) {
            Some(m) => post.previous_move == Some(m),
            None => post.previous_move == pre.previous_move,
        },
{
}

/// The last move a run of clicks applies, scanning the first `upto` clicks:
/// `None` where none of them matched a candidate.
pub open spec fn last_applied(states: Seq<GameState>, clicks: Seq<Square>, upto: int) -> Option<
    Move,
>
    decreases upto,
{
    if upto <= 0 {
        None
    } else {
        match find_match(states[upto - 1].candidates@, clicks[upto - 1]) {
            Some(m) => Some(m),
            None => last_applied(states, clicks, upto - 1),
        }
    }
}

/// Previous-move fidelity over a whole run: after any sequence of clicks the
/// recorded previous move is exactly the last move the run applied, however
/// many clicks and moves there were; where the run applied none it is
/// whatever it was at the start.
pub proof fn law_previous_move_fidelity(states: Seq<GameState>, clicks: Seq<Square>)
    requires
        states.len() == clicks.len() + 1,
        forall|i: int|
            0 <= i < clicks.len() ==> click_transition(
                #[trigger] states[i],
                states[i + 1],
                clicks[i],
            ),
    ensures
        states.last().previous_move == match last_applied(states, clicks, clicks.len() as int) {
            Some(m) => Some(m),
            None => states[0].previous_move,
        },
    decreases clicks.len(),
{
    if clicks.len() > 0 {
        let n = clicks.len() as int - 1;
        law_previous_move_fidelity(states.drop_last(), clicks.drop_last());
        assert(states.drop_last().last() == states[n]);
        lemma_last_applied_prefix(states, clicks, n);
        assert(click_transition(states[n], states[n + 1], clicks[n]));
        assert(states.last() == states[n + 1]);
        assert(last_applied(states, clicks, clicks.len() as int) == match find_match(
            states[n].candidates@,
            clicks[n],
        ) {
            Some(m) => Some(m),
            None => last_applied(states, clicks, n),
        });
    }
}

proof fn lemma_last_applied_prefix(states: Seq<GameState>, clicks: Seq<Square>, upto: int)
    requires
        states.len() == clicks.len() + 1,
        clicks.len() > 0,
        upto <= clicks.len() - 1,
    ensures
        last_applied(states.drop_last(), clicks.drop_last(), upto) == last_applied(
            states,
            clicks,
            upto,
        ),
    decreases upto,
{
    if upto > 0 {
        lemma_last_applied_prefix(states, clicks, upto - 1);
    }
}

/// No-op clicks: clicking an opponent's piece, or an empty square that no
/// candidate aims at, leaves the whole state untouched.
pub proof fn law_noop_click(pre: GameState, post: GameState, sq: Square)
    requires
        click_transition(pre, post, sq),
        find_match(pre.candidates@, sq) is None,
        match piece_at(pre.bd(), sq) {
            Some(p) => p.color != turn_color(pre.white_turn),
            None => true,
        },
    ensures
        post == pre,
{
}

/// A capture is implicit: the destination cell ends up holding exactly the
/// piece that stood on the origin, whatever stood there before is overwritten
/// and kept nowhere, and the origin is cleared.
pub proof fn law_capture_overwrites(pre: GameState, post: GameState, sq: Square, m: Move)
    requires
        pre.wf(),
        click_transition(pre, post, sq),
        find_match(pre.candidates@, sq) == Some(m),
        m.from != m.to,
    ensures
        post.bd()[m.to.row as int][m.to.col as int] == piece_at(pre.bd(), m.from),
        post.bd()[m.from.row as int][m.from.col as int] is None,
{
    lemma_find_match(pre.candidates@, sq);
    let i = choose|i: int| 0 <= i < pre.candidates@.len() && pre.candidates@[i] == m;
    assert(cand_pred(pre.selection->Some_0)(pre.candidates@[i]));
    assert(square_in_range(m.from) && square_in_range(m.to));
}

} // verus!
