use vstd::prelude::*;

use crate::ai::{spec_advance_legal, spec_any_advance, spec_choice_ok, spec_enter_legal, AI, MoveIntent};
use crate::board::{Board, Occupant};
use crate::game::GameState;
use crate::piece::{spec_dest, Location, ENTRY_ROLL, PIECES_PER_PLAYER};
use crate::player::Player;

verus! {

/// Size of one player's three buckets taken together.
pub open spec fn spec_bucket_total(p: Player) -> int {
    p.spec_home_count() + p.spec_in_game_count() + p.spec_complete_count()
}

/// Number of pieces held by a roster of players, counted through the
/// buckets.
pub open spec fn spec_total_pieces(players: Seq<Player>) -> int
    decreases players.len(),
{
    if players.len() == 0 {
        0
    } else {
        spec_bucket_total(players[0]) + spec_total_pieces(players.drop_first())
    }
}

proof fn lemma_total_pieces(players: Seq<Player>)
    requires
        forall|i: int| 0 <= i < players.len() ==> spec_bucket_total(#[trigger] players[i]) == 3,
    ensures
        spec_total_pieces(players) == 3 * players.len(),
    decreases players.len(),
{
    if players.len() > 0 {
        assert(spec_bucket_total(players[0]) == 3);
        assert(forall|i: int|
            0 <= i < players.drop_first().len() ==> spec_bucket_total(
                #[trigger] players.drop_first()[i],
            ) == 3);
        lemma_total_pieces(players.drop_first());
    }
}

/// Conservation: in every reachable state each player's buckets — not in
/// game, in game, complete — partition that player's three pieces, so their
/// sizes sum to three, and the game as a whole holds exactly three pieces
/// per player; pieces are neither created nor destroyed.
pub proof fn lemma_conservation(gs: GameState)
    requires
        gs.wf(),
    ensures
        forall|i: int|
            0 <= i < gs.players@.len() ==> spec_bucket_total(#[trigger] gs.players@[i]) == 3,
        spec_total_pieces(gs.players@) == 3 * gs.players@.len(),
{
    assert forall|i: int|
        0 <= i < gs.players@.len() implies spec_bucket_total(#[trigger] gs.players@[i]) == 3 by {
        assert(gs.players@[i].wf());
        assert(gs.players@[i].pieces@[0].location.spec_valid());
        assert(gs.players@[i].pieces@[1].location.spec_valid());
        assert(gs.players@[i].pieces@[2].location.spec_valid());
    }
    lemma_total_pieces(gs.players@);
}

/// Single occupancy: two distinct pieces in play never stand on the same
/// board slot — never on the same shared track slot, and never on the same
/// home-stretch slot of one owner.
pub proof fn lemma_single_occupancy(gs: GameState, i: int, k: int, j: int, l: int)
    requires
        gs.wf(),
        0 <= i < gs.players@.len(),
        0 <= k < PIECES_PER_PLAYER as int,
        0 <= j < gs.players@.len(),
        0 <= l < PIECES_PER_PLAYER as int,
        !(i == j && k == l),
        gs.players@[i].pieces@[k].location.spec_in_game(),
        gs.players@[j].pieces@[l].location.spec_in_game(),
    ensures
        !(gs.players@[i].pieces@[k].location == gs.players@[j].pieces@[l].location
            && gs.players@[i].pieces@[k].location matches Location::OnTrack(_)),
        !(gs.players@[i].pieces@[k].location == gs.players@[j].pieces@[l].location
            && gs.players@[i].name == gs.players@[j].name),
{
    assert(gs.piece_on_board_ok(i, k));
    assert(gs.piece_on_board_ok(j, l));
    assert(gs.players@[i].wf());
    assert(gs.players@[j].wf());
    if gs.players@[i].name == gs.players@[j].name && i != j {
        if i < j {
            assert(gs.players@[i].name != gs.players@[j].name);
        } else {
            assert(gs.players@[j].name != gs.players@[i].name);
        }
    }
}

/// Capture correctness, ownership half: under the game invariant, a legal
/// advance that lands on an occupied track slot always evicts a piece of a
/// different owner — landing on one's own piece is never legal, so it never
/// reaches the board.
pub proof fn lemma_capture_is_of_opponent(gs: GameState, k: int, roll: u8, s: int, v: Occupant)
    requires
        gs.wf(),
        spec_advance_legal(
            gs.players@[gs.turn as int],
            gs.turn as u8,
            gs.board,
            roll,
            k,
        ),
        spec_dest(
            gs.players@[gs.turn as int].name,
            gs.players@[gs.turn as int].pieces@[k].location,
            roll,
        ) == Some(Location::OnTrack(s as u8)),
        0 <= s < 28,
        gs.board.track@[s] == Some(v),
    ensures
        v.player as int != gs.turn as int,
        v.owner != gs.players@[gs.turn as int].name,
{
    assert(gs.track_cell_ok(s));
    let i = gs.turn as int;
    let vp = v.player as int;
    assert(gs.players@[vp].name == v.owner);
    if vp != i {
        if vp < i {
            assert(gs.players@[vp].name != gs.players@[i].name);
        } else {
            assert(gs.players@[i].name != gs.players@[vp].name);
        }
    }
}

/// Entry correctness, negative half: a roll other than the entry value never
/// makes entering legal, whatever the board and the player's pieces.
pub proof fn lemma_entry_needs_entry_roll(p: Player, idx: u8, b: Board, roll: u8)
    requires
        roll != ENTRY_ROLL,
    ensures
        !spec_enter_legal(p, idx, b, roll),
{
}

/// Forced forfeit: a player whose three pieces all sit at Home and who rolls
/// anything but the entry value has no legal move, so the policy — whatever
/// its profile — returns no move and the turn is forfeited.
pub proof fn lemma_forced_forfeit(
    ai: AI,
    p: Player,
    idx: u8,
    b: Board,
    roll: u8,
    r: Option<MoveIntent>,
)
    requires
        p.wf(),
        p.spec_home_count() == 3,
        roll != ENTRY_ROLL,
        spec_choice_ok(ai, p, idx, b, roll, r),
    ensures
        r is None,
{
    assert(!spec_enter_legal(p, idx, b, roll));
    assert forall|k: int| !#[trigger] spec_advance_legal(p, idx, b, roll, k) by {
        if 0 <= k < PIECES_PER_PLAYER as int {
            assert(p.pieces@[k].location.spec_is_home());
        }
    }
    assert(!spec_any_advance(p, idx, b, roll));
}

} // verus!
