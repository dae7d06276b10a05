use vstd::prelude::*;

use crate::board::{Board, spec_stretch_index};
use crate::piece::{
    spec_dest, spec_progress, Location, ENTRY_ROLL, FINAL_SLOT, PIECES_PER_PLAYER, STRETCH_LEN,
    TRACK_LEN,
};
use crate::player::Player;

verus! {

/// How strongly a controller shies away from leaving a piece within reach of
/// an opponent; the value is the distance, in slots, that counts as within
/// reach.
#[derive(Clone, Copy, PartialEq, Eq, Structural, Debug)]
pub enum AvoidanceStrategy {
    Scared,
    Cautious,
    ImmediateOnly,
    Indifferent,
}

impl AvoidanceStrategy {
    pub open spec fn spec_value(self) -> int {
        match self {
            AvoidanceStrategy::Scared => 6,
            AvoidanceStrategy::Cautious => 4,
            AvoidanceStrategy::ImmediateOnly => 2,
            AvoidanceStrategy::Indifferent => 0,
        }
    }

    pub fn value(self) -> (r: u8)
        ensures
            r as int == self.spec_value(),
    {
        match self {
            AvoidanceStrategy::Scared => 6,
            AvoidanceStrategy::Cautious => 4,
            AvoidanceStrategy::ImmediateOnly => 2,
            AvoidanceStrategy::Indifferent => 0,
        }
    }
}

/// Whether the controller pushes its lead piece or brings up the trailing
/// one.
#[derive(Clone, Copy, PartialEq, Eq, Structural, Debug)]
pub enum MovementStrategy {
    Leader,
    Follower,
}

/// Willingness to choose capturing moves; the value is the threshold a
/// capture's worth is measured against.
#[derive(Clone, Copy, PartialEq, Eq, Structural, Debug)]
pub enum AggressionStrategy {
    Balanced,
    Lean,
    Heavy,
    Extreme,
}

impl AggressionStrategy {
    pub open spec fn spec_value(self) -> int {
        match self {
            AggressionStrategy::Balanced => 50,
            AggressionStrategy::Lean => 60,
            AggressionStrategy::Heavy => 70,
            AggressionStrategy::Extreme => 80,
        }
    }

    pub fn value(self) -> (r: u8)
        ensures
            r as int == self.spec_value(),
    {
        match self {
            AggressionStrategy::Balanced => 50,
            AggressionStrategy::Lean => 60,
            AggressionStrategy::Heavy => 70,
            AggressionStrategy::Extreme => 80,
        }
    }
}

/// Whether the controller prefers entering a new piece over advancing one
/// already in play.
#[derive(Clone, Copy, PartialEq, Eq, Structural, Debug)]
pub enum PieceStrategy {
    GetOnBoard,
    FinishPiece,
}

/// The move a controller asks for: enter a fresh piece on the owner's entry
/// slot, or advance the in-game piece with the given index by the roll.
#[derive(Clone, Copy, PartialEq, Eq, Structural, Debug)]
pub enum MoveIntent {
    Enter,
    Advance(u8),
}

/// A controller's four strategy axes, fixed at creation.
#[derive(Clone, Copy, PartialEq, Eq, Structural, Debug)]
pub struct AI {
    pub piece_strategy: PieceStrategy,
    pub aggression_strategy: AggressionStrategy,
    pub movement_strategy: MovementStrategy,
    pub avoidance_strategy: AvoidanceStrategy,
}

pub fn avoidance_from(n: u8) -> (r: AvoidanceStrategy)
    ensures
        r == if n == 0 {
            AvoidanceStrategy::Cautious
        } else if n == 1 {
            AvoidanceStrategy::ImmediateOnly
        } else if n == 2 {
            AvoidanceStrategy::Indifferent
        } else {
            AvoidanceStrategy::Scared
        },
{
    if n == 0 {
        AvoidanceStrategy::Cautious
    } else if n == 1 {
        AvoidanceStrategy::ImmediateOnly
    } else if n == 2 {
        AvoidanceStrategy::Indifferent
    } else {
        AvoidanceStrategy::Scared
    }
}

pub fn movement_from(n: u8) -> (r: MovementStrategy)
    ensures
        r == if n == 0 {
            MovementStrategy::Leader
        } else {
            MovementStrategy::Follower
        },
{
    if n == 0 {
        MovementStrategy::Leader
    } else {
        MovementStrategy::Follower
    }
}

pub fn aggression_from(n: u8) -> (r: AggressionStrategy)
    ensures
        r == if n == 0 {
            AggressionStrategy::Balanced
        } else if n == 1 {
            AggressionStrategy::Lean
        } else if n == 2 {
            AggressionStrategy::Heavy
        } else {
            AggressionStrategy::Extreme
        },
{
    if n == 0 {
        AggressionStrategy::Balanced
    } else if n == 1 {
        AggressionStrategy::Lean
    } else if n == 2 {
        AggressionStrategy::Heavy
    } else {
        AggressionStrategy::Extreme
    }
}

pub fn piece_from(n: u8) -> (r: PieceStrategy)
    ensures
        r == if n == 0 {
            PieceStrategy::FinishPiece
        } else {
            PieceStrategy::GetOnBoard
        },
{
    if n == 0 {
        PieceStrategy::FinishPiece
    } else {
        PieceStrategy::GetOnBoard
    }
}

/// Entering is legal when the roll is the entry value, a Home piece exists,
/// and the mover's own entry slot is not already held by the mover.
pub open spec fn spec_enter_legal(player: Player, idx: u8, board: Board, roll: u8) -> bool {
    &&& roll == ENTRY_ROLL
    &&& player.spec_home_count() > 0
    &&& match board.track@[player.name.spec_entry_slot()] {
        Some(o) => o.player != idx,
        None => true,
    }
}

/// Advancing piece `k` is legal when the piece is in play, the exact-landing
/// rule yields a destination, and that destination is not blocked: a track
/// landing may not hit the mover's own piece, a home-stretch landing (short
/// of the final slot) must be empty.
pub open spec fn spec_advance_legal(player: Player, idx: u8, board: Board, roll: u8, k: int) -> bool {
    &&& 0 <= k < PIECES_PER_PLAYER as int
    &&& player.pieces@[k].location.spec_in_game()
    &&& match spec_dest(player.name, player.pieces@[k].location, roll) {
        Some(Location::OnTrack(s)) => match board.track@[s as int] {
            Some(o) => o.player != idx,
            None => true,
        },
        Some(Location::Finished(s)) => s == FINAL_SLOT || board.stretch@[spec_stretch_index(
            player.name,
            s as int,
        )] is None,
        _ => false,
    }
}

pub open spec fn spec_any_advance(player: Player, idx: u8, board: Board, roll: u8) -> bool {
    exists|k: int| #[trigger] spec_advance_legal(player, idx, board, roll, k)
}

/// Whether landing on `dest` evicts an opposing piece.
pub open spec fn spec_captures(board: Board, idx: u8, dest: Location) -> bool {
    match dest {
        Location::OnTrack(s) => match board.track@[s as int] {
            Some(o) => o.player != idx,
            None => false,
        },
        _ => false,
    }
}

pub open spec fn spec_opponent_at(board: Board, idx: u8, t: int) -> bool {
    match board.track@[t] {
        Some(o) => o.player != idx,
        None => false,
    }
}

/// An opposing piece sits within `reach` slots behind track slot `s`.
pub open spec fn spec_threatened(board: Board, idx: u8, s: int, reach: int) -> bool {
    exists|d: int|
        1 <= d <= reach && #[trigger] spec_opponent_at(
            board,
            idx,
            (s - d + TRACK_LEN as int) % (TRACK_LEN as int),
        )
}

/// The documented ranking of an advance candidate.  The base favours the lead
/// piece (progress, 0 to 33) for Leader and the trailing piece (33 minus
/// progress) for Follower.  A capture is worth 100 when the profile's
/// aggression value exceeds three times the distance still left after the
/// move.  A track landing within the avoidance reach of an opponent costs ten
/// times the avoidance value.
pub open spec fn spec_score(ai: AI, player: Player, idx: u8, board: Board, roll: u8, k: int) -> int {
    let pc = player.pieces@[k];
    let prog = spec_progress(player.name, pc.location);
    let base = if ai.movement_strategy == MovementStrategy::Leader {
        prog
    } else {
        33 - prog
    };
    let cap: int = match spec_dest(player.name, pc.location, roll) {
        Some(d) => if spec_captures(board, idx, d) && ai.aggression_strategy.spec_value() > 3 * (33
            - (prog + roll as int)) {
            100
        } else {
            0
        },
        None => 0,
    };
    let pen: int = match spec_dest(player.name, pc.location, roll) {
        Some(Location::OnTrack(s)) => if spec_threatened(
            board,
            idx,
            s as int,
            ai.avoidance_strategy.spec_value(),
        ) {
            10 * ai.avoidance_strategy.spec_value()
        } else {
            0
        },
        _ => 0,
    };
    base + cap - pen
}

/// Everything the policy promises of its choice: `None` exactly when no move
/// is legal; a GetOnBoard profile always enters when it may; a FinishPiece
/// profile enters only when nothing can advance; an advance choice is legal,
/// scores at least as high as every legal alternative, and has the lowest
/// index among equal scores.
pub open spec fn spec_choice_ok(
    ai: AI,
    player: Player,
    idx: u8,
    board: Board,
    roll: u8,
    r: Option<MoveIntent>,
) -> bool {
    let enter = spec_enter_legal(player, idx, board, roll);
    let any_adv = spec_any_advance(player, idx, board, roll);
    &&& (r is None <==> !enter && !any_adv)
    &&& (ai.piece_strategy == PieceStrategy::GetOnBoard && enter ==> r == Some(MoveIntent::Enter))
    &&& (r == Some(MoveIntent::Enter) ==> enter)
    &&& (enter && !any_adv ==> r == Some(MoveIntent::Enter))
    &&& (any_adv && !(ai.piece_strategy == PieceStrategy::GetOnBoard && enter) ==> r matches Some(
        MoveIntent::Advance(_),
    ))
    &&& match r {
        Some(MoveIntent::Advance(k)) => {
            &&& spec_advance_legal(player, idx, board, roll, k as int)
            &&& !(ai.piece_strategy == PieceStrategy::GetOnBoard && enter)
            &&& forall|k2: int|
                #[trigger] spec_advance_legal(player, idx, board, roll, k2) ==> spec_score(
                    ai,
                    player,
                    idx,
                    board,
                    roll,
                    k2,
                ) <= spec_score(ai, player, idx, board, roll, k as int)
            &&& forall|k2: int|
                #[trigger] spec_advance_legal(player, idx, board, roll, k2) && spec_score(
                    ai,
                    player,
                    idx,
                    board,
                    roll,
                    k2,
                ) == spec_score(ai, player, idx, board, roll, k as int) ==> k as int <= k2
        },
        _ => true,
    }
}

impl AI {
    pub fn new(
        piece_strategy: PieceStrategy,
        aggression_strategy: AggressionStrategy,
        movement_strategy: MovementStrategy,
        avoidance_strategy: AvoidanceStrategy,
    ) -> (r: AI)
        ensures
            r.piece_strategy == piece_strategy,
            r.aggression_strategy == aggression_strategy,
            r.movement_strategy == movement_strategy,
            r.avoidance_strategy == avoidance_strategy,
    {
        AI { piece_strategy, aggression_strategy, movement_strategy, avoidance_strategy }
    }

    /// A profile with each axis drawn uniformly at random; nothing more can
    /// be promised of a random choice.
    pub fn new_random() -> AI {
        let piece_strategy = piece_from(crate::rng::random_in(0, 1));
        let aggression_strategy = aggression_from(crate::rng::random_in(0, 3));
        let movement_strategy = movement_from(crate::rng::random_in(0, 1));
        let avoidance_strategy = avoidance_from(crate::rng::random_in(0, 3));
        AI { piece_strategy, aggression_strategy, movement_strategy, avoidance_strategy }
    }

    /// How far along piece `k` is; exec mirror of `spec_progress`.
    fn progress_of(player: &Player, k: u8) -> (r: u8)
        requires
            player.wf(),
            k < PIECES_PER_PLAYER,
            player.pieces@[k as int].location.spec_in_game(),
        ensures
            r as int == spec_progress(player.name, player.pieces@[k as int].location),
            r <= 32,
    {
        let e = player.name.entry_slot();
        match player.pieces[k as usize].location {
            Location::Home => 0,
            Location::OnTrack(s) => ((s + TRACK_LEN - e) % TRACK_LEN),
            Location::Finished(s) => TRACK_LEN + s,
        }
    }

    /// Exec mirror of `spec_advance_legal` for piece `k`.
    fn advance_legal(player: &Player, idx: u8, board: &Board, roll: u8, k: u8) -> (r: bool)
        requires
            player.wf(),
            board.wf(),
            k < PIECES_PER_PLAYER,
        ensures
            r == spec_advance_legal(*player, idx, *board, roll, k as int),
    {
        let pc = player.pieces[k as usize];
        if !pc.location.in_game() {
            return false;
        }
        match board.new_board_position(&pc, roll) {
            None => false,
            Some(Location::OnTrack(s)) => {
                assert(s < TRACK_LEN);
                match board.track[s as usize] {
                    Some(o) => o.player != idx,
                    None => true,
                }
            },
            Some(Location::Finished(s)) => {
                if s == FINAL_SLOT {
                    true
                } else {
                    assert(s < FINAL_SLOT);
                    let t = player.name.color_index() * STRETCH_LEN + s;
                    match board.stretch[t as usize] {
                        Some(_) => false,
                        None => true,
                    }
                }
            },
            Some(Location::Home) => false,
        }
    }

    /// Exec mirror of `spec_threatened`.
    fn threatened(board: &Board, idx: u8, s: u8, reach: u8) -> (r: bool)
        requires
            board.wf(),
            s < TRACK_LEN,
            reach <= 6,
        ensures
            r == spec_threatened(*board, idx, s as int, reach as int),
    {
        let mut d: u8 = 1;
        while d <= reach
            invariant
                board.wf(),
                s < TRACK_LEN,
                reach <= 6,
                1 <= d <= reach + 1,
                forall|d2: int|
                    1 <= d2 < d as int ==> !#[trigger] spec_opponent_at(
                        *board,
                        idx,
                        (s as int - d2 + TRACK_LEN as int) % (TRACK_LEN as int),
                    ),
            decreases reach + 1 - d,
        {
            let t = (s + TRACK_LEN - d) % TRACK_LEN;
            assert(t as int == (s as int - d as int + TRACK_LEN as int) % (TRACK_LEN as int));
            let hit = match board.track[t as usize] {
                Some(o) => o.player != idx,
                None => false,
            };
            if hit {
                proof {
                    let d0 = d as int;
                    assert(spec_opponent_at(
                        *board,
                        idx,
                        (s as int - d0 + TRACK_LEN as int) % (TRACK_LEN as int),
                    ));
                    assert(spec_threatened(*board, idx, s as int, reach as int));
                }
                return true;
            }
            d = d + 1;
        }
        false
    }

    /// Exec mirror of `spec_score` for a piece in play.
    fn score(&self, player: &Player, idx: u8, board: &Board, roll: u8, k: u8) -> (r: i32)
        requires
            player.wf(),
            board.wf(),
            k < PIECES_PER_PLAYER,
            roll <= 6,
            player.pieces@[k as int].location.spec_in_game(),
        ensures
            r as int == spec_score(*self, *player, idx, *board, roll, k as int),
    {
        let pc = player.pieces[k as usize];
        let prog = Self::progress_of(player, k);
        let base: i32 = match self.movement_strategy {
            MovementStrategy::Leader => prog as i32,
            MovementStrategy::Follower => 33 - (prog as i32),
        };
        let dest = board.new_board_position(&pc, roll);
        let cap: i32 = match dest {
            Some(Location::OnTrack(s)) => {
                assert(s < TRACK_LEN);
                let hit = match board.track[s as usize] {
                    Some(o) => o.player != idx,
                    None => false,
                };
                let remaining: i32 = 33 - ((prog as i32) + (roll as i32));
                if hit && (self.aggression_strategy.value() as i32) > 3 * remaining {
                    100
                } else {
                    0
                }
            },
            _ => 0,
        };
        let pen: i32 = match dest {
            Some(Location::OnTrack(s)) => {
                assert(s < TRACK_LEN);
                let reach = self.avoidance_strategy.value();
                if Self::threatened(board, idx, s, reach) {
                    10 * (reach as i32)
                } else {
                    0
                }
            },
            _ => 0,
        };
        base + cap - pen
    }

    /// Selects a legal move per the profile, or `None` when no move is legal
    /// and the turn is forfeited.
    pub fn choose_move(&self, player: &Player, idx: u8, board: &Board, roll: u8) -> (r: Option<
        MoveIntent,
    >)
        requires
            player.wf(),
            board.wf(),
            roll <= 6,
        ensures
            spec_choice_ok(*self, *player, idx, *board, roll, r),
    {
        let enter_ok = roll == ENTRY_ROLL && player.check_if_pieces_available_to_play() && {
            let e = player.name.entry_slot();
            match board.track[e as usize] {
                Some(o) => o.player != idx,
                None => true,
            }
        };
        assert(enter_ok == spec_enter_legal(*player, idx, *board, roll));
        let mut best: Option<u8> = None;
        let mut best_score: i32 = 0;
        let mut k: u8 = 0;
        while k < PIECES_PER_PLAYER
            invariant
                player.wf(),
                board.wf(),
                roll <= 6,
                k <= PIECES_PER_PLAYER,
                best is None ==> forall|k2: int|
                    0 <= k2 < k as int ==> !#[trigger] spec_advance_legal(
                        *player,
                        idx,
                        *board,
                        roll,
                        k2,
                    ),
                match best {
                    Some(b) => {
                        &&& b < k
                        &&& spec_advance_legal(*player, idx, *board, roll, b as int)
                        &&& best_score as int == spec_score(*self, *player, idx, *board, roll, b as int)
                        &&& forall|k2: int|
                            0 <= k2 < k as int && #[trigger] spec_advance_legal(
                                *player,
                                idx,
                                *board,
                                roll,
                                k2,
                            ) ==> spec_score(*self, *player, idx, *board, roll, k2)
                                <= best_score as int
                        &&& forall|k2: int|
                            0 <= k2 < k as int && #[trigger] spec_advance_legal(
                                *player,
                                idx,
                                *board,
                                roll,
                                k2,
                            ) && spec_score(*self, *player, idx, *board, roll, k2)
                                == best_score as int ==> b as int <= k2
                    },
                    None => true,
                },
            decreases PIECES_PER_PLAYER - k,
        {
            if Self::advance_legal(player, idx, board, roll, k) {
                let sc = self.score(player, idx, board, roll, k);
                match best {
                    None => {
                        best = Some(k);
                        best_score = sc;
                    },
                    Some(_) => {
                        if sc > best_score {
                            best = Some(k);
                            best_score = sc;
                        }
                    },
                }
            }
            k = k + 1;
        }
        proof {
            assert(forall|k2: int|
                #[trigger] spec_advance_legal(*player, idx, *board, roll, k2) ==> 0 <= k2 < 3);
        }
        match self.piece_strategy {
            PieceStrategy::GetOnBoard => {
                if enter_ok {
                    return Some(MoveIntent::Enter);
                }
            },
            PieceStrategy::FinishPiece => {},
        }
        match best {
            Some(b) => Some(MoveIntent::Advance(b)),
            None => {
                if enter_ok {
                    Some(MoveIntent::Enter)
                } else {
                    None
                }
            },
        }
    }
}

} // verus!
