use vstd::prelude::*;

use crate::ai::{spec_advance_legal, spec_choice_ok, spec_enter_legal, AI, MoveIntent};
use crate::board::{spec_stretch_index, Board, Occupant};
use crate::piece::{
    spec_dest, Location, Piece, Players, ENTRY_ROLL, FINAL_SLOT, PIECES_PER_PLAYER, ROLL_AGAIN,
    STRETCH_LEN, TRACK_LEN,
};
use crate::player::Player;

verus! {

/// A piece as it sits at Home: off the board, start index cleared.
pub open spec fn spec_homed(owner: Players) -> Piece {
    Piece { start_index: 0, location: Location::Home, owner }
}

/// A piece as it stands right after entering on its owner's entry slot.
pub open spec fn spec_entered(owner: Players) -> Piece {
    Piece {
        start_index: owner.spec_entry_slot() as u8,
        location: Location::OnTrack(owner.spec_entry_slot() as u8),
        owner,
    }
}

/// Exactly what entering changes: the first Home piece of the active player
/// takes its owner's entry slot; an opposing occupant of that slot, if any,
/// is captured and reported; nothing else moves.
pub open spec fn spec_enter_effect(pre: GameState, post: GameState, captured: Option<Players>) -> bool {
    let i = pre.turn as int;
    let p = pre.players@[i];
    let e = p.name.spec_entry_slot();
    let k0 = p.spec_first_home();
    let occ = Occupant { owner: p.name, player: pre.turn as u8, piece: k0 as u8 };
    &&& post.players@.len() == pre.players@.len()
    &&& post.board.track@ == pre.board.track@.update(e, Some(occ))
    &&& post.board.stretch@ == pre.board.stretch@
    &&& post.players@[i].name == p.name
    &&& post.players@[i].pieces@ == p.pieces@.update(k0, spec_entered(p.name))
    &&& match pre.board.track@[e] {
        Some(v) => {
            &&& captured == Some(v.owner)
            &&& post.players@[v.player as int].name == pre.players@[v.player as int].name
            &&& post.players@[v.player as int].pieces@ == pre.players@[v.player as int].pieces@.update(
                v.piece as int,
                spec_homed(v.owner),
            )
            &&& forall|j: int|
                0 <= j < pre.players@.len() && j != i && j != v.player as int
                    ==> post.players@[j] == pre.players@[j]
        },
        None => {
            &&& captured == None::<Players>
            &&& forall|j: int|
                0 <= j < pre.players@.len() && j != i ==> post.players@[j] == pre.players@[j]
        },
    }
}

/// Exactly what advancing piece `k` of the active player changes: the piece
/// moves to its computed destination (completing when that is the final
/// home-stretch slot), its source cell is cleared, an opposing occupant of a
/// track destination is captured and reported; nothing else moves.
pub open spec fn spec_advance_effect(
    pre: GameState,
    post: GameState,
    k: int,
    roll: u8,
    captured: Option<Players>,
) -> bool {
    let i = pre.turn as int;
    let p = pre.players@[i];
    let pc = p.pieces@[k];
    let occ = Occupant { owner: p.name, player: pre.turn as u8, piece: k as u8 };
    match spec_dest(p.name, pc.location, roll) {
        None => false,
        Some(d) => {
            let track1 = match pc.location {
                Location::OnTrack(s1) => pre.board.track@.update(s1 as int, None),
                _ => pre.board.track@,
            };
            let stretch1 = match pc.location {
                Location::Finished(s1) => pre.board.stretch@.update(
                    spec_stretch_index(p.name, s1 as int),
                    None,
                ),
                _ => pre.board.stretch@,
            };
            &&& post.players@.len() == pre.players@.len()
            &&& post.players@[i].name == p.name
            &&& post.players@[i].pieces@ == p.pieces@.update(
                k,
                Piece { start_index: pc.start_index, location: d, owner: pc.owner },
            )
            &&& match d {
                Location::OnTrack(s2) => {
                    &&& post.board.track@ == track1.update(s2 as int, Some(occ))
                    &&& post.board.stretch@ == stretch1
                    &&& match pre.board.track@[s2 as int] {
                        Some(v) => {
                            &&& captured == Some(v.owner)
                            &&& post.players@[v.player as int].name == pre.players@[v.player as int].name
                            &&& post.players@[v.player as int].pieces@ == pre.players@[v.player as int].pieces@.update(
                                v.piece as int,
                                spec_homed(v.owner),
                            )
                            &&& forall|j: int|
                                0 <= j < pre.players@.len() && j != i && j != v.player as int
                                    ==> post.players@[j] == pre.players@[j]
                        },
                        None => {
                            &&& captured == None::<Players>
                            &&& forall|j: int|
                                0 <= j < pre.players@.len() && j != i ==> post.players@[j]
                                    == pre.players@[j]
                        },
                    }
                },
                Location::Finished(s2) => {
                    &&& captured == None::<Players>
                    &&& post.board.track@ == track1
                    &&& post.board.stretch@ == if s2 < FINAL_SLOT {
                        stretch1.update(spec_stretch_index(p.name, s2 as int), Some(occ))
                    } else {
                        stretch1
                    }
                    &&& forall|j: int|
                        0 <= j < pre.players@.len() && j != i ==> post.players@[j]
                            == pre.players@[j]
                },
                Location::Home => false,
            }
        },
    }
}

/// The read-only snapshot a turn leaves behind for an external observer.
#[derive(Clone, Copy, PartialEq, Eq, Structural, Debug)]
pub struct TurnEvent {
    pub player: Players,
    pub roll: u8,
    pub action: Option<MoveIntent>,
    pub captured: Option<Players>,
    pub extra_turn: bool,
}

/// The whole game: the shared board, the participants in turn order, and
/// whose turn it is.
pub struct GameState {
    pub board: Board,
    pub players: Vec<Player>,
    pub turn: usize,
}

impl GameState {
    /// Board-to-piece direction of the occupancy coupling: whatever a track
    /// cell records is a piece that really stands there.
    pub open spec fn track_cell_ok(self, s: int) -> bool {
        match self.board.track@[s] {
            Some(o) => {
                &&& (o.player as int) < self.players@.len()
                &&& (o.piece as int) < PIECES_PER_PLAYER as int
                &&& o.owner == self.players@[o.player as int].name
                &&& self.players@[o.player as int].pieces@[o.piece as int].location
                    == Location::OnTrack(s as u8)
            },
            None => true,
        }
    }

    /// Same for a home-stretch cell; the final slot is never occupied since
    /// landing there completes the piece at once.
    pub open spec fn stretch_cell_ok(self, t: int) -> bool {
        match self.board.stretch@[t] {
            Some(o) => {
                &&& (o.player as int) < self.players@.len()
                &&& (o.piece as int) < PIECES_PER_PLAYER as int
                &&& o.owner == self.players@[o.player as int].name
                &&& o.owner.spec_color_index() == t / (STRETCH_LEN as int)
                &&& t % (STRETCH_LEN as int) < FINAL_SLOT as int
                &&& self.players@[o.player as int].pieces@[o.piece as int].location
                    == Location::Finished((t % (STRETCH_LEN as int)) as u8)
            },
            None => true,
        }
    }

    /// Piece-to-board direction: every piece in play is recorded on exactly
    /// the cell it stands on.
    pub open spec fn piece_on_board_ok(self, i: int, k: int) -> bool {
        let p = self.players@[i];
        let pc = p.pieces@[k];
        match pc.location {
            Location::Home => true,
            Location::OnTrack(s) => self.board.track@[s as int] == Some(
                Occupant { owner: p.name, player: i as u8, piece: k as u8 },
            ),
            Location::Finished(s) => s == FINAL_SLOT || self.board.stretch@[spec_stretch_index(
                p.name,
                s as int,
            )] == Some(Occupant { owner: p.name, player: i as u8, piece: k as u8 }),
        }
    }

    /// The game invariant: well-formed board and players, distinct
    /// identities, a turn index in range, and the two directions of the
    /// board-piece coupling.  Conservation and single occupancy follow from
    /// it.
    pub open spec fn wf(self) -> bool {
        &&& self.board.wf()
        &&& 1 <= self.players@.len() <= 4
        &&& (self.turn as int) < self.players@.len()
        &&& forall|i: int| 0 <= i < self.players@.len() ==> (#[trigger] self.players@[i]).wf()
        &&& forall|i: int, j: int|
            0 <= i < j < self.players@.len() ==> (#[trigger] self.players@[i]).name != (
            #[trigger] self.players@[j]).name
        &&& forall|i: int, k: int|
            0 <= i < self.players@.len() && 0 <= k < PIECES_PER_PLAYER as int
                ==> #[trigger] self.piece_on_board_ok(i, k)
        &&& forall|s: int| 0 <= s < TRACK_LEN as int ==> #[trigger] self.track_cell_ok(s)
        &&& forall|t: int| 0 <= t < 4 * STRETCH_LEN as int ==> #[trigger] self.stretch_cell_ok(t)
    }

    /// Some player has brought all three pieces home.
    pub open spec fn spec_has_winner(self) -> bool {
        exists|i: int|
            0 <= i < self.players@.len() && (#[trigger] self.players@[i]).spec_complete_count()
                == 3
    }

    pub fn new(board: Board, players: Vec<Player>) -> (r: GameState)
        requires
            board.wf(),
            board.spec_empty(),
            1 <= players@.len() <= 4,
            forall|i: int| 0 <= i < players@.len() ==> (#[trigger] players@[i]).spec_fresh(),
            forall|i: int, j: int|
                0 <= i < j < players@.len() ==> (#[trigger] players@[i]).name != (
                #[trigger] players@[j]).name,
        ensures
            r.wf(),
            r.board == board,
            r.players == players,
            r.turn == 0,
    {
        let r = GameState { board, players, turn: 0 };
        proof {
            assert forall|i: int, k: int|
                0 <= i < r.players@.len() && 0 <= k < PIECES_PER_PLAYER as int implies #[trigger] r.piece_on_board_ok(
                i,
                k,
            ) by {
                assert(r.players@[i].spec_fresh());
            }
            assert forall|s: int| 0 <= s < TRACK_LEN as int implies #[trigger] r.track_cell_ok(
                s,
            ) by {
                assert(r.board.track@[s] is None);
            }
            assert forall|t: int|
                0 <= t < 4 * STRETCH_LEN as int implies #[trigger] r.stretch_cell_ok(t) by {
                assert(r.board.stretch@[t] is None);
            }
        }
        r
    }

    /// Whether the roll lets a piece leave Home; the ruleset fixes the entry
    /// value at six.
    pub fn can_exit(roll: u8) -> (r: bool)
        ensures
            r == (roll == ENTRY_ROLL),
    {
        roll == ENTRY_ROLL
    }

    /// Whether the roll grants the same player another turn; the ruleset
    /// fixes the value at six.
    pub fn can_roll_again(roll: u8) -> (r: bool)
        ensures
            r == (roll == ROLL_AGAIN),
    {
        roll == ROLL_AGAIN
    }

    /// One throw of the die: a uniformly random value from one to six.
    pub fn roll_dice() -> (r: u8)
        ensures
            1 <= r <= 6,
    {
        crate::rng::random_in(1, 6)
    }

    /// Sends the piece recorded by `v` (a track occupant about to be
    /// captured) back to its owner's Home bucket.  Only the piece changes
    /// here; the caller rewrites the board cell.
    fn send_home(&mut self, v: Occupant, s: u8)
        requires
            old(self).wf(),
            s < TRACK_LEN,
            old(self).board.track@[s as int] == Some(v),
        ensures
            final(self).board.track@ == old(self).board.track@,
            final(self).board.stretch@ == old(self).board.stretch@,
            final(self).turn == old(self).turn,
            final(self).players@.len() == old(self).players@.len(),
            forall|j: int|
                0 <= j < old(self).players@.len() && j != v.player as int
                    ==> final(self).players@[j] == old(self).players@[j],
            final(self).players@[v.player as int].name == old(self).players@[v.player as int].name,
            final(self).players@[v.player as int].pieces@ == old(self).players@[v.player as int].pieces@.update(
                v.piece as int,
                spec_homed(v.owner),
            ),
    {
        proof {
            assert(old(self).track_cell_ok(s as int));
        }
        let vp_idx = v.player as usize;
        let mut vp = Player { name: Players::Red, pieces: Vec::new() };
        self.players.set_and_swap(vp_idx, &mut vp);
        let mut pcv = vp.pieces[v.piece as usize];
        pcv.remove_from_board();
        vp.pieces.set(v.piece as usize, pcv);
        self.players.set_and_swap(vp_idx, &mut vp);
    }

    /// Applies an entry move for the active player: the first Home piece
    /// enters on the owner's fixed entry slot, capturing any opposing
    /// occupant, whose owner is returned.
    pub fn apply_enter(&mut self, roll: u8) -> (captured: Option<Players>)
        requires
            old(self).wf(),
            spec_enter_legal(
                old(self).players@[old(self).turn as int],
                old(self).turn as u8,
                old(self).board,
                roll,
            ),
        ensures
            final(self).wf(),
            final(self).turn == old(self).turn,
            final(self).players@.len() == old(self).players@.len(),
            spec_enter_effect(*old(self), *final(self), captured),
            forall|a: int, b: int|
                0 <= a < old(self).players@.len() && 0 <= b < PIECES_PER_PLAYER as int && (
                #[trigger] old(self).players@[a].pieces@[b]).location.spec_complete()
                    ==> final(self).players@[a].pieces@[b].location.spec_complete(),
    {
        let ghost pre = *old(self);
        let i = self.turn;
        let idx = i as u8;
        let name = self.players[i].name;
        let e = name.entry_slot();
        let k0 = self.players[i].first_home_index();
        let old_occ: Option<Occupant> = self.board.track[e as usize];
        let captured: Option<Players> = match old_occ {
            Some(v) => {
                proof {
                    assert(pre.track_cell_ok(e as int));
                }
                self.send_home(v, e);
                Some(v.owner)
            },
            None => None,
        };
        let mut mp = Player { name: Players::Red, pieces: Vec::new() };
        self.players.set_and_swap(i, &mut mp);
        mp.move_piece_into_game();
        self.players.set_and_swap(i, &mut mp);
        let occ = Occupant { owner: name, player: idx, piece: k0 };
        self.board.track.set(e as usize, Some(occ));
        proof {
            let post = *self;
            let ii = i as int;
            let vpi: int = match pre.board.track@[e as int] {
                Some(v) => v.player as int,
                None => -1,
            };
            let vk: int = match pre.board.track@[e as int] {
                Some(v) => v.piece as int,
                None => -1,
            };
            assert(post.players@[ii].pieces@ == pre.players@[ii].pieces@.update(
                pre.players@[ii].spec_first_home(),
                spec_entered(name),
            ));
            assert(spec_enter_effect(pre, post, captured));
            assert forall|j: int| 0 <= j < post.players@.len() implies (
            #[trigger] post.players@[j]).wf() by {
                assert(pre.players@[j].wf());
            }
            assert forall|a: int, k: int|
                0 <= a < post.players@.len() && 0 <= k < PIECES_PER_PLAYER as int implies #[trigger] post.piece_on_board_ok(
                a,
                k,
            ) by {
                assert(pre.piece_on_board_ok(a, k));
                assert(pre.players@[a].wf());
                let pc_pre = pre.players@[a].pieces@[k];
                let pc_post = post.players@[a].pieces@[k];
                if a == ii && k == pre.players@[ii].spec_first_home() {
                    assert(pc_post.location == Location::OnTrack(e));
                } else if a == vpi && k == vk {
                    assert(pc_post.location == Location::Home);
                } else {
                    assert(pc_post == pc_pre);
                    match pc_pre.location {
                        Location::Home => {},
                        Location::OnTrack(s) => {
                            if s == e {
                                assert(pre.board.track@[e as int] == Some(
                                    Occupant {
                                        owner: pre.players@[a].name,
                                        player: a as u8,
                                        piece: k as u8,
                                    },
                                ));
                                assert(false);
                            }
                        },
                        Location::Finished(_) => {},
                    }
                }
            }
            assert forall|s: int| 0 <= s < TRACK_LEN as int implies #[trigger] post.track_cell_ok(
                s,
            ) by {
                assert(pre.track_cell_ok(s));
                if s == e as int {
                    assert(post.players@[ii].pieces@[pre.players@[ii].spec_first_home()].location
                        == Location::OnTrack(e));
                } else {
                    match pre.board.track@[s] {
                        Some(o) => {
                            assert(pre.players@[o.player as int].pieces@[o.piece as int].location
                                == Location::OnTrack(s as u8));
                            if o.player as int == ii && o.piece as int == pre.players@[ii].spec_first_home() {
                                assert(pre.players@[ii].pieces@[pre.players@[ii].spec_first_home()].location.spec_is_home());
                                assert(false);
                            }
                            if o.player as int == vpi && o.piece as int == vk {
                                assert(pre.track_cell_ok(e as int));
                                assert(false);
                            }
                        },
                        None => {},
                    }
                }
            }
            assert forall|t: int|
                0 <= t < 4 * STRETCH_LEN as int implies #[trigger] post.stretch_cell_ok(t) by {
                assert(pre.stretch_cell_ok(t));
                match pre.board.stretch@[t] {
                    Some(o) => {
                        if o.player as int == ii && o.piece as int == pre.players@[ii].spec_first_home() {
                            assert(false);
                        }
                        if o.player as int == vpi && o.piece as int == vk {
                            assert(pre.track_cell_ok(e as int));
                            assert(false);
                        }
                    },
                    None => {},
                }
            }
        }
        captured
    }

    /// Applies an advance of the active player's piece `k` by `roll`: the
    /// piece moves to its exact destination, capturing an opposing occupant
    /// of a track landing (whose owner is returned) and completing when it
    /// lands on the final home-stretch slot.
    #[verifier::rlimit(100)]
    pub fn apply_advance(&mut self, k: u8, roll: u8) -> (captured: Option<Players>)
        requires
            old(self).wf(),
            1 <= roll <= 6,
            spec_advance_legal(
                old(self).players@[old(self).turn as int],
                old(self).turn as u8,
                old(self).board,
                roll,
                k as int,
            ),
        ensures
            final(self).wf(),
            final(self).turn == old(self).turn,
            final(self).players@.len() == old(self).players@.len(),
            spec_advance_effect(*old(self), *final(self), k as int, roll, captured),
            forall|a: int, b: int|
                0 <= a < old(self).players@.len() && 0 <= b < PIECES_PER_PLAYER as int && (
                #[trigger] old(self).players@[a].pieces@[b]).location.spec_complete()
                    ==> final(self).players@[a].pieces@[b].location.spec_complete(),
    {
        let ghost pre = *old(self);
        let i = self.turn;
        let idx = i as u8;
        let name = self.players[i].name;
        let pc = self.players[i].pieces[k as usize];
        proof {
            assert(pre.piece_on_board_ok(i as int, k as int));
        }
        let dest_opt = self.board.new_board_position(&pc, roll);
        match dest_opt {
            None => {
                proof {
                    assert(false);
                }
                None
            },
            Some(d) => {
                // capture first, while the invariant still holds
                let captured: Option<Players> = match d {
                    Location::OnTrack(s2) => {
                        assert(s2 < TRACK_LEN);
                        match self.board.track[s2 as usize] {
                            Some(v) => {
                                proof {
                                    assert(pre.track_cell_ok(s2 as int));
                                }
                                self.send_home(v, s2);
                                Some(v.owner)
                            },
                            None => None,
                        }
                    },
                    _ => None,
                };
                // clear the source cell
                match pc.location {
                    Location::OnTrack(s1) => {
                        assert(s1 < TRACK_LEN);
                        self.board.track.set(s1 as usize, None);
                    },
                    Location::Finished(s1) => {
                        assert(s1 < FINAL_SLOT);
                        let t1 = name.color_index() * STRETCH_LEN + s1;
                        self.board.stretch.set(t1 as usize, None);
                    },
                    Location::Home => {
                        proof {
                            assert(false);
                        }
                    },
                }
                // occupy the destination cell, unless the piece completes
                let occ = Occupant { owner: name, player: idx, piece: k };
                match d {
                    Location::OnTrack(s2) => {
                        self.board.track.set(s2 as usize, Some(occ));
                    },
                    Location::Finished(s2) => {
                        if s2 < FINAL_SLOT {
                            let t2 = name.color_index() * STRETCH_LEN + s2;
                            self.board.stretch.set(t2 as usize, Some(occ));
                        }
                    },
                    Location::Home => {
                        proof {
                            assert(false);
                        }
                    },
                }
                // move the piece itself
                let mut mp = Player { name: Players::Red, pieces: Vec::new() };
                self.players.set_and_swap(i, &mut mp);
                let mut mpc = mp.pieces[k as usize];
                mpc.update_location(d);
                mp.pieces.set(k as usize, mpc);
                self.players.set_and_swap(i, &mut mp);
                proof {
                    let post = *self;
                    let ii = i as int;
                    let kk = k as int;
                    let e = name.spec_entry_slot();
                    let vpi: int = match d {
                        Location::OnTrack(s2) => match pre.board.track@[s2 as int] {
                            Some(v) => v.player as int,
                            None => -1,
                        },
                        _ => -1,
                    };
                    let vk: int = match d {
                        Location::OnTrack(s2) => match pre.board.track@[s2 as int] {
                            Some(v) => v.piece as int,
                            None => -1,
                        },
                        _ => -1,
                    };
                    let s1i: int = match pc.location {
                        Location::OnTrack(s1) => s1 as int,
                        _ => -1,
                    };
                    let t1i: int = match pc.location {
                        Location::Finished(s1) => spec_stretch_index(name, s1 as int),
                        _ => -1,
                    };
                    let s2i: int = match d {
                        Location::OnTrack(s2) => s2 as int,
                        _ => -1,
                    };
                    let t2i: int = match d {
                        Location::Finished(s2) => if s2 < FINAL_SLOT {
                            spec_stretch_index(name, s2 as int)
                        } else {
                            -1
                        },
                        _ => -1,
                    };
                    assert(s1i >= 0 ==> s1i != s2i) by {
                        if s1i >= 0 && s2i >= 0 {
                            assert(s1i < 28 && s2i < 28);
                        }
                    }
                    assert(spec_advance_effect(pre, post, kk, roll, captured));
                    assert forall|j: int| 0 <= j < post.players@.len() implies (
                    #[trigger] post.players@[j]).wf() by {
                        assert(pre.players@[j].wf());
                    }
                    assert forall|a: int, b: int|
                        0 <= a < post.players@.len() && 0 <= b < PIECES_PER_PLAYER as int implies #[trigger] post.piece_on_board_ok(
                        a,
                        b,
                    ) by {
                        assert(pre.piece_on_board_ok(a, b));
                        assert(pre.players@[a].wf());
                        let pc_pre = pre.players@[a].pieces@[b];
                        let pc_post = post.players@[a].pieces@[b];
                        if a == ii && b == kk {
                            assert(pc_post.location == d);
                        } else if a == vpi && b == vk {
                            assert(pc_post.location == Location::Home);
                        } else {
                            assert(pc_post == pc_pre);
                            match pc_pre.location {
                                Location::Home => {},
                                Location::OnTrack(s) => {
                                    if s as int == s1i {
                                        assert(false);
                                    }
                                    if s as int == s2i {
                                        assert(pre.track_cell_ok(s2i));
                                        assert(false);
                                    }
                                },
                                Location::Finished(s) => {
                                    if s < FINAL_SLOT {
                                        let t = spec_stretch_index(pre.players@[a].name, s as int);
                                        if t == t1i {
                                            assert(false);
                                        }
                                        if t == t2i {
                                            assert(pre.stretch_cell_ok(t2i));
                                            assert(false);
                                        }
                                    }
                                },
                            }
                        }
                    }
                    assert forall|s: int|
                        0 <= s < TRACK_LEN as int implies #[trigger] post.track_cell_ok(s) by {
                        assert(pre.track_cell_ok(s));
                        if s == s2i {
                            assert(post.players@[ii].pieces@[kk].location == d);
                        } else if s == s1i {
                            assert(post.board.track@[s] is None);
                        } else {
                            match pre.board.track@[s] {
                                Some(o) => {
                                    if o.player as int == ii && o.piece as int == kk {
                                        assert(false);
                                    }
                                    if o.player as int == vpi && o.piece as int == vk {
                                        assert(pre.track_cell_ok(s2i));
                                        assert(false);
                                    }
                                },
                                None => {},
                            }
                        }
                    }
                    assert forall|t: int|
                        0 <= t < 4 * STRETCH_LEN as int implies #[trigger] post.stretch_cell_ok(
                        t,
                    ) by {
                        assert(pre.stretch_cell_ok(t));
                        if t == t2i {
                            assert(post.players@[ii].pieces@[kk].location == d);
                            assert(t2i / (STRETCH_LEN as int) == name.spec_color_index());
                            assert(t2i % (STRETCH_LEN as int) < FINAL_SLOT as int);
                        } else if t == t1i {
                            assert(post.board.stretch@[t] is None);
                        } else {
                            match pre.board.stretch@[t] {
                                Some(o) => {
                                    if o.player as int == ii && o.piece as int == kk {
                                        assert(false);
                                    }
                                    if o.player as int == vpi && o.piece as int == vk {
                                        assert(pre.track_cell_ok(s2i));
                                        assert(false);
                                    }
                                },
                                None => {},
                            }
                        }
                    }
                }
                captured
            },
        }
    }

    /// Applies a chosen move for the active player.  The policy only emits
    /// legal intents, so the preconditions here are met by every choice it
    /// returns; the state machine never applies an illegal move.
    pub fn apply_move(&mut self, intent: MoveIntent, roll: u8) -> (captured: Option<Players>)
        requires
            old(self).wf(),
            1 <= roll <= 6,
            match intent {
                MoveIntent::Enter => spec_enter_legal(
                    old(self).players@[old(self).turn as int],
                    old(self).turn as u8,
                    old(self).board,
                    roll,
                ),
                MoveIntent::Advance(k) => spec_advance_legal(
                    old(self).players@[old(self).turn as int],
                    old(self).turn as u8,
                    old(self).board,
                    roll,
                    k as int,
                ),
            },
        ensures
            final(self).wf(),
            final(self).turn == old(self).turn,
            final(self).players@.len() == old(self).players@.len(),
            match intent {
                MoveIntent::Enter => spec_enter_effect(*old(self), *final(self), captured),
                MoveIntent::Advance(k) => spec_advance_effect(
                    *old(self),
                    *final(self),
                    k as int,
                    roll,
                    captured,
                ),
            },
            forall|a: int, b: int|
                0 <= a < old(self).players@.len() && 0 <= b < PIECES_PER_PLAYER as int && (
                #[trigger] old(self).players@[a].pieces@[b]).location.spec_complete()
                    ==> final(self).players@[a].pieces@[b].location.spec_complete(),
    {
        match intent {
            MoveIntent::Enter => self.apply_enter(roll),
            MoveIntent::Advance(k) => self.apply_advance(k, roll),
        }
    }

    /// Resolves one full turn: ask the policy for a move under the given
    /// roll, apply it (or forfeit when nothing is legal), and hand the turn
    /// on — the same player keeps it when a move was made on the roll-again
    /// value.  Returns the observable snapshot of the turn.
    pub fn take_turn(&mut self, ai: &AI, roll: u8) -> (ev: TurnEvent)
        requires
            old(self).wf(),
            1 <= roll <= 6,
            !old(self).spec_has_winner(),
        ensures
            final(self).wf(),
            final(self).players@.len() == old(self).players@.len(),
            ev.player == old(self).players@[old(self).turn as int].name,
            ev.roll == roll,
            spec_choice_ok(
                *ai,
                old(self).players@[old(self).turn as int],
                old(self).turn as u8,
                old(self).board,
                roll,
                ev.action,
            ),
            ev.extra_turn == (ev.action is Some && roll == ROLL_AGAIN),
            final(self).turn as int == if ev.extra_turn {
                old(self).turn as int
            } else {
                (old(self).turn as int + 1) % (old(self).players@.len() as int)
            },
            match ev.action {
                None => final(self).board.track@ == old(self).board.track@
                    && final(self).board.stretch@ == old(self).board.stretch@
                    && final(self).players@ == old(self).players@ && ev.captured is None,
                Some(MoveIntent::Enter) => spec_enter_effect(
                    *old(self),
                    *final(self),
                    ev.captured,
                ),
                Some(MoveIntent::Advance(k)) => spec_advance_effect(
                    *old(self),
                    *final(self),
                    k as int,
                    roll,
                    ev.captured,
                ),
            },
            forall|a: int, b: int|
                0 <= a < old(self).players@.len() && 0 <= b < PIECES_PER_PLAYER as int && (
                #[trigger] old(self).players@[a].pieces@[b]).location.spec_complete()
                    ==> final(self).players@[a].pieces@[b].location.spec_complete(),
    {
        let i = self.turn;
        let idx = i as u8;
        let name = self.players[i].name;
        let action = ai.choose_move(&self.players[i], idx, &self.board, roll);
        let captured: Option<Players> = match action {
            Some(MoveIntent::Enter) => self.apply_enter(roll),
            Some(MoveIntent::Advance(k)) => self.apply_advance(k, roll),
            None => None,
        };
        let extra = match action {
            Some(_) => Self::can_roll_again(roll),
            None => false,
        };
        let ghost mid = *self;
        if !extra {
            self.turn = (i + 1) % self.players.len();
        }
        proof {
            let post = *self;
            assert(post.players == mid.players && post.board == mid.board);
            assert forall|a: int| 0 <= a < post.players@.len() implies (
            #[trigger] post.players@[a]).wf() by {
                assert(mid.players@[a].wf());
            }
            assert forall|a: int, b: int|
                0 <= a < post.players@.len() && 0 <= b < PIECES_PER_PLAYER as int implies #[trigger] post.piece_on_board_ok(
                a,
                b,
            ) by {
                assert(mid.piece_on_board_ok(a, b));
            }
            assert forall|s: int| 0 <= s < TRACK_LEN as int implies #[trigger] post.track_cell_ok(
                s,
            ) by {
                assert(mid.track_cell_ok(s));
            }
            assert forall|t: int|
                0 <= t < 4 * STRETCH_LEN as int implies #[trigger] post.stretch_cell_ok(t) by {
                assert(mid.stretch_cell_ok(t));
            }
        }
        TurnEvent { player: name, roll, action, captured, extra_turn: extra }
    }

    /// The first player, in turn order, whose three pieces are all complete.
    pub fn winner(&self) -> (r: Option<Players>)
        requires
            self.wf(),
        ensures
            r is None <==> !self.spec_has_winner(),
            match r {
                Some(p) => exists|i: int|
                    0 <= i < self.players@.len() && (#[trigger] self.players@[i]).name == p
                        && self.players@[i].spec_complete_count() == 3 && forall|j: int|
                        0 <= j < i ==> (#[trigger] self.players@[j]).spec_complete_count() != 3,
                None => true,
            },
    {
        let mut i: usize = 0;
        while i < self.players.len()
            invariant
                self.wf(),
                i <= self.players@.len(),
                forall|j: int|
                    0 <= j < i as int ==> (#[trigger] self.players@[j]).spec_complete_count() != 3,
            decreases self.players@.len() - i as int,
        {
            if self.players[i].complete_count() == 3 {
                return Some(self.players[i].name);
            }
            i = i + 1;
        }
        None
    }
}

} // verus!
