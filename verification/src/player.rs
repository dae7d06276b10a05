use vstd::prelude::*;

use crate::piece::{Location, Piece, Players, PIECES_PER_PLAYER};

verus! {

/// One participant.  The player owns exactly three pieces; the three buckets
/// of the design — not in game, in game, complete — are the partition of
/// those pieces by their location variant, so they are disjoint and
/// exhaustive by construction.
pub struct Player {
    pub name: Players,
    pub pieces: Vec<Piece>,
}

impl Player {
    pub open spec fn wf(self) -> bool {
        &&& self.pieces@.len() == PIECES_PER_PLAYER as int
        &&& forall|k: int|
            0 <= k < self.pieces@.len() ==> (#[trigger] self.pieces@[k]).owner == self.name
                && self.pieces@[k].location.spec_valid()
    }

    /// A player whose pieces are all still at Home.
    pub open spec fn spec_fresh(self) -> bool {
        &&& self.wf()
        &&& forall|k: int|
            0 <= k < self.pieces@.len() ==> (#[trigger] self.pieces@[k]).location
                == Location::Home
    }

    pub open spec fn spec_home_count(self) -> int {
        (if self.pieces@[0].location.spec_is_home() { 1int } else { 0int })
            + (if self.pieces@[1].location.spec_is_home() { 1int } else { 0int })
            + (if self.pieces@[2].location.spec_is_home() { 1int } else { 0int })
    }

    pub open spec fn spec_in_game_count(self) -> int {
        (if self.pieces@[0].location.spec_in_game() { 1int } else { 0int })
            + (if self.pieces@[1].location.spec_in_game() { 1int } else { 0int })
            + (if self.pieces@[2].location.spec_in_game() { 1int } else { 0int })
    }

    pub open spec fn spec_complete_count(self) -> int {
        (if self.pieces@[0].location.spec_complete() { 1int } else { 0int })
            + (if self.pieces@[1].location.spec_complete() { 1int } else { 0int })
            + (if self.pieces@[2].location.spec_complete() { 1int } else { 0int })
    }

    /// Index of the first piece still at Home.
    pub open spec fn spec_first_home(self) -> int {
        if self.pieces@[0].location.spec_is_home() {
            0
        } else if self.pieces@[1].location.spec_is_home() {
            1
        } else {
            2
        }
    }

    pub fn new(name: Players) -> (r: Player)
        ensures
            r.name == name,
            r.spec_fresh(),
            r.spec_home_count() == 3,
    {
        let mut pieces: Vec<Piece> = Vec::new();
        pieces.push(Piece::new(Location::Home, name));
        pieces.push(Piece::new(Location::Home, name));
        pieces.push(Piece::new(Location::Home, name));
        Player { name, pieces }
    }

    pub fn new_game_players(names: Vec<Players>) -> (r: Vec<Player>)
        ensures
            r@.len() == names@.len(),
            forall|i: int| 0 <= i < r@.len() ==> (#[trigger] r@[i]).name == names@[i],
            forall|i: int| 0 <= i < r@.len() ==> (#[trigger] r@[i]).spec_fresh(),
    {
        let mut players: Vec<Player> = Vec::new();
        let mut i: usize = 0;
        while i < names.len()
            invariant
                i <= names@.len(),
                players@.len() == i as int,
                forall|j: int| 0 <= j < players@.len() ==> (#[trigger] players@[j]).name == names@[j],
                forall|j: int| 0 <= j < players@.len() ==> (#[trigger] players@[j]).spec_fresh(),
            decreases names@.len() - i,
        {
            players.push(Player::new(names[i]));
            i = i + 1;
        }
        players
    }

    pub fn check_if_pieces_in_play(&self) -> (r: bool)
        requires
            self.wf(),
        ensures
            r == (self.spec_in_game_count() > 0),
    {
        self.pieces[0].location.in_game() || self.pieces[1].location.in_game()
            || self.pieces[2].location.in_game()
    }

    pub fn check_if_pieces_available_to_play(&self) -> (r: bool)
        requires
            self.wf(),
        ensures
            r == (self.spec_home_count() > 0),
    {
        self.pieces[0].location.home() || self.pieces[1].location.home()
            || self.pieces[2].location.home()
    }

    /// Index of the piece that `move_piece_into_game` will enter.
    pub fn first_home_index(&self) -> (k: u8)
        requires
            self.wf(),
            self.spec_home_count() > 0,
        ensures
            k as int == self.spec_first_home(),
            k < PIECES_PER_PLAYER,
    {
        if self.pieces[0].location.home() {
            0
        } else if self.pieces[1].location.home() {
            1
        } else {
            2
        }
    }

    /// Enters the first Home piece: it moves from the not-in-game bucket to
    /// the in-game bucket by taking its owner's fixed entry slot.
    pub fn move_piece_into_game(&mut self)
        requires
            old(self).wf(),
            old(self).spec_home_count() > 0,
        ensures
            final(self).name == old(self).name,
            final(self).pieces@ == old(self).pieces@.update(
                old(self).spec_first_home(),
                Piece {
                    start_index: old(self).name.spec_entry_slot() as u8,
                    location: Location::OnTrack(old(self).name.spec_entry_slot() as u8),
                    owner: old(self).name,
                },
            ),
    {
        let k = self.first_home_index();
        let mut pc = self.pieces[k as usize];
        pc.add_to_board();
        self.pieces.set(k as usize, pc);
    }

    pub fn home_count(&self) -> (r: u8)
        requires
            self.wf(),
        ensures
            r as int == self.spec_home_count(),
    {
        let mut c: u8 = 0;
        if self.pieces[0].location.home() {
            c = c + 1;
        }
        if self.pieces[1].location.home() {
            c = c + 1;
        }
        if self.pieces[2].location.home() {
            c = c + 1;
        }
        c
    }

    pub fn in_game_count(&self) -> (r: u8)
        requires
            self.wf(),
        ensures
            r as int == self.spec_in_game_count(),
    {
        let mut c: u8 = 0;
        if self.pieces[0].location.in_game() {
            c = c + 1;
        }
        if self.pieces[1].location.in_game() {
            c = c + 1;
        }
        if self.pieces[2].location.in_game() {
            c = c + 1;
        }
        c
    }

    pub fn complete_count(&self) -> (r: u8)
        requires
            self.wf(),
        ensures
            r as int == self.spec_complete_count(),
    {
        let mut c: u8 = 0;
        if self.pieces[0].location.complete() {
            c = c + 1;
        }
        if self.pieces[1].location.complete() {
            c = c + 1;
        }
        if self.pieces[2].location.complete() {
            c = c + 1;
        }
        c
    }
}

} // verus!
