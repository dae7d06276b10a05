use vstd::prelude::*;

verus! {

/// Number of shared track slots on the circular board.
pub const TRACK_LEN: u8 = 28;

/// Number of home-stretch slots each player owns (the last one is the goal).
pub const STRETCH_LEN: u8 = 6;

/// Index of the final home-stretch slot; landing exactly there completes a
/// piece.
pub const FINAL_SLOT: u8 = 5;

/// Die value that lets a piece leave Home and enter the track.
pub const ENTRY_ROLL: u8 = 6;

/// Die value that grants the same player another turn.
pub const ROLL_AGAIN: u8 = 6;

/// Number of pieces each player owns.
pub const PIECES_PER_PLAYER: u8 = 3;

/// The four player identities.  A game uses a subset of them, each at most
/// once.
#[derive(Clone, Copy, PartialEq, Eq, Structural, Debug)]
pub enum Players {
    Red,
    Green,
    Yellow,
    Blue,
}

impl Players {
    /// Stable index of the identity, used to address per-player home-stretch
    /// slots.
    pub open spec fn spec_color_index(self) -> int {
        match self {
            Players::Red => 0,
            Players::Green => 1,
            Players::Yellow => 2,
            Players::Blue => 3,
        }
    }

    pub fn color_index(self) -> (r: u8)
        ensures
            r as int == self.spec_color_index(),
    {
        match self {
            Players::Red => 0,
            Players::Green => 1,
            Players::Yellow => 2,
            Players::Blue => 3,
        }
    }

    /// The fixed track slot on which this identity's pieces enter play.
    pub open spec fn spec_entry_slot(self) -> int {
        match self {
            Players::Red => 2,
            Players::Green => 9,
            Players::Yellow => 16,
            Players::Blue => 23,
        }
    }

    pub fn entry_slot(self) -> (r: u8)
        ensures
            r as int == self.spec_entry_slot(),
            r < TRACK_LEN,
    {
        match self {
            Players::Red => 2,
            Players::Green => 9,
            Players::Yellow => 16,
            Players::Blue => 23,
        }
    }

    /// Chooses `num` distinct identities, uniformly and without replacement.
    pub fn get_players(num: u8) -> (r: Vec<Players>)
        requires
            num <= 4,
        ensures
            r@.len() == num as int,
            forall|i: int, j: int| 0 <= i < j < r@.len() ==> r@[i] != r@[j],
    {
        let mut remaining: Vec<Players> = Vec::new();
        remaining.push(Players::Red);
        remaining.push(Players::Green);
        remaining.push(Players::Yellow);
        remaining.push(Players::Blue);
        let mut chosen: Vec<Players> = Vec::new();
        let mut n: u8 = 0;
        while n < num
            invariant
                n <= num,
                num <= 4,
                chosen@.len() == n as int,
                remaining@.len() == 4 - n as int,
                forall|i: int, j: int| 0 <= i < j < chosen@.len() ==> chosen@[i] != chosen@[j],
                forall|i: int, j: int|
                    0 <= i < chosen@.len() && 0 <= j < remaining@.len() ==> chosen@[i] != remaining@[j],
                forall|i: int, j: int|
                    0 <= i < j < remaining@.len() ==> remaining@[i] != remaining@[j],
            decreases num - n,
        {
            let k = crate::rng::random_in(0, (remaining.len() - 1) as u8);
            let p = remaining.swap_remove(k as usize);
            chosen.push(p);
            n = n + 1;
        }
        chosen
    }
}

/// Where a piece stands: not yet in play, on a shared track slot, or on one
/// of its owner's private home-stretch slots.
#[derive(Clone, Copy, PartialEq, Eq, Structural, Debug)]
pub enum Location {
    Home,
    OnTrack(u8),
    Finished(u8),
}

impl Location {
    pub open spec fn spec_valid(self) -> bool {
        match self {
            Location::Home => true,
            Location::OnTrack(s) => s < TRACK_LEN,
            Location::Finished(s) => s < STRETCH_LEN,
        }
    }

    pub open spec fn spec_is_home(self) -> bool {
        self == Location::Home
    }

    /// A piece is in play while it sits on a track slot or on a home-stretch
    /// slot before the final one; landing on the final slot completes it at
    /// once.
    pub open spec fn spec_in_game(self) -> bool {
        match self {
            Location::Home => false,
            Location::OnTrack(s) => s < TRACK_LEN,
            Location::Finished(s) => s < FINAL_SLOT,
        }
    }

    pub open spec fn spec_complete(self) -> bool {
        self == Location::Finished(FINAL_SLOT)
    }

    pub fn home(&self) -> (r: bool)
        ensures
            r == self.spec_is_home(),
    {
        match self {
            Location::Home => true,
            _ => false,
        }
    }

    pub fn in_game(&self) -> (r: bool)
        ensures
            r == self.spec_in_game(),
    {
        match self {
            Location::Home => false,
            Location::OnTrack(s) => *s < TRACK_LEN,
            Location::Finished(s) => *s < FINAL_SLOT,
        }
    }

    pub fn complete(&self) -> (r: bool)
        ensures
            r == self.spec_complete(),
    {
        match self {
            Location::Finished(s) => *s == FINAL_SLOT,
            _ => false,
        }
    }
}

/// How far along its course a piece in play has come: track slots are counted
/// from the owner's entry slot, home-stretch slots continue past the full
/// lap.
pub open spec fn spec_progress(owner: Players, loc: Location) -> int {
    match loc {
        Location::Home => 0,
        Location::OnTrack(s) => (s as int - owner.spec_entry_slot() + TRACK_LEN as int) % (
        TRACK_LEN as int),
        Location::Finished(s) => TRACK_LEN as int + s as int,
    }
}

/// Where a piece in play lands when advanced by `roll`: a track slot while
/// the lap is unfinished, a home-stretch slot afterwards, and nowhere (the
/// piece may not move) when the exact distance would overshoot the final
/// home-stretch slot.  Pieces not in play do not advance.
pub open spec fn spec_dest(owner: Players, loc: Location, roll: u8) -> Option<Location> {
    if loc.spec_in_game() {
        let p = spec_progress(owner, loc) + roll as int;
        if p < TRACK_LEN as int {
            Some(Location::OnTrack(((owner.spec_entry_slot() + p) % (TRACK_LEN as int)) as u8))
        } else if p <= TRACK_LEN as int + FINAL_SLOT as int {
            Some(Location::Finished((p - TRACK_LEN as int) as u8))
        } else {
            None
        }
    } else {
        None
    }
}

/// One game token: its owner never changes; its location moves through Home,
/// the track, and the owner's home stretch.
#[derive(Clone, Copy, PartialEq, Eq, Structural, Debug)]
pub struct Piece {
    pub start_index: u8,
    pub location: Location,
    pub owner: Players,
}

impl Piece {
    pub fn new(location: Location, owner: Players) -> (r: Piece)
        ensures
            r.start_index == 0,
            r.location == location,
            r.owner == owner,
    {
        Piece { start_index: 0, location, owner }
    }

    /// Puts the piece on its owner's fixed entry slot.
    pub fn add_to_board(&mut self)
        ensures
            final(self).owner == old(self).owner,
            final(self).start_index as int == old(self).owner.spec_entry_slot(),
            final(self).location == Location::OnTrack(final(self).start_index),
    {
        let e = self.owner.entry_slot();
        self.start_index = e;
        self.location = Location::OnTrack(e);
    }

    /// Sends the piece back to Home, clearing its board location.
    pub fn remove_from_board(&mut self)
        ensures
            final(self).owner == old(self).owner,
            final(self).start_index == 0,
            final(self).location == Location::Home,
    {
        self.start_index = 0;
        self.location = Location::Home;
    }

    pub fn update_location(&mut self, location: Location)
        ensures
            final(self).owner == old(self).owner,
            final(self).start_index == old(self).start_index,
            final(self).location == location,
    {
        self.location = location;
    }
}

} // verus!
