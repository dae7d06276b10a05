use vstd::prelude::*;

use crate::piece::{Location, Piece, Players, spec_dest, ENTRY_ROLL, FINAL_SLOT, STRETCH_LEN, TRACK_LEN};

verus! {

/// Errors of the board primitives: an addressed slot does not exist, or a
/// placement breaks the occupancy rules.  Both are contract violations of the
/// caller, never a normal game outcome.
#[derive(Clone, Copy, PartialEq, Eq, Structural, Debug)]
pub enum GameError {
    BoardIndex,
    IllegalMove,
}

/// What the board records about an occupied slot: the occupant's owner and
/// the stable coordinates of the piece (index of the player in the game's
/// turn order, index of the piece among that player's three).
#[derive(Clone, Copy, PartialEq, Eq, Structural, Debug)]
pub struct Occupant {
    pub owner: Players,
    pub player: u8,
    pub piece: u8,
}

/// A validated board address: one of the 28 shared track slots, or one of a
/// player's six private home-stretch slots.
#[derive(Clone, Copy, PartialEq, Eq, Structural, Debug)]
pub enum Slot {
    Track(u8),
    Stretch(Players, u8),
}

impl Slot {
    pub open spec fn spec_valid(self) -> bool {
        match self {
            Slot::Track(s) => s < TRACK_LEN,
            Slot::Stretch(_, s) => s < STRETCH_LEN,
        }
    }
}

/// Flat index of a home-stretch slot in the board's stretch array.
pub open spec fn spec_stretch_index(owner: Players, s: int) -> int {
    owner.spec_color_index() * STRETCH_LEN as int + s
}

/// The shared board: 28 track slots and 4 x 6 home-stretch slots, each
/// holding at most one piece by construction.
pub struct Board {
    pub track: Vec<Option<Occupant>>,
    pub stretch: Vec<Option<Occupant>>,
}

impl Board {
    pub open spec fn wf(self) -> bool {
        &&& self.track@.len() == TRACK_LEN as int
        &&& self.stretch@.len() == 4 * STRETCH_LEN as int
    }

    /// No slot holds a piece.
    pub open spec fn spec_empty(self) -> bool {
        &&& forall|s: int| 0 <= s < self.track@.len() ==> self.track@[s] is None
        &&& forall|t: int| 0 <= t < self.stretch@.len() ==> self.stretch@[t] is None
    }

    /// The occupant record at a valid slot.
    pub open spec fn spec_at(self, slot: Slot) -> Option<Occupant> {
        match slot {
            Slot::Track(s) => self.track@[s as int],
            Slot::Stretch(p, s) => self.stretch@[spec_stretch_index(p, s as int)],
        }
    }

    /// Read-only lookup of a slot's occupant; out-of-range addresses are
    /// rejected rather than aliased.
    pub fn occupant(&self, slot: Slot) -> (r: Result<Option<Occupant>, GameError>)
        requires
            self.wf(),
        ensures
            r == if slot.spec_valid() {
                Ok::<Option<Occupant>, GameError>(self.spec_at(slot))
            } else {
                Err::<Option<Occupant>, GameError>(GameError::BoardIndex)
            },
    {
        match slot {
            Slot::Track(s) => {
                if s < TRACK_LEN {
                    Ok(self.track[s as usize])
                } else {
                    Err(GameError::BoardIndex)
                }
            },
            Slot::Stretch(p, s) => {
                if s < STRETCH_LEN {
                    let t = p.color_index() * STRETCH_LEN + s;
                    Ok(self.stretch[t as usize])
                } else {
                    Err(GameError::BoardIndex)
                }
            },
        }
    }

    /// Capture-aware placement.  Landing on a track slot held by a different
    /// player evicts that occupant and reports it; landing on one's own piece
    /// or on any occupied home-stretch slot is illegal and changes nothing.
    /// Only the slot's owner may be placed into a home stretch.
    pub fn place(&mut self, slot: Slot, occ: Occupant) -> (r: Result<Option<Occupant>, GameError>)
        requires
            old(self).wf(),
        ensures
            final(self).wf(),
            !slot.spec_valid() ==> r == Err::<Option<Occupant>, GameError>(GameError::BoardIndex)
                && *final(self) == *old(self),
            slot.spec_valid() ==> match slot {
                Slot::Track(s) => match old(self).track@[s as int] {
                    Some(v) => if v.player == occ.player {
                        r == Err::<Option<Occupant>, GameError>(GameError::IllegalMove)
                            && *final(self) == *old(self)
                    } else {
                        r == Ok::<Option<Occupant>, GameError>(Some(v))
                            && final(self).track@ == old(self).track@.update(s as int, Some(occ))
                            && final(self).stretch@ == old(self).stretch@
                    },
                    None => r == Ok::<Option<Occupant>, GameError>(None)
                        && final(self).track@ == old(self).track@.update(s as int, Some(occ))
                        && final(self).stretch@ == old(self).stretch@,
                },
                Slot::Stretch(p, s) => if p != occ.owner || old(self).spec_at(slot) is Some {
                    r == Err::<Option<Occupant>, GameError>(GameError::IllegalMove)
                        && *final(self) == *old(self)
                } else {
                    r == Ok::<Option<Occupant>, GameError>(None)
                        && final(self).stretch@ == old(self).stretch@.update(
                            spec_stretch_index(p, s as int), Some(occ))
                        && final(self).track@ == old(self).track@
                },
            },
    {
        match slot {
            Slot::Track(s) => {
                if s >= TRACK_LEN {
                    return Err(GameError::BoardIndex);
                }
                match self.track[s as usize] {
                    Some(v) => {
                        if v.player == occ.player {
                            Err(GameError::IllegalMove)
                        } else {
                            self.track.set(s as usize, Some(occ));
                            Ok(Some(v))
                        }
                    },
                    None => {
                        self.track.set(s as usize, Some(occ));
                        Ok(None)
                    },
                }
            },
            Slot::Stretch(p, s) => {
                if s >= STRETCH_LEN {
                    return Err(GameError::BoardIndex);
                }
                if p != occ.owner {
                    return Err(GameError::IllegalMove);
                }
                let t = p.color_index() * STRETCH_LEN + s;
                match self.stretch[t as usize] {
                    Some(_) => Err(GameError::IllegalMove),
                    None => {
                        self.stretch.set(t as usize, Some(occ));
                        Ok(None)
                    },
                }
            },
        }
    }

    /// Clears a slot, used when a piece advances away from it.
    pub fn vacate(&mut self, slot: Slot) -> (r: Result<(), GameError>)
        requires
            old(self).wf(),
        ensures
            final(self).wf(),
            !slot.spec_valid() ==> r == Err::<(), GameError>(GameError::BoardIndex) && *final(self)
                == *old(self),
            slot.spec_valid() ==> r == Ok::<(), GameError>(()) && match slot {
                Slot::Track(s) => final(self).track@ == old(self).track@.update(s as int, None)
                    && final(self).stretch@ == old(self).stretch@,
                Slot::Stretch(p, s) => final(self).stretch@ == old(self).stretch@.update(
                    spec_stretch_index(p, s as int), None) && final(self).track@ == old(
                    self).track@,
            },
    {
        match slot {
            Slot::Track(s) => {
                if s >= TRACK_LEN {
                    return Err(GameError::BoardIndex);
                }
                self.track.set(s as usize, None);
                Ok(())
            },
            Slot::Stretch(p, s) => {
                if s >= STRETCH_LEN {
                    return Err(GameError::BoardIndex);
                }
                let t = p.color_index() * STRETCH_LEN + s;
                self.stretch.set(t as usize, None);
                Ok(())
            },
        }
    }

    /// The board side of an entry attempt: when the roll grants entry and the
    /// mover's entry slot is not blocked by a piece of the same player, the
    /// mover is written onto that slot (evicting any opposing occupant from
    /// the slot's record) and the board reports that it changed.
    pub fn update_board(&mut self, mover: Occupant, roll: u8) -> (r: bool)
        requires
            old(self).wf(),
        ensures
            final(self).wf(),
            r == (roll == ENTRY_ROLL && !(old(self).track@[mover.owner.spec_entry_slot()] matches Some(v)
                && v.player == mover.player)),
            r ==> final(self).track@ == old(self).track@.update(
                mover.owner.spec_entry_slot(),
                Some(mover),
            ) && final(self).stretch@ == old(self).stretch@,
            !r ==> *final(self) == *old(self),
    {
        if roll != ENTRY_ROLL {
            return false;
        }
        let e = mover.owner.entry_slot();
        match self.track[e as usize] {
            Some(v) => {
                if v.player == mover.player {
                    false
                } else {
                    self.track.set(e as usize, Some(mover));
                    true
                }
            },
            None => {
                self.track.set(e as usize, Some(mover));
                true
            },
        }
    }

    /// Where the given piece would land when advanced by `roll`, per the
    /// movement rules; `None` when the piece is not in play or the exact
    /// distance would overshoot the final home-stretch slot.
    pub fn new_board_position(&self, piece: &Piece, roll: u8) -> (r: Option<Location>)
        ensures
            r == spec_dest(piece.owner, piece.location, roll),
    {
        match piece.location {
            Location::Home => None,
            Location::OnTrack(s) => {
                if s >= TRACK_LEN {
                    None
                } else {
                    let e = piece.owner.entry_slot();
                    let prog: u32 = ((s as u32) + (TRACK_LEN as u32) - (e as u32)) % (TRACK_LEN
                        as u32);
                    let p: u32 = prog + (roll as u32);
                    if p < TRACK_LEN as u32 {
                        Some(Location::OnTrack((((e as u32) + p) % (TRACK_LEN as u32)) as u8))
                    } else if p <= (TRACK_LEN as u32) + (FINAL_SLOT as u32) {
                        Some(Location::Finished((p - (TRACK_LEN as u32)) as u8))
                    } else {
                        None
                    }
                }
            },
            Location::Finished(s) => {
                if s >= FINAL_SLOT {
                    None
                } else {
                    let p: u32 = (TRACK_LEN as u32) + (s as u32) + (roll as u32);
                    if p <= (TRACK_LEN as u32) + (FINAL_SLOT as u32) {
                        Some(Location::Finished((p - (TRACK_LEN as u32)) as u8))
                    } else {
                        None
                    }
                }
            },
        }
    }
}

impl Default for Board {
    /// An empty board: every track and home-stretch slot unoccupied.
    fn default() -> (r: Board)
        ensures
            r.wf(),
            r.spec_empty(),
    {
        let mut track: Vec<Option<Occupant>> = Vec::new();
        let mut i: u8 = 0;
        while i < TRACK_LEN
            invariant
                i <= TRACK_LEN,
                track@.len() == i as int,
                forall|s: int| 0 <= s < track@.len() ==> track@[s] is None,
            decreases TRACK_LEN - i,
        {
            track.push(None);
            i = i + 1;
        }
        let mut stretch: Vec<Option<Occupant>> = Vec::new();
        let mut j: u8 = 0;
        while j < 4 * STRETCH_LEN
            invariant
                j <= 4 * STRETCH_LEN,
                stretch@.len() == j as int,
                forall|t: int| 0 <= t < stretch@.len() ==> stretch@[t] is None,
            decreases 4 * STRETCH_LEN - j,
        {
            stretch.push(None);
            j = j + 1;
        }
        Board { track, stretch }
    }
}

} // verus!
