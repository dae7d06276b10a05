//! A verified engine for a Trouble-style race game: up to four players move
//! three pieces each around a shared 28-slot circular track toward a private
//! six-slot home stretch, entering on a roll of six, capturing opponents they
//! land on, and winning when all three pieces complete.  The board, the
//! movement rules, the strategy-driven move policy, and the turn state
//! machine live here with proved contracts; die rolls come from a random
//! source consumed through a narrow boundary, and the command line and game
//! loop live outside the library.

use vstd::prelude::*;

pub mod ai;
pub mod game;
pub mod laws;
pub mod board;
pub mod piece;
pub mod player;
mod rng;

verus! {

/// Default number of players when the embedding layer supplies none.
pub fn default_players() -> (r: u8)
    ensures
        r == 3,
{
    3
}

/// Default number of games to simulate when the embedding layer supplies
/// none.
pub fn default_quantity() -> (r: u32)
    ensures
        r == 1,
{
    1
}

} // verus!
