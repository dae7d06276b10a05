use trouble::ai::{
    aggression_from, avoidance_from, movement_from, piece_from, AggressionStrategy,
    AvoidanceStrategy, MoveIntent, MovementStrategy, PieceStrategy, AI,
};
use trouble::board::{Board, GameError, Occupant, Slot};
use trouble::game::GameState;
use trouble::piece::{Location, Piece, Players};
use trouble::player::Player;

fn ai(piece: PieceStrategy, movement: MovementStrategy) -> AI {
    AI::new(
        piece,
        AggressionStrategy::Balanced,
        movement,
        AvoidanceStrategy::Indifferent,
    )
}

fn occ(owner: Players, player: u8, piece: u8) -> Occupant {
    Occupant { owner, player, piece }
}

#[test]
fn default_board_is_empty() {
    let b = Board::default();
    for s in 0..28u8 {
        assert_eq!(b.occupant(Slot::Track(s)), Ok(None));
    }
    for p in [Players::Red, Players::Green, Players::Yellow, Players::Blue] {
        for s in 0..6u8 {
            assert_eq!(b.occupant(Slot::Stretch(p, s)), Ok(None));
        }
    }
}

#[test]
fn out_of_range_slots_are_rejected() {
    let mut b = Board::default();
    assert_eq!(b.occupant(Slot::Track(28)), Err(GameError::BoardIndex));
    assert_eq!(
        b.occupant(Slot::Stretch(Players::Red, 6)),
        Err(GameError::BoardIndex)
    );
    assert_eq!(
        b.place(Slot::Track(40), occ(Players::Red, 0, 0)),
        Err(GameError::BoardIndex)
    );
    assert_eq!(b.vacate(Slot::Track(28)), Err(GameError::BoardIndex));
}

#[test]
fn place_captures_opponents_and_rejects_own() {
    let mut b = Board::default();
    let red = occ(Players::Red, 0, 0);
    let green = occ(Players::Green, 1, 0);
    assert_eq!(b.place(Slot::Track(5), red), Ok(None));
    // a second piece of the same player may not share the slot
    assert_eq!(
        b.place(Slot::Track(5), occ(Players::Red, 0, 1)),
        Err(GameError::IllegalMove)
    );
    // an opposing piece captures the occupant
    assert_eq!(b.place(Slot::Track(5), green), Ok(Some(red)));
    assert_eq!(b.occupant(Slot::Track(5)), Ok(Some(green)));
}

#[test]
fn home_stretch_slots_never_capture() {
    let mut b = Board::default();
    let red = occ(Players::Red, 0, 0);
    assert_eq!(b.place(Slot::Stretch(Players::Red, 2), red), Ok(None));
    // occupied stretch slots block everyone, own pieces included
    assert_eq!(
        b.place(Slot::Stretch(Players::Red, 2), occ(Players::Red, 0, 1)),
        Err(GameError::IllegalMove)
    );
    // only the stretch owner may stand there
    assert_eq!(
        b.place(Slot::Stretch(Players::Green, 0), red),
        Err(GameError::IllegalMove)
    );
}

#[test]
fn update_board_applies_entry_only_on_entry_roll() {
    let mut b = Board::default();
    let red = occ(Players::Red, 0, 0);
    assert!(!b.update_board(red, 3));
    assert_eq!(b.occupant(Slot::Track(2)), Ok(None));
    assert!(b.update_board(red, 6));
    assert_eq!(b.occupant(Slot::Track(2)), Ok(Some(red)));
    // blocked by a piece of the same player
    assert!(!b.update_board(occ(Players::Red, 0, 1), 6));
}

#[test]
fn new_board_position_follows_movement_rules() {
    let b = Board::default();
    let mut pc = Piece::new(Location::OnTrack(2), Players::Red);
    assert_eq!(b.new_board_position(&pc, 3), Some(Location::OnTrack(5)));
    // a full lap turns into the home stretch
    pc.update_location(Location::OnTrack(27));
    assert_eq!(b.new_board_position(&pc, 3), Some(Location::Finished(0)));
    // wrapping at the track boundary
    let mut yc = Piece::new(Location::OnTrack(26), Players::Yellow);
    assert_eq!(b.new_board_position(&yc, 4), Some(Location::OnTrack(2)));
    // exact landing on the final slot, and the overshoot refusal
    yc.update_location(Location::Finished(3));
    assert_eq!(b.new_board_position(&yc, 2), Some(Location::Finished(5)));
    assert_eq!(b.new_board_position(&yc, 4), None);
    // pieces not in play do not advance
    let home = Piece::new(Location::Home, Players::Red);
    assert_eq!(b.new_board_position(&home, 6), None);
}

#[test]
fn get_players_yields_distinct_identities() {
    for n in 0..=4u8 {
        let ps = Players::get_players(n);
        assert_eq!(ps.len(), n as usize);
        for i in 0..ps.len() {
            for j in 0..i {
                assert_ne!(ps[i], ps[j]);
            }
        }
    }
}

#[test]
fn roll_dice_stays_in_range_and_varies() {
    let mut seen = [false; 7];
    for _ in 0..100 {
        let r = GameState::roll_dice();
        assert!((1..=6).contains(&r));
        seen[r as usize] = true;
    }
    assert!(seen.iter().filter(|s| **s).count() >= 2);
}

#[test]
fn new_player_holds_three_home_pieces() {
    let p = Player::new(Players::Blue);
    assert_eq!(p.home_count(), 3);
    assert_eq!(p.in_game_count(), 0);
    assert_eq!(p.complete_count(), 0);
    assert!(!p.check_if_pieces_in_play());
    assert!(p.check_if_pieces_available_to_play());
    for pc in &p.pieces {
        assert_eq!(pc.owner, Players::Blue);
        assert_eq!(pc.location, Location::Home);
    }
}

#[test]
fn move_piece_into_game_takes_the_entry_slot() {
    let mut p = Player::new(Players::Green);
    p.move_piece_into_game();
    assert_eq!(p.home_count(), 2);
    assert_eq!(p.in_game_count(), 1);
    assert!(p.check_if_pieces_in_play());
    assert_eq!(p.pieces[0].location, Location::OnTrack(9));
    assert_eq!(p.pieces[0].start_index, 9);
}

#[test]
fn entry_and_extra_turn_rolls_are_six() {
    for r in 0..=7u8 {
        assert_eq!(GameState::can_exit(r), r == 6);
        assert_eq!(GameState::can_roll_again(r), r == 6);
    }
}

#[test]
fn defaults_match_the_configuration_surface() {
    assert_eq!(trouble::default_players(), 3);
    assert_eq!(trouble::default_quantity(), 1);
}

#[test]
fn strategy_mappings_are_exact() {
    assert_eq!(avoidance_from(0), AvoidanceStrategy::Cautious);
    assert_eq!(avoidance_from(1), AvoidanceStrategy::ImmediateOnly);
    assert_eq!(avoidance_from(2), AvoidanceStrategy::Indifferent);
    assert_eq!(avoidance_from(3), AvoidanceStrategy::Scared);
    assert_eq!(movement_from(0), MovementStrategy::Leader);
    assert_eq!(movement_from(1), MovementStrategy::Follower);
    assert_eq!(aggression_from(0), AggressionStrategy::Balanced);
    assert_eq!(aggression_from(1), AggressionStrategy::Lean);
    assert_eq!(aggression_from(2), AggressionStrategy::Heavy);
    assert_eq!(aggression_from(3), AggressionStrategy::Extreme);
    assert_eq!(piece_from(0), PieceStrategy::FinishPiece);
    assert_eq!(piece_from(1), PieceStrategy::GetOnBoard);
    let _random_profile = AI::new_random();
}

#[test]
fn entry_roll_enters_on_the_fixed_start_slot() {
    let profile = ai(PieceStrategy::GetOnBoard, MovementStrategy::Leader);
    let p = Player::new(Players::Red);
    let b = Board::default();
    assert_eq!(profile.choose_move(&p, 0, &b, 6), Some(MoveIntent::Enter));
    // a FinishPiece profile with nothing in play still enters
    let finisher = ai(PieceStrategy::FinishPiece, MovementStrategy::Leader);
    assert_eq!(finisher.choose_move(&p, 0, &b, 6), Some(MoveIntent::Enter));
    // any other roll with only Home pieces is a forfeit
    assert_eq!(profile.choose_move(&p, 0, &b, 3), None);

    let names = vec![Players::Red, Players::Green];
    let players = Player::new_game_players(names);
    let mut gs = GameState::new(Board::default(), players);
    let ev = gs.take_turn(&profile, 6);
    assert_eq!(ev.action, Some(MoveIntent::Enter));
    assert_eq!(ev.captured, None);
    assert!(ev.extra_turn);
    assert_eq!(gs.turn, 0);
    assert_eq!(gs.players[0].pieces[0].location, Location::OnTrack(2));
    assert_eq!(
        gs.board.occupant(Slot::Track(2)),
        Ok(Some(occ(Players::Red, 0, 0)))
    );
}

#[test]
fn forced_forfeit_advances_the_turn_without_mutation() {
    let profile = ai(PieceStrategy::GetOnBoard, MovementStrategy::Leader);
    let players = Player::new_game_players(vec![Players::Red, Players::Green]);
    let mut gs = GameState::new(Board::default(), players);
    let ev = gs.take_turn(&profile, 4);
    assert_eq!(ev.action, None);
    assert_eq!(ev.captured, None);
    assert!(!ev.extra_turn);
    assert_eq!(gs.turn, 1);
    for p in &gs.players {
        assert_eq!(p.home_count(), 3);
    }
    for s in 0..28u8 {
        assert_eq!(gs.board.occupant(Slot::Track(s)), Ok(None));
    }
}

#[test]
fn two_player_capture_sends_the_victim_home() {
    let players = Player::new_game_players(vec![Players::Red, Players::Green]);
    let mut gs = GameState::new(Board::default(), players);
    // Red's first piece stands on track slot 5, Green's on track slot 2
    gs.players[0].pieces[0].update_location(Location::OnTrack(5));
    gs.players[1].pieces[0].update_location(Location::OnTrack(2));
    gs.board.place(Slot::Track(5), occ(Players::Red, 0, 0)).unwrap();
    gs.board.place(Slot::Track(2), occ(Players::Green, 1, 0)).unwrap();
    gs.turn = 1;
    let profile = ai(PieceStrategy::FinishPiece, MovementStrategy::Leader);
    let ev = gs.take_turn(&profile, 3);
    assert_eq!(ev.player, Players::Green);
    assert_eq!(ev.action, Some(MoveIntent::Advance(0)));
    assert_eq!(ev.captured, Some(Players::Red));
    // Green now occupies slot 5; Red's piece is back in its Home bucket
    assert_eq!(
        gs.board.occupant(Slot::Track(5)),
        Ok(Some(occ(Players::Green, 1, 0)))
    );
    assert_eq!(gs.board.occupant(Slot::Track(2)), Ok(None));
    assert_eq!(gs.players[0].pieces[0].location, Location::Home);
    assert_eq!(gs.players[0].pieces[0].start_index, 0);
    assert_eq!(gs.players[0].home_count(), 3);
    assert_eq!(gs.players[1].pieces[0].location, Location::OnTrack(5));
}

#[test]
fn landing_on_the_final_slot_wins_the_game() {
    let players = Player::new_game_players(vec![Players::Red, Players::Green]);
    let mut gs = GameState::new(Board::default(), players);
    gs.players[0].pieces[0].update_location(Location::Finished(5));
    gs.players[0].pieces[1].update_location(Location::Finished(5));
    gs.players[0].pieces[2].update_location(Location::Finished(3));
    gs.board
        .place(Slot::Stretch(Players::Red, 3), occ(Players::Red, 0, 2))
        .unwrap();
    assert_eq!(gs.winner(), None);
    let profile = ai(PieceStrategy::FinishPiece, MovementStrategy::Leader);
    let ev = gs.take_turn(&profile, 2);
    assert_eq!(ev.action, Some(MoveIntent::Advance(2)));
    assert_eq!(ev.captured, None);
    assert_eq!(gs.players[0].complete_count(), 3);
    assert_eq!(gs.players[0].pieces[2].location, Location::Finished(5));
    assert_eq!(gs.board.occupant(Slot::Stretch(Players::Red, 3)), Ok(None));
    assert_eq!(gs.winner(), Some(Players::Red));
}

#[test]
fn leader_and_follower_rank_pieces_apart() {
    let players = Player::new_game_players(vec![Players::Red]);
    let mut gs = GameState::new(Board::default(), players);
    // piece 0 trails at progress 3, piece 1 leads at progress 8
    gs.players[0].pieces[0].update_location(Location::OnTrack(5));
    gs.players[0].pieces[1].update_location(Location::OnTrack(10));
    gs.board.place(Slot::Track(5), occ(Players::Red, 0, 0)).unwrap();
    gs.board.place(Slot::Track(10), occ(Players::Red, 0, 1)).unwrap();
    let leader = ai(PieceStrategy::FinishPiece, MovementStrategy::Leader);
    let follower = ai(PieceStrategy::FinishPiece, MovementStrategy::Follower);
    assert_eq!(
        leader.choose_move(&gs.players[0], 0, &gs.board, 2),
        Some(MoveIntent::Advance(1))
    );
    assert_eq!(
        follower.choose_move(&gs.players[0], 0, &gs.board, 2),
        Some(MoveIntent::Advance(0))
    );
}

#[test]
fn buckets_stay_conserved_over_turns() {
    let profile = ai(PieceStrategy::GetOnBoard, MovementStrategy::Leader);
    let players = Player::new_game_players(vec![Players::Red, Players::Green, Players::Yellow]);
    let mut gs = GameState::new(Board::default(), players);
    let rolls = [6u8, 3, 4, 6, 2, 6, 6, 5, 1, 6, 3, 2, 6, 4, 6, 1];
    for r in rolls {
        if gs.winner().is_some() {
            break;
        }
        gs.take_turn(&profile, r);
        for p in &gs.players {
            assert_eq!(
                p.home_count() + p.in_game_count() + p.complete_count(),
                3
            );
        }
    }
}

#[test]
fn no_two_pieces_share_a_board_slot() {
    let profile = ai(PieceStrategy::GetOnBoard, MovementStrategy::Follower);
    let players = Player::new_game_players(vec![Players::Red, Players::Green]);
    let mut gs = GameState::new(Board::default(), players);
    let rolls = [6u8, 2, 6, 5, 6, 1, 3, 6, 6, 4, 2, 6, 5, 3];
    for r in rolls {
        if gs.winner().is_some() {
            break;
        }
        gs.take_turn(&profile, r);
        let mut spots: Vec<(Players, Location)> = Vec::new();
        for p in &gs.players {
            for pc in &p.pieces {
                match pc.location {
                    Location::OnTrack(s) => spots.push((p.name, Location::OnTrack(s))),
                    Location::Finished(f) if f < 5 => {
                        spots.push((p.name, Location::Finished(f)))
                    }
                    _ => {}
                }
            }
        }
        for i in 0..spots.len() {
            for j in 0..i {
                // shared track slots are exclusive across players; stretch
                // slots are exclusive per owner
                if let (Location::OnTrack(a), Location::OnTrack(b)) = (spots[i].1, spots[j].1) {
                    assert_ne!(a, b);
                } else {
                    assert!(spots[i] != spots[j]);
                }
            }
        }
    }
}
