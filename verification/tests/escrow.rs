use crypto_pvp::errors::GameError;
use crypto_pvp::identity::Identity;
use crypto_pvp::state::{
    Balances, Game, GameState, GlobalState, PlayerProfile, WagerAmount, WagerTransfers, Winner,
};
use crypto_pvp::utils::{
    check_can_conclude, conclude_match, payout_winner, process_wager, update_endgame_stats,
};

const ALICE: Identity = Identity { bytes: [1u8; 32] };
const BOB: Identity = Identity { bytes: [2u8; 32] };
const CAROL: Identity = Identity { bytes: [3u8; 32] };

fn game(wager: WagerAmount, fee_per_player: u64) -> Game {
    Game {
        game_id: 3,
        player1: ALICE,
        player2: BOB,
        wager,
        fee_per_player,
        state: GameState::RevealPhase,
        player1_move_hash: Some([1u8; 32]),
        player2_move_hash: Some([2u8; 32]),
        player1_move: None,
        player2_move: None,
        winner_type: None,
        winner_address: None,
        play_deadline: Some(10),
        bump: 0,
        rounds_to_win: 1,
        current_round: 1,
        player1_round_wins: 0,
        player2_round_wins: 0,
    }
}

fn registry() -> GlobalState {
    GlobalState {
        game_counter: 4,
        total_games_completed: 3,
        authority: Identity { bytes: [9u8; 32] },
        fee_collector: Identity { bytes: [8u8; 32] },
        fee_percentage: 1,
        bump: 0,
        reveal_timeout_seconds: 120,
    }
}

fn profile(owner: Identity, streak: i32, best: u32) -> PlayerProfile {
    PlayerProfile {
        player: owner,
        name: String::from("someone"),
        available_funds: 0,
        total_games_played: 10,
        total_games_completed: 9,
        total_games_forfeited: 1,
        wins: 4,
        losses: 5,
        ties: 1,
        total_wagered: 1_000,
        total_won: 2_000,
        total_lost: 3_000,
        current_streak: streak,
        best_streak: best,
        created_at: 1,
        bump: 0,
    }
}

#[test]
fn a_stake_is_split_into_fee_and_net() {
    let mut p = profile(ALICE, 0, 0);
    let paid = process_wager(&CAROL, &game(WagerAmount::Sol1, 10_000_000), &mut p);
    assert_eq!(paid, Ok(WagerTransfers { fee: 10_000_000, fee_to: CAROL, net: 990_000_000 }));
    let mut expected = profile(ALICE, 0, 0);
    expected.total_wagered = 1_000 + 1_000_000_000;
    assert_eq!(p, expected);
    let paid = process_wager(&BOB, &game(WagerAmount::Sol001, 9_999_999), &mut p);
    assert_eq!(paid, Ok(WagerTransfers { fee: 9_999_999, fee_to: BOB, net: 1 }));
}

#[test]
fn a_stake_needs_a_fee_and_a_remainder() {
    let mut p = profile(ALICE, 0, 0);
    for fee in [0u64, 100_000_000, 100_000_001, u64::MAX] {
        assert_eq!(
            process_wager(&CAROL, &game(WagerAmount::Sol01, fee), &mut p),
            Err(GameError::InsufficientFunds)
        );
        assert_eq!(p, profile(ALICE, 0, 0));
    }
}

#[test]
fn the_winner_takes_the_pot() {
    let g = game(WagerAmount::Sol1, 10_000_000);
    for (winner, expected) in [
        (Winner::Player1, Balances { game: 20, player1: 1_980_000_005, player2: 7 }),
        (Winner::Player1OpponentForfeit, Balances { game: 20, player1: 1_980_000_005, player2: 7 }),
        (Winner::Player2, Balances { game: 20, player1: 5, player2: 1_980_000_007 }),
        (Winner::Player2OpponentForfeit, Balances { game: 20, player1: 5, player2: 1_980_000_007 }),
    ] {
        let mut balances = Balances { game: 1_980_000_020, player1: 5, player2: 7 };
        assert_eq!(payout_winner(&g, &mut balances, winner), Ok(()));
        assert_eq!(balances, expected);
    }
}

#[test]
fn a_tie_returns_each_net_contribution() {
    let g = game(WagerAmount::Sol1, 10_000_000);
    let mut balances = Balances { game: 1_980_000_000, player1: 5, player2: 7 };
    assert_eq!(payout_winner(&g, &mut balances, Winner::Tie), Ok(()));
    assert_eq!(balances, Balances { game: 0, player1: 990_000_005, player2: 990_000_007 });
}

#[test]
fn no_payout_when_the_match_holds_less_than_the_pot() {
    let g = game(WagerAmount::Sol1, 10_000_000);
    for winner in [Winner::Player1, Winner::Player2, Winner::Tie] {
        let mut balances = Balances { game: 1_979_999_999, player1: 5, player2: 7 };
        assert_eq!(payout_winner(&g, &mut balances, winner), Err(GameError::InsufficientFunds));
        assert_eq!(balances, Balances { game: 1_979_999_999, player1: 5, player2: 7 });
    }
}

#[test]
fn stats_after_a_win_of_player_one() {
    let g = game(WagerAmount::Sol1, 10_000_000);
    let mut registry_now = registry();
    let mut p1 = profile(ALICE, 2, 2);
    let mut p2 = profile(BOB, 3, 7);
    let done = update_endgame_stats(&mut registry_now, &mut p1, &mut p2, Winner::Player1, &g);
    assert_eq!(done, Ok(()));
    assert_eq!(registry_now.total_games_completed, 4);
    assert_eq!(registry_now.game_counter, 4);
    let mut e1 = profile(ALICE, 3, 3);
    e1.total_games_played = 11;
    e1.total_games_completed = 10;
    e1.wins = 5;
    e1.total_won = 2_000 + 990_000_000;
    assert_eq!(p1, e1);
    let mut e2 = profile(BOB, 0, 7);
    e2.total_games_played = 11;
    e2.total_games_completed = 10;
    e2.losses = 6;
    e2.total_lost = 3_000 + 1_000_000_000;
    assert_eq!(p2, e2);
}

#[test]
fn stats_after_a_win_of_player_two() {
    let g = game(WagerAmount::Sol01, 1_000_000);
    let mut registry_now = registry();
    let mut p1 = profile(ALICE, -2, 4);
    let mut p2 = profile(BOB, -5, 1);
    let done = update_endgame_stats(&mut registry_now, &mut p1, &mut p2, Winner::Player2, &g);
    assert_eq!(done, Ok(()));
    let mut e1 = profile(ALICE, -3, 4);
    e1.total_games_played = 11;
    e1.total_games_completed = 10;
    e1.losses = 6;
    e1.total_lost = 3_000 + 100_000_000;
    assert_eq!(p1, e1);
    let mut e2 = profile(BOB, -4, 1);
    e2.total_games_played = 11;
    e2.total_games_completed = 10;
    e2.wins = 5;
    e2.total_won = 2_000 + 99_000_000;
    assert_eq!(p2, e2);
}

#[test]
fn a_streak_raises_the_best_streak_only_when_it_exceeds_it() {
    let g = game(WagerAmount::Sol01, 1_000_000);
    let mut registry_now = registry();
    let mut p1 = profile(ALICE, 3, 5);
    let mut p2 = profile(BOB, 0, 0);
    update_endgame_stats(&mut registry_now, &mut p1, &mut p2, Winner::Player1, &g).unwrap();
    assert_eq!((p1.current_streak, p1.best_streak), (4, 5));
    assert_eq!((p2.current_streak, p2.best_streak), (-1, 0));
    update_endgame_stats(&mut registry_now, &mut p1, &mut p2, Winner::Player1, &g).unwrap();
    assert_eq!((p1.current_streak, p1.best_streak), (5, 5));
    update_endgame_stats(&mut registry_now, &mut p1, &mut p2, Winner::Player1, &g).unwrap();
    assert_eq!((p1.current_streak, p1.best_streak), (6, 6));
    assert_eq!((p2.current_streak, p2.best_streak), (-3, 0));
    update_endgame_stats(&mut registry_now, &mut p1, &mut p2, Winner::Player2, &g).unwrap();
    assert_eq!((p1.current_streak, p1.best_streak), (0, 6));
    assert_eq!((p2.current_streak, p2.best_streak), (-2, 0));
    assert_eq!(registry_now.total_games_completed, 7);
}

#[test]
fn stats_after_a_tie() {
    let g = game(WagerAmount::Sol1, 10_000_000);
    let mut registry_now = registry();
    let mut p1 = profile(ALICE, 2, 2);
    let mut p2 = profile(BOB, -1, 7);
    let done = update_endgame_stats(&mut registry_now, &mut p1, &mut p2, Winner::Tie, &g);
    assert_eq!(done, Ok(()));
    let mut e1 = profile(ALICE, 2, 2);
    e1.total_games_played = 11;
    e1.total_games_completed = 10;
    e1.ties = 2;
    assert_eq!(p1, e1);
    let mut e2 = profile(BOB, -1, 7);
    e2.total_games_played = 11;
    e2.total_games_completed = 10;
    e2.ties = 2;
    assert_eq!(p2, e2);
}

#[test]
fn stats_after_a_forfeit() {
    let g = game(WagerAmount::Sol1, 10_000_000);
    let mut registry_now = registry();
    let mut p1 = profile(ALICE, 1, 2);
    let mut p2 = profile(BOB, 0, 7);
    let outcome = Winner::Player2OpponentForfeit;
    let done = update_endgame_stats(&mut registry_now, &mut p1, &mut p2, outcome, &g);
    assert_eq!(done, Ok(()));
    let mut e1 = profile(ALICE, 0, 2);
    e1.total_games_played = 11;
    e1.total_games_completed = 10;
    e1.total_games_forfeited = 2;
    e1.losses = 6;
    e1.total_lost = 3_000 + 1_000_000_000;
    assert_eq!(p1, e1);
    let mut e2 = profile(BOB, 1, 7);
    e2.total_games_played = 11;
    e2.total_games_completed = 10;
    e2.wins = 5;
    e2.total_won = 2_000 + 990_000_000;
    assert_eq!(p2, e2);
}

#[test]
fn concluding_a_match() {
    let mut g = game(WagerAmount::Sol001, 100_000);
    let mut registry_now = registry();
    let mut p1 = profile(ALICE, 0, 0);
    let mut p2 = profile(BOB, 0, 0);
    let mut balances = Balances { game: 19_800_000, player1: 1, player2: 2 };
    assert!(check_can_conclude(&g, &registry_now, &p1, &p2, &balances));
    let done = conclude_match(
        &mut g,
        &mut registry_now,
        &mut p1,
        &mut p2,
        &mut balances,
        Winner::Player2,
        BOB,
    );
    assert_eq!(done, Ok(()));
    let mut expected = game(WagerAmount::Sol001, 100_000);
    expected.state = GameState::Finished;
    expected.winner_type = Some(Winner::Player2);
    expected.winner_address = Some(BOB);
    assert_eq!(g, expected);
    assert_eq!(balances, Balances { game: 0, player1: 1, player2: 19_800_002 });
    assert_eq!(registry_now.total_games_completed, 4);
    assert_eq!(p2.wins, 5);
    assert_eq!(p2.total_won, 2_000 + 9_900_000);
    assert_eq!(p1.losses, 6);
}

#[test]
fn room_to_conclude() {
    let g = game(WagerAmount::Sol1, 10_000_000);
    let p1 = profile(ALICE, 0, 0);
    let p2 = profile(BOB, 0, 0);
    let balances = Balances { game: 0, player1: 0, player2: 0 };
    assert!(check_can_conclude(&g, &registry(), &p1, &p2, &balances));
    let mut full = p1.clone();
    full.wins = u32::MAX;
    assert!(!check_can_conclude(&g, &registry(), &full, &p2, &balances));
    assert!(!p1.check_can_settle(u64::MAX - 1_999, 0));
    assert!(p1.check_can_settle(u64::MAX - 2_000, u64::MAX - 3_000));
    let rich = Balances { game: 0, player1: u64::MAX - 1_979_999_999, player2: 0 };
    assert!(!check_can_conclude(&g, &registry(), &p1, &p2, &rich));
    let mut done = registry();
    done.total_games_completed = u64::MAX;
    assert!(!check_can_conclude(&g, &done, &p1, &p2, &balances));
    let overcharged = game(WagerAmount::Sol1, 1_000_000_001);
    assert!(!check_can_conclude(&overcharged, &registry(), &p1, &p2, &balances));
}
