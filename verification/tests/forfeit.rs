use crypto_pvp::errors::GameError;
use crypto_pvp::game_logic::{claim_timeout_victory, ClaimTimeoutVictory};
use crypto_pvp::identity::Identity;
use crypto_pvp::state::{
    Balances, Game, GameState, GlobalState, Move, PlayerProfile, WagerAmount, Winner,
};

const ALICE: Identity = Identity { bytes: [1u8; 32] };
const BOB: Identity = Identity { bytes: [2u8; 32] };
const CAROL: Identity = Identity { bytes: [3u8; 32] };
const DEADLINE: i64 = 1_120;

fn profile(owner: Identity) -> PlayerProfile {
    PlayerProfile {
        player: owner,
        name: String::from("someone"),
        available_funds: 0,
        total_games_played: 4,
        total_games_completed: 4,
        total_games_forfeited: 0,
        wins: 2,
        losses: 2,
        ties: 0,
        total_wagered: 500_000_000,
        total_won: 198_000_000,
        total_lost: 200_000_000,
        current_streak: 2,
        best_streak: 2,
        created_at: 1,
        bump: 0,
    }
}

fn claim(state: GameState, claimer: Identity) -> ClaimTimeoutVictory {
    ClaimTimeoutVictory {
        game: Game {
            game_id: 3,
            player1: ALICE,
            player2: BOB,
            wager: WagerAmount::Sol01,
            fee_per_player: 1_000_000,
            state,
            player1_move_hash: None,
            player2_move_hash: None,
            player1_move: None,
            player2_move: None,
            winner_type: None,
            winner_address: None,
            play_deadline: Some(DEADLINE),
            bump: 0,
            rounds_to_win: 2,
            current_round: 2,
            player1_round_wins: 1,
            player2_round_wins: 0,
        },
        global_state: GlobalState {
            game_counter: 4,
            total_games_completed: 3,
            authority: Identity { bytes: [9u8; 32] },
            fee_collector: Identity { bytes: [8u8; 32] },
            fee_percentage: 1,
            bump: 0,
            reveal_timeout_seconds: 120,
        },
        player: claimer,
        player1_profile: profile(ALICE),
        player2_profile: profile(BOB),
        balances: Balances { game: 198_000_000, player1: 10, player2: 20 },
    }
}

fn refused(mut ctx: ClaimTimeoutVictory, now: i64, expected: GameError) {
    let game = ctx.game;
    let global_state = ctx.global_state;
    let p1 = ctx.player1_profile.clone();
    let p2 = ctx.player2_profile.clone();
    let balances = ctx.balances;
    assert_eq!(claim_timeout_victory(&mut ctx, now), Err(expected));
    assert_eq!(ctx.game, game);
    assert_eq!(ctx.global_state, global_state);
    assert_eq!(ctx.player1_profile, p1);
    assert_eq!(ctx.player2_profile, p2);
    assert_eq!(ctx.balances, balances);
}

#[test]
fn player_one_claims_after_player_two_never_committed() {
    let mut ctx = claim(GameState::CommitPhase, ALICE);
    ctx.game.player1_move_hash = Some([5u8; 32]);
    assert_eq!(claim_timeout_victory(&mut ctx, DEADLINE + 1), Ok(()));
    assert_eq!(ctx.game.state, GameState::Finished);
    assert_eq!(ctx.game.winner_type, Some(Winner::Player1OpponentForfeit));
    assert_eq!(ctx.game.winner_address, Some(ALICE));
    assert!(ctx.game.is_wf());
    assert_eq!(ctx.balances, Balances { game: 0, player1: 10 + 198_000_000, player2: 20 });
    assert_eq!(ctx.global_state.total_games_completed, 4);
    let mut winner = profile(ALICE);
    winner.total_games_played = 5;
    winner.total_games_completed = 5;
    winner.wins = 3;
    winner.total_won = 198_000_000 + 99_000_000;
    winner.current_streak = 3;
    winner.best_streak = 3;
    assert_eq!(ctx.player1_profile, winner);
    let mut loser = profile(BOB);
    loser.total_games_played = 5;
    loser.total_games_completed = 5;
    loser.total_games_forfeited = 1;
    loser.losses = 3;
    loser.total_lost = 200_000_000 + 100_000_000;
    loser.current_streak = 0;
    assert_eq!(ctx.player2_profile, loser);
}

#[test]
fn player_two_claims_after_player_one_never_revealed() {
    let mut ctx = claim(GameState::RevealPhase, BOB);
    ctx.game.player1_move_hash = Some([5u8; 32]);
    ctx.game.player2_move_hash = Some([6u8; 32]);
    ctx.game.player2_move = Some(Move::Paper);
    assert_eq!(claim_timeout_victory(&mut ctx, DEADLINE + 500), Ok(()));
    assert_eq!(ctx.game.state, GameState::Finished);
    assert_eq!(ctx.game.winner_type, Some(Winner::Player2OpponentForfeit));
    assert_eq!(ctx.game.winner_address, Some(BOB));
    assert_eq!(ctx.balances, Balances { game: 0, player1: 10, player2: 20 + 198_000_000 });
    assert_eq!(ctx.player1_profile.total_games_forfeited, 1);
    assert_eq!(ctx.player1_profile.losses, 3);
    assert_eq!(ctx.player2_profile.total_games_forfeited, 0);
    assert_eq!(ctx.player2_profile.wins, 3);
}

#[test]
fn a_claim_is_too_early_up_to_the_deadline() {
    let mut ctx = claim(GameState::CommitPhase, ALICE);
    ctx.game.player1_move_hash = Some([5u8; 32]);
    refused(claim(GameState::CommitPhase, ALICE), DEADLINE - 1, GameError::DeadlineNotReached);
    let again = ClaimTimeoutVictory { game: ctx.game, ..claim(GameState::CommitPhase, ALICE) };
    refused(again, DEADLINE, GameError::DeadlineNotReached);
    assert_eq!(claim_timeout_victory(&mut ctx, DEADLINE + 1), Ok(()));
}

#[test]
fn a_claimer_must_have_committed() {
    refused(claim(GameState::CommitPhase, ALICE), DEADLINE + 1, GameError::ClaimerDidNotCommit);
    let mut ctx = claim(GameState::CommitPhase, BOB);
    ctx.game.player1_move_hash = Some([5u8; 32]);
    refused(ctx, DEADLINE + 1, GameError::ClaimerDidNotCommit);
}

#[test]
fn a_claimer_must_have_revealed() {
    let mut ctx = claim(GameState::RevealPhase, ALICE);
    ctx.game.player1_move_hash = Some([5u8; 32]);
    ctx.game.player2_move_hash = Some([6u8; 32]);
    ctx.game.player2_move = Some(Move::Rock);
    refused(ctx, DEADLINE + 1, GameError::ClaimerDidNotReveal);
}

#[test]
fn no_claim_when_the_opponent_committed_too() {
    let mut ctx = claim(GameState::CommitPhase, BOB);
    ctx.game.player1_move_hash = Some([5u8; 32]);
    ctx.game.player2_move_hash = Some([6u8; 32]);
    refused(ctx, DEADLINE + 1, GameError::OpponentAlreadyCommitted);
}

#[test]
fn no_claim_when_the_opponent_revealed_too() {
    let mut ctx = claim(GameState::RevealPhase, ALICE);
    ctx.game.player1_move_hash = Some([5u8; 32]);
    ctx.game.player2_move_hash = Some([6u8; 32]);
    ctx.game.player1_move = Some(Move::Rock);
    ctx.game.player2_move = Some(Move::Rock);
    refused(ctx, DEADLINE + 1, GameError::OpponentAlreadyRevealed);
}

#[test]
fn a_stranger_cannot_claim() {
    let mut ctx = claim(GameState::CommitPhase, CAROL);
    ctx.game.player1_move_hash = Some([5u8; 32]);
    refused(ctx, DEADLINE + 1, GameError::NotPlayerInGame);
}

#[test]
fn no_claim_outside_the_commit_and_reveal_phases() {
    refused(claim(GameState::WaitingForPlayer, ALICE), DEADLINE + 1, GameError::InvalidGameState);
    refused(claim(GameState::Finished, BOB), DEADLINE + 1, GameError::InvalidGameState);
}

#[test]
fn no_claim_without_a_deadline() {
    let mut ctx = claim(GameState::CommitPhase, ALICE);
    ctx.game.player1_move_hash = Some([5u8; 32]);
    ctx.game.play_deadline = None;
    refused(ctx, DEADLINE + 1, GameError::NoDeadlineSet);
}

#[test]
fn no_claim_when_the_pot_is_missing() {
    let mut ctx = claim(GameState::CommitPhase, ALICE);
    ctx.game.player1_move_hash = Some([5u8; 32]);
    ctx.balances.game = 197_999_999;
    refused(ctx, DEADLINE + 1, GameError::InsufficientFunds);
}

#[test]
fn knowing_when_a_claim_can_conclude() {
    let mut ctx = claim(GameState::CommitPhase, ALICE);
    assert!(ctx.check_can_conclude());
    ctx.balances.player2 = u64::MAX;
    assert!(!ctx.check_can_conclude());
    ctx.balances.player2 = 0;
    ctx.global_state.total_games_completed = u64::MAX;
    assert!(!ctx.check_can_conclude());
}
