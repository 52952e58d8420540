//! Laws that hold of the rules of play, the commitments, the pot, the
//! rounds and the forfeit claims.
use vstd::prelude::*;
use crate::commitment::{commitment_of, opens};
use crate::errors::GameError;
use crate::game_logic::{round_winner, ClaimTimeoutVictory, CommitMove, RevealMove};
use crate::state::{Balances, Game, GameState, Move, Winner};
use crate::utils::paid_out;

verus! {

/// The move that a move beats: rock beats scissors, paper beats rock,
/// scissors beat paper.
pub open spec fn beaten_by(m: Move) -> Move {
    match m {
        Move::Rock => Move::Scissors,
        Move::Paper => Move::Rock,
        Move::Scissors => Move::Paper,
    }
}

/// The outcome of a round seen from the other player's side.
pub open spec fn swapped(winner: Winner) -> Winner {
    match winner {
        Winner::Player1 => Winner::Player2,
        Winner::Player2 => Winner::Player1,
        other => other,
    }
}

/// The winner of a round follows the cycle rock, scissors, paper: player 1
/// wins exactly when player 2 played the move that player 1's move beats,
/// each move beats another one, and beating three times in a row leads back
/// to the move one started from. Equal moves, and only they, tie. A round
/// never ends by forfeit.
pub proof fn lemma_round_winner_is_cyclic(move1: Move, move2: Move)
    ensures
        round_winner(move1, move2) == Winner::Player1 <==> move2 == beaten_by(move1),
        round_winner(move1, move2) == Winner::Player2 <==> move1 == beaten_by(move2),
        round_winner(move1, move2) == Winner::Tie <==> move1 == move2,
        !round_winner(move1, move2).by_forfeit(),
        beaten_by(move1) != move1,
        beaten_by(beaten_by(beaten_by(move1))) == move1,
{
}

/// Swapping the two moves swaps a decisive winner and leaves a tie a tie.
pub proof fn lemma_round_winner_is_antisymmetric(move1: Move, move2: Move)
    ensures
        round_winner(move2, move1) == swapped(round_winner(move1, move2)),
{
}

/// A commitment is opened by the move and salt it was made from.
pub proof fn lemma_commitment_round_trip(move_choice: Move, salt: [u8; 32], digest: [u8; 32])
    requires
        digest@ == commitment_of(move_choice, salt@),
    ensures
        opens(Some(digest), move_choice, salt@),
{
}

/// The fee and the net contribution make up the stake, the pot is twice the
/// net contribution, and a payout moves value without making or losing any:
/// the match gives up exactly the pot, and the players together receive it.
pub proof fn lemma_pot_accounting(game: Game, balances: Balances, winner: Winner)
    requires
        game.fee_per_player <= game.wager.lamports(),
        balances.game >= game.pot(),
        balances.player1 + game.pot() <= u64::MAX,
        balances.player2 + game.pot() <= u64::MAX,
    ensures
        game.fee_per_player + game.net() == game.wager.lamports(),
        game.pot() == 2 * game.net(),
        paid_out(balances, winner, game).game == balances.game - game.pot(),
        paid_out(balances, winner, game).player1 + paid_out(balances, winner, game).player2
            == balances.player1 + balances.player2 + game.pot(),
{
}

/// A round win that brings a player to the number of round wins the match
/// asks for ends the match with that player as its winner: the match is
/// finished, the round win is counted, and the outcome and the winner's
/// identity are that player's.
pub proof fn lemma_deciding_round_finishes_match(ctx: RevealMove, winner: Winner, deadline: i64)
    requires
        winner == Winner::Player1 || winner == Winner::Player2,
        ctx.game.player1_round_wins < u8::MAX,
        ctx.game.player2_round_wins < u8::MAX,
        winner == Winner::Player1 ==> ctx.game.player1_round_wins + 1 >= ctx.game.rounds_to_win,
        winner == Winner::Player2 ==> ctx.game.player2_round_wins + 1 >= ctx.game.rounds_to_win,
    ensures
        ctx.after_round(winner, deadline).game.state == GameState::Finished,
        ctx.after_round(winner, deadline).game.winner_type == Some(winner),
        winner == Winner::Player1 ==> ctx.after_round(winner, deadline).game.winner_address
            == Some(ctx.game.player1) && ctx.after_round(winner, deadline).game.player1_round_wins
            == ctx.game.player1_round_wins + 1,
        winner == Winner::Player2 ==> ctx.after_round(winner, deadline).game.winner_address
            == Some(ctx.game.player2) && ctx.after_round(winner, deadline).game.player2_round_wins
            == ctx.game.player2_round_wins + 1,
{
}

/// A round win that leaves the winner short of the number of round wins the
/// match asks for is counted, and the next round begins.
pub proof fn lemma_undecided_round_continues(ctx: RevealMove, winner: Winner, deadline: i64)
    requires
        winner == Winner::Player1 || winner == Winner::Player2,
        ctx.game.current_round < u8::MAX,
        winner == Winner::Player1 ==> ctx.game.player1_round_wins + 1 < ctx.game.rounds_to_win,
        winner == Winner::Player2 ==> ctx.game.player2_round_wins + 1 < ctx.game.rounds_to_win,
    ensures
        ctx.after_round(winner, deadline).game.state == GameState::CommitPhase,
        ctx.after_round(winner, deadline).game.current_round == ctx.game.current_round + 1,
        ctx.after_round(winner, deadline).game.player1_round_wins + ctx.after_round(
            winner,
            deadline,
        ).game.player2_round_wins == ctx.game.player1_round_wins + ctx.game.player2_round_wins
            + 1,
        ctx.after_round(winner, deadline).game.winner_type is None
            <==> ctx.game.winner_type is None,
{
}

/// A tied round starts the next round and leaves the round wins, the
/// profiles, the registry and the balances as they were.
pub proof fn lemma_tie_round_advances(ctx: RevealMove, deadline: i64)
    requires
        ctx.game.current_round < u8::MAX,
    ensures
        ctx.after_round(Winner::Tie, deadline).game.current_round == ctx.game.current_round + 1,
        ctx.after_round(Winner::Tie, deadline).game.player1_round_wins
            == ctx.game.player1_round_wins,
        ctx.after_round(Winner::Tie, deadline).game.player2_round_wins
            == ctx.game.player2_round_wins,
        ctx.after_round(Winner::Tie, deadline).game.state == GameState::CommitPhase,
        ctx.after_round(Winner::Tie, deadline) == ctx.with_game(ctx.game.next_round(deadline)),
{
}

/// A commit cannot be replayed: once a player's commit was accepted, the
/// same player's next commit is refused until the next round.
pub proof fn lemma_commit_cannot_be_replayed(ctx: CommitMove, move_hash: [u8; 32], deadline: i64)
    requires
        ctx.commit_refusal() is None,
    ensures
        (CommitMove {
            game: ctx.game.committed(ctx.player, move_hash, deadline),
            ..ctx
        }).commit_refusal() is Some,
{
}

/// A reveal cannot be replayed: once a player's reveal was accepted, the
/// same reveal is refused, whether the round goes on, the next round has
/// begun or the match is finished.
pub proof fn lemma_reveal_cannot_be_replayed(
    ctx: RevealMove,
    move_choice: Move,
    salt: Seq<u8>,
    deadline: i64,
)
    requires
        ctx.reveal_refusal(move_choice, salt) is None,
    ensures
        ctx.revealed(move_choice, deadline).reveal_refusal(move_choice, salt) is Some,
        !ctx.completes_round() ==> ctx.revealed(move_choice, deadline).reveal_refusal(
            move_choice,
            salt,
        ) == Some(GameError::AlreadyRevealed),
        ctx.completes_round() ==> ctx.revealed(move_choice, deadline).reveal_refusal(
            move_choice,
            salt,
        ) == Some(GameError::InvalidGameState),
{
}

/// An accepted reveal never takes a match back: the round number and the
/// round wins do not go down, and a match in its reveal phase stays there,
/// starts the next round's commit phase, or is finished.
pub proof fn lemma_reveal_never_goes_back(ctx: RevealMove, move_choice: Move, deadline: i64)
    requires
        ctx.game.state == GameState::RevealPhase,
        ctx.game.current_round < u8::MAX,
        ctx.game.player1_round_wins < u8::MAX,
        ctx.game.player2_round_wins < u8::MAX,
    ensures
        ctx.revealed(move_choice, deadline).game.current_round >= ctx.game.current_round,
        ctx.revealed(move_choice, deadline).game.player1_round_wins
            >= ctx.game.player1_round_wins,
        ctx.revealed(move_choice, deadline).game.player2_round_wins
            >= ctx.game.player2_round_wins,
        ctx.revealed(move_choice, deadline).game.state != GameState::WaitingForPlayer,
        ctx.revealed(move_choice, deadline).game.state == GameState::RevealPhase
            <==> !ctx.completes_round(),
        ctx.revealed(move_choice, deadline).game.fee_per_player == ctx.game.fee_per_player,
        ctx.revealed(move_choice, deadline).game.player1 == ctx.game.player1,
        ctx.revealed(move_choice, deadline).game.player2 == ctx.game.player2,
{
}

/// A claim by a player of a match in its commit or reveal phase is refused
/// as too early up to and including the deadline. After the deadline it is
/// refused when the claimer has not acted, refused when the opponent has
/// acted as well, and granted otherwise, provided the match holds the pot.
pub proof fn lemma_claim_follows_deadline(ctx: ClaimTimeoutVictory, now: i64)
    requires
        ctx.game.is_participant(ctx.player),
        ctx.game.state == GameState::CommitPhase || ctx.game.state == GameState::RevealPhase,
        ctx.game.play_deadline is Some,
    ensures
        now <= ctx.game.play_deadline.unwrap() ==> ctx.claim_refusal(now) == Some(
            GameError::DeadlineNotReached,
        ),
        now > ctx.game.play_deadline.unwrap() && !ctx.claimer_acted() ==> ctx.claim_refusal(now)
            == Some(
            if ctx.game.state == GameState::CommitPhase {
                GameError::ClaimerDidNotCommit
            } else {
                GameError::ClaimerDidNotReveal
            },
        ),
        now > ctx.game.play_deadline.unwrap() && ctx.claimer_acted() && ctx.opponent_acted()
            ==> ctx.claim_refusal(now) == Some(
            if ctx.game.state == GameState::CommitPhase {
                GameError::OpponentAlreadyCommitted
            } else {
                GameError::OpponentAlreadyRevealed
            },
        ),
        now > ctx.game.play_deadline.unwrap() && ctx.claimer_acted() && !ctx.opponent_acted()
            && ctx.balances.game >= ctx.game.pot() ==> ctx.claim_refusal(now) is None
            && ctx.claimed().game.state == GameState::Finished && ctx.claimed().game.winner_address
            == Some(ctx.player) && ctx.claimed().game.winner_type == Some(ctx.forfeit_outcome()),
{
}

} // verus!
