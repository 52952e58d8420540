//! The life of a match: creating and joining it, committing and revealing
//! moves round by round, and ending it by play or by a missed deadline.
use vstd::prelude::*;
use crate::commitment::{commitment_is, commitment_of, compute_commitment};
use crate::identity::bytes32_eq;
use crate::errors::GameError;
use crate::identity::Identity;
use crate::player_logic::{initialize_player_profile_if_needed, opened_name, opened_profile};
use crate::state::{
    Balances, Game, GameState, GlobalState, Move, PlayerProfile, WagerAmount, WagerTransfers,
    Winner,
};
use crate::utils::{
    can_conclude, check_can_conclude, conclude_match, paid_out, process_wager, settled_player1,
    settled_player2, stake_payable, stake_transfers,
};

verus! {

/// What a new match is made from: the record to fill, the registry, the
/// creator and the creator's profile.
pub struct CreateGame {
    pub game: Game,
    pub global_state: GlobalState,
    pub player: Identity,
    pub player1_profile: PlayerProfile,
    pub game_bump: u8,
    pub player1_profile_bump: u8,
}

/// A match, the registry, and the player who joins with their profile.
pub struct JoinGame {
    pub game: Game,
    pub global_state: GlobalState,
    pub player: Identity,
    pub player2_profile: PlayerProfile,
    pub player2_profile_bump: u8,
}

/// A match, the registry, and the player who commits.
pub struct CommitMove {
    pub game: Game,
    pub global_state: GlobalState,
    pub player: Identity,
}

/// A match, the registry, the player who reveals, both profiles, and the
/// balances a payout would move value between.
pub struct RevealMove {
    pub game: Game,
    pub global_state: GlobalState,
    pub player: Identity,
    pub player1_profile: PlayerProfile,
    pub player2_profile: PlayerProfile,
    pub balances: Balances,
}

/// A match, the registry, the player who claims it, both profiles, and the
/// balances a payout would move value between.
pub struct ClaimTimeoutVictory {
    pub game: Game,
    pub global_state: GlobalState,
    pub player: Identity,
    pub player1_profile: PlayerProfile,
    pub player2_profile: PlayerProfile,
    pub balances: Balances,
}

/// Who wins a round: rock beats scissors, paper beats rock, scissors beat
/// paper, and anything else is a tie.
pub open spec fn round_winner(move1: Move, move2: Move) -> Winner {
    if move1.beats(move2) {
        Winner::Player1
    } else if move2.beats(move1) {
        Winner::Player2
    } else {
        Winner::Tie
    }
}

/// The time by which the next action is due when the clock shows `now`.
pub open spec fn deadline_at(global_state: GlobalState, now: i64) -> int {
    now + global_state.reveal_timeout_seconds
}

/// Whether the deadline for the time `now` can be written down.
pub open spec fn deadline_fits(global_state: GlobalState, now: i64) -> bool {
    i64::MIN <= deadline_at(global_state, now) <= i64::MAX
}

impl Game {
    /// The match as it is when `player` creates it.
    pub open spec fn created(
        game_id: u64,
        player: Identity,
        wager: WagerAmount,
        fee_per_player: u64,
        rounds_to_win: u8,
        bump: u8,
    ) -> Game {
        Game {
            game_id,
            player1: player,
            player2: Identity::unset(),
            wager,
            fee_per_player,
            state: GameState::WaitingForPlayer,
            player1_move_hash: None,
            player2_move_hash: None,
            player1_move: None,
            player2_move: None,
            winner_type: None,
            winner_address: None,
            play_deadline: None,
            bump,
            rounds_to_win,
            current_round: 1,
            player1_round_wins: 0,
            player2_round_wins: 0,
        }
    }

    /// The match with a new deadline.
    pub open spec fn with_deadline(self, deadline: i64) -> Game {
        Game { play_deadline: Some(deadline), ..self }
    }

    /// The match once `player` has joined it.
    pub open spec fn joined(self, player: Identity, deadline: i64) -> Game {
        Game {
            state: GameState::CommitPhase,
            player2: player,
            play_deadline: Some(deadline),
            ..self
        }
    }

    /// Why `player` cannot commit now, if so.
    pub open spec fn commit_refusal(self, player: Identity) -> Option<GameError> {
        if player == self.player1 {
            if self.player1_move_hash is Some {
                Some(GameError::AlreadyCommitted)
            } else {
                None
            }
        } else if player == self.player2 {
            if self.player2_move_hash is Some {
                Some(GameError::AlreadyCommitted)
            } else {
                None
            }
        } else {
            Some(GameError::NotPlayerInGame)
        }
    }

    /// The match with `move_hash` stored as the commitment of `player`.
    pub open spec fn with_commit(self, player: Identity, move_hash: [u8; 32]) -> Game {
        if player == self.player1 {
            Game { player1_move_hash: Some(move_hash), ..self }
        } else {
            Game { player2_move_hash: Some(move_hash), ..self }
        }
    }

    /// The match once `player` has committed: the commitment is stored, and
    /// when both are in, the reveal phase begins with a new deadline.
    pub open spec fn committed(self, player: Identity, move_hash: [u8; 32], deadline: i64)
        -> Game {
        let stored = self.with_commit(player, move_hash);
        if stored.player1_move_hash is Some && stored.player2_move_hash is Some {
            Game { state: GameState::RevealPhase, play_deadline: Some(deadline), ..stored }
        } else {
            stored
        }
    }

    /// Why `player` cannot reveal now with a move and salt whose digest is
    /// `computed`, if so.
    pub open spec fn digest_refusal(self, player: Identity, computed: Seq<u8>) -> Option<
        GameError,
    > {
        if self.state != GameState::RevealPhase {
            Some(GameError::InvalidGameState)
        } else if player == self.player1 {
            if self.player1_move is Some {
                Some(GameError::AlreadyRevealed)
            } else if !commitment_is(self.player1_move_hash, computed) {
                Some(GameError::InvalidReveal)
            } else {
                None
            }
        } else if player == self.player2 {
            if self.player2_move is Some {
                Some(GameError::AlreadyRevealed)
            } else if !commitment_is(self.player2_move_hash, computed) {
                Some(GameError::InvalidReveal)
            } else {
                None
            }
        } else {
            Some(GameError::NotPlayerInGame)
        }
    }

    /// Why `player` cannot reveal `move_choice` with `salt` now, if so.
    pub open spec fn reveal_refusal(self, player: Identity, move_choice: Move, salt: Seq<u8>)
        -> Option<GameError> {
        self.digest_refusal(player, commitment_of(move_choice, salt))
    }

    /// The match with `move_choice` stored as the revealed move of `player`.
    pub open spec fn with_reveal(self, player: Identity, move_choice: Move) -> Game {
        if player == self.player1 {
            Game { player1_move: Some(move_choice), ..self }
        } else {
            Game { player2_move: Some(move_choice), ..self }
        }
    }

    /// The match at the start of its next round: the round number is one
    /// higher, nothing is committed or revealed, and a new deadline runs.
    pub open spec fn next_round(self, deadline: i64) -> Game {
        Game {
            current_round: (self.current_round + 1) as u8,
            player1_move: None,
            player2_move: None,
            player1_move_hash: None,
            player2_move_hash: None,
            state: GameState::CommitPhase,
            play_deadline: Some(deadline),
            ..self
        }
    }

    /// The match with one more round win for the winner of a round.
    pub open spec fn with_round_win(self, winner: Winner) -> Game {
        match winner {
            Winner::Player1 => Game {
                player1_round_wins: (self.player1_round_wins + 1) as u8,
                ..self
            },
            Winner::Player2 => Game {
                player2_round_wins: (self.player2_round_wins + 1) as u8,
                ..self
            },
            _ => self,
        }
    }

    /// Whether a round won by `winner` decides the match.
    pub open spec fn round_decides(self, winner: Winner) -> bool {
        match winner {
            Winner::Player1 => self.player1_round_wins + 1 >= self.rounds_to_win,
            Winner::Player2 => self.player2_round_wins + 1 >= self.rounds_to_win,
            _ => false,
        }
    }

    /// Who has won the match when `winner` has won its deciding round.
    pub open spec fn round_winner_address(self, winner: Winner) -> Identity {
        if winner == Winner::Player1 {
            self.player1
        } else {
            self.player2
        }
    }
}

/// Decides a round from the two revealed moves.
pub fn determine_winner(move1: Move, move2: Move) -> (winner: Winner)
    ensures
        winner == round_winner(move1, move2),
{
    match (move1, move2) {
        (Move::Rock, Move::Scissors)
        | (Move::Paper, Move::Rock)
        | (Move::Scissors, Move::Paper) => Winner::Player1,
        (Move::Scissors, Move::Rock)
        | (Move::Rock, Move::Paper)
        | (Move::Paper, Move::Scissors) => Winner::Player2,
        _ => Winner::Tie,
    }
}

/// Whether the deadline for the time `now` can be written down.
pub fn check_deadline_fits(global_state: &GlobalState, now: i64) -> (ok: bool)
    ensures
        ok == deadline_fits(*global_state, now),
{
    now.checked_add(global_state.reveal_timeout_seconds).is_some()
}

/// Sets the deadline for the next action: `now` plus the registry's timeout.
pub fn set_play_deadline(game: &mut Game, global_state: &GlobalState, now: i64) -> (result: Result<
    (),
    GameError,
>)
    requires
        deadline_fits(*global_state, now),
    ensures
        result is Ok,
        *final(game) == old(game).with_deadline(deadline_at(*global_state, now) as i64),
{
    game.play_deadline = Some(now + global_state.reveal_timeout_seconds);
    Ok(())
}

/// Stores the commitment of `player`, who must be one of the two players
/// and must not have committed in this round.
pub fn commit_move_helper(game: &mut Game, player: &Identity, move_hash: [u8; 32]) -> (result:
    Result<(), GameError>)
    ensures
        match old(game).commit_refusal(*player) {
            Some(e) => result == Err::<(), GameError>(e) && *final(game) == *old(game),
            None => result == Ok::<(), GameError>(()) && *final(game) == old(game).with_commit(
                *player,
                move_hash,
            ),
        },
{
    if *player == game.player1 {
        if game.player1_move_hash.is_some() {
            return Err(GameError::AlreadyCommitted);
        }
        game.player1_move_hash = Some(move_hash);
    } else if *player == game.player2 {
        if game.player2_move_hash.is_some() {
            return Err(GameError::AlreadyCommitted);
        }
        game.player2_move_hash = Some(move_hash);
    } else {
        return Err(GameError::NotPlayerInGame);
    }
    Ok(())
}

/// Checks a reveal whose move and salt hash to `computed`, without storing
/// it: the match must be in its reveal phase, the caller one of its players
/// who has not revealed in this round, and `computed` must be the caller's
/// commitment.
pub fn validate_reveal_digest(game: &Game, player: &Identity, computed: &[u8; 32]) -> (result:
    Result<(), GameError>)
    ensures
        match game.digest_refusal(*player, computed@) {
            Some(e) => result == Err::<(), GameError>(e),
            None => result == Ok::<(), GameError>(()),
        },
{
    if game.state != GameState::RevealPhase {
        return Err(GameError::InvalidGameState);
    }
    if *player == game.player1 {
        if game.player1_move.is_some() {
            return Err(GameError::AlreadyRevealed);
        }
        match &game.player1_move_hash {
            Some(stored) => {
                if !bytes32_eq(stored, computed) {
                    return Err(GameError::InvalidReveal);
                }
            },
            None => {
                return Err(GameError::InvalidReveal);
            },
        }
    } else if *player == game.player2 {
        if game.player2_move.is_some() {
            return Err(GameError::AlreadyRevealed);
        }
        match &game.player2_move_hash {
            Some(stored) => {
                if !bytes32_eq(stored, computed) {
                    return Err(GameError::InvalidReveal);
                }
            },
            None => {
                return Err(GameError::InvalidReveal);
            },
        }
    } else {
        return Err(GameError::NotPlayerInGame);
    }
    Ok(())
}

/// Checks a reveal without storing it: the match must be in its reveal
/// phase, the caller one of its players who has not revealed in this round,
/// and the move and salt must hash to the caller's commitment.
pub fn validate_reveal(
    game: &Game,
    player: &Identity,
    move_choice: Move,
    salt: &[u8; 32],
) -> (result: Result<(), GameError>)
    ensures
        match game.reveal_refusal(*player, move_choice, salt@) {
            Some(e) => result == Err::<(), GameError>(e),
            None => result == Ok::<(), GameError>(()),
        },
{
    let computed: [u8; 32] = compute_commitment(move_choice, salt);
    validate_reveal_digest(game, player, &computed)
}

impl RevealMove {
    /// Whether the end of the match can be recorded and paid out.
    pub open spec fn can_conclude(self) -> bool {
        can_conclude(
            self.game,
            self.global_state,
            self.player1_profile,
            self.player2_profile,
            self.balances,
        )
    }

    /// The records with another match in place of the old one.
    pub open spec fn with_game(self, game: Game) -> RevealMove {
        RevealMove { game, ..self }
    }

    /// The records once the match has ended with `winner_type` in favour of
    /// `winner_address`: the match is finished, the pot paid out, and the
    /// end recorded in the registry and both profiles.
    pub open spec fn concluded(self, winner_type: Winner, winner_address: Identity) -> RevealMove {
        RevealMove {
            game: self.game.concluded(winner_type, winner_address),
            global_state: self.global_state.with_game_completed(),
            player1_profile: settled_player1(self.player1_profile, winner_type, self.game),
            player2_profile: settled_player2(self.player2_profile, winner_type, self.game),
            balances: paid_out(self.balances, winner_type, self.game),
            ..self
        }
    }

    /// The records after a round that `winner` has won, or that was tied:
    /// the winner gets a round win; if that decides the match, the match
    /// ends in the winner's favour, and else the next round begins.
    pub open spec fn after_round(self, winner: Winner, deadline: i64) -> RevealMove {
        let scored = self.with_game(self.game.with_round_win(winner));
        if self.game.round_decides(winner) {
            scored.concluded(winner, self.game.round_winner_address(winner))
        } else {
            scored.with_game(scored.game.next_round(deadline))
        }
    }

    /// Whether a reveal by the caller completes the round: the other player
    /// has revealed already.
    pub open spec fn completes_round(self) -> bool {
        if self.player == self.game.player1 {
            self.game.player2_move is Some
        } else {
            self.game.player1_move is Some
        }
    }

    /// The winner of the round that the caller's reveal of `move_choice`
    /// completes.
    pub open spec fn completed_round_winner(self, move_choice: Move) -> Winner {
        if self.player == self.game.player1 {
            round_winner(move_choice, self.game.player2_move.unwrap())
        } else {
            round_winner(self.game.player1_move.unwrap(), move_choice)
        }
    }

    /// Why a checked reveal of `move_choice` cannot be stored, if so: the
    /// caller is none of the players, or the reveal would end the match and
    /// the match holds less than the pot.
    pub open spec fn store_refusal(self, move_choice: Move) -> Option<GameError> {
        if !self.game.is_participant(self.player) {
            Some(GameError::NotPlayerInGame)
        } else if self.completes_round() && self.game.round_decides(
            self.completed_round_winner(move_choice),
        ) && self.balances.game < self.game.pot() {
            Some(GameError::InsufficientFunds)
        } else {
            None
        }
    }

    /// Why the caller cannot reveal `move_choice` with `salt` now, if so:
    /// the reveal does not pass the check, or it cannot be stored.
    pub open spec fn reveal_refusal(self, move_choice: Move, salt: Seq<u8>) -> Option<GameError> {
        match self.game.reveal_refusal(self.player, move_choice, salt) {
            Some(e) => Some(e),
            None => self.store_refusal(move_choice),
        }
    }

    /// The records after the caller's accepted reveal of `move_choice`: the
    /// move is stored, and if it completes the round, the round is decided.
    pub open spec fn revealed(self, move_choice: Move, deadline: i64) -> RevealMove {
        let stored = self.with_game(self.game.with_reveal(self.player, move_choice));
        if self.completes_round() {
            stored.after_round(self.completed_round_winner(move_choice), deadline)
        } else {
            stored
        }
    }

    /// What the machine's number ranges ask of a reveal that completes a
    /// round: the round number and the round wins can grow by one, the new
    /// deadline can be written down, and the end of the match can be
    /// recorded and paid out.
    pub open spec fn round_can_end(self, now: i64) -> bool {
        &&& self.game.current_round < u8::MAX
        &&& self.game.player1_round_wins < u8::MAX
        &&& self.game.player2_round_wins < u8::MAX
        &&& deadline_fits(self.global_state, now)
        &&& self.can_conclude()
    }

    /// Whether a reveal by the caller completes the round.
    pub fn check_completes_round(&self) -> (completes: bool)
        ensures
            completes == self.completes_round(),
    {
        if self.player == self.game.player1 {
            self.game.player2_move.is_some()
        } else {
            self.game.player1_move.is_some()
        }
    }

    /// Whether the machine's number ranges allow a round to end at `now`.
    pub fn check_round_can_end(&self, now: i64) -> (ok: bool)
        ensures
            ok == self.round_can_end(now),
    {
        self.game.current_round < u8::MAX && self.game.player1_round_wins < u8::MAX
            && self.game.player2_round_wins < u8::MAX && check_deadline_fits(
            &self.global_state,
            now,
        ) && check_can_conclude(
            &self.game,
            &self.global_state,
            &self.player1_profile,
            &self.player2_profile,
            &self.balances,
        )
    }
}

/// Ends the match in favour of `winner_address`: pays the pot out, marks
/// the match finished, and records the end in the registry and both
/// profiles. Refused, with nothing changed, when the match holds less than
/// the pot.
pub fn process_match_victory(ctx: &mut RevealMove, winner_type: Winner, winner_address: Identity)
    -> (result: Result<bool, GameError>)
    requires
        old(ctx).can_conclude(),
    ensures
        old(ctx).balances.game >= old(ctx).game.pot() ==> result == Ok::<bool, GameError>(true)
            && *final(ctx) == old(ctx).concluded(winner_type, winner_address),
        old(ctx).balances.game < old(ctx).game.pot() ==> result == Err::<bool, GameError>(
            GameError::InsufficientFunds,
        ) && *final(ctx) == *old(ctx),
{
    match conclude_match(
        &mut ctx.game,
        &mut ctx.global_state,
        &mut ctx.player1_profile,
        &mut ctx.player2_profile,
        &mut ctx.balances,
        winner_type,
        winner_address,
    ) {
        Err(e) => Err(e),
        Ok(()) => Ok(true),
    }
}

/// Starts the next round: the round number goes up by one, commitments and
/// revealed moves are cleared, and the commit phase begins with a new
/// deadline.
pub fn prepare_next_round(ctx: &mut RevealMove, now: i64) -> (result: Result<(), GameError>)
    requires
        old(ctx).game.current_round < u8::MAX,
        deadline_fits(old(ctx).global_state, now),
    ensures
        result is Ok,
        *final(ctx) == old(ctx).with_game(
            old(ctx).game.next_round(deadline_at(old(ctx).global_state, now) as i64),
        ),
{
    ctx.game.current_round = ctx.game.current_round + 1;
    ctx.game.player1_move = None;
    ctx.game.player2_move = None;
    ctx.game.player1_move_hash = None;
    ctx.game.player2_move_hash = None;
    ctx.game.state = GameState::CommitPhase;
    let global_state: GlobalState = ctx.global_state;
    let _ = set_play_deadline(&mut ctx.game, &global_state, now);
    Ok(())
}

/// Scores a round and ends the match if the round decides it. Returns
/// whether the match goes on. A tie changes nothing and the match goes on.
/// A round win is counted; if it is the last one needed, the match ends in
/// the winner's favour, and the call is refused, with nothing changed, when
/// the match holds less than the pot. A forfeit is no outcome of a round:
/// it changes nothing, and the match does not go on.
pub fn check_and_handle_match_end(ctx: &mut RevealMove, winner: Winner) -> (result: Result<
    bool,
    GameError,
>)
    requires
        old(ctx).game.player1_round_wins < u8::MAX,
        old(ctx).game.player2_round_wins < u8::MAX,
        old(ctx).can_conclude(),
    ensures
        old(ctx).game.round_decides(winner) && old(ctx).balances.game < old(ctx).game.pot()
            ==> result == Err::<bool, GameError>(GameError::InsufficientFunds) && *final(ctx)
            == *old(ctx),
        old(ctx).game.round_decides(winner) && old(ctx).balances.game >= old(ctx).game.pot()
            ==> result == Ok::<bool, GameError>(false) && *final(ctx) == old(ctx).with_game(
            old(ctx).game.with_round_win(winner),
        ).concluded(winner, old(ctx).game.round_winner_address(winner)),
        !old(ctx).game.round_decides(winner) ==> result == Ok::<bool, GameError>(
            !winner.by_forfeit(),
        ) && *final(ctx) == old(ctx).with_game(old(ctx).game.with_round_win(winner)),
{
    let rounds_to_win: u8 = ctx.game.rounds_to_win;
    match winner {
        Winner::Tie => Ok(true),
        Winner::Player1 => {
            let wins: u8 = ctx.game.player1_round_wins + 1;
            if wins >= rounds_to_win {
                if ctx.balances.game < ctx.game.total_pot() {
                    return Err(GameError::InsufficientFunds);
                }
                ctx.game.player1_round_wins = wins;
                let winner_address: Identity = ctx.game.player1;
                let _ = process_match_victory(ctx, winner, winner_address);
                Ok(false)
            } else {
                ctx.game.player1_round_wins = wins;
                Ok(true)
            }
        },
        Winner::Player2 => {
            let wins: u8 = ctx.game.player2_round_wins + 1;
            if wins >= rounds_to_win {
                if ctx.balances.game < ctx.game.total_pot() {
                    return Err(GameError::InsufficientFunds);
                }
                ctx.game.player2_round_wins = wins;
                let winner_address: Identity = ctx.game.player2;
                let _ = process_match_victory(ctx, winner, winner_address);
                Ok(false)
            } else {
                ctx.game.player2_round_wins = wins;
                Ok(true)
            }
        },
        Winner::Player1OpponentForfeit | Winner::Player2OpponentForfeit => Ok(false),
    }
}

/// Stores a checked reveal of the caller, who must be one of the players.
/// When both moves are in, the round is decided: a tie starts the next
/// round, a round win is counted and either ends the match in the winner's
/// favour or starts the next round. Refused, with nothing changed, for a
/// caller who is none of the players and when the match would end but holds
/// less than the pot.
pub fn store_reveal(ctx: &mut RevealMove, move_choice: Move, now: i64) -> (result: Result<
    (),
    GameError,
>)
    requires
        old(ctx).completes_round() ==> old(ctx).round_can_end(now),
    ensures
        match old(ctx).store_refusal(move_choice) {
            Some(e) => result == Err::<(), GameError>(e) && *final(ctx) == *old(ctx),
            None => result == Ok::<(), GameError>(()) && *final(ctx) == old(ctx).revealed(
                move_choice,
                deadline_at(old(ctx).global_state, now) as i64,
            ),
        },
{
    let by_player1: bool = ctx.player == ctx.game.player1;
    if !by_player1 && ctx.player != ctx.game.player2 {
        return Err(GameError::NotPlayerInGame);
    }
    let move1: Option<Move> = if by_player1 {
        Some(move_choice)
    } else {
        ctx.game.player1_move
    };
    let move2: Option<Move> = if by_player1 {
        ctx.game.player2_move
    } else {
        Some(move_choice)
    };
    match (move1, move2) {
        (Some(first), Some(second)) => {
            let winner_type: Winner = determine_winner(first, second);
            let match_continues: bool = match check_and_handle_match_end(ctx, winner_type) {
                Err(e) => {
                    return Err(e);
                },
                Ok(goes_on) => goes_on,
            };
            if match_continues {
                let _ = prepare_next_round(ctx, now);
            } else {
                ctx.game.player1_move = move1;
                ctx.game.player2_move = move2;
            }
        },
        _ => {
            ctx.game.player1_move = move1;
            ctx.game.player2_move = move2;
        },
    }
    Ok(())
}

/// Reveals the caller's move for this round. The match must be in its
/// reveal phase, the caller one of its players who has not revealed in this
/// round, and the move and salt must hash to the caller's commitment. The
/// move is stored; when both moves are in, the round is decided: a tie
/// starts the next round, a round win is counted and either ends the match
/// in the winner's favour or starts the next round. A refused reveal
/// changes nothing.
pub fn reveal_move(ctx: &mut RevealMove, move_choice: Move, salt: [u8; 32], now: i64) -> (result:
    Result<(), GameError>)
    requires
        old(ctx).completes_round() ==> old(ctx).round_can_end(now),
    ensures
        match old(ctx).reveal_refusal(move_choice, salt@) {
            Some(e) => result == Err::<(), GameError>(e) && *final(ctx) == *old(ctx),
            None => result == Ok::<(), GameError>(()) && *final(ctx) == old(ctx).revealed(
                move_choice,
                deadline_at(old(ctx).global_state, now) as i64,
            ),
        },
        result is Ok && old(ctx).game.wf() ==> final(ctx).game.wf(),
{
    match validate_reveal(&ctx.game, &ctx.player, move_choice, &salt) {
        Err(e) => {
            return Err(e);
        },
        Ok(()) => {},
    }
    store_reveal(ctx, move_choice, now)
}

impl CommitMove {
    /// Why the caller cannot commit now, if so.
    pub open spec fn commit_refusal(self) -> Option<GameError> {
        if self.game.state != GameState::CommitPhase {
            Some(GameError::InvalidGameState)
        } else {
            self.game.commit_refusal(self.player)
        }
    }
}

/// Commits the caller to a move for this round by storing its digest. The
/// match must be in its commit phase and the caller one of its players who
/// has not committed in this round. When both commitments are in, the
/// reveal phase begins with a new deadline. A refused commit changes
/// nothing.
pub fn commit_move(ctx: &mut CommitMove, move_hash: [u8; 32], now: i64) -> (result: Result<
    (),
    GameError,
>)
    requires
        deadline_fits(old(ctx).global_state, now),
    ensures
        match old(ctx).commit_refusal() {
            Some(e) => result == Err::<(), GameError>(e) && *final(ctx) == *old(ctx),
            None => result == Ok::<(), GameError>(()) && *final(ctx) == (CommitMove {
                game: old(ctx).game.committed(
                    old(ctx).player,
                    move_hash,
                    deadline_at(old(ctx).global_state, now) as i64,
                ),
                ..*old(ctx)
            }),
        },
        result is Ok && old(ctx).game.wf() ==> final(ctx).game.wf(),
{
    if ctx.game.state != GameState::CommitPhase {
        return Err(GameError::InvalidGameState);
    }
    let player: Identity = ctx.player;
    match commit_move_helper(&mut ctx.game, &player, move_hash) {
        Err(e) => {
            return Err(e);
        },
        Ok(()) => {},
    }
    if ctx.game.player1_move_hash.is_some() && ctx.game.player2_move_hash.is_some() {
        ctx.game.state = GameState::RevealPhase;
        let global_state: GlobalState = ctx.global_state;
        let _ = set_play_deadline(&mut ctx.game, &global_state, now);
    }
    Ok(())
}

impl JoinGame {
    /// Why the caller cannot join, if so.
    pub open spec fn join_refusal(self) -> Option<GameError> {
        if self.game.state != GameState::WaitingForPlayer {
            Some(GameError::InvalidGameState)
        } else if !self.game.player2.is_unset() {
            Some(GameError::GameAlreadyFull)
        } else if self.player == self.game.player1 {
            Some(GameError::CannotJoinOwnGame)
        } else if !stake_payable(self.game) {
            Some(GameError::InsufficientFunds)
        } else {
            None
        }
    }
}

/// Joins a match as its second player. The match must be waiting for a
/// player, have none yet, and the caller must not be its creator. The
/// caller's profile is opened if it is new, the stake is added to what the
/// caller has wagered, and the commit phase begins with a deadline. Returns
/// what the caller has to pay: the fee to the registry's fee collector, the
/// rest to the match. A refused join changes nothing.
pub fn join_game(ctx: &mut JoinGame, now: i64) -> (result: Result<WagerTransfers, GameError>)
    requires
        deadline_fits(old(ctx).global_state, now),
        old(ctx).player2_profile.total_wagered + old(ctx).game.wager.lamports() <= u64::MAX,
    ensures
        match old(ctx).join_refusal() {
            Some(e) => result == Err::<WagerTransfers, GameError>(e) && *final(ctx) == *old(ctx),
            None => {
                &&& result == Ok::<WagerTransfers, GameError>(
                    stake_transfers(old(ctx).game, old(ctx).global_state.fee_collector),
                )
                &&& *final(ctx) == (JoinGame {
                    game: old(ctx).game.joined(
                        old(ctx).player,
                        deadline_at(old(ctx).global_state, now) as i64,
                    ),
                    player2_profile: opened_profile(
                        old(ctx).player2_profile.after_stake(old(ctx).game.wager.lamports()),
                        final(ctx).player2_profile.name,
                        old(ctx).player,
                        old(ctx).player2_profile_bump,
                        now,
                    ),
                    ..*old(ctx)
                })
                &&& old(ctx).player2_profile.player.is_unset() ==> final(ctx).player2_profile.name@
                    == opened_name(old(ctx).player2_profile.name@, old(ctx).player)
            },
        },
        result is Ok && old(ctx).game.wf() ==> final(ctx).game.wf(),
{
    if ctx.game.state != GameState::WaitingForPlayer {
        return Err(GameError::InvalidGameState);
    }
    if !ctx.game.player2.check_unset() {
        return Err(GameError::GameAlreadyFull);
    }
    if ctx.player == ctx.game.player1 {
        return Err(GameError::CannotJoinOwnGame);
    }
    let joining_player: Identity = ctx.player;
    let game: Game = ctx.game;
    let fee_collector: Identity = ctx.global_state.fee_collector;
    let transfers: WagerTransfers = match process_wager(
        &fee_collector,
        &game,
        &mut ctx.player2_profile,
    ) {
        Err(e) => {
            return Err(e);
        },
        Ok(t) => t,
    };
    let bump: u8 = ctx.player2_profile_bump;
    let _ = initialize_player_profile_if_needed(
        &mut ctx.player2_profile,
        &joining_player,
        bump,
        now,
    );
    ctx.game.state = GameState::CommitPhase;
    let global_state: GlobalState = ctx.global_state;
    let _ = set_play_deadline(&mut ctx.game, &global_state, now);
    ctx.game.player2 = joining_player;
    Ok(transfers)
}

impl CreateGame {
    /// The fee each player of the new match pays.
    pub open spec fn locked_fee(self, wager: WagerAmount) -> u64 {
        wager.fee_at(self.global_state.fee_percentage) as u64
    }

    /// The match that the caller creates.
    pub open spec fn new_game(self, wager: WagerAmount, rounds_to_win: u8) -> Game {
        Game::created(
            self.global_state.game_counter,
            self.player,
            wager,
            self.locked_fee(wager),
            rounds_to_win,
            self.game_bump,
        )
    }

    /// Why the caller cannot create the match, if so.
    pub open spec fn create_refusal(self, wager: WagerAmount, rounds_to_win: u8) -> Option<
        GameError,
    > {
        if !(1 <= rounds_to_win <= 3) {
            Some(GameError::InvalidGameState)
        } else if !stake_payable(self.new_game(wager, rounds_to_win)) {
            Some(GameError::InsufficientFunds)
        } else {
            None
        }
    }
}

/// Creates a match for `wager` that is won with `rounds_to_win` round wins
/// (1, 2 or 3). The match gets the registry's next id and waits for a second
/// player in round 1; its fee is fixed from the registry's fee percentage as
/// it is now. The caller's profile is opened if it is new, and the stake is
/// added to what the caller has wagered. Returns what the caller has to
/// pay: the fee to the registry's fee collector, the rest to the match. A
/// refused creation changes nothing.
pub fn create_game(
    ctx: &mut CreateGame,
    wager: WagerAmount,
    rounds_to_win: u8,
    now: i64,
) -> (result: Result<WagerTransfers, GameError>)
    requires
        old(ctx).global_state.fee_percentage <= 100,
        old(ctx).global_state.game_counter < u64::MAX,
        old(ctx).player1_profile.total_wagered + wager.lamports() <= u64::MAX,
    ensures
        match old(ctx).create_refusal(wager, rounds_to_win) {
            Some(e) => result == Err::<WagerTransfers, GameError>(e) && *final(ctx) == *old(ctx),
            None => {
                &&& result == Ok::<WagerTransfers, GameError>(
                    stake_transfers(
                        old(ctx).new_game(wager, rounds_to_win),
                        old(ctx).global_state.fee_collector,
                    ),
                )
                &&& *final(ctx) == (CreateGame {
                    game: old(ctx).new_game(wager, rounds_to_win),
                    global_state: old(ctx).global_state.with_game_created(),
                    player1_profile: opened_profile(
                        old(ctx).player1_profile.after_stake(wager.lamports()),
                        final(ctx).player1_profile.name,
                        old(ctx).player,
                        old(ctx).player1_profile_bump,
                        now,
                    ),
                    ..*old(ctx)
                })
                &&& old(ctx).player1_profile.player.is_unset() ==> final(ctx).player1_profile.name@
                    == opened_name(old(ctx).player1_profile.name@, old(ctx).player)
                &&& final(ctx).game.wf()
            },
        },
{
    if !(rounds_to_win == 1 || rounds_to_win == 2 || rounds_to_win == 3) {
        return Err(GameError::InvalidGameState);
    }
    let game = Game {
        game_id: ctx.global_state.game_counter,
        player1: ctx.player,
        player2: Identity::new_unset(),
        wager,
        fee_per_player: wager.fee_per_player(ctx.global_state.fee_percentage),
        state: GameState::WaitingForPlayer,
        player1_move_hash: None,
        player2_move_hash: None,
        player1_move: None,
        player2_move: None,
        winner_type: None,
        winner_address: None,
        play_deadline: None,
        bump: ctx.game_bump,
        rounds_to_win,
        current_round: 1,
        player1_round_wins: 0,
        player2_round_wins: 0,
    };
    let fee_collector: Identity = ctx.global_state.fee_collector;
    let transfers: WagerTransfers = match process_wager(
        &fee_collector,
        &game,
        &mut ctx.player1_profile,
    ) {
        Err(e) => {
            return Err(e);
        },
        Ok(t) => t,
    };
    let player: Identity = ctx.player;
    let bump: u8 = ctx.player1_profile_bump;
    let _ = initialize_player_profile_if_needed(&mut ctx.player1_profile, &player, bump, now);
    ctx.game = game;
    ctx.global_state.game_counter = ctx.global_state.game_counter + 1;
    Ok(transfers)
}

impl ClaimTimeoutVictory {
    /// Whether the end of the match can be recorded and paid out.
    pub open spec fn can_conclude(self) -> bool {
        can_conclude(
            self.game,
            self.global_state,
            self.player1_profile,
            self.player2_profile,
            self.balances,
        )
    }

    /// Whether the caller has acted in this round of the phase the match is
    /// in: committed in the commit phase, revealed in the reveal phase.
    pub open spec fn claimer_acted(self) -> bool {
        if self.game.state == GameState::CommitPhase {
            if self.player == self.game.player1 {
                self.game.player1_move_hash is Some
            } else {
                self.game.player2_move_hash is Some
            }
        } else {
            if self.player == self.game.player1 {
                self.game.player1_move is Some
            } else {
                self.game.player2_move is Some
            }
        }
    }

    /// Whether the caller's opponent has acted in this round of the phase
    /// the match is in.
    pub open spec fn opponent_acted(self) -> bool {
        if self.game.state == GameState::CommitPhase {
            if self.player == self.game.player1 {
                self.game.player2_move_hash is Some
            } else {
                self.game.player1_move_hash is Some
            }
        } else {
            if self.player == self.game.player1 {
                self.game.player2_move is Some
            } else {
                self.game.player1_move is Some
            }
        }
    }

    /// Why the claim is not valid at time `now`, if so, leaving aside
    /// whether the match holds the pot.
    pub open spec fn claim_invalid(self, now: i64) -> Option<GameError> {
        if !self.game.is_participant(self.player) {
            Some(GameError::NotPlayerInGame)
        } else if self.game.state != GameState::CommitPhase && self.game.state
            != GameState::RevealPhase {
            Some(GameError::InvalidGameState)
        } else if self.game.play_deadline is None {
            Some(GameError::NoDeadlineSet)
        } else if now <= self.game.play_deadline.unwrap() {
            Some(GameError::DeadlineNotReached)
        } else if !self.claimer_acted() {
            Some(
                if self.game.state == GameState::CommitPhase {
                    GameError::ClaimerDidNotCommit
                } else {
                    GameError::ClaimerDidNotReveal
                },
            )
        } else if self.opponent_acted() {
            Some(
                if self.game.state == GameState::CommitPhase {
                    GameError::OpponentAlreadyCommitted
                } else {
                    GameError::OpponentAlreadyRevealed
                },
            )
        } else {
            None
        }
    }

    /// Why the claim is refused at time `now`, if so.
    pub open spec fn claim_refusal(self, now: i64) -> Option<GameError> {
        match self.claim_invalid(now) {
            Some(e) => Some(e),
            None => if self.balances.game < self.game.pot() {
                Some(GameError::InsufficientFunds)
            } else {
                None
            },
        }
    }

    /// The outcome of a valid claim: a win by forfeit for the claimer.
    pub open spec fn forfeit_outcome(self) -> Winner {
        if self.player == self.game.player1 {
            Winner::Player1OpponentForfeit
        } else {
            Winner::Player2OpponentForfeit
        }
    }

    /// The records after the caller's claim was granted: the match is
    /// finished in the caller's favour by forfeit, the pot paid out, and the
    /// end recorded in the registry and both profiles.
    pub open spec fn claimed(self) -> ClaimTimeoutVictory {
        let winner_type = self.forfeit_outcome();
        ClaimTimeoutVictory {
            game: self.game.concluded(winner_type, self.player),
            global_state: self.global_state.with_game_completed(),
            player1_profile: settled_player1(self.player1_profile, winner_type, self.game),
            player2_profile: settled_player2(self.player2_profile, winner_type, self.game),
            balances: paid_out(self.balances, winner_type, self.game),
            ..self
        }
    }

    /// Whether the end of the match can be recorded and paid out.
    pub fn check_can_conclude(&self) -> (ok: bool)
        ensures
            ok == self.can_conclude(),
    {
        check_can_conclude(
            &self.game,
            &self.global_state,
            &self.player1_profile,
            &self.player2_profile,
            &self.balances,
        )
    }
}

/// Claims the match because the opponent did not act before the deadline.
/// The caller must be one of the players, the match in its commit or reveal
/// phase with a deadline that lies strictly before `now`, and in this round
/// of that phase the caller must have acted and the opponent not. The match
/// then ends in the caller's favour by forfeit: the whole pot goes to the
/// caller and the end is recorded in the registry and both profiles. A
/// refused claim changes nothing.
pub fn claim_timeout_victory(ctx: &mut ClaimTimeoutVictory, now: i64) -> (result: Result<
    (),
    GameError,
>)
    requires
        old(ctx).claim_invalid(now) is None ==> old(ctx).can_conclude(),
    ensures
        match old(ctx).claim_refusal(now) {
            Some(e) => result == Err::<(), GameError>(e) && *final(ctx) == *old(ctx),
            None => result == Ok::<(), GameError>(()) && *final(ctx) == old(ctx).claimed(),
        },
        result is Ok && old(ctx).game.wf() ==> final(ctx).game.wf(),
{
    let player: Identity = ctx.player;
    let claimer_is_player1: bool = player == ctx.game.player1;
    if !(claimer_is_player1 || player == ctx.game.player2) {
        return Err(GameError::NotPlayerInGame);
    }
    if !(ctx.game.state == GameState::CommitPhase || ctx.game.state == GameState::RevealPhase) {
        return Err(GameError::InvalidGameState);
    }
    let deadline: i64 = match ctx.game.play_deadline {
        None => {
            return Err(GameError::NoDeadlineSet);
        },
        Some(d) => d,
    };
    if !(now > deadline) {
        return Err(GameError::DeadlineNotReached);
    }
    let winner_type: Winner = match ctx.game.state {
        GameState::CommitPhase => {
            let player1_committed: bool = ctx.game.player1_move_hash.is_some();
            let player2_committed: bool = ctx.game.player2_move_hash.is_some();
            if claimer_is_player1 {
                if !player1_committed {
                    return Err(GameError::ClaimerDidNotCommit);
                }
                if player2_committed {
                    return Err(GameError::OpponentAlreadyCommitted);
                }
                Winner::Player1OpponentForfeit
            } else {
                if !player2_committed {
                    return Err(GameError::ClaimerDidNotCommit);
                }
                if player1_committed {
                    return Err(GameError::OpponentAlreadyCommitted);
                }
                Winner::Player2OpponentForfeit
            }
        },
        _ => {
            let player1_revealed: bool = ctx.game.player1_move.is_some();
            let player2_revealed: bool = ctx.game.player2_move.is_some();
            if claimer_is_player1 {
                if !player1_revealed {
                    return Err(GameError::ClaimerDidNotReveal);
                }
                if player2_revealed {
                    return Err(GameError::OpponentAlreadyRevealed);
                }
                Winner::Player1OpponentForfeit
            } else {
                if !player2_revealed {
                    return Err(GameError::ClaimerDidNotReveal);
                }
                if player1_revealed {
                    return Err(GameError::OpponentAlreadyRevealed);
                }
                Winner::Player2OpponentForfeit
            }
        },
    };
    conclude_match(
        &mut ctx.game,
        &mut ctx.global_state,
        &mut ctx.player1_profile,
        &mut ctx.player2_profile,
        &mut ctx.balances,
        winner_type,
        player,
    )
}

} // verus!
