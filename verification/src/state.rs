//! The records of the game and the values they are made of.
use vstd::prelude::*;
use crate::identity::Identity;

verus! {

/// A move of rock-paper-scissors.
#[derive(Clone, Copy, Debug, PartialEq, Eq, Structural)]
pub enum Move {
    Rock,
    Paper,
    Scissors,
}

impl Move {
    /// The byte that stands for the move inside a commitment.
    pub open spec fn tag(self) -> u8 {
        match self {
            Move::Rock => 0u8,
            Move::Paper => 1u8,
            Move::Scissors => 2u8,
        }
    }

    /// The byte that stands for the move inside a commitment.
    pub fn to_tag(self) -> (tag: u8)
        ensures
            tag == self.tag(),
    {
        match self {
            Move::Rock => 0,
            Move::Paper => 1,
            Move::Scissors => 2,
        }
    }

    /// Whether this move wins a round against `other`.
    pub open spec fn beats(self, other: Move) -> bool {
        ||| (self == Move::Rock && other == Move::Scissors)
        ||| (self == Move::Paper && other == Move::Rock)
        ||| (self == Move::Scissors && other == Move::Paper)
    }
}

/// How a round or a match ended.
#[derive(Clone, Copy, Debug, PartialEq, Eq, Structural)]
pub enum Winner {
    Player1,
    Player2,
    Tie,
    /// Player 1 wins because player 2 did not act before the deadline.
    Player1OpponentForfeit,
    /// Player 2 wins because player 1 did not act before the deadline.
    Player2OpponentForfeit,
}

impl Winner {
    /// Whether the outcome favours player 1, by play or by forfeit.
    pub open spec fn favours_player1(self) -> bool {
        self == Winner::Player1 || self == Winner::Player1OpponentForfeit
    }

    /// Whether the outcome favours player 2, by play or by forfeit.
    pub open spec fn favours_player2(self) -> bool {
        self == Winner::Player2 || self == Winner::Player2OpponentForfeit
    }

    /// Whether the outcome came about by a missed deadline.
    pub open spec fn by_forfeit(self) -> bool {
        self == Winner::Player1OpponentForfeit || self == Winner::Player2OpponentForfeit
    }
}

/// Where a match stands in its life.
#[derive(Clone, Copy, Debug, PartialEq, Eq, Structural)]
pub enum GameState {
    WaitingForPlayer,
    CommitPhase,
    RevealPhase,
    Finished,
}

/// The stake each player puts up.
#[derive(Clone, Copy, Debug, PartialEq, Eq, Structural)]
pub enum WagerAmount {
    /// 1 SOL.
    Sol1,
    /// 0.1 SOL.
    Sol01,
    /// 0.01 SOL.
    Sol001,
}

impl WagerAmount {
    /// The stake in lamports (1 SOL is 1 000 000 000 lamports).
    pub open spec fn lamports(self) -> u64 {
        match self {
            WagerAmount::Sol1 => 1_000_000_000u64,
            WagerAmount::Sol01 => 100_000_000u64,
            WagerAmount::Sol001 => 10_000_000u64,
        }
    }

    /// The fee each player pays at `fee_percentage` percent, rounded down.
    pub open spec fn fee_at(self, fee_percentage: u64) -> int {
        self.lamports() * fee_percentage / 100
    }

    /// The stake in lamports.
    pub fn to_lamports(&self) -> (amount: u64)
        ensures
            amount == self.lamports(),
    {
        match self {
            WagerAmount::Sol1 => 1_000_000_000,
            WagerAmount::Sol01 => 100_000_000,
            WagerAmount::Sol001 => 10_000_000,
        }
    }

    /// The fee each player pays at `fee_percentage` percent of the stake,
    /// rounded down.
    pub fn fee_per_player(&self, fee_percentage: u64) -> (fee: u64)
        requires
            fee_percentage <= 100,
        ensures
            fee == self.fee_at(fee_percentage),
            fee <= self.lamports(),
            fee == 0 <==> fee_percentage == 0,
            fee == self.lamports() <==> fee_percentage == 100,
    {
        let amount: u64 = self.to_lamports();
        assert(amount * fee_percentage <= amount * 100) by (nonlinear_arith)
            requires
                fee_percentage <= 100,
                amount >= 0,
        ;
        let fee: u64 = (amount * fee_percentage) / 100;
        fee
    }
}

/// The registry: one record for the whole program.
#[derive(Clone, Copy, Debug, PartialEq, Eq)]
pub struct GlobalState {
    /// The id the next match will get.
    pub game_counter: u64,
    /// How many matches have ended.
    pub total_games_completed: u64,
    /// The administrator.
    pub authority: Identity,
    /// Who receives the fees.
    pub fee_collector: Identity,
    /// The fee, as a percentage of the stake.
    pub fee_percentage: u64,
    pub bump: u8,
    /// How long a player has to act before the opponent may claim the match.
    pub reveal_timeout_seconds: i64,
}

impl GlobalState {
    /// The registry after one more match was created.
    pub open spec fn with_game_created(self) -> GlobalState {
        GlobalState { game_counter: (self.game_counter + 1) as u64, ..self }
    }

    /// The registry after one more match has ended.
    pub open spec fn with_game_completed(self) -> GlobalState {
        GlobalState { total_games_completed: (self.total_games_completed + 1) as u64, ..self }
    }

    /// The fee is a percentage and the timeout is positive.
    pub open spec fn wf(self) -> bool {
        &&& self.fee_percentage <= 100
        &&& self.reveal_timeout_seconds > 0
    }

    /// Whether the record is well formed.
    pub fn is_wf(&self) -> (ok: bool)
        ensures
            ok == self.wf(),
    {
        self.fee_percentage <= 100 && self.reveal_timeout_seconds > 0
    }
}

/// What is known of one player over all their matches.
#[derive(Clone, Debug, PartialEq, Eq)]
pub struct PlayerProfile {
    /// The owner; unset until the profile is first used.
    pub player: Identity,
    pub name: String,
    pub available_funds: u64,
    /// Matches that ended with this player in them.
    pub total_games_played: u64,
    /// Matches this player saw through to their end.
    pub total_games_completed: u64,
    /// Matches this player lost by missing a deadline.
    pub total_games_forfeited: u64,
    pub wins: u32,
    pub losses: u32,
    pub ties: u32,
    /// The sum of all stakes put up.
    pub total_wagered: u64,
    /// The sum of all profits.
    pub total_won: u64,
    /// The sum of all stakes lost.
    pub total_lost: u64,
    /// Positive: wins in a row; negative: losses in a row.
    pub current_streak: i32,
    /// The longest run of wins so far.
    pub best_streak: u32,
    pub created_at: i64,
    pub bump: u8,
}

impl PlayerProfile {
    /// Every counter has room for the end of one more match in which
    /// `profit` may be won or `stake` lost.
    pub open spec fn can_settle(self, profit: u64, stake: u64) -> bool {
        &&& self.total_games_played < u64::MAX
        &&& self.total_games_completed < u64::MAX
        &&& self.total_games_forfeited < u64::MAX
        &&& self.wins < u32::MAX
        &&& self.losses < u32::MAX
        &&& self.ties < u32::MAX
        &&& self.total_won + profit <= u64::MAX
        &&& self.total_lost + stake <= u64::MAX
        &&& i32::MIN < self.current_streak < i32::MAX
    }

    /// The profile after a stake of `amount` was put up.
    pub open spec fn after_stake(self, amount: u64) -> PlayerProfile {
        PlayerProfile { total_wagered: (self.total_wagered + amount) as u64, ..self }
    }

    /// The profile after one more match that ended, whatever its outcome.
    pub open spec fn after_match(self) -> PlayerProfile {
        PlayerProfile {
            total_games_played: (self.total_games_played + 1) as u64,
            total_games_completed: (self.total_games_completed + 1) as u64,
            ..self
        }
    }

    /// The profile after a won match that brought `profit`.
    pub open spec fn after_win(self, profit: u64) -> PlayerProfile {
        let streak = self.current_streak + 1;
        PlayerProfile {
            wins: (self.wins + 1) as u32,
            total_won: (self.total_won + profit) as u64,
            current_streak: streak as i32,
            best_streak: if streak > self.best_streak {
                streak as u32
            } else {
                self.best_streak
            },
            ..self.after_match()
        }
    }

    /// The profile after a lost match that cost `stake`; `forfeited` says
    /// whether it was lost by missing a deadline.
    pub open spec fn after_loss(self, stake: u64, forfeited: bool) -> PlayerProfile {
        PlayerProfile {
            losses: (self.losses + 1) as u32,
            total_lost: (self.total_lost + stake) as u64,
            current_streak: if self.current_streak > 0 {
                0i32
            } else {
                (self.current_streak - 1) as i32
            },
            total_games_forfeited: if forfeited {
                (self.total_games_forfeited + 1) as u64
            } else {
                self.total_games_forfeited
            },
            ..self.after_match()
        }
    }

    /// The profile after a tied match.
    pub open spec fn after_tie(self) -> PlayerProfile {
        PlayerProfile { ties: (self.ties + 1) as u32, ..self.after_match() }
    }

    /// Whether every counter has room for the end of one more match.
    pub fn check_can_settle(&self, profit: u64, stake: u64) -> (ok: bool)
        ensures
            ok == self.can_settle(profit, stake),
    {
        let counters_ok: bool = self.total_games_played < u64::MAX
            && self.total_games_completed < u64::MAX && self.total_games_forfeited < u64::MAX
            && self.wins < u32::MAX && self.losses < u32::MAX && self.ties < u32::MAX;
        let sums_ok: bool = profit <= u64::MAX - self.total_won
            && stake <= u64::MAX - self.total_lost;
        let streak_ok: bool = i32::MIN < self.current_streak && self.current_streak < i32::MAX;
        counters_ok && sums_ok && streak_ok
    }
}

/// One match.
#[derive(Clone, Copy, Debug, PartialEq, Eq)]
pub struct Game {
    pub game_id: u64,
    pub player1: Identity,
    /// Unset until a second player joins.
    pub player2: Identity,
    pub wager: WagerAmount,
    /// The fee each player pays, fixed when the match is created.
    pub fee_per_player: u64,
    pub state: GameState,
    /// This round's commitments.
    pub player1_move_hash: Option<[u8; 32]>,
    pub player2_move_hash: Option<[u8; 32]>,
    /// This round's revealed moves.
    pub player1_move: Option<Move>,
    pub player2_move: Option<Move>,
    /// How the match ended; set only when it is finished.
    pub winner_type: Option<Winner>,
    /// Who won; set only when the match is finished.
    pub winner_address: Option<Identity>,
    /// After this time the player who has acted may claim the match.
    pub play_deadline: Option<i64>,
    pub bump: u8,
    /// Round wins needed to win the match: 1, 2 or 3.
    pub rounds_to_win: u8,
    /// The round being played, counted from 1.
    pub current_round: u8,
    pub player1_round_wins: u8,
    pub player2_round_wins: u8,
}

impl Game {
    /// What each player puts into the pot: the stake less the fee.
    pub open spec fn net(self) -> int {
        self.wager.lamports() - self.fee_per_player
    }

    /// What the match holds once both players have paid in.
    pub open spec fn pot(self) -> int {
        2 * self.net()
    }

    /// Whether `who` is one of the two players.
    pub open spec fn is_participant(self, who: Identity) -> bool {
        who == self.player1 || who == self.player2
    }

    /// The match once it has ended with `winner_type` in favour of
    /// `winner_address`.
    pub open spec fn concluded(self, winner_type: Winner, winner_address: Identity) -> Game {
        Game {
            winner_type: Some(winner_type),
            winner_address: Some(winner_address),
            state: GameState::Finished,
            ..self
        }
    }

    /// What holds of every match between its transitions.
    pub open spec fn wf(self) -> bool {
        &&& 1 <= self.rounds_to_win <= 3
        &&& self.current_round >= 1
        &&& 0 < self.fee_per_player < self.wager.lamports()
        &&& self.state == GameState::WaitingForPlayer ==> {
            &&& self.player2.is_unset()
            &&& self.player1_move_hash is None
            &&& self.player2_move_hash is None
        }
        &&& self.state != GameState::WaitingForPlayer ==> self.player1 != self.player2
        &&& (self.state == GameState::WaitingForPlayer || self.state == GameState::CommitPhase)
            ==> self.player1_move is None && self.player2_move is None
        &&& (self.state == GameState::CommitPhase || self.state == GameState::RevealPhase)
            ==> self.play_deadline is Some
        &&& self.state == GameState::RevealPhase ==> self.player1_move_hash is Some
            && self.player2_move_hash is Some
        &&& self.state != GameState::Finished ==> {
            &&& self.player1_round_wins < self.rounds_to_win
            &&& self.player2_round_wins < self.rounds_to_win
            &&& self.winner_type is None
            &&& self.winner_address is None
        }
        &&& self.state == GameState::Finished ==> {
            &&& self.player1_round_wins <= self.rounds_to_win
            &&& self.player2_round_wins <= self.rounds_to_win
            &&& self.winner_type is Some
            &&& self.winner_address is Some
        }
    }

    /// Whether the match is well formed.
    pub fn is_wf(&self) -> (ok: bool)
        ensures
            ok == self.wf(),
    {
        let waiting: bool = self.state == GameState::WaitingForPlayer;
        let committing: bool = self.state == GameState::CommitPhase;
        let revealing: bool = self.state == GameState::RevealPhase;
        let finished: bool = self.state == GameState::Finished;
        let no_moves: bool = self.player1_move.is_none() && self.player2_move.is_none();
        let no_hashes: bool = self.player1_move_hash.is_none()
            && self.player2_move_hash.is_none();
        let both_hashes: bool = self.player1_move_hash.is_some()
            && self.player2_move_hash.is_some();
        let no_winner: bool = self.winner_type.is_none() && self.winner_address.is_none();
        let has_winner: bool = self.winner_type.is_some() && self.winner_address.is_some();
        let short_of_winning: bool = self.player1_round_wins < self.rounds_to_win
            && self.player2_round_wins < self.rounds_to_win;
        let within_winning: bool = self.player1_round_wins <= self.rounds_to_win
            && self.player2_round_wins <= self.rounds_to_win;
        let numbers_ok: bool = 1 <= self.rounds_to_win && self.rounds_to_win <= 3
            && self.current_round >= 1 && 0 < self.fee_per_player
            && self.fee_per_player < self.wager.to_lamports();
        let waiting_ok: bool = !waiting || (self.player2.check_unset() && no_hashes);
        let players_ok: bool = waiting || self.player1 != self.player2;
        let moves_ok: bool = !(waiting || committing) || no_moves;
        let deadline_ok: bool = !(committing || revealing) || self.play_deadline.is_some();
        let hashes_ok: bool = !revealing || both_hashes;
        let running_ok: bool = finished || (short_of_winning && no_winner);
        let finished_ok: bool = !finished || (within_winning && has_winner);
        numbers_ok && waiting_ok && players_ok && moves_ok && deadline_ok && hashes_ok
            && running_ok && finished_ok
    }

    /// What each player puts into the pot: the stake less the fee.
    pub fn net_per_player(&self) -> (net: u64)
        requires
            self.fee_per_player <= self.wager.lamports(),
        ensures
            net == self.net(),
            net + self.fee_per_player == self.wager.lamports(),
    {
        self.wager.to_lamports() - self.fee_per_player
    }

    /// The whole pot: both players' net contributions.
    pub fn total_pot(&self) -> (pot: u64)
        requires
            self.fee_per_player <= self.wager.lamports(),
        ensures
            pot == self.pot(),
            pot == 2 * self.net(),
    {
        self.net_per_player() * 2
    }
}

/// What a player has to pay when entering a match.
#[derive(Clone, Copy, Debug, PartialEq, Eq)]
pub struct WagerTransfers {
    /// The fee, in lamports.
    pub fee: u64,
    /// Who receives the fee.
    pub fee_to: Identity,
    /// What goes to the match, in lamports, where it is held until the match
    /// ends.
    pub net: u64,
}

/// The balances, in lamports, that the end of a match moves value between.
#[derive(Clone, Copy, Debug, PartialEq, Eq, Structural)]
pub struct Balances {
    /// What the match record holds.
    pub game: u64,
    pub player1: u64,
    pub player2: u64,
}

} // verus!
