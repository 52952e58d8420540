//! Stakes, payouts and the players' statistics.
use vstd::prelude::*;
use crate::errors::GameError;
use crate::identity::Identity;
use crate::state::{
    Balances, Game, GameState, GlobalState, PlayerProfile, WagerTransfers, Winner,
};

verus! {

/// Player 1's profile after a match of `game` that ended with `winner`.
pub open spec fn settled_player1(profile: PlayerProfile, winner: Winner, game: Game)
    -> PlayerProfile {
    match winner {
        Winner::Player1 | Winner::Player1OpponentForfeit => profile.after_win(game.net() as u64),
        Winner::Player2 => profile.after_loss(game.wager.lamports(), false),
        Winner::Player2OpponentForfeit => profile.after_loss(game.wager.lamports(), true),
        Winner::Tie => profile.after_tie(),
    }
}

/// Player 2's profile after a match of `game` that ended with `winner`.
pub open spec fn settled_player2(profile: PlayerProfile, winner: Winner, game: Game)
    -> PlayerProfile {
    match winner {
        Winner::Player2 | Winner::Player2OpponentForfeit => profile.after_win(game.net() as u64),
        Winner::Player1 => profile.after_loss(game.wager.lamports(), false),
        Winner::Player1OpponentForfeit => profile.after_loss(game.wager.lamports(), true),
        Winner::Tie => profile.after_tie(),
    }
}

/// The balances after the pot of `game` has been paid out for `winner`: the
/// whole pot to the winner, or each player's net contribution back on a tie.
pub open spec fn paid_out(balances: Balances, winner: Winner, game: Game) -> Balances {
    if winner.favours_player1() {
        Balances {
            game: (balances.game - game.pot()) as u64,
            player1: (balances.player1 + game.pot()) as u64,
            player2: balances.player2,
        }
    } else if winner.favours_player2() {
        Balances {
            game: (balances.game - game.pot()) as u64,
            player1: balances.player1,
            player2: (balances.player2 + game.pot()) as u64,
        }
    } else {
        Balances {
            game: (balances.game - game.pot()) as u64,
            player1: (balances.player1 + game.net()) as u64,
            player2: (balances.player2 + game.net()) as u64,
        }
    }
}

/// Whether a stake with this fee can be taken: both the fee and what is left
/// of the stake after it are positive.
pub open spec fn stake_payable(game: Game) -> bool {
    0 < game.fee_per_player < game.wager.lamports()
}

fn record_match(profile: &mut PlayerProfile)
    requires
        old(profile).total_games_played < u64::MAX,
        old(profile).total_games_completed < u64::MAX,
    ensures
        *final(profile) == old(profile).after_match(),
{
    profile.total_games_played = profile.total_games_played + 1;
    profile.total_games_completed = profile.total_games_completed + 1;
}

fn record_win(profile: &mut PlayerProfile, profit: u64)
    requires
        old(profile).can_settle(profit, 0),
    ensures
        *final(profile) == old(profile).after_win(profit),
{
    record_match(profile);
    profile.wins = profile.wins + 1;
    profile.total_won = profile.total_won + profit;
    profile.current_streak = profile.current_streak + 1;
    if profile.current_streak as i64 > profile.best_streak as i64 {
        profile.best_streak = profile.current_streak as u32;
    }
}

fn record_loss(profile: &mut PlayerProfile, stake: u64, forfeited: bool)
    requires
        old(profile).can_settle(0, stake),
    ensures
        *final(profile) == old(profile).after_loss(stake, forfeited),
{
    record_match(profile);
    profile.losses = profile.losses + 1;
    profile.total_lost = profile.total_lost + stake;
    if profile.current_streak > 0 {
        profile.current_streak = 0;
    } else {
        profile.current_streak = profile.current_streak - 1;
    }
    if forfeited {
        profile.total_games_forfeited = profile.total_games_forfeited + 1;
    }
}

fn record_tie(profile: &mut PlayerProfile)
    requires
        old(profile).can_settle(0, 0),
    ensures
        *final(profile) == old(profile).after_tie(),
{
    record_match(profile);
    profile.ties = profile.ties + 1;
}

/// What a player pays on entering `game` when the fees go to
/// `fee_collector`.
pub open spec fn stake_transfers(game: Game, fee_collector: Identity) -> WagerTransfers {
    WagerTransfers { fee: game.fee_per_player, fee_to: fee_collector, net: game.net() as u64 }
}

/// Takes a player's stake for `game`: says how much goes to the fee
/// collector and how much into the match, and adds the stake to what the
/// player has wagered. A stake whose fee or whose remainder after the fee
/// is not positive is refused, and the profile stays as it was.
pub fn process_wager(
    fee_collector: &Identity,
    game: &Game,
    player_profile: &mut PlayerProfile,
) -> (result: Result<WagerTransfers, GameError>)
    requires
        old(player_profile).total_wagered + game.wager.lamports() <= u64::MAX,
    ensures
        stake_payable(*game) ==> result == Ok::<WagerTransfers, GameError>(
            stake_transfers(*game, *fee_collector),
        ) && *final(player_profile) == old(player_profile).after_stake(game.wager.lamports()),
        !stake_payable(*game) ==> result == Err::<WagerTransfers, GameError>(
            GameError::InsufficientFunds,
        ) && *final(player_profile) == *old(player_profile),
        result matches Ok(t) ==> t.fee + t.net == game.wager.lamports(),
{
    let fee_per_player: u64 = game.fee_per_player;
    let wager_lamports: u64 = game.wager.to_lamports();
    if fee_per_player == 0 || fee_per_player >= wager_lamports {
        return Err(GameError::InsufficientFunds);
    }
    let net_per_player: u64 = game.net_per_player();
    player_profile.total_wagered = player_profile.total_wagered + wager_lamports;
    Ok(WagerTransfers { fee: fee_per_player, fee_to: *fee_collector, net: net_per_player })
}

/// Records the end of a match of `game` with outcome `winner_type`: one more
/// completed match in the registry, and each player's counters, sums and
/// streak moved as the outcome asks.
pub fn update_endgame_stats(
    global_state: &mut GlobalState,
    player1_profile: &mut PlayerProfile,
    player2_profile: &mut PlayerProfile,
    winner_type: Winner,
    game: &Game,
) -> (result: Result<(), GameError>)
    requires
        game.fee_per_player <= game.wager.lamports(),
        old(global_state).total_games_completed < u64::MAX,
        old(player1_profile).can_settle(game.net() as u64, game.wager.lamports()),
        old(player2_profile).can_settle(game.net() as u64, game.wager.lamports()),
    ensures
        result is Ok,
        *final(global_state) == old(global_state).with_game_completed(),
        *final(player1_profile) == settled_player1(*old(player1_profile), winner_type, *game),
        *final(player2_profile) == settled_player2(*old(player2_profile), winner_type, *game),
{
    global_state.total_games_completed = global_state.total_games_completed + 1;
    let profit: u64 = game.net_per_player();
    let stake: u64 = game.wager.to_lamports();
    match winner_type {
        Winner::Player1 => {
            record_win(player1_profile, profit);
            record_loss(player2_profile, stake, false);
        },
        Winner::Player2 => {
            record_loss(player1_profile, stake, false);
            record_win(player2_profile, profit);
        },
        Winner::Tie => {
            record_tie(player1_profile);
            record_tie(player2_profile);
        },
        Winner::Player1OpponentForfeit => {
            record_win(player1_profile, profit);
            record_loss(player2_profile, stake, true);
        },
        Winner::Player2OpponentForfeit => {
            record_loss(player1_profile, stake, true);
            record_win(player2_profile, profit);
        },
    }
    Ok(())
}

/// Whether the end of a match of `game` can be recorded and paid out: the
/// fee does not exceed the stake, and every counter and balance that may
/// grow has room.
pub open spec fn can_conclude(
    game: Game,
    global_state: GlobalState,
    player1_profile: PlayerProfile,
    player2_profile: PlayerProfile,
    balances: Balances,
) -> bool {
    &&& game.fee_per_player <= game.wager.lamports()
    &&& global_state.total_games_completed < u64::MAX
    &&& player1_profile.can_settle(game.net() as u64, game.wager.lamports())
    &&& player2_profile.can_settle(game.net() as u64, game.wager.lamports())
    &&& can_receive(balances, game)
}

/// Whether the players' balances have room for whatever a payout of `game`
/// may add to them.
pub open spec fn can_receive(balances: Balances, game: Game) -> bool {
    &&& balances.player1 + game.pot() <= u64::MAX
    &&& balances.player2 + game.pot() <= u64::MAX
}

/// Pays out the pot of `game` for outcome `winner_type`: the whole pot to
/// the winner, or each player's net contribution back on a tie. Refused,
/// with the balances untouched, when the match holds less than the pot.
pub fn payout_winner(game: &Game, balances: &mut Balances, winner_type: Winner) -> (result:
    Result<(), GameError>)
    requires
        game.fee_per_player <= game.wager.lamports(),
        can_receive(*old(balances), *game),
    ensures
        old(balances).game >= game.pot() ==> result == Ok::<(), GameError>(()) && *final(balances)
            == paid_out(*old(balances), winner_type, *game),
        old(balances).game < game.pot() ==> result == Err::<(), GameError>(
            GameError::InsufficientFunds,
        ) && *final(balances) == *old(balances),
        result is Ok <==> old(balances).game >= game.pot(),
        final(balances).game + final(balances).player1 + final(balances).player2 == old(
            balances,
        ).game + old(balances).player1 + old(balances).player2,
{
    let total_pot: u64 = game.total_pot();
    let net_per_player: u64 = game.net_per_player();
    if balances.game < total_pot {
        return Err(GameError::InsufficientFunds);
    }
    match winner_type {
        Winner::Player1 | Winner::Player1OpponentForfeit => {
            balances.game = balances.game - total_pot;
            balances.player1 = balances.player1 + total_pot;
        },
        Winner::Player2 | Winner::Player2OpponentForfeit => {
            balances.game = balances.game - total_pot;
            balances.player2 = balances.player2 + total_pot;
        },
        Winner::Tie => {
            balances.game = balances.game - total_pot;
            balances.player1 = balances.player1 + net_per_player;
            balances.player2 = balances.player2 + net_per_player;
        },
    }
    Ok(())
}

/// Whether the end of a match of `game` can be recorded and paid out.
pub fn check_can_conclude(
    game: &Game,
    global_state: &GlobalState,
    player1_profile: &PlayerProfile,
    player2_profile: &PlayerProfile,
    balances: &Balances,
) -> (ok: bool)
    ensures
        ok == can_conclude(*game, *global_state, *player1_profile, *player2_profile, *balances),
{
    if game.fee_per_player > game.wager.to_lamports() {
        return false;
    }
    let net: u64 = game.net_per_player();
    let pot: u64 = game.total_pot();
    let stake: u64 = game.wager.to_lamports();
    global_state.total_games_completed < u64::MAX && player1_profile.check_can_settle(net, stake)
        && player2_profile.check_can_settle(net, stake) && pot <= u64::MAX - balances.player1
        && pot <= u64::MAX - balances.player2
}

/// Ends a match: pays the pot out, marks the match finished with its
/// outcome, and records the end in the registry and both profiles. Refused,
/// with nothing changed, when the match holds less than the pot.
pub fn conclude_match(
    game: &mut Game,
    global_state: &mut GlobalState,
    player1_profile: &mut PlayerProfile,
    player2_profile: &mut PlayerProfile,
    balances: &mut Balances,
    winner_type: Winner,
    winner_address: Identity,
) -> (result: Result<(), GameError>)
    requires
        can_conclude(
            *old(game),
            *old(global_state),
            *old(player1_profile),
            *old(player2_profile),
            *old(balances),
        ),
    ensures
        old(balances).game >= old(game).pot() ==> {
            &&& result == Ok::<(), GameError>(())
            &&& *final(game) == old(game).concluded(winner_type, winner_address)
            &&& *final(global_state) == old(global_state).with_game_completed()
            &&& *final(player1_profile) == settled_player1(
                *old(player1_profile),
                winner_type,
                *old(game),
            )
            &&& *final(player2_profile) == settled_player2(
                *old(player2_profile),
                winner_type,
                *old(game),
            )
            &&& *final(balances) == paid_out(*old(balances), winner_type, *old(game))
        },
        old(balances).game < old(game).pot() ==> {
            &&& result == Err::<(), GameError>(GameError::InsufficientFunds)
            &&& *final(game) == *old(game)
            &&& *final(global_state) == *old(global_state)
            &&& *final(player1_profile) == *old(player1_profile)
            &&& *final(player2_profile) == *old(player2_profile)
            &&& *final(balances) == *old(balances)
        },
{
    let before: Game = *game;
    match payout_winner(&before, balances, winner_type) {
        Err(e) => {
            return Err(e);
        },
        Ok(()) => {},
    }
    game.winner_type = Some(winner_type);
    game.winner_address = Some(winner_address);
    game.state = GameState::Finished;
    let _ = update_endgame_stats(
        global_state,
        player1_profile,
        player2_profile,
        winner_type,
        &before,
    );
    Ok(())
}

} // verus!
