//! The registry and what its administrator may change.
use vstd::prelude::*;
use crate::errors::GameError;
use crate::identity::Identity;
use crate::state::GlobalState;

verus! {

/// The fee, in percent, that a new registry starts with.
pub const DEFAULT_FEE_PERCENTAGE: u64 = 1;

/// The timeout, in seconds, that a new registry starts with.
pub const DEFAULT_REVEAL_TIMEOUT_SECONDS: i64 = 120;

/// The new registry record and who sets it up.
pub struct InitializeGlobalState {
    pub global_state: GlobalState,
    pub authority: Identity,
    pub global_state_bump: u8,
}

/// The registry record and who asks to change it.
pub struct UpdateFeeCollector {
    pub global_state: GlobalState,
    pub authority: Identity,
}

impl UpdateFeeCollector {
    /// Whether the caller is the registry's administrator.
    pub open spec fn authorized(self) -> bool {
        self.authority == self.global_state.authority
    }
}

/// The registry as it is first set up by `authority`.
pub open spec fn initial_global_state(authority: Identity, fee_collector: Identity, bump: u8)
    -> GlobalState {
    GlobalState {
        game_counter: 0,
        total_games_completed: 0,
        authority,
        fee_collector,
        fee_percentage: DEFAULT_FEE_PERCENTAGE,
        bump,
        reveal_timeout_seconds: DEFAULT_REVEAL_TIMEOUT_SECONDS,
    }
}

/// Sets the registry up: the caller becomes its administrator, no match has
/// been created or completed, the fee is 1 percent and the timeout 120
/// seconds.
pub fn initialize_global_state(ctx: &mut InitializeGlobalState, fee_collector: Identity) -> (result:
    Result<(), GameError>)
    ensures
        result is Ok,
        *final(ctx) == (InitializeGlobalState {
            global_state: initial_global_state(
                old(ctx).authority,
                fee_collector,
                old(ctx).global_state_bump,
            ),
            ..*old(ctx)
        }),
        final(ctx).global_state.wf(),
{
    ctx.global_state.game_counter = 0;
    ctx.global_state.total_games_completed = 0;
    ctx.global_state.authority = ctx.authority;
    ctx.global_state.fee_collector = fee_collector;
    ctx.global_state.fee_percentage = DEFAULT_FEE_PERCENTAGE;
    ctx.global_state.bump = ctx.global_state_bump;
    ctx.global_state.reveal_timeout_seconds = DEFAULT_REVEAL_TIMEOUT_SECONDS;
    Ok(())
}

/// Changes who receives the fees. Only the administrator may do so.
pub fn update_fee_collector(ctx: &mut UpdateFeeCollector, new_fee_collector: Identity) -> (result:
    Result<(), GameError>)
    ensures
        old(ctx).authorized() ==> result == Ok::<(), GameError>(()) && *final(ctx) == (
        UpdateFeeCollector {
            global_state: GlobalState { fee_collector: new_fee_collector, ..old(ctx).global_state },
            ..*old(ctx)
        }),
        !old(ctx).authorized() ==> result == Err::<(), GameError>(GameError::Unauthorized)
            && *final(ctx) == *old(ctx),
        old(ctx).global_state.wf() ==> final(ctx).global_state.wf(),
{
    if ctx.authority != ctx.global_state.authority {
        return Err(GameError::Unauthorized);
    }
    ctx.global_state.fee_collector = new_fee_collector;
    Ok(())
}

/// Changes the fee percentage for matches created from now on. Only the
/// administrator may do so.
pub fn update_fee_percentage(ctx: &mut UpdateFeeCollector, new_fee_percentage: u64) -> (result:
    Result<(), GameError>)
    requires
        new_fee_percentage <= 100,
    ensures
        old(ctx).authorized() ==> result == Ok::<(), GameError>(()) && *final(ctx) == (
        UpdateFeeCollector {
            global_state: GlobalState {
                fee_percentage: new_fee_percentage,
                ..old(ctx).global_state
            },
            ..*old(ctx)
        }),
        !old(ctx).authorized() ==> result == Err::<(), GameError>(GameError::Unauthorized)
            && *final(ctx) == *old(ctx),
        old(ctx).global_state.wf() ==> final(ctx).global_state.wf(),
{
    if ctx.authority != ctx.global_state.authority {
        return Err(GameError::Unauthorized);
    }
    ctx.global_state.fee_percentage = new_fee_percentage;
    Ok(())
}

/// Changes how long a player has to act. Only the administrator may do so.
pub fn update_reveal_timeout(ctx: &mut UpdateFeeCollector, new_timeout: i64) -> (result: Result<
    (),
    GameError,
>)
    requires
        new_timeout > 0,
    ensures
        old(ctx).authorized() ==> result == Ok::<(), GameError>(()) && *final(ctx) == (
        UpdateFeeCollector {
            global_state: GlobalState {
                reveal_timeout_seconds: new_timeout,
                ..old(ctx).global_state
            },
            ..*old(ctx)
        }),
        !old(ctx).authorized() ==> result == Err::<(), GameError>(GameError::Unauthorized)
            && *final(ctx) == *old(ctx),
        old(ctx).global_state.wf() ==> final(ctx).global_state.wf(),
{
    if ctx.authority != ctx.global_state.authority {
        return Err(GameError::Unauthorized);
    }
    ctx.global_state.reveal_timeout_seconds = new_timeout;
    Ok(())
}

} // verus!
