use vstd::prelude::*;

use crate::error::ErrorCode;
use crate::duel_actions::{AcceptPetDuel, ClaimBetAmount, InitPetDuel};
use crate::game_config::{fee_of, pot_of, Settlement};
use crate::pet_duel::PetDuel;

verus! {

/// Opens a duel. On success, returns the stake that the challenger must then
/// put in the vault, or `None` for a friendly duel without a stake.
pub fn init_pet_duel(ctx: &mut InitPetDuel, bump: u8, bet_amount: u64, now: i64) -> (r: Result<
    Option<u64>,
    ErrorCode,
>)
    ensures
        old(ctx).pet_duel_account is Some ==> r == Err::<Option<u64>, ErrorCode>(
            ErrorCode::DuelAlreadyChallenged,
        ) && *final(ctx) == *old(ctx),
        old(ctx).pet_duel_account is None && old(ctx).pet_stats.energy_at(now)
            < crate::duel_actions::MIN_DUEL_ENERGY ==> r == Err::<Option<u64>, ErrorCode>(
            ErrorCode::InsufficientPetEnergy,
        ) && *final(ctx) == *old(ctx),
        r is Ok ==> {
            &&& final(ctx).challanger == old(ctx).challanger
            &&& final(ctx).pet_stats == old(ctx).pet_stats.spec_energy_refreshed(now)
            &&& match final(ctx).pet_duel_account {
                Some(d) => d == PetDuel::spec_challenge(
                    old(ctx).challanger,
                    bet_amount,
                    now,
                    bump,
                    d.defender,
                ) && d.defender.is_zero() && d.wf(),
                None => false,
            }
        },
        old(ctx).pet_duel_account is None && old(ctx).pet_stats.energy_at(now)
            >= crate::duel_actions::MIN_DUEL_ENERGY ==> r == Ok::<Option<u64>, ErrorCode>(
            if bet_amount > 0 {
                Some(bet_amount)
            } else {
                None
            },
        ),
{
    ctx.initilize(bump, bet_amount, now)?;
    if bet_amount > 0 {
        Ok(Some(bet_amount))
    } else {
        Ok(None)
    }
}

/// Accepts a duel. On success, returns the stake that the defender must then
/// put in the vault, or `None` for a friendly duel.
pub fn accept_pet_duel(ctx: &mut AcceptPetDuel, now: i64) -> (r: Result<Option<u64>, ErrorCode>)
    ensures
        match old(ctx).spec_accept_duel(now) {
            Ok(a) => *final(ctx) == a && r == Ok::<Option<u64>, ErrorCode>(
                if a.pet_duel_account.bet_amount > 0 {
                    Some(a.pet_duel_account.bet_amount)
                } else {
                    None
                },
            ),
            Err(e) => r == Err::<Option<u64>, ErrorCode>(e) && *final(ctx) == *old(ctx),
        },
        old(ctx).pet_duel_account.wf() ==> final(ctx).pet_duel_account.wf(),
{
    ctx.accept_duel(now)?;
    let bet_amount = ctx.pet_duel_account.bet_amount;
    if bet_amount > 0 {
        Ok(Some(bet_amount))
    } else {
        Ok(None)
    }
}

/// Settles a finished duel for its winner and retires the duel record. The
/// pot is both sides' stakes; a pot too large to count in a `u64` is refused.
/// On success, returns how the pot is split, or `None` when there was no
/// stake and nothing is to be paid out.
pub fn claim_bet(ctx: &mut ClaimBetAmount) -> (r: Result<Option<Settlement>, ErrorCode>)
    requires
        old(ctx).game_config.wf(),
    ensures
        old(ctx).pet_duel_account is None ==> r == Err::<Option<Settlement>, ErrorCode>(
            ErrorCode::AccountNotProvided,
        ) && *final(ctx) == *old(ctx),
        old(ctx).pet_duel_account is Some && old(ctx).pet_duel_account->Some_0.winner != Some(
            old(ctx).winner,
        ) ==> r == Err::<Option<Settlement>, ErrorCode>(ErrorCode::UnauthorizedAction) && *final(ctx) == *old(ctx),
        old(ctx).pet_duel_account is Some && old(ctx).pet_duel_account->Some_0.winner == Some(
            old(ctx).winner,
        ) ==> {
            let pot = pot_of(old(ctx).pet_duel_account->Some_0.bet_amount);
            let fees = old(ctx).game_config.fees as int;
            &&& pot > u64::MAX ==> r == Err::<Option<Settlement>, ErrorCode>(ErrorCode::Overflow)
                && *final(ctx) == *old(ctx)
            &&& pot <= u64::MAX ==> {
                &&& final(ctx).pet_duel_account is None
                &&& final(ctx).winner == old(ctx).winner
                &&& final(ctx).game_config == old(ctx).game_config
                &&& pot == 0 ==> r == Ok::<Option<Settlement>, ErrorCode>(None)
                &&& pot > 0 ==> r == Ok::<Option<Settlement>, ErrorCode>(
                    Some(Settlement { fee: fee_of(pot, fees) as u64, payout: (pot - fee_of(pot, fees)) as u64 }),
                )
            }
        },
{
    let duel = match &ctx.pet_duel_account {
        Some(d) => *d,
        None => {
            return Err(ErrorCode::AccountNotProvided);
        },
    };
    let authorized = match &duel.winner {
        Some(w) => w.same_as(&ctx.winner),
        None => false,
    };
    if !authorized {
        return Err(ErrorCode::UnauthorizedAction);
    }
    if duel.bet_amount > u64::MAX / 2 {
        return Err(ErrorCode::Overflow);
    }
    let split = if duel.bet_amount > 0 {
        Some(ctx.claim())
    } else {
        None
    };
    ctx.pet_duel_account = None;
    Ok(split)
}

} // verus!
