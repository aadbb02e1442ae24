use vstd::prelude::*;

use crate::error::ErrorCode;
use crate::key::AccountKey;

verus! {

/// The largest fee, in percent of the pot.
pub const MAX_FEE_PERCENT: u8 = 100;

/// Game-wide settings: who administers them, the pet collection, the vault
/// that holds stakes, and the fee kept from each pot.
#[derive(Clone, Copy, Debug)]
pub struct GameConfig {
    pub admin: AccountKey,
    pub collection_mint: AccountKey,
    pub game_vault: AccountKey,
    pub fees: u8,
    pub bump: u8,
    pub vault_bump: u8,
}

impl GameConfig {
    /// The fee is a percentage in `[0, 100]`.
    pub open spec fn wf(&self) -> bool {
        self.fees <= MAX_FEE_PERCENT
    }

    /// Sets the fee, refusing a percentage above 100.
    pub fn update_fees(&mut self, updated_fees: u8) -> (r: Result<(), ErrorCode>)
        ensures
            updated_fees <= MAX_FEE_PERCENT ==> r is Ok && *final(self) == (GameConfig {
                fees: updated_fees,
                ..*old(self)
            }),
            updated_fees > MAX_FEE_PERCENT ==> r == Err::<(), ErrorCode>(
                ErrorCode::InvalidFeesPercentage,
            ) && *final(self) == *old(self),
            old(self).wf() ==> final(self).wf(),
    {
        if updated_fees > MAX_FEE_PERCENT {
            return Err(ErrorCode::InvalidFeesPercentage);
        }
        self.fees = updated_fees;
        Ok(())
    }
}

/// How a pot is split when it is settled.
#[derive(Clone, Copy, Debug, PartialEq, Eq, Structural)]
pub struct Settlement {
    /// What the game keeps.
    pub fee: u64,
    /// What the winner receives.
    pub payout: u64,
}

/// The fee kept from a pot of `pot` at `fee_percent` percent, rounded down.
pub open spec fn fee_of(pot: int, fee_percent: int) -> int {
    (pot * fee_percent) / 100
}

/// What the vault holds for a duel once both sides have paid in a stake of
/// `bet_amount`.
pub open spec fn pot_of(bet_amount: u64) -> int {
    2 * bet_amount
}

/// Splits a pot into the fee and the winner's payout.
pub fn payout_split(bet_amount: u64, fee_percent: u8) -> (r: Settlement)
    requires
        fee_percent <= MAX_FEE_PERCENT,
    ensures
        r.fee == fee_of(bet_amount as int, fee_percent as int),
        r.payout == bet_amount - fee_of(bet_amount as int, fee_percent as int),
{
    assert(bet_amount * fee_percent <= 0xffff_ffff_ffff_ffff * 100) by (nonlinear_arith)
        requires
            bet_amount <= 0xffff_ffff_ffff_ffff,
            fee_percent <= 100,
    ;
    let product: u128 = bet_amount as u128 * fee_percent as u128;
    assert(product / 100 <= bet_amount) by (nonlinear_arith)
        requires
            product == bet_amount * fee_percent,
            fee_percent <= 100,
    ;
    let fee: u64 = (product / 100) as u64;
    Settlement { fee, payout: bet_amount.saturating_sub(fee) }
}

} // verus!
