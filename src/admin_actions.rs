use vstd::prelude::*;

use crate::error::ErrorCode;
use crate::game_config::{GameConfig, MAX_FEE_PERCENT};
use crate::key::AccountKey;

verus! {

/// What setting up the game works on: its administrator, the pet
/// collection and the vault.
#[derive(Clone, Copy, Debug)]
pub struct InitializeGameConfig {
    pub admin: AccountKey,
    pub collection_mint: AccountKey,
    pub game_vault: AccountKey,
}

impl InitializeGameConfig {
    /// The game settings, refusing a fee above 100 percent.
    pub fn init_game_config(&self, config_bump: u8, vault_bump: u8, fees: u8) -> (r: Result<
        GameConfig,
        ErrorCode,
    >)
        ensures
            fees > MAX_FEE_PERCENT ==> r == Err::<GameConfig, ErrorCode>(
                ErrorCode::InvalidFeesPercentage,
            ),
            fees <= MAX_FEE_PERCENT ==> r == Ok::<GameConfig, ErrorCode>(
                GameConfig {
                    admin: self.admin,
                    collection_mint: self.collection_mint,
                    game_vault: self.game_vault,
                    fees,
                    bump: config_bump,
                    vault_bump,
                },
            ),
            r matches Ok(c) ==> c.wf(),
    {
        if fees > MAX_FEE_PERCENT {
            return Err(ErrorCode::InvalidFeesPercentage);
        }
        Ok(
            GameConfig {
                admin: self.admin,
                collection_mint: self.collection_mint,
                game_vault: self.game_vault,
                fees,
                bump: config_bump,
                vault_bump,
            },
        )
    }
}

/// What changing the fee works on: the signer and the game settings.
#[derive(Clone, Copy, Debug)]
pub struct UpdateFees {
    pub admin: AccountKey,
    pub game_config: GameConfig,
}

impl UpdateFees {
    /// Sets the fee; only the administrator may, and only to a percentage
    /// of at most 100.
    pub fn update_fees(&mut self, new_fees: u8) -> (r: Result<(), ErrorCode>)
        ensures
            old(self).admin != old(self).game_config.admin ==> r == Err::<(), ErrorCode>(
                ErrorCode::UnauthorizedAction,
            ) && *final(self) == *old(self),
            old(self).admin == old(self).game_config.admin && new_fees > MAX_FEE_PERCENT ==> r
                == Err::<(), ErrorCode>(ErrorCode::InvalidFeesPercentage) && *final(self) == *old(self),
            old(self).admin == old(self).game_config.admin && new_fees <= MAX_FEE_PERCENT ==> r
                is Ok && *final(self) == (UpdateFees {
                game_config: GameConfig { fees: new_fees, ..old(self).game_config },
                ..*old(self)
            }),
            old(self).game_config.wf() ==> final(self).game_config.wf(),
    {
        if !self.admin.same_as(&self.game_config.admin) {
            return Err(ErrorCode::UnauthorizedAction);
        }
        self.game_config.update_fees(new_fees)
    }
}

} // verus!
