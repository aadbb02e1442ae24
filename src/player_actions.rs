use vstd::prelude::*;

use crate::key::AccountKey;
use crate::pet_stats::{PetStats, MAX_STAT};

verus! {

/// What joining the game works on: the player and the record of their pet.
#[derive(Clone, Copy, Debug)]
pub struct DepositNft {
    pub player: AccountKey,
    pub pet_stats: PetStats,
}

impl DepositNft {
    /// Gives the player's newly deposited pet full attributes as of `now`.
    pub fn init_pet_stats(&mut self, bump: u8, now: i64)
        ensures
            final(self).player == old(self).player,
            final(self).pet_stats == (PetStats {
                hunger: MAX_STAT,
                hygiene: MAX_STAT,
                energy: MAX_STAT,
                last_fed_timestamp: now,
                last_bathed_timestamp: now,
                last_slept_timestamp: now,
                hunger_decay_from: now,
                hygiene_decay_from: now,
                energy_decay_from: now,
                bump,
            }),
            final(self).pet_stats.wf(),
    {
        self.pet_stats = PetStats::new(now, bump);
    }
}

/// A care action a player can take on their pet.
#[derive(Clone, Copy, Debug, PartialEq, Eq, Structural)]
pub enum InteractionType {
    Feed,
    Bath,
}

/// What caring for a pet works on: the player and the record of their pet.
#[derive(Clone, Copy, Debug)]
pub struct PetInteract {
    pub player: AccountKey,
    pub pet_stats: PetStats,
}

impl PetInteract {
    /// Feeds or bathes the pet at `now`.
    pub fn interact(&mut self, interaction_type: InteractionType, now: i64)
        ensures
            final(self).player == old(self).player,
            interaction_type == InteractionType::Feed ==> final(self).pet_stats == (PetStats {
                hunger: MAX_STAT,
                last_fed_timestamp: now,
                hunger_decay_from: now,
                ..old(self).pet_stats
            }),
            interaction_type == InteractionType::Bath ==> final(self).pet_stats == (PetStats {
                hygiene: MAX_STAT,
                last_bathed_timestamp: now,
                hygiene_decay_from: now,
                ..old(self).pet_stats
            }),
    {
        match interaction_type {
            InteractionType::Feed => self.pet_stats.feed(now),
            InteractionType::Bath => self.pet_stats.bath(now),
        }
    }
}

} // verus!
