use vstd::prelude::*;

use crate::damage::{damage_of, gen_number, DAMAGE_CAP};
use crate::error::ErrorCode;
use crate::key::AccountKey;

verus! {

/// Health of each pet when a duel begins.
pub const MAX_HEALTH: u8 = 100;

/// Where a duel stands.
#[derive(Clone, Copy, Debug, PartialEq, Eq, Structural)]
pub enum DuelStatus {
    Challenged,
    Started,
    Finished,
    InProgress,
}

/// One duel between a challenger and a defender.
#[derive(Clone, Copy, Debug)]
pub struct PetDuel {
    pub challenger: AccountKey,
    pub defender: AccountKey,
    pub winner: Option<AccountKey>,
    pub challenger_pet_health: u8,
    pub defender_pet_health: u8,
    pub bet_amount: u64,
    pub duel_status: DuelStatus,
    pub challenger_turn: bool,
    pub last_turn_timestamp: i64,
    pub bump: u8,
}

/// `health` less `damage`, floored at zero.
pub open spec fn health_after(health: u8, damage: u8) -> u8 {
    if damage >= health {
        0
    } else {
        (health - damage) as u8
    }
}

impl PetDuel {
    /// Healths stay in `[0, 100]`; a winner is named exactly when the duel is
    /// finished, and then exactly one pet is down and the winner is the
    /// other side; before that both pets stand.
    pub open spec fn wf(&self) -> bool {
        &&& self.challenger_pet_health <= MAX_HEALTH
        &&& self.defender_pet_health <= MAX_HEALTH
        &&& self.duel_status != DuelStatus::InProgress
        &&& (self.duel_status == DuelStatus::Finished) == self.winner.is_some()
        &&& self.duel_status != DuelStatus::Finished ==> self.challenger_pet_health > 0
            && self.defender_pet_health > 0
        &&& self.duel_status == DuelStatus::Finished ==> {
            &&& (self.challenger_pet_health == 0) != (self.defender_pet_health == 0)
            &&& self.winner == Some(self.spec_surviving_side())
        }
    }

    /// Whether a stored record is consistent; a record read back from the
    /// ledger is checked before any transition is applied to it.
    pub fn is_consistent(&self) -> (r: bool)
        ensures
            r == self.wf(),
    {
        if self.challenger_pet_health > MAX_HEALTH || self.defender_pet_health > MAX_HEALTH {
            return false;
        }
        match self.duel_status {
            DuelStatus::InProgress => false,
            DuelStatus::Finished => {
                if (self.challenger_pet_health == 0) == (self.defender_pet_health == 0) {
                    return false;
                }
                let survivor = if self.challenger_pet_health == 0 {
                    self.defender
                } else {
                    self.challenger
                };
                match &self.winner {
                    Some(w) => w.same_as(&survivor),
                    None => false,
                }
            },
            _ => self.winner.is_none() && self.challenger_pet_health > 0
                && self.defender_pet_health > 0,
        }
    }

    /// The side whose pet is still standing, the challenger when both are.
    pub open spec fn spec_surviving_side(&self) -> AccountKey {
        if self.challenger_pet_health == 0 {
            self.defender
        } else {
            self.challenger
        }
    }

    /// The duel that `challenger` opens at `now` with a stake of `bet_amount`.
    pub open spec fn spec_challenge(
        challenger: AccountKey,
        bet_amount: u64,
        now: i64,
        bump: u8,
        defender: AccountKey,
    ) -> PetDuel {
        PetDuel {
            challenger,
            defender,
            winner: None,
            challenger_pet_health: MAX_HEALTH,
            defender_pet_health: MAX_HEALTH,
            bet_amount,
            duel_status: DuelStatus::Challenged,
            challenger_turn: true,
            last_turn_timestamp: now,
            bump,
        }
    }

    /// Opens a duel: both pets at full health, the challenger to move, no
    /// defender yet (the all-zero key stands in its place).
    pub fn challenge(challenger: AccountKey, bet_amount: u64, now: i64, bump: u8) -> (r: PetDuel)
        ensures
            r == Self::spec_challenge(challenger, bet_amount, now, bump, r.defender),
            r.defender.is_zero(),
            r.wf(),
    {
        PetDuel {
            challenger,
            defender: AccountKey::zeroed(),
            winner: None,
            challenger_pet_health: MAX_HEALTH,
            defender_pet_health: MAX_HEALTH,
            bet_amount,
            duel_status: DuelStatus::Challenged,
            challenger_turn: true,
            last_turn_timestamp: now,
            bump,
        }
    }

    /// The outcome of `defender` accepting this duel.
    pub open spec fn spec_accept(self, defender: AccountKey) -> Result<PetDuel, ErrorCode> {
        if self.duel_status != DuelStatus::Challenged {
            Err(ErrorCode::DuelAlreadyStarted)
        } else {
            Ok(PetDuel { defender, duel_status: DuelStatus::Started, ..self })
        }
    }

    /// Seats `defender` and starts the duel; only a duel that is still
    /// challenged can be accepted.
    pub fn accept_duel(&mut self, defender: AccountKey) -> (r: Result<(), ErrorCode>)
        ensures
            match old(self).spec_accept(defender) {
                Ok(d) => r is Ok && *final(self) == d,
                Err(e) => r == Err::<(), ErrorCode>(e) && *final(self) == *old(self),
            },
            old(self).wf() ==> final(self).wf(),
    {
        if self.duel_status != DuelStatus::Challenged {
            return Err(ErrorCode::DuelAlreadyStarted);
        }
        self.defender = defender;
        self.duel_status = DuelStatus::Started;
        Ok(())
    }

    /// Hands the move to the other side and records the time of the move.
    pub fn next_turn(&mut self, now: i64)
        ensures
            *final(self) == (PetDuel {
                challenger_turn: !old(self).challenger_turn,
                last_turn_timestamp: now,
                ..*old(self)
            }),
    {
        self.last_turn_timestamp = now;
        self.challenger_turn = !self.challenger_turn;
    }

    /// The duel after the side to move deals `damage` to the other pet: when
    /// a pet is down the duel is finished and the other side wins.
    pub open spec fn spec_damaged(self, damage: u8) -> PetDuel {
        let c = if self.challenger_turn {
            self.challenger_pet_health
        } else {
            health_after(self.challenger_pet_health, damage)
        };
        let d = if self.challenger_turn {
            health_after(self.defender_pet_health, damage)
        } else {
            self.defender_pet_health
        };
        if c == 0 || d == 0 {
            PetDuel {
                challenger_pet_health: c,
                defender_pet_health: d,
                duel_status: DuelStatus::Finished,
                winner: Some(
                    if c == 0 {
                        self.defender
                    } else {
                        self.challenger
                    },
                ),
                ..self
            }
        } else {
            PetDuel { challenger_pet_health: c, defender_pet_health: d, ..self }
        }
    }

    /// Deals `damage` from the side to move to the other pet and finishes the
    /// duel when a pet is down.
    pub fn apply_damage(&mut self, damage: u8)
        requires
            old(self).wf(),
            old(self).duel_status != DuelStatus::Finished,
        ensures
            *final(self) == old(self).spec_damaged(damage),
            final(self).wf(),
            final(self).challenger_pet_health <= old(self).challenger_pet_health,
            final(self).defender_pet_health <= old(self).defender_pet_health,
    {
        if self.challenger_turn {
            self.defender_pet_health = self.defender_pet_health.saturating_sub(damage);
        } else {
            self.challenger_pet_health = self.challenger_pet_health.saturating_sub(damage);
        }
        if self.challenger_pet_health == 0 || self.defender_pet_health == 0 {
            self.duel_status = DuelStatus::Finished;
            if self.challenger_pet_health == 0 {
                self.winner = Some(self.defender);
            } else {
                self.winner = Some(self.challenger);
            }
        }
    }

    /// Rolls the damage from the signature bytes and deals it.
    pub fn perform_attack(&mut self, sig: &[u8])
        requires
            old(self).wf(),
            old(self).duel_status != DuelStatus::Finished,
        ensures
            *final(self) == old(self).spec_damaged(damage_of(sig@, DAMAGE_CAP)),
            final(self).wf(),
            final(self).challenger_pet_health <= old(self).challenger_pet_health,
            final(self).defender_pet_health <= old(self).defender_pet_health,
    {
        let damage = gen_number(sig, DAMAGE_CAP);
        self.apply_damage(damage);
    }
}

} // verus!
