use vstd::prelude::*;

use crate::damage::{damage_of, DAMAGE_CAP};
use crate::error::ErrorCode;
use crate::game_config::{fee_of, payout_split, pot_of, GameConfig, Settlement};
use crate::key::AccountKey;
use crate::pet_duel::{DuelStatus, PetDuel};
use crate::pet_stats::PetStats;

verus! {

/// The least energy a pet needs to challenge or to accept a duel.
pub const MIN_DUEL_ENERGY: u8 = 20;

/// What opening a duel works on: the challenger, the challenger's pet, and
/// the challenger's duel record, absent until the duel is opened.
#[derive(Clone, Copy, Debug)]
pub struct InitPetDuel {
    pub challanger: AccountKey,
    pub pet_stats: PetStats,
    pub pet_duel_account: Option<PetDuel>,
}

impl InitPetDuel {
    /// Opens a duel with a stake of `bet_amount`, once the challenger's pet,
    /// brought up to `now`, has enough energy. A challenger has at most one
    /// duel record at a time.
    pub fn initilize(&mut self, bump: u8, bet_amount: u64, now: i64) -> (r: Result<
        (),
        ErrorCode,
    >)
        ensures
            old(self).pet_duel_account is Some ==> r == Err::<(), ErrorCode>(
                ErrorCode::DuelAlreadyChallenged,
            ) && *final(self) == *old(self),
            old(self).pet_duel_account is None && old(self).pet_stats.energy_at(now)
                < MIN_DUEL_ENERGY ==> r == Err::<(), ErrorCode>(ErrorCode::InsufficientPetEnergy)
                && *final(self) == *old(self),
            old(self).pet_duel_account is None && old(self).pet_stats.energy_at(now)
                >= MIN_DUEL_ENERGY ==> {
                &&& r is Ok
                &&& final(self).challanger == old(self).challanger
                &&& final(self).pet_stats == old(self).pet_stats.spec_energy_refreshed(now)
                &&& match final(self).pet_duel_account {
                    Some(d) => d == PetDuel::spec_challenge(
                        old(self).challanger,
                        bet_amount,
                        now,
                        bump,
                        d.defender,
                    ) && d.defender.is_zero() && d.wf(),
                    None => false,
                }
            },
    {
        if self.pet_duel_account.is_some() {
            return Err(ErrorCode::DuelAlreadyChallenged);
        }
        let mut refreshed = self.pet_stats;
        let energy = refreshed.update_pet_energy(now);
        if energy < MIN_DUEL_ENERGY {
            return Err(ErrorCode::InsufficientPetEnergy);
        }
        self.pet_stats = refreshed;
        self.pet_duel_account = Some(PetDuel::challenge(self.challanger, bet_amount, now, bump));
        Ok(())
    }
}

/// What accepting a duel works on: the defender, the defender's pet and the
/// duel record.
#[derive(Clone, Copy, Debug)]
pub struct AcceptPetDuel {
    pub defender: AccountKey,
    pub pet_stats: PetStats,
    pub pet_duel_account: PetDuel,
}

impl AcceptPetDuel {
    /// The outcome of accepting the duel at `now`.
    pub open spec fn spec_accept_duel(self, now: i64) -> Result<AcceptPetDuel, ErrorCode> {
        if self.pet_stats.energy_at(now) < MIN_DUEL_ENERGY {
            Err(ErrorCode::InsufficientPetEnergy)
        } else if self.pet_duel_account.duel_status != DuelStatus::Challenged {
            Err(ErrorCode::DuelAlreadyStarted)
        } else {
            Ok(
                AcceptPetDuel {
                    pet_stats: self.pet_stats.spec_energy_refreshed(now),
                    pet_duel_account: PetDuel {
                        defender: self.defender,
                        duel_status: DuelStatus::Started,
                        ..self.pet_duel_account
                    },
                    ..self
                },
            )
        }
    }

    /// Accepts a duel for a defender whose pet, brought up to `now`, has
    /// enough energy, provided the duel is still open.
    pub fn accept_duel(&mut self, now: i64) -> (r: Result<(), ErrorCode>)
        ensures
            match old(self).spec_accept_duel(now) {
                Ok(a) => r is Ok && *final(self) == a,
                Err(e) => r == Err::<(), ErrorCode>(e) && *final(self) == *old(self),
            },
            old(self).pet_duel_account.wf() ==> final(self).pet_duel_account.wf(),
    {
        let mut refreshed = self.pet_stats;
        let energy = refreshed.update_pet_energy(now);
        if energy < MIN_DUEL_ENERGY {
            return Err(ErrorCode::InsufficientPetEnergy);
        }
        if self.pet_duel_account.duel_status != DuelStatus::Challenged {
            return Err(ErrorCode::DuelAlreadyStarted);
        }
        self.pet_stats = refreshed;
        let defender = self.defender;
        let accepted = self.pet_duel_account.accept_duel(defender);
        accepted
    }
}

/// A duel is accepted at most once: after an acceptance succeeds the duel
/// has started, every later acceptance fails, and one whose pet has enough
/// energy is refused as a state violation.
pub proof fn lemma_accept_only_once(
    first: AcceptPetDuel,
    now: i64,
    defender: AccountKey,
    pet_stats: PetStats,
    later: i64,
)
    requires
        first.spec_accept_duel(now) is Ok,
    ensures
        ({
            let duel = first.spec_accept_duel(now)->Ok_0.pet_duel_account;
            let second = AcceptPetDuel { defender, pet_stats, pet_duel_account: duel };
            &&& duel.duel_status == DuelStatus::Started
            &&& second.spec_accept_duel(later) is Err
            &&& pet_stats.energy_at(later) >= MIN_DUEL_ENERGY ==> second.spec_accept_duel(later)
                == Err::<AcceptPetDuel, ErrorCode>(ErrorCode::DuelAlreadyStarted)
        }),
{
}

/// Why `attacker` may not move in `duel` now, if there is a reason.
pub open spec fn attack_refusal(duel: PetDuel, attacker: AccountKey) -> Option<ErrorCode> {
    if duel.challenger_turn && attacker != duel.challenger {
        Some(ErrorCode::NotChallengerTurn)
    } else if !duel.challenger_turn && attacker != duel.defender {
        Some(ErrorCode::NotDefenderTurn)
    } else if duel.duel_status == DuelStatus::Finished {
        Some(ErrorCode::DuelFinished)
    } else {
        None
    }
}

/// The duel after the side to move deals `damage` at `now` and hands over
/// the move.
pub open spec fn attacked(duel: PetDuel, damage: u8, now: i64) -> PetDuel {
    PetDuel {
        challenger_turn: !duel.challenger_turn,
        last_turn_timestamp: now,
        ..duel.spec_damaged(damage)
    }
}

/// What an attack works on: the attacker and the duel record.
#[derive(Clone, Copy, Debug)]
pub struct PetAttack {
    pub attacker: AccountKey,
    pub pet_duel_account: PetDuel,
}

impl PetAttack {
    /// The attacker, if it is their move, and if the duel is not finished,
    /// deals the damage rolled from `sig` and hands over the move.
    pub fn attack(&mut self, sig: &[u8], now: i64) -> (r: Result<(), ErrorCode>)
        requires
            old(self).pet_duel_account.wf(),
        ensures
            match attack_refusal(old(self).pet_duel_account, old(self).attacker) {
                Some(e) => r == Err::<(), ErrorCode>(e) && *final(self) == *old(self),
                None => r is Ok && final(self).attacker == old(self).attacker
                    && final(self).pet_duel_account == attacked(
                    old(self).pet_duel_account,
                    damage_of(sig@, DAMAGE_CAP),
                    now,
                ),
            },
            final(self).pet_duel_account.wf(),
            final(self).pet_duel_account.challenger_pet_health
                <= old(self).pet_duel_account.challenger_pet_health,
            final(self).pet_duel_account.defender_pet_health
                <= old(self).pet_duel_account.defender_pet_health,
            (final(self).pet_duel_account.duel_status == DuelStatus::Finished) == (
            final(self).pet_duel_account.challenger_pet_health == 0
                || final(self).pet_duel_account.defender_pet_health == 0),
            final(self).pet_duel_account.duel_status == DuelStatus::Finished ==> {
                let d = final(self).pet_duel_account;
                d.winner == Some(
                    if d.challenger_pet_health == 0 {
                        d.defender
                    } else {
                        d.challenger
                    },
                )
            },
    {
        if self.pet_duel_account.challenger_turn {
            if !self.pet_duel_account.challenger.same_as(&self.attacker) {
                return Err(ErrorCode::NotChallengerTurn);
            }
        } else {
            if !self.pet_duel_account.defender.same_as(&self.attacker) {
                return Err(ErrorCode::NotDefenderTurn);
            }
        }
        if self.pet_duel_account.duel_status == DuelStatus::Finished {
            return Err(ErrorCode::DuelFinished);
        }
        self.pet_duel_account.perform_attack(sig);
        self.pet_duel_account.next_turn(now);
        Ok(())
    }
}

/// What settling a duel works on: the claimant, the game settings and the
/// duel record, absent once it has been settled.
#[derive(Clone, Copy, Debug)]
pub struct ClaimBetAmount {
    pub winner: AccountKey,
    pub game_config: GameConfig,
    pub pet_duel_account: Option<PetDuel>,
}

impl ClaimBetAmount {
    /// Splits the duel's pot, both sides' stakes, into the game's fee and
    /// the winner's payout.
    pub fn claim(&self) -> (r: Settlement)
        requires
            self.pet_duel_account is Some,
            pot_of(self.pet_duel_account->Some_0.bet_amount) <= u64::MAX,
            self.game_config.wf(),
        ensures
            ({
                let pot = pot_of(self.pet_duel_account->Some_0.bet_amount);
                &&& r.fee == fee_of(pot, self.game_config.fees as int)
                &&& r.payout == pot - fee_of(pot, self.game_config.fees as int)
            }),
    {
        match &self.pet_duel_account {
            Some(d) => payout_split(d.bet_amount * 2, self.game_config.fees),
            None => Settlement { fee: 0, payout: 0 },
        }
    }
}

} // verus!
