use vstd::prelude::*;

use crate::error::ErrorCode;

verus! {

/// The largest value an attribute can hold.
pub const MAX_STAT: u8 = 100;

/// Seconds for energy to drop by one point.
pub const ENERGY_DECAY_SECS: i64 = 3600;

/// Seconds for hygiene to drop by one point.
pub const HYGIENE_DECAY_SECS: i64 = 3600;

/// Seconds for hunger to drop by one point.
pub const HUNGER_DECAY_SECS: i64 = 1800;

/// Length of one rest period, in seconds.
pub const REST_PERIOD_SECS: i64 = 900;

/// Rest periods that must pass between two sleeps.
pub const MIN_REST_PERIODS: i64 = 30;

/// Whole decay periods of `period` seconds from `last` to `now`; none when
/// the clock has not moved past `last`.
pub open spec fn elapsed_periods(now: i64, last: i64, period: int) -> int {
    if now <= last {
        0
    } else {
        (now - last) / period
    }
}

/// An attribute of `value` after decaying one point per `period` seconds
/// from `last` to `now`: floored at zero and capped at the maximum.
pub open spec fn decayed(value: u8, now: i64, last: i64, period: int) -> u8 {
    let d = elapsed_periods(now, last, period);
    if d >= value {
        0
    } else if value - d > MAX_STAT {
        MAX_STAT
    } else {
        (value - d) as u8
    }
}

/// Decays `value` by one point per `period` seconds elapsed from `last` to
/// `now`, without going below zero or above the maximum.
pub fn decay_stat(value: u8, now: i64, last: i64, period: i64) -> (r: u8)
    requires
        period > 0,
    ensures
        r == decayed(value, now, last, period as int),
        r <= MAX_STAT,
{
    if now <= last {
        return if value > MAX_STAT {
            MAX_STAT
        } else {
            value
        };
    }
    let elapsed: i128 = now as i128 - last as i128;
    let delta: i128 = elapsed / (period as i128);
    if delta >= value as i128 {
        0
    } else {
        let left: u8 = (value as i128 - delta) as u8;
        if left > MAX_STAT {
            MAX_STAT
        } else {
            left
        }
    }
}

/// Decay keeps an attribute within `[0, 100]`, and a clock that has not
/// moved past the last action leaves a valid attribute as it was.
pub proof fn lemma_decay_bounds(value: u8, now: i64, last: i64, period: int)
    requires
        period > 0,
    ensures
        0 <= decayed(value, now, last, period) <= MAX_STAT,
        now <= last && value <= MAX_STAT ==> decayed(value, now, last, period) == value,
{
}

/// Where decay counts from after the whole periods from `last` to `now`
/// have been taken: `last` moved forward by those periods, so that the part
/// of a period not yet used still counts.
pub open spec fn decay_anchor(now: i64, last: i64, period: int) -> int {
    last + elapsed_periods(now, last, period) * period
}

/// A refresh at `now` leaves less than one period between its anchor and
/// `now`, so a second refresh at `now` takes no further period.
pub proof fn lemma_anchor_spent(now: i64, last: i64, period: int)
    requires
        period > 0,
    ensures
        last <= decay_anchor(now, last, period),
        now <= last ==> decay_anchor(now, last, period) == last,
        now > last ==> decay_anchor(now, last, period) <= now && now - decay_anchor(
            now,
            last,
            period,
        ) < period,
{
    if now > last {
        let e: int = now - last;
        assert(0 <= e / period * period <= e && e - e / period * period < period)
            by (nonlinear_arith)
            requires
                e > 0,
                period > 0,
        ;
    }
}

/// The anchor that decay counts from once `now` has been taken into account.
pub fn advance_anchor(now: i64, last: i64, period: i64) -> (r: i64)
    requires
        period > 0,
    ensures
        r == decay_anchor(now, last, period as int),
{
    proof {
        lemma_anchor_spent(now, last, period as int);
    }
    if now <= last {
        return last;
    }
    let elapsed: i128 = now as i128 - last as i128;
    let periods: i128 = elapsed / (period as i128);
    assert(periods * period <= elapsed) by (nonlinear_arith)
        requires
            periods == elapsed / (period as i128),
            elapsed > 0,
            period > 0,
    ;
    (last as i128 + periods * (period as i128)) as i64
}

/// Whether at least the minimum number of rest periods has passed from
/// `last` to `now`.
pub open spec fn rested(now: i64, last: i64) -> bool {
    elapsed_periods(now, last, REST_PERIOD_SECS as int) >= MIN_REST_PERIODS
}

/// The attributes of a player's pet, when each was last restored, and the
/// moment from which each one's decay is counted.
#[derive(Clone, Copy, Debug)]
pub struct PetStats {
    pub hunger: u8,
    pub hygiene: u8,
    pub energy: u8,
    pub last_fed_timestamp: i64,
    pub last_bathed_timestamp: i64,
    pub last_slept_timestamp: i64,
    /// Hunger decays from here; moved forward by each refresh.
    pub hunger_decay_from: i64,
    /// Hygiene decays from here; moved forward by each refresh.
    pub hygiene_decay_from: i64,
    /// Energy decays from here; moved forward by each refresh.
    pub energy_decay_from: i64,
    pub bump: u8,
}

impl PetStats {
    /// Every attribute lies in `[0, 100]`.
    pub open spec fn wf(&self) -> bool {
        &&& self.hunger <= MAX_STAT
        &&& self.hygiene <= MAX_STAT
        &&& self.energy <= MAX_STAT
    }

    /// A fresh pet at time `now`: every attribute full, every timestamp `now`.
    pub fn new(now: i64, bump: u8) -> (r: PetStats)
        ensures
            r == (PetStats {
                hunger: MAX_STAT,
                hygiene: MAX_STAT,
                energy: MAX_STAT,
                last_fed_timestamp: now,
                last_bathed_timestamp: now,
                last_slept_timestamp: now,
                hunger_decay_from: now,
                hygiene_decay_from: now,
                energy_decay_from: now,
                bump,
            }),
            r.wf(),
    {
        PetStats {
            hunger: MAX_STAT,
            hygiene: MAX_STAT,
            energy: MAX_STAT,
            last_fed_timestamp: now,
            last_bathed_timestamp: now,
            last_slept_timestamp: now,
            hunger_decay_from: now,
            hygiene_decay_from: now,
            energy_decay_from: now,
            bump,
        }
    }

    /// Fills hunger and records the meal at `now`.
    pub fn feed(&mut self, now: i64)
        ensures
            *final(self) == (PetStats {
                hunger: MAX_STAT,
                last_fed_timestamp: now,
                hunger_decay_from: now,
                ..*old(self)
            }),
    {
        self.hunger = MAX_STAT;
        self.last_fed_timestamp = now;
        self.hunger_decay_from = now;
    }

    /// Fills hygiene and records the bath at `now`.
    pub fn bath(&mut self, now: i64)
        ensures
            *final(self) == (PetStats {
                hygiene: MAX_STAT,
                last_bathed_timestamp: now,
                hygiene_decay_from: now,
                ..*old(self)
            }),
    {
        self.hygiene = MAX_STAT;
        self.last_bathed_timestamp = now;
        self.hygiene_decay_from = now;
    }

    /// Fills energy and records the sleep at `now`, provided the pet has
    /// rested long enough since it last slept.
    pub fn sleep(&mut self, now: i64) -> (r: Result<(), ErrorCode>)
        ensures
            rested(now, old(self).last_slept_timestamp) ==> r is Ok && *final(self) == (PetStats {
                energy: MAX_STAT,
                last_slept_timestamp: now,
                energy_decay_from: now,
                ..*old(self)
            }),
            !rested(now, old(self).last_slept_timestamp) ==> r == Err::<(), ErrorCode>(
                ErrorCode::InsufficientPetEnergy,
            ) && *final(self) == *old(self),
    {
        let periods: i128 = if now <= self.last_slept_timestamp {
            0
        } else {
            (now as i128 - self.last_slept_timestamp as i128) / (REST_PERIOD_SECS as i128)
        };
        if periods < MIN_REST_PERIODS as i128 {
            return Err(ErrorCode::InsufficientPetEnergy);
        }
        self.energy = MAX_STAT;
        self.last_slept_timestamp = now;
        self.energy_decay_from = now;
        Ok(())
    }

    /// Energy as it stands at `now`.
    pub open spec fn energy_at(&self, now: i64) -> u8 {
        decayed(self.energy, now, self.energy_decay_from, ENERGY_DECAY_SECS as int)
    }

    /// Hygiene as it stands at `now`.
    pub open spec fn hygiene_at(&self, now: i64) -> u8 {
        decayed(self.hygiene, now, self.hygiene_decay_from, HYGIENE_DECAY_SECS as int)
    }

    /// Hunger as it stands at `now`.
    pub open spec fn hunger_at(&self, now: i64) -> u8 {
        decayed(self.hunger, now, self.hunger_decay_from, HUNGER_DECAY_SECS as int)
    }

    /// The record once energy is brought up to `now`.
    pub open spec fn spec_energy_refreshed(self, now: i64) -> PetStats {
        PetStats {
            energy: self.energy_at(now),
            energy_decay_from: decay_anchor(
                now,
                self.energy_decay_from,
                ENERGY_DECAY_SECS as int,
            ) as i64,
            ..self
        }
    }

    /// The record once hygiene is brought up to `now`.
    pub open spec fn spec_hygiene_refreshed(self, now: i64) -> PetStats {
        PetStats {
            hygiene: self.hygiene_at(now),
            hygiene_decay_from: decay_anchor(
                now,
                self.hygiene_decay_from,
                HYGIENE_DECAY_SECS as int,
            ) as i64,
            ..self
        }
    }

    /// The record once hunger is brought up to `now`.
    pub open spec fn spec_hunger_refreshed(self, now: i64) -> PetStats {
        PetStats {
            hunger: self.hunger_at(now),
            hunger_decay_from: decay_anchor(
                now,
                self.hunger_decay_from,
                HUNGER_DECAY_SECS as int,
            ) as i64,
            ..self
        }
    }

    /// The record once all three attributes are brought up to `now`.
    pub open spec fn spec_stats_refreshed(self, now: i64) -> PetStats {
        self.spec_energy_refreshed(now).spec_hygiene_refreshed(now).spec_hunger_refreshed(now)
    }

    /// Energy as it stands at `now`, without storing it.
    pub fn current_energy(&self, now: i64) -> (r: u8)
        ensures
            r == self.energy_at(now),
    {
        decay_stat(self.energy, now, self.energy_decay_from, ENERGY_DECAY_SECS)
    }

    /// Stores and returns energy as it stands at `now`.
    pub fn update_pet_energy(&mut self, now: i64) -> (r: u8)
        ensures
            r == old(self).energy_at(now),
            *final(self) == old(self).spec_energy_refreshed(now),
            final(self).energy_at(now) == final(self).energy,
    {
        proof {
            lemma_anchor_spent(now, self.energy_decay_from, ENERGY_DECAY_SECS as int);
        }
        self.energy = decay_stat(self.energy, now, self.energy_decay_from, ENERGY_DECAY_SECS);
        self.energy_decay_from = advance_anchor(now, self.energy_decay_from, ENERGY_DECAY_SECS);
        self.energy
    }

    /// Stores and returns hygiene as it stands at `now`.
    pub fn update_pet_hygiene(&mut self, now: i64) -> (r: u8)
        ensures
            r == old(self).hygiene_at(now),
            *final(self) == old(self).spec_hygiene_refreshed(now),
            final(self).hygiene_at(now) == final(self).hygiene,
    {
        proof {
            lemma_anchor_spent(now, self.hygiene_decay_from, HYGIENE_DECAY_SECS as int);
        }
        self.hygiene = decay_stat(
            self.hygiene,
            now,
            self.hygiene_decay_from,
            HYGIENE_DECAY_SECS,
        );
        self.hygiene_decay_from = advance_anchor(
            now,
            self.hygiene_decay_from,
            HYGIENE_DECAY_SECS,
        );
        self.hygiene
    }

    /// Stores and returns hunger as it stands at `now`.
    pub fn update_pet_hunger(&mut self, now: i64) -> (r: u8)
        ensures
            r == old(self).hunger_at(now),
            *final(self) == old(self).spec_hunger_refreshed(now),
            final(self).hunger_at(now) == final(self).hunger,
    {
        proof {
            lemma_anchor_spent(now, self.hunger_decay_from, HUNGER_DECAY_SECS as int);
        }
        self.hunger = decay_stat(self.hunger, now, self.hunger_decay_from, HUNGER_DECAY_SECS);
        self.hunger_decay_from = advance_anchor(now, self.hunger_decay_from, HUNGER_DECAY_SECS);
        self.hunger
    }

    /// Brings all three attributes up to `now`.
    pub fn update_pet_stats(&mut self, now: i64)
        ensures
            *final(self) == old(self).spec_stats_refreshed(now),
            final(self).energy == old(self).energy_at(now),
            final(self).hygiene == old(self).hygiene_at(now),
            final(self).hunger == old(self).hunger_at(now),
            final(self).wf(),
            final(self).spec_stats_refreshed(now) == *final(self),
    {
        self.update_pet_energy(now);
        self.update_pet_hygiene(now);
        self.update_pet_hunger(now);
        proof {
            lemma_refresh_repeatable(*old(self), now);
        }
    }
}

/// Refreshing the attributes twice at the same clock commits the same
/// record as refreshing them once.
pub proof fn lemma_refresh_repeatable(s: PetStats, now: i64)
    ensures
        s.spec_stats_refreshed(now).spec_stats_refreshed(now) == s.spec_stats_refreshed(now),
{
    let r = s.spec_stats_refreshed(now);
    lemma_anchor_spent(now, s.energy_decay_from, ENERGY_DECAY_SECS as int);
    lemma_anchor_spent(now, s.hygiene_decay_from, HYGIENE_DECAY_SECS as int);
    lemma_anchor_spent(now, s.hunger_decay_from, HUNGER_DECAY_SECS as int);
    lemma_anchor_spent(now, r.energy_decay_from, ENERGY_DECAY_SECS as int);
    lemma_anchor_spent(now, r.hygiene_decay_from, HYGIENE_DECAY_SECS as int);
    lemma_anchor_spent(now, r.hunger_decay_from, HUNGER_DECAY_SECS as int);
}

} // verus!
