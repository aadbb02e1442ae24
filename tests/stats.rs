use solapet::error::ErrorCode;
use solapet::pet_stats::{decay_stat, PetStats};
use solapet::player_actions::{DepositNft, InteractionType, PetInteract};
use solapet::key::AccountKey;

fn stats(energy: u8, last: i64) -> PetStats {
    PetStats {
        hunger: 100,
        hygiene: 100,
        energy,
        last_fed_timestamp: last,
        last_bathed_timestamp: last,
        last_slept_timestamp: last,
        hunger_decay_from: last,
        hygiene_decay_from: last,
        energy_decay_from: last,
        bump: 7,
    }
}

#[test]
fn decay_at_same_time_is_no_op() {
    assert_eq!(decay_stat(63, 5_000, 5_000, 3600), 63);
    let mut s = stats(63, 5_000);
    assert_eq!(s.update_pet_energy(5_000), 63);
    assert_eq!(s.energy, 63);
}

#[test]
fn decay_with_clock_behind_changes_nothing() {
    assert_eq!(decay_stat(40, 1_000, 9_000, 3600), 40);
    assert_eq!(decay_stat(40, i64::MIN, i64::MAX, 1800), 40);
    let mut s = stats(40, 9_000);
    assert_eq!(s.update_pet_energy(1_000), 40);
}

#[test]
fn decay_one_point_per_period() {
    assert_eq!(decay_stat(100, 7_200, 0, 3600), 98);
    assert_eq!(decay_stat(100, 7_199, 0, 3600), 99);
    assert_eq!(decay_stat(100, 7_200, 0, 1800), 96);
}

#[test]
fn decay_floors_at_zero() {
    assert_eq!(decay_stat(10, 3600 * 11, 0, 3600), 0);
    assert_eq!(decay_stat(100, 3600 * 300, 0, 3600), 0);
    assert_eq!(decay_stat(100, i64::MAX, i64::MIN, 3600), 0);
}

#[test]
fn decay_caps_at_one_hundred() {
    assert_eq!(decay_stat(250, 0, 0, 3600), 100);
    assert_eq!(decay_stat(250, 3600, 0, 3600), 100);
}

#[test]
fn update_pet_stats_uses_each_period() {
    let mut s = stats(100, 0);
    s.update_pet_stats(3600 * 4);
    assert_eq!(s.energy, 96);
    assert_eq!(s.hygiene, 96);
    assert_eq!(s.hunger, 92);
    assert_eq!(s.last_slept_timestamp, 0);
}

#[test]
fn refresh_twice_at_same_clock_commits_same_values() {
    let mut s = stats(100, 0);
    s.update_pet_stats(3600);
    assert_eq!((s.energy, s.hygiene, s.hunger), (99, 99, 98));
    s.update_pet_stats(3600);
    assert_eq!((s.energy, s.hygiene, s.hunger), (99, 99, 98));
    let mut e = stats(100, 0);
    assert_eq!(e.update_pet_energy(3600), 99);
    assert_eq!(e.update_pet_energy(3600), 99);
}

#[test]
fn refresh_keeps_unused_part_of_a_period() {
    let mut s = stats(100, 0);
    assert_eq!(s.update_pet_energy(5_400), 99);
    assert_eq!(s.energy_decay_from, 3_600);
    assert_eq!(s.update_pet_energy(7_200), 98);
    assert_eq!(s.energy_decay_from, 7_200);
    // a clock running behind the anchor changes nothing
    assert_eq!(s.update_pet_energy(100), 98);
    assert_eq!(s.energy_decay_from, 7_200);
}

#[test]
fn sleep_needs_thirty_rest_periods() {
    let mut s = stats(10, 0);
    assert_eq!(s.sleep(900 * 30 - 1), Err(ErrorCode::InsufficientPetEnergy));
    assert_eq!(s.energy, 10);
    assert_eq!(s.last_slept_timestamp, 0);
    assert_eq!(s.sleep(900 * 30), Ok(()));
    assert_eq!(s.energy, 100);
    assert_eq!(s.last_slept_timestamp, 27_000);
    assert_eq!(s.energy_decay_from, 27_000);
    assert_eq!(s.sleep(27_000 + 100), Err(ErrorCode::InsufficientPetEnergy));
}

#[test]
fn feed_and_bath_fill_their_attribute() {
    let mut p = PetInteract { player: AccountKey::new([3u8; 32]), pet_stats: stats(50, 0) };
    p.pet_stats.hunger = 12;
    p.pet_stats.hygiene = 13;
    p.interact(InteractionType::Feed, 500);
    assert_eq!(p.pet_stats.hunger, 100);
    assert_eq!(p.pet_stats.last_fed_timestamp, 500);
    assert_eq!(p.pet_stats.hunger_decay_from, 500);
    assert_eq!(p.pet_stats.hygiene, 13);
    p.interact(InteractionType::Bath, 600);
    assert_eq!(p.pet_stats.hygiene, 100);
    assert_eq!(p.pet_stats.last_bathed_timestamp, 600);
    assert_eq!(p.pet_stats.energy, 50);
}

#[test]
fn new_pet_starts_full() {
    let mut d = DepositNft { player: AccountKey::new([4u8; 32]), pet_stats: stats(0, 0) };
    d.init_pet_stats(9, 1_234);
    assert_eq!(d.pet_stats.hunger, 100);
    assert_eq!(d.pet_stats.hygiene, 100);
    assert_eq!(d.pet_stats.energy, 100);
    assert_eq!(d.pet_stats.last_fed_timestamp, 1_234);
    assert_eq!(d.pet_stats.last_bathed_timestamp, 1_234);
    assert_eq!(d.pet_stats.last_slept_timestamp, 1_234);
    assert_eq!(d.pet_stats.energy_decay_from, 1_234);
    assert_eq!(d.pet_stats.bump, 9);
}
