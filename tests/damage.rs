use solapet::damage::{gen_number, roll_from_digest, DAMAGE_CAP};

#[test]
fn damage_is_deterministic_and_bounded() {
    for sig in [&b""[..], &b"abc"[..], &[0xffu8; 64][..], &[7u8; 3][..]] {
        let a = gen_number(sig, DAMAGE_CAP);
        let b = gen_number(sig, DAMAGE_CAP);
        assert_eq!(a, b);
        assert!(a >= 1 && a <= 40);
    }
}

#[test]
fn damage_of_known_signatures() {
    assert_eq!(gen_number(b"", 40), 35);
    assert_eq!(gen_number(b"abc", 40), 11);
    assert_eq!(gen_number(b"duel-signature-one", 40), 15);
    assert_eq!(gen_number(b"duel-signature-two", 40), 16);
}

#[test]
fn damage_with_cap_one_is_one() {
    assert_eq!(gen_number(b"abc", 1), 1);
}

#[test]
fn roll_adds_halves_with_wraparound() {
    let mut d = [0u8; 32];
    assert_eq!(roll_from_digest(&d, 40), 1);
    d[0] = 45;
    assert_eq!(roll_from_digest(&d, 40), 6);
    d[16] = 1;
    assert_eq!(roll_from_digest(&d, 40), 7);
    let ones = [0xffu8; 32];
    // (2^128 - 1) * 2 wraps to 2^128 - 2
    assert_eq!(roll_from_digest(&ones, 40), ((u128::MAX - 1) % 40) as u8 + 1);
    assert_eq!(roll_from_digest(&ones, 255), ((u128::MAX - 1) % 255) as u8 + 1);
}
