use solapet::error::ErrorCode;
use solapet::key::AccountKey;
use solapet::signature::{verify_ed25519_signature, Ed25519SignatureEntry, SignatureInstruction};

fn program() -> AccountKey {
    AccountKey::new([0x11u8; 32])
}

fn ix(program_id: AccountKey, accounts_len: usize, entries: Vec<Ed25519SignatureEntry>) -> SignatureInstruction {
    SignatureInstruction { program_id, accounts_len, signatures: entries }
}

fn entry(ok: bool, sig: Option<Vec<u8>>) -> Ed25519SignatureEntry {
    Ed25519SignatureEntry { is_verifiable: ok, signature: sig }
}

#[test]
fn accepts_matching_signature() {
    let i = ix(program(), 0, vec![entry(true, Some(vec![1, 2, 3]))]);
    assert_eq!(verify_ed25519_signature(&i, &program(), &[1, 2, 3]), Ok(()));
}

#[test]
fn refuses_each_flaw() {
    let good = || vec![entry(true, Some(vec![1, 2, 3]))];
    let other = AccountKey::new([0x12u8; 32]);
    assert_eq!(verify_ed25519_signature(&ix(other, 0, good()), &program(), &[1, 2, 3]), Err(ErrorCode::Ed25519ProgramIdMismatch));
    assert_eq!(verify_ed25519_signature(&ix(program(), 1, good()), &program(), &[1, 2, 3]), Err(ErrorCode::InstructionAccountLengthNotZero));
    assert_eq!(verify_ed25519_signature(&ix(program(), 0, vec![]), &program(), &[1, 2, 3]), Err(ErrorCode::InvalidSigLength));
    let two = vec![entry(true, Some(vec![1, 2, 3])), entry(true, Some(vec![1, 2, 3]))];
    assert_eq!(verify_ed25519_signature(&ix(program(), 0, two), &program(), &[1, 2, 3]), Err(ErrorCode::InvalidSigLength));
    assert_eq!(verify_ed25519_signature(&ix(program(), 0, vec![entry(false, Some(vec![1, 2, 3]))]), &program(), &[1, 2, 3]), Err(ErrorCode::SignatureNotVerified));
    assert_eq!(verify_ed25519_signature(&ix(program(), 0, vec![entry(true, None)]), &program(), &[1, 2, 3]), Err(ErrorCode::InvalidSig));
    assert_eq!(verify_ed25519_signature(&ix(program(), 0, good()), &program(), &[1, 2, 4]), Err(ErrorCode::InvalidSig));
    assert_eq!(verify_ed25519_signature(&ix(program(), 0, good()), &program(), &[1, 2]), Err(ErrorCode::InvalidSig));
}

#[test]
fn error_messages() {
    assert_eq!(ErrorCode::InsufficientPetEnergy.message(), "Pet needs rest. Wait for energy to replenish.");
    assert_eq!(ErrorCode::UnauthorizedAction.message(), "Unauthorized action.");
}
