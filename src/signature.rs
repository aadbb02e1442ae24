use vstd::prelude::*;

use crate::error::ErrorCode;
use crate::key::AccountKey;

verus! {

/// One signature that an Ed25519 verification instruction carries.
#[derive(Clone, Debug)]
pub struct Ed25519SignatureEntry {
    /// Whether the runtime could check this signature.
    pub is_verifiable: bool,
    /// The signature bytes, when the instruction holds them inline.
    pub signature: Option<Vec<u8>>,
}

/// What the signature check reads of the transaction's first instruction.
#[derive(Clone, Debug)]
pub struct SignatureInstruction {
    pub program_id: AccountKey,
    pub accounts_len: usize,
    pub signatures: Vec<Ed25519SignatureEntry>,
}

/// Why the instruction does not vouch for the signature `sig`, if there is
/// a reason; `ed25519_program` is the address of the verification program.
pub open spec fn signature_refusal(
    ix: SignatureInstruction,
    ed25519_program: AccountKey,
    sig: Seq<u8>,
) -> Option<ErrorCode> {
    if ix.program_id != ed25519_program {
        Some(ErrorCode::Ed25519ProgramIdMismatch)
    } else if ix.accounts_len != 0 {
        Some(ErrorCode::InstructionAccountLengthNotZero)
    } else if ix.signatures@.len() != 1 {
        Some(ErrorCode::InvalidSigLength)
    } else if !ix.signatures@[0].is_verifiable {
        Some(ErrorCode::SignatureNotVerified)
    } else {
        match ix.signatures@[0].signature {
            Some(s) => if s@ == sig {
                None
            } else {
                Some(ErrorCode::InvalidSig)
            },
            None => Some(ErrorCode::InvalidSig),
        }
    }
}

/// Byte-wise comparison of two byte strings.
fn bytes_equal(a: &[u8], b: &[u8]) -> (r: bool)
    ensures
        r == (a@ == b@),
{
    if a.len() != b.len() {
        return false;
    }
    let mut i: usize = 0;
    while i < a.len()
        invariant
            a@.len() == b@.len(),
            0 <= i <= a@.len(),
            forall|j: int| 0 <= j < i ==> a@[j] == b@[j],
        decreases a@.len() - i,
    {
        if a[i] != b[i] {
            return false;
        }
        i = i + 1;
    }
    assert(a@ =~= b@);
    true
}

/// Accepts `sig` only when the instruction is a call of the Ed25519
/// verification program, names no accounts, and carries exactly that one
/// signature, checked by the runtime.
pub fn verify_ed25519_signature(
    ix: &SignatureInstruction,
    ed25519_program: &AccountKey,
    sig: &[u8],
) -> (r: Result<(), ErrorCode>)
    ensures
        match signature_refusal(*ix, *ed25519_program, sig@) {
            Some(e) => r == Err::<(), ErrorCode>(e),
            None => r is Ok,
        },
{
    if !ix.program_id.same_as(ed25519_program) {
        return Err(ErrorCode::Ed25519ProgramIdMismatch);
    }
    if ix.accounts_len != 0 {
        return Err(ErrorCode::InstructionAccountLengthNotZero);
    }
    if ix.signatures.len() != 1 {
        return Err(ErrorCode::InvalidSigLength);
    }
    let entry = &ix.signatures[0];
    if !entry.is_verifiable {
        return Err(ErrorCode::SignatureNotVerified);
    }
    match &entry.signature {
        Some(s) => if bytes_equal(s.as_slice(), sig) {
            Ok(())
        } else {
            Err(ErrorCode::InvalidSig)
        },
        None => Err(ErrorCode::InvalidSig),
    }
}

} // verus!
