use vstd::prelude::*;

verus! {

/// A 32-byte ledger address: a player, a mint, a vault or a program.
#[derive(Clone, Copy, Debug)]
pub struct AccountKey {
    pub bytes: [u8; 32],
}

impl AccountKey {
    pub fn new(bytes: [u8; 32]) -> (r: AccountKey)
        ensures
            r.bytes == bytes,
    {
        AccountKey { bytes }
    }

    /// Whether every byte of the address is zero.
    pub open spec fn is_zero(&self) -> bool {
        forall|i: int| 0 <= i < 32 ==> self.bytes[i] == 0
    }

    /// The all-zero address, which the ledger uses as the default key.
    pub fn zeroed() -> (r: AccountKey)
        ensures
            r.is_zero(),
    {
        AccountKey { bytes: [0u8; 32] }
    }

    /// Byte-wise comparison of two addresses.
    pub fn same_as(&self, other: &AccountKey) -> (r: bool)
        ensures
            r == (*self == *other),
    {
        let mut i: usize = 0;
        while i < 32
            invariant
                0 <= i <= 32,
                forall|j: int| 0 <= j < i ==> self.bytes[j] == other.bytes[j],
            decreases 32 - i,
        {
            if self.bytes[i] != other.bytes[i] {
                return false;
            }
            i = i + 1;
        }
        assert(self.bytes =~= other.bytes);
        true
    }
}

} // verus!
