//! Account addresses and amounts.

use vstd::prelude::*;
use vstd::std_specs::cmp::PartialEqSpecImpl;

verus! {

/// An amount of the fungible asset, or of the chain's native currency.
pub type Balance = u128;

/// The byte that fills every position of the burn address.
pub const BURN_BYTE: u8 = 255;

/// A 32-byte account address.
#[derive(Clone, Copy, Debug, Eq)]
pub struct AccountId {
    pub bytes: [u8; 32],
}

impl AccountId {
    /// Whether this is the burn address: the address that stands for nobody,
    /// every byte of which is `BURN_BYTE`.
    pub open spec fn is_burn(self) -> bool {
        forall|i: int| 0 <= i < 32 ==> self.bytes[i] == BURN_BYTE
    }

    /// The burn address.
    pub fn burn_address() -> (a: AccountId)
        ensures
            a.is_burn(),
    {
        AccountId { bytes: [BURN_BYTE; 32] }
    }

    /// Tests whether this is the burn address.
    pub fn is_burn_address(&self) -> (r: bool)
        ensures
            r == self.is_burn(),
    {
        let mut i: usize = 0;
        while i < 32
            invariant
                i <= 32,
                forall|j: int| 0 <= j < i ==> self.bytes[j] == BURN_BYTE,
            decreases 32 - i,
        {
            if self.bytes[i] != BURN_BYTE {
                return false;
            }
            i += 1;
        }
        true
    }
}

impl PartialEq for AccountId {
    fn eq(&self, other: &AccountId) -> (r: bool) {
        let mut i: usize = 0;
        while i < 32
            invariant
                i <= 32,
                forall|j: int| 0 <= j < i ==> self.bytes[j] == other.bytes[j],
            decreases 32 - i,
        {
            if self.bytes[i] != other.bytes[i] {
                return false;
            }
            i += 1;
        }
        assert(self.bytes =~= other.bytes);
        true
    }
}

impl PartialEqSpecImpl for AccountId {
    open spec fn obeys_eq_spec() -> bool {
        true
    }

    open spec fn eq_spec(&self, other: &AccountId) -> bool {
        *self == *other
    }
}

} // verus!
