//! The fee policy of the token: a fee rate in percent, a cap on what one
//! transfer may move and a cap on what one wallet may hold.

use vstd::prelude::*;
use crate::account::{AccountId, Balance};
use crate::error::PSP22Error;

verus! {

/// The highest fee rate, in percent.
pub const MAX_FEE: u8 = 100;

/// The fee policy's settings.
#[derive(Clone, Copy, Debug, PartialEq, Eq)]
pub struct Data {
    /// The most that a wallet may hold after it received a transfer.
    pub max_wallet: Balance,
    /// The most that one transfer may move.
    pub max_tx: Balance,
    /// The fee rate in percent of the value transferred.
    pub fee: u8,
}

impl Default for Data {
    /// Settings that let no transfer pass but one of nothing, and take no fee.
    fn default() -> (data: Data)
        ensures
            data == (Data { max_wallet: 0, max_tx: 0, fee: 0 }),
    {
        Data { max_wallet: 0, max_tx: 0, fee: 0 }
    }
}

/// `percent` hundredths of `supply`, rounded down.
pub open spec fn share(supply: Balance, percent: u128) -> int {
    supply * percent / 100
}

impl Data {
    /// The fee rate is a percentage.
    pub open spec fn wf(&self) -> bool {
        self.fee <= MAX_FEE
    }

    /// Tests whether the settings are well formed.
    pub fn is_wf(&self) -> (ok: bool)
        ensures
            ok == self.wf(),
    {
        self.fee <= MAX_FEE
    }

    /// Whether a transfer from `caller` to `to` pays the fee: neither of them
    /// is the burn address.
    pub open spec fn is_taxable(caller: AccountId, to: AccountId) -> bool {
        !to.is_burn() && !caller.is_burn()
    }

    /// The fee on a transfer of `value` from `caller` to `to`: the fee rate's
    /// share of `value`, rounded down, or nothing where the transfer pays no
    /// fee.
    pub open spec fn tax_on(&self, caller: AccountId, to: AccountId, value: Balance) -> int {
        if Self::is_taxable(caller, to) {
            value * self.fee / 100
        } else {
            0
        }
    }

    /// Whether a transfer of `value` to a wallet that holds `to_balance` stays
    /// within both caps.
    pub open spec fn within_caps(&self, value: Balance, to_balance: Balance) -> bool {
        value <= self.max_tx && value + to_balance <= self.max_wallet
    }

    /// The fee is never more than the value it is taken from.
    pub proof fn lemma_tax_bounds(&self, caller: AccountId, to: AccountId, value: Balance)
        requires
            self.wf(),
        ensures
            0 <= self.tax_on(caller, to, value) <= value,
    {
        let fee = self.fee as int;
        let v = value as int;
        assert(0 <= v * fee / 100 <= v) by (nonlinear_arith)
            requires
                0 <= fee <= 100,
                0 <= v,
        ;
    }

    /// Computes the fee on a transfer of `value` from `caller` to `to`.
    pub fn tax(&self, caller: &AccountId, to: &AccountId, value: Balance) -> (tax: Balance)
        requires
            self.wf(),
        ensures
            tax == self.tax_on(*caller, *to, value),
            tax <= value,
    {
        proof {
            self.lemma_tax_bounds(*caller, *to, value);
        }
        let is_tax = !to.is_burn_address() && !caller.is_burn_address();
        if is_tax {
            let fee: u128 = self.fee as u128;
            let hundreds: u128 = value / 100;
            let rest: u128 = value % 100;
            assert(hundreds * fee + (rest * fee) / 100 == value * fee / 100) by (nonlinear_arith)
                requires
                    hundreds == value / 100,
                    rest == value % 100,
                    0 <= fee <= 100,
            ;
            assert(hundreds * fee <= value) by (nonlinear_arith)
                requires
                    hundreds == value / 100,
                    0 <= fee <= 100,
            ;
            assert(rest * fee <= 9900) by (nonlinear_arith)
                requires
                    0 <= rest < 100,
                    0 <= fee <= 100,
            ;
            hundreds * fee + (rest * fee) / 100
        } else {
            0
        }
    }
}

/// The fee policy as the owner of a token contract sets it and anyone reads it.
pub trait Psp22Fee {
    /// The settings that the policy holds.
    spec fn fee_data(&self) -> Data;

    /// The owner of the contract, who alone may change the settings.
    spec fn fee_owner(&self) -> AccountId;

    /// Sets the wallet cap to `max_wallet` percent of `total_supply`, the
    /// supply at this moment, for the owner. The percentage may exceed 100,
    /// but the product of the two must fit the type of amounts.
    fn set_max_wallet(
        &mut self,
        caller: AccountId,
        total_supply: Balance,
        max_wallet: u128,
    ) -> (set: Result<(), PSP22Error>)
        requires
            caller == old(self).fee_owner() ==> total_supply * max_wallet <= u128::MAX,
        ensures
            set is Ok <==> caller == old(self).fee_owner(),
            set is Err ==> set->Err_0.is_custom("O::CallerIsNotOwner"@) && final(self).fee_data()
                == old(self).fee_data(),
            set is Ok ==> final(self).fee_data() == (Data {
                max_wallet: share(total_supply, max_wallet) as Balance,
                ..old(self).fee_data()
            }),
            final(self).fee_owner() == old(self).fee_owner(),
    ;

    /// Sets the transfer cap to `max_tx` percent of `total_supply`, the supply
    /// at this moment, for the owner. The percentage may exceed 100, but the
    /// product of the two must fit the type of amounts.
    fn set_max_tx(&mut self, caller: AccountId, total_supply: Balance, max_tx: u128) -> (set:
        Result<(), PSP22Error>)
        requires
            caller == old(self).fee_owner() ==> total_supply * max_tx <= u128::MAX,
        ensures
            set is Ok <==> caller == old(self).fee_owner(),
            set is Err ==> set->Err_0.is_custom("O::CallerIsNotOwner"@) && final(self).fee_data()
                == old(self).fee_data(),
            set is Ok ==> final(self).fee_data() == (Data {
                max_tx: share(total_supply, max_tx) as Balance,
                ..old(self).fee_data()
            }),
            final(self).fee_owner() == old(self).fee_owner(),
    ;

    /// The wallet cap.
    fn get_max_wallet(&mut self) -> (cap: Balance)
        ensures
            cap == old(self).fee_data().max_wallet,
            final(self).fee_data() == old(self).fee_data(),
            final(self).fee_owner() == old(self).fee_owner(),
    ;

    /// The transfer cap.
    fn get_max_tx(&mut self) -> (cap: Balance)
        ensures
            cap == old(self).fee_data().max_tx,
            final(self).fee_data() == old(self).fee_data(),
            final(self).fee_owner() == old(self).fee_owner(),
    ;

    /// Sets the fee rate to `fee` percent, at most 100, for the owner.
    fn set_fee(&mut self, caller: AccountId, fee: u8) -> (set: Result<(), PSP22Error>)
        requires
            caller == old(self).fee_owner() ==> fee <= MAX_FEE,
        ensures
            set is Ok <==> caller == old(self).fee_owner(),
            set is Err ==> set->Err_0.is_custom("O::CallerIsNotOwner"@) && final(self).fee_data()
                == old(self).fee_data(),
            set is Ok ==> final(self).fee_data() == (Data { fee, ..old(self).fee_data() }),
            final(self).fee_owner() == old(self).fee_owner(),
    ;

    /// The fee rate in percent.
    fn get_fee(&mut self) -> (fee: u8)
        ensures
            fee == old(self).fee_data().fee,
            final(self).fee_data() == old(self).fee_data(),
            final(self).fee_owner() == old(self).fee_owner(),
    ;
}

} // verus!
