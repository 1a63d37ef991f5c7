//! The token contract: its state, its construction, and the transfer that
//! pays a fee to the contract's owner.

use vstd::prelude::*;
use crate::account::{AccountId, Balance};
use crate::error::{OwnableError, PSP22Error};
use crate::psp22_fee::{share, Data, Psp22Fee, MAX_FEE};

verus! {

/// One move of the fungible asset on the base ledger.
#[derive(Clone, Copy, Debug, PartialEq, Eq)]
pub struct LedgerMove {
    pub from: AccountId,
    pub to: AccountId,
    pub amount: Balance,
}

/// What a transfer that passed the caps asks of the base ledger: two moves out
/// of the sender's balance, the fee first. They stand or fall together: where
/// one fails, neither takes effect.
#[derive(Debug, PartialEq, Eq)]
pub struct TransferPlan {
    /// The fee, for the owner of the contract.
    pub tax: LedgerMove,
    /// The rest of the value, for the recipient.
    pub payment: LedgerMove,
    /// What the sender sent along, handed on with each move.
    pub data: Vec<u8>,
}

/// The state that the rules of a token contract keep.
#[derive(Debug, PartialEq, Eq)]
pub struct Contract {
    /// The owner of the contract, who receives the fees.
    pub owner: AccountId,
    /// The token's name.
    pub name: Option<String>,
    /// The token's symbol.
    pub symbol: Option<String>,
    /// How many decimals the token's amounts are shown with.
    pub decimals: u8,
    /// The fee policy's settings.
    pub psp22_fee: Data,
}

impl Contract {
    /// The fee policy's settings are well formed.
    pub open spec fn wf(&self) -> bool {
        self.psp22_fee.wf()
    }

    /// The fee move of a transfer of `value` from `caller` to `to`.
    pub open spec fn tax_move(
        &self,
        caller: AccountId,
        to: AccountId,
        value: Balance,
    ) -> LedgerMove {
        LedgerMove {
            from: caller,
            to: self.owner,
            amount: self.psp22_fee.tax_on(caller, to, value) as Balance,
        }
    }

    /// The move to the recipient of a transfer of `value` from `caller` to `to`.
    pub open spec fn payment_move(
        &self,
        caller: AccountId,
        to: AccountId,
        value: Balance,
    ) -> LedgerMove {
        LedgerMove {
            from: caller,
            to,
            amount: (value - self.psp22_fee.tax_on(caller, to, value)) as Balance,
        }
    }

    /// A token contract owned by `caller`, with the caps at `max_wallet` and
    /// `max_tx` percent of `initial_supply` and a fee rate of `fee` percent.
    /// The base ledger is to credit `initial_supply` to `caller`. Each
    /// percentage of the supply must be computable: the product has to fit
    /// the type of amounts.
    pub fn new(
        caller: AccountId,
        initial_supply: Balance,
        name: Option<String>,
        symbol: Option<String>,
        decimal: u8,
        max_wallet: u128,
        max_tx: u128,
        fee: u8,
    ) -> (instance: Contract)
        requires
            initial_supply * max_wallet <= u128::MAX,
            initial_supply * max_tx <= u128::MAX,
            fee <= MAX_FEE,
        ensures
            instance.wf(),
            instance.owner == caller,
            instance.name == name,
            instance.symbol == symbol,
            instance.decimals == decimal,
            instance.psp22_fee == (Data {
                max_wallet: share(initial_supply, max_wallet) as Balance,
                max_tx: share(initial_supply, max_tx) as Balance,
                fee,
            }),
    {
        Contract {
            owner: caller,
            name,
            symbol,
            decimals: decimal,
            psp22_fee: Data {
                max_wallet: initial_supply * max_wallet / 100,
                max_tx: initial_supply * max_tx / 100,
                fee,
            },
        }
    }

    /// Lets the owner of the contract pass and nobody else.
    pub fn only_owner(&self, caller: AccountId) -> (allowed: Result<(), PSP22Error>)
        ensures
            allowed is Ok <==> caller == self.owner,
            allowed is Err ==> allowed->Err_0.is_custom("O::CallerIsNotOwner"@),
    {
        if self.owner != caller {
            return Err(PSP22Error::from(OwnableError::CallerIsNotOwner));
        }
        Ok(())
    }

    /// Decides a transfer of `value` from `caller` to `to`, whose balance is
    /// `to_balance`. The transfer is refused where `value` is over the
    /// transfer cap, or where it would lift the recipient's balance over the
    /// wallet cap. Else the two moves to make on the base ledger are returned:
    /// the fee to the owner, the rest to `to`. Nothing changes here.
    pub fn transfer(
        &self,
        caller: AccountId,
        to: AccountId,
        value: Balance,
        data: Vec<u8>,
        to_balance: Balance,
    ) -> (plan: Result<TransferPlan, PSP22Error>)
        requires
            self.wf(),
        ensures
            plan is Ok <==> self.psp22_fee.within_caps(value, to_balance),
            plan is Err ==> plan->Err_0 == PSP22Error::InsufficientBalance,
            value > self.psp22_fee.max_tx ==> plan is Err,
            value + to_balance > self.psp22_fee.max_wallet ==> plan is Err,
            plan is Ok ==> {
                &&& plan->Ok_0.tax == self.tax_move(caller, to, value)
                &&& plan->Ok_0.payment == self.payment_move(caller, to, value)
                &&& plan->Ok_0.data@ == data@
                &&& plan->Ok_0.tax.amount + plan->Ok_0.payment.amount == value
                &&& to_balance + plan->Ok_0.payment.amount <= self.psp22_fee.max_wallet
                &&& !caller.is_burn() && !to.is_burn() ==> plan->Ok_0.tax.amount == value
                    * self.psp22_fee.fee / 100
                &&& caller.is_burn() || to.is_burn() ==> plan->Ok_0.tax.amount == 0
            },
    {
        if value > self.psp22_fee.max_tx {
            return Err(PSP22Error::InsufficientBalance);
        }
        match value.checked_add(to_balance) {
            Some(total) => {
                if total > self.psp22_fee.max_wallet {
                    return Err(PSP22Error::InsufficientBalance);
                }
            },
            None => {
                return Err(PSP22Error::InsufficientBalance);
            },
        }
        let tax = self.psp22_fee.tax(&caller, &to, value);
        Ok(
            TransferPlan {
                tax: LedgerMove { from: caller, to: self.owner, amount: tax },
                payment: LedgerMove { from: caller, to, amount: value - tax },
                data,
            },
        )
    }
}

impl Psp22Fee for Contract {
    open spec fn fee_data(&self) -> Data {
        self.psp22_fee
    }

    open spec fn fee_owner(&self) -> AccountId {
        self.owner
    }

    fn set_max_wallet(
        &mut self,
        caller: AccountId,
        total_supply: Balance,
        max_wallet: u128,
    ) -> (set: Result<(), PSP22Error>)
        ensures
            final(self).same_token(old(self)),
    {
        match self.only_owner(caller) {
            Err(e) => {
                return Err(e);
            },
            Ok(()) => {},
        }
        self.psp22_fee.max_wallet = (total_supply * max_wallet) / 100;
        Ok(())
    }

    fn set_max_tx(&mut self, caller: AccountId, total_supply: Balance, max_tx: u128) -> (set:
        Result<(), PSP22Error>)
        ensures
            final(self).same_token(old(self)),
    {
        match self.only_owner(caller) {
            Err(e) => {
                return Err(e);
            },
            Ok(()) => {},
        }
        self.psp22_fee.max_tx = (total_supply * max_tx) / 100;
        Ok(())
    }

    fn get_max_wallet(&mut self) -> (cap: Balance)
        ensures
            *final(self) == *old(self),
    {
        self.psp22_fee.max_wallet
    }

    fn get_max_tx(&mut self) -> (cap: Balance)
        ensures
            *final(self) == *old(self),
    {
        self.psp22_fee.max_tx
    }

    fn set_fee(&mut self, caller: AccountId, fee: u8) -> (set: Result<(), PSP22Error>)
        ensures
            final(self).same_token(old(self)),
    {
        match self.only_owner(caller) {
            Err(e) => {
                return Err(e);
            },
            Ok(()) => {},
        }
        self.psp22_fee.fee = fee;
        Ok(())
    }

    fn get_fee(&mut self) -> (fee: u8)
        ensures
            *final(self) == *old(self),
    {
        self.psp22_fee.fee
    }
}

impl Contract {
    /// Whether the two are the same token with the same owner, whatever their
    /// fee settings.
    pub open spec fn same_token(&self, other: &Contract) -> bool {
        &&& self.owner == other.owner
        &&& self.name == other.name
        &&& self.symbol == other.symbol
        &&& self.decimals == other.decimals
    }
}

} // verus!
