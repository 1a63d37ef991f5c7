//! Taking assets out of the contract's own holdings, for its owner.
//!
//! Each withdrawal is one call to a collaborator outside the contract. The
//! rules decide whether the call is made and with what, and what its outcome
//! means; no state of the contract changes on the way, so a callee that calls
//! back into the contract finds it consistent.

use vstd::prelude::*;
use vstd::string::*;
use crate::account::{AccountId, Balance};
use crate::error::{Error, OwnableError};
use crate::psp34_nft::Psp34Nft;

verus! {

/// A call that moves an asset out of the contract's holdings.
#[derive(Clone, Copy, Debug, PartialEq, Eq)]
pub enum Withdrawal {
    /// Pay `amount` of the contract's collected fees to `receiver`.
    Fee { receiver: AccountId, amount: Balance },
    /// Pay `amount` of the contract's balance to `receiver`, its owner.
    Funds { receiver: AccountId, amount: Balance },
    /// Ask the fungible ledger at `contract` to transfer `amount` to
    /// `receiver`. The ledger may call back into this contract.
    Psp22 { contract: AccountId, receiver: AccountId, amount: Balance, allow_reentry: bool },
    /// Ask the collection at `contract` to transfer its token `id` to
    /// `receiver`. The collection may call back into this contract.
    Nft { contract: AccountId, receiver: AccountId, id: u64, allow_reentry: bool },
}

impl Psp34Nft {
    /// The owner's request to pay `value` of the native currency to
    /// `receiver`, out of the contract's `balance`.
    pub fn withdraw_fee(
        &self,
        caller: AccountId,
        value: Balance,
        receiver: AccountId,
        balance: Balance,
    ) -> (call: Result<Withdrawal, Error>)
        ensures
            call is Ok <==> caller == self.owner && value <= balance,
            call is Ok ==> call->Ok_0 == (Withdrawal::Fee { receiver, amount: value }),
            caller != self.owner ==> call is Err && call->Err_0 == Error::OwnableError(
                OwnableError::CallerIsNotOwner,
            ),
            caller == self.owner && value > balance ==> call is Err && call->Err_0
                == Error::NotEnoughBalance,
    {
        match self.only_owner(caller) {
            Err(e) => {
                return Err(e);
            },
            Ok(()) => {},
        }
        if value > balance {
            return Err(Error::NotEnoughBalance);
        }
        Ok(Withdrawal::Fee { receiver, amount: value })
    }

    /// The owner's request to hand the token `token_id`, which the collection
    /// at `nft_contract_address` holds for this contract, to `receiver`.
    pub fn tranfer_nft(
        &self,
        caller: AccountId,
        nft_contract_address: AccountId,
        token_id: u64,
        receiver: AccountId,
    ) -> (call: Result<Withdrawal, Error>)
        ensures
            call is Ok <==> caller == self.owner,
            call is Ok ==> call->Ok_0 == (Withdrawal::Nft {
                contract: nft_contract_address,
                receiver,
                id: token_id,
                allow_reentry: true,
            }),
            call is Err ==> call->Err_0 == Error::OwnableError(OwnableError::CallerIsNotOwner),
    {
        match self.only_owner(caller) {
            Err(e) => {
                return Err(e);
            },
            Ok(()) => {},
        }
        Ok(
            Withdrawal::Nft {
                contract: nft_contract_address,
                receiver,
                id: token_id,
                allow_reentry: true,
            },
        )
    }

    /// The owner's request to hand `amount` of the fungible asset that the
    /// ledger at `psp22_contract_address` holds for this contract to
    /// `receiver`.
    pub fn tranfer_psp22(
        &self,
        caller: AccountId,
        psp22_contract_address: AccountId,
        amount: Balance,
        receiver: AccountId,
    ) -> (call: Result<Withdrawal, Error>)
        ensures
            call is Ok <==> caller == self.owner,
            call is Ok ==> call->Ok_0 == (Withdrawal::Psp22 {
                contract: psp22_contract_address,
                receiver,
                amount,
                allow_reentry: true,
            }),
            call is Err ==> call->Err_0 == Error::OwnableError(OwnableError::CallerIsNotOwner),
    {
        match self.only_owner(caller) {
            Err(e) => {
                return Err(e);
            },
            Ok(()) => {},
        }
        Ok(
            Withdrawal::Psp22 {
                contract: psp22_contract_address,
                receiver,
                amount,
                allow_reentry: true,
            },
        )
    }

    /// The owner's request to be paid all of the contract's `balance` but the
    /// `minimum_balance` that the contract must keep; nothing where the
    /// balance is below that minimum.
    pub fn withdraw(&self, caller: AccountId, balance: Balance, minimum_balance: Balance) -> (call:
        Result<Withdrawal, Error>)
        ensures
            call is Ok <==> caller == self.owner,
            call is Ok ==> call->Ok_0 == (Withdrawal::Funds {
                receiver: self.owner,
                amount: if balance >= minimum_balance {
                    (balance - minimum_balance) as Balance
                } else {
                    0
                },
            }),
            call is Err ==> call->Err_0 == Error::OwnableError(OwnableError::CallerIsNotOwner),
    {
        match self.only_owner(caller) {
            Err(e) => {
                return Err(e);
            },
            Ok(()) => {},
        }
        let current_balance: Balance = match balance.checked_sub(minimum_balance) {
            Some(rest) => rest,
            None => 0,
        };
        Ok(Withdrawal::Funds { receiver: self.owner, amount: current_balance })
    }
}

impl Withdrawal {
    /// What the outcome of the call means: success where the call was
    /// `delivered`, else the error of the withdrawal's kind.
    pub fn settle(&self, delivered: bool) -> (settled: Result<(), Error>)
        ensures
            settled is Ok <==> delivered,
            !delivered ==> match *self {
                Withdrawal::Fee { .. } => settled->Err_0 == Error::WithdrawFeeError,
                Withdrawal::Funds { .. } => settled->Err_0.is_custom("Withdrawal Failed"@),
                Withdrawal::Psp22 { .. } => settled->Err_0 == Error::WithdrawPSP22Error,
                Withdrawal::Nft { .. } => settled->Err_0 == Error::WithdrawNFTError,
            },
    {
        if delivered {
            return Ok(());
        }
        match self {
            Withdrawal::Fee { .. } => Err(Error::WithdrawFeeError),
            Withdrawal::Funds { .. } => Err(Error::Custom(String::from_str("Withdrawal Failed"))),
            Withdrawal::Psp22 { .. } => Err(Error::WithdrawPSP22Error),
            Withdrawal::Nft { .. } => Err(Error::WithdrawNFTError),
        }
    }
}

} // verus!
