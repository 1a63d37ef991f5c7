//! Error types returned by the rules of the token and of the collection.

use vstd::prelude::*;
use vstd::std_specs::convert::FromSpecImpl;
use vstd::string::*;

verus! {

/// Failures of the single-owner gate.
#[derive(Clone, Copy, Debug, PartialEq, Eq, Structural)]
pub enum OwnableError {
    CallerIsNotOwner,
    NewOwnerIsZero,
}

/// Failures of role-based access control.
#[derive(Clone, Copy, Debug, PartialEq, Eq, Structural)]
pub enum AccessControlError {
    InvalidCaller,
    MissingRole,
    RoleRedundant,
}

/// The state of a lock that an operation did not expect.
#[derive(Clone, Copy, Debug, PartialEq, Eq, Structural)]
pub enum LockError {
    NotLocked,
    Locked,
}

/// Errors of the fungible token.
#[derive(Debug, PartialEq, Eq)]
pub enum PSP22Error {
    /// A restriction added on top of the base ledger, with its message as bytes.
    Custom(Vec<u8>),
    /// Not enough balance, or a cap on balances or transfers is exceeded.
    InsufficientBalance,
    InsufficientAllowance,
    ZeroRecipientAddress,
    ZeroSenderAddress,
    SafeTransferCheckFailed(Vec<u8>),
}

/// Errors of the non-fungible collection's base ledger.
#[derive(Debug, PartialEq, Eq)]
pub enum PSP34Error {
    /// A restriction added on top of the base ledger, with its message as bytes.
    Custom(Vec<u8>),
    SelfApprove,
    NotApproved,
    TokenExists,
    TokenNotExists,
    SafeTransferCheckFailed(Vec<u8>),
}

/// Errors of the collection's rules and of its administration.
#[derive(Debug, PartialEq, Eq)]
pub enum Error {
    Custom(String),
    OnlyOwner,
    OnlyAdmin,
    InvalidCaller,
    InvalidFee,
    TokenOwnerNotMatch,
    NotApproved,
    CannotTransfer,
    CannotMint,
    NotPublicMint,
    NotEnoughBalance,
    MaxSupply,
    AlreadyInit,
    NotOwner,
    NotTokenOwner,
    ProjectNotExist,
    ProjectOwnerAndAdmin,
    InvalidStartTimeAndEndTime,
    InvalidPhaseCount,
    CollectionOwnerAndAdmin,
    CollectionNotActive,
    InvalidInput,
    InvalidType,
    ClaimedAll,
    TokenLimitReached,
    UpdatePhase,
    PhaseNotExist,
    PhaseExpired,
    PhaseDeactivate,
    WhitelistNotExist,
    WithdrawFeeError,
    WithdrawNFTError,
    WithdrawPSP22Error,
    NotListed,
    BidAlreadyExist,
    BidNotExist,
    NotInMarket,
    NotForSale,
    NotInSaleList,
    InvalidBidLength,
    InvalidCollectionOwner,
    InvalidTime,
    RewardStarted,
    RewardNotStarted,
    ClaimMustBeFalse,
    OwnableError(OwnableError),
    AccessControlError(AccessControlError),
}

impl Error {
    /// Whether this is the `Custom` error that carries exactly `text`.
    pub open spec fn is_custom(self, text: Seq<char>) -> bool {
        self matches Error::Custom(message) && message@ == text
    }
}

impl PSP22Error {
    /// Whether this is the `Custom` error whose message is `text` in UTF-8.
    pub open spec fn is_custom(self, text: Seq<char>) -> bool {
        self matches PSP22Error::Custom(message) && message@ == vstd::utf8::encode_utf8(text)
    }
}

impl PSP34Error {
    /// Whether this is the `Custom` error whose message is `text` in UTF-8.
    pub open spec fn is_custom(self, text: Seq<char>) -> bool {
        self matches PSP34Error::Custom(message) && message@ == vstd::utf8::encode_utf8(text)
    }
}

/// What a lock error reads as when it is reported as a custom error.
pub open spec fn lock_error_text(locked: LockError) -> Seq<char> {
    match locked {
        LockError::Locked => "O::Locked"@,
        LockError::NotLocked => "O::NotLocked"@,
    }
}

/// What an ownership error reads as when a ledger reports it as a custom error.
pub open spec fn ownable_error_text(ownable: OwnableError) -> Seq<char> {
    match ownable {
        OwnableError::CallerIsNotOwner => "O::CallerIsNotOwner"@,
        OwnableError::NewOwnerIsZero => "O::NewOwnerIsZero"@,
    }
}

impl From<OwnableError> for Error {
    fn from(ownable: OwnableError) -> (e: Error) {
        Error::OwnableError(ownable)
    }
}

impl FromSpecImpl<OwnableError> for Error {
    open spec fn obeys_from_spec() -> bool {
        true
    }

    open spec fn from_spec(ownable: OwnableError) -> Error {
        Error::OwnableError(ownable)
    }
}

impl From<AccessControlError> for Error {
    fn from(access: AccessControlError) -> (e: Error) {
        Error::AccessControlError(access)
    }
}

impl FromSpecImpl<AccessControlError> for Error {
    open spec fn obeys_from_spec() -> bool {
        true
    }

    open spec fn from_spec(access: AccessControlError) -> Error {
        Error::AccessControlError(access)
    }
}

impl From<LockError> for Error {
    /// A lock error as a custom error with its text.
    fn from(locked: LockError) -> (e: Error)
        ensures
            e.is_custom(lock_error_text(locked)),
    {
        match locked {
            LockError::Locked => Error::Custom(String::from_str("O::Locked")),
            LockError::NotLocked => Error::Custom(String::from_str("O::NotLocked")),
        }
    }
}

/// The result holds a text, which no specification can build: the conversion
/// is described by the postcondition of `from` and not by `from_spec`.
impl FromSpecImpl<LockError> for Error {
    open spec fn obeys_from_spec() -> bool {
        false
    }

    open spec fn from_spec(locked: LockError) -> Error {
        arbitrary()
    }
}

impl From<OwnableError> for PSP22Error {
    /// An ownership error as a custom error with its text.
    fn from(ownable: OwnableError) -> (e: PSP22Error)
        ensures
            e.is_custom(ownable_error_text(ownable)),
    {
        match ownable {
            OwnableError::CallerIsNotOwner => PSP22Error::Custom(
                "O::CallerIsNotOwner".as_bytes_vec(),
            ),
            OwnableError::NewOwnerIsZero => PSP22Error::Custom("O::NewOwnerIsZero".as_bytes_vec()),
        }
    }
}

/// The result holds a message, which no specification can build: the
/// conversion is described by the postcondition of `from` and not by
/// `from_spec`.
impl FromSpecImpl<OwnableError> for PSP22Error {
    open spec fn obeys_from_spec() -> bool {
        false
    }

    open spec fn from_spec(ownable: OwnableError) -> PSP22Error {
        arbitrary()
    }
}

} // verus!
