//! Error taxonomy: validation, authorization, domain-state, monetary and
//! authority errors.  Every error aborts the whole in-progress action with
//! no partial write.

use vstd::prelude::*;

verus! {

#[derive(Debug, Clone, Copy, PartialEq, Eq, Structural)]
pub enum ContractError {
    /// The caller is not the stored contract owner.
    Unauthorized,
    /// No survey is stored under the given identifier.
    SurveyNotFound,
    /// A survey is already stored under the given identifier.
    SurveyAlreadyExists,
    /// The survey was cancelled; no further rewards may be issued.
    SurveyAlreadyCancelled,
    /// Every participant slot of the survey has been rewarded already.
    AllParticipantsRewarded,
    /// The survey and participant batches differ in length.
    ArrayLengthMismatch,
    /// The participant was already rewarded for this survey.
    UserAlreadyRewarded,
    /// The signature does not verify over the recomputed digest.
    InvalidMessageHash,
    /// The single-use proof token was consumed by an earlier action.
    TokenAlreadyUsed,
    /// The proof's expiration has elapsed.
    ProofExpired,
    /// The claimed public key is not an active manager's key.
    InvalidSigner,
    /// The attached funds do not cover the required escrow.
    InvalidTransactionValue,
    /// An escrow computation overflowed.
    ArithmeticError,
    /// The account string is not well-formed.
    InvalidAccount,
    /// The account's prefix differs from the configured one.
    ExpectedPrefixedAccount,
    /// A repeated or empty refund was requested.
    NothingToRefund,
    /// The contract's balance cannot cover the refund.
    InsufficientContractBalance,
    /// No funds were attached where a payment is required.
    NoFunds,
    /// More than one currency was attached.
    MultipleDenoms,
    /// The attached funds are in the wrong currency.
    MissingDenom,
}

} // verus!
