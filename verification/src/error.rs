//! The errors that end a run.

use vstd::prelude::*;

verus! {

/// Which of the two date arguments a failure is about.
#[derive(Clone, Copy, Debug, PartialEq, Eq, Structural)]
pub enum DateField {
    Start,
    End,
}

/// Why a base58 text is no key or signature.
#[derive(Clone, Copy, Debug, PartialEq, Eq, Structural)]
pub enum DecodeFailure {
    /// The text decodes to another number of bytes than the value has.
    WrongSize,
    /// The text is not base58.
    Invalid,
}

/// Everything that ends a run early.
#[derive(Clone, Copy, Debug, PartialEq, Eq, Structural)]
pub enum AssignmentError {
    /// A date argument is not of the form `YYYY-MM-DD`, or names no day of
    /// the calendar.
    StringToDateParseError(DateField),
    /// The ledger service did not answer a request.
    RpcClientError,
    /// The mint address is no public key.
    PubkeyFromStrError(DecodeFailure),
    /// A signature text is no signature.
    SignatureFromStrError(DecodeFailure),
    /// A signature record has no block time.
    BlockTimeMissing,
    /// A transaction has no metadata.
    EmptyMetaError,
    /// A transaction's metadata does not report its token balances.
    EmptyTokenBalanceError,
    /// A transaction's encoding carries no list of signatures.
    UnableToGetUiTransactionError,
    /// The token balances of a transaction cannot be read.
    UnableToGetTokenBalancesError,
    /// The credited token account has no owner.
    UnableToGetTokenAccountOwnerError,
}

impl AssignmentError {
    /// The sentence shown to the user for this error.
    pub open spec fn message_text(self) -> Seq<char> {
        match self {
            AssignmentError::StringToDateParseError(_) => "Unable to parse the date from String"@,
            AssignmentError::RpcClientError => "Unable to get data"@,
            AssignmentError::PubkeyFromStrError(_) => "Unable to parse pubkey from string"@,
            AssignmentError::SignatureFromStrError(_) => "Unable to parse signature from string"@,
            AssignmentError::BlockTimeMissing => "Block time missing from transaction"@,
            AssignmentError::EmptyMetaError => "Unable to get data out of meta"@,
            AssignmentError::EmptyTokenBalanceError => "Empty token balance"@,
            AssignmentError::UnableToGetUiTransactionError => "Unable to get UiTransaction match arm"@,
            AssignmentError::UnableToGetTokenBalancesError => "Unable to get token balances"@,
            AssignmentError::UnableToGetTokenAccountOwnerError => "Unable to get token account"@,
        }
    }

    /// The sentence shown to the user for this error.
    pub fn message(&self) -> (text: &'static str)
        ensures
            text@ == self.message_text(),
    {
        match self {
            AssignmentError::StringToDateParseError(_) => "Unable to parse the date from String",
            AssignmentError::RpcClientError => "Unable to get data",
            AssignmentError::PubkeyFromStrError(_) => "Unable to parse pubkey from string",
            AssignmentError::SignatureFromStrError(_) => "Unable to parse signature from string",
            AssignmentError::BlockTimeMissing => "Block time missing from transaction",
            AssignmentError::EmptyMetaError => "Unable to get data out of meta",
            AssignmentError::EmptyTokenBalanceError => "Empty token balance",
            AssignmentError::UnableToGetUiTransactionError => "Unable to get UiTransaction match arm",
            AssignmentError::UnableToGetTokenBalancesError => "Unable to get token balances",
            AssignmentError::UnableToGetTokenAccountOwnerError => "Unable to get token account",
        }
    }
}

} // verus!
