//! The ways in which a request fails.

use vstd::prelude::*;

verus! {

/// The first code that this program gives to a failure of its own.
pub const ERROR_CODE_OFFSET: u32 = 6000;

/// A rule of the faucet that a request broke.
#[derive(Clone, Copy, Debug, PartialEq, Eq, Structural)]
pub enum ErrorCode {
    /// The caller is not the administrator of the configuration record.
    InvalidAdmin,
    /// The source account cannot spare the amount.
    InsufficientBalance,
    /// The caller is not the owner of the quota record.
    InvalidUserPDA,
    /// The amount would take the caller beyond the daily ceiling.
    RequestTooManyFunds,
}

impl ErrorCode {
    /// The number under which a client sees this failure, in contracts.
    pub open spec fn spec_code(self) -> u32 {
        match self {
            ErrorCode::InvalidAdmin => 6000,
            ErrorCode::InsufficientBalance => 6001,
            ErrorCode::InvalidUserPDA => 6002,
            ErrorCode::RequestTooManyFunds => 6003,
        }
    }

    /// The number under which a client sees this failure.
    pub fn code(&self) -> (r: u32)
        ensures
            r == self.spec_code(),
    {
        match self {
            ErrorCode::InvalidAdmin => ERROR_CODE_OFFSET,
            ErrorCode::InsufficientBalance => ERROR_CODE_OFFSET + 1,
            ErrorCode::InvalidUserPDA => ERROR_CODE_OFFSET + 2,
            ErrorCode::RequestTooManyFunds => ERROR_CODE_OFFSET + 3,
        }
    }

    /// The failure in words.
    pub fn message(&self) -> (r: &'static str)
        ensures
            r@ == match *self {
                ErrorCode::InvalidAdmin => "Global state admin does not match the payer"@,
                ErrorCode::InsufficientBalance => "Source account doesn't have enough fund to transfer the amount"@,
                ErrorCode::InvalidUserPDA => "User pool PDA owner does not match with payer"@,
                ErrorCode::RequestTooManyFunds => "Request too many funds more than max daily amount"@,
            },
    {
        match self {
            ErrorCode::InvalidAdmin => "Global state admin does not match the payer",
            ErrorCode::InsufficientBalance => "Source account doesn't have enough fund to transfer the amount",
            ErrorCode::InvalidUserPDA => "User pool PDA owner does not match with payer",
            ErrorCode::RequestTooManyFunds => "Request too many funds more than max daily amount",
        }
    }
}

/// Distinct failures have distinct codes.
pub proof fn lemma_codes_distinct(a: ErrorCode, b: ErrorCode)
    ensures
        a.spec_code() == b.spec_code() <==> a == b,
{
}

/// A refusal by the ledger that executes the request.
#[derive(Clone, Copy, Debug, PartialEq, Eq, Structural)]
pub enum ProgramError {
    /// The record to create exists already.
    AccountAlreadyInitialized,
    /// The seeds handed over derive no address.
    InvalidSeeds,
    /// The source of a transfer is not the address that the seeds derive.
    MissingRequiredSignature,
    /// The source of a transfer holds less than the amount.
    InsufficientFunds,
    /// The destination's balance would pass the largest balance there is.
    ArithmeticOverflow,
}

/// Why a request was rejected.
#[derive(Clone, Copy, Debug, PartialEq, Eq, Structural)]
pub enum Error {
    /// A rule of the faucet was broken.
    Faucet(ErrorCode),
    /// The ledger refused.
    Ledger(ProgramError),
}

} // verus!
