//! The program's own error kinds and the reasons a registration is aborted.

use vstd::prelude::*;

verus! {

/// First number of the range in which the program's own errors are reported.
pub const ERROR_CODE_OFFSET: u32 = 6000;

/// The program's own error kinds. Each has a fixed number and a fixed
/// message, so that a client can branch on the kind.
#[derive(Clone, Copy, Debug, PartialEq, Eq, Structural)]
pub enum ErrorCode {
    /// The username is longer than the record has room for.
    UsernameTooLong,
}

impl ErrorCode {
    /// The number under which the error kind is reported.
    pub open spec fn spec_code(self) -> u32 {
        match self {
            ErrorCode::UsernameTooLong => 6000,
        }
    }

    /// The number under which the error kind is reported.
    pub fn code(&self) -> (n: u32)
        ensures
            n == self.spec_code(),
            n >= ERROR_CODE_OFFSET,
    {
        match self {
            ErrorCode::UsernameTooLong => ERROR_CODE_OFFSET,
        }
    }

    /// The name of the error kind.
    pub open spec fn spec_name(self) -> Seq<char> {
        match self {
            ErrorCode::UsernameTooLong => "UsernameTooLong"@,
        }
    }

    /// The name of the error kind.
    pub fn name(&self) -> (s: String)
        ensures
            s@ == self.spec_name(),
    {
        match self {
            ErrorCode::UsernameTooLong => "UsernameTooLong".to_string(),
        }
    }

    /// The fixed message of the error kind.
    pub open spec fn spec_message(self) -> Seq<char> {
        match self {
            ErrorCode::UsernameTooLong => "Username is too long (max 50 characters)"@,
        }
    }

    /// The fixed message of the error kind.
    pub fn message(&self) -> (s: String)
        ensures
            s@ == self.spec_message(),
    {
        match self {
            ErrorCode::UsernameTooLong => "Username is too long (max 50 characters)".to_string(),
        }
    }
}

/// The outside work of a registration, in the order in which it is done.
#[derive(Clone, Copy, Debug, PartialEq, Eq, Structural)]
pub enum Step {
    /// Allocate the identity record at its derived address.
    Allocate,
    /// Write the identity record into its account.
    Store,
    /// Mint the one unit of the token into the authority's holding account.
    Mint,
    /// Create the metadata record of the mint.
    Metadata,
    /// Create the supply-lock record of the mint.
    SupplyLock,
}

/// The accounts whose addresses are derived.
#[derive(Clone, Copy, Debug, PartialEq, Eq, Structural)]
pub enum Derived {
    /// The identity record.
    Identity,
    /// The metadata record.
    Metadata,
    /// The supply-lock record.
    MasterEdition,
}

/// Why a registration whose input was accepted did not take place.
#[derive(Clone, Copy, Debug, PartialEq, Eq, Structural)]
pub enum Failure {
    /// No bump seed yields an address for the account.
    NoAddress(Derived),
    /// The account that was named is not at the derived address.
    WrongAddress(Derived),
    /// The outside work of a step failed, for the reason that the one who
    /// did it gave; at `Step::Allocate` this is an address already in use.
    Rejected { step: Step, code: u64 },
    /// The record does not fit the space reserved for it.
    RecordTooLarge,
}

} // verus!
