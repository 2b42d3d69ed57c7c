//! The ways in which a call can fail.
use vstd::prelude::*;

verus! {

/// Why a call was refused. An error aborts the current call only.
#[derive(Clone, Copy, Debug, PartialEq, Eq, Structural)]
pub enum ContractError {
    /// A decimal string did not denote a representable fixed-point number,
    /// or a parameter that must be above zero was not.
    InvalidNumber,
    /// A persisted slot is missing or does not hold what it should.
    StorageDecodeError,
    /// A privileged operation was called by someone other than the administrator.
    Unauthorized,
    /// A query was made before any observation was submitted.
    NoData,
    /// A query was made with no privacy budget left.
    BudgetExhausted,
    /// The arithmetic of the call has no result: a division by zero, a
    /// logarithm that the fixed-point routine cannot take, or a count that
    /// would pass the largest value it can hold.
    Arithmetic,
}

impl ContractError {
    /// The text shown to the caller for this error.
    pub fn message(&self) -> (text: String)
        ensures
            text@ == self.message_text(),
    {
        match self {
            ContractError::InvalidNumber => "Invalid fixed point number string notation".to_string(),
            ContractError::StorageDecodeError => "Key not found in storage".to_string(),
            ContractError::Unauthorized => "Unauthorized".to_string(),
            ContractError::NoData => "No data".to_string(),
            ContractError::BudgetExhausted => "Privacy budget exhausted".to_string(),
            ContractError::Arithmetic => "Arithmetic error".to_string(),
        }
    }

    /// The characters of [`ContractError::message`].
    pub open spec fn message_text(&self) -> Seq<char> {
        match self {
            ContractError::InvalidNumber => "Invalid fixed point number string notation"@,
            ContractError::StorageDecodeError => "Key not found in storage"@,
            ContractError::Unauthorized => "Unauthorized"@,
            ContractError::NoData => "No data"@,
            ContractError::BudgetExhausted => "Privacy budget exhausted"@,
            ContractError::Arithmetic => "Arithmetic error"@,
        }
    }
}

} // verus!
