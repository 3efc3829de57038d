use vstd::prelude::*;

verus! {

/// How an operation on the registry can fail.
#[derive(Clone, Copy, Debug, PartialEq, Eq, Structural)]
pub enum ContractError {
    /// The caller of a mutation is not the stored owner.
    Unauthorized,
    /// The address validator rejected the address string.
    InvalidAddress,
    /// The queried address has no score record.
    NotFound,
    /// The queried address has a record, but none for the token.
    InvalidKey,
    /// The encoder reported a failure.
    Encoding,
}

impl ContractError {
    /// The message shown to a caller.
    pub fn message(&self) -> (text: String)
        ensures
            text@ == match *self {
                ContractError::Unauthorized => "Unauthorized"@,
                ContractError::InvalidAddress => "invalid address"@,
                ContractError::NotFound => "not found"@,
                ContractError::InvalidKey => "invalid token"@,
                ContractError::Encoding => "serialization failed"@,
            },
    {
        match self {
            ContractError::Unauthorized => "Unauthorized".to_owned(),
            ContractError::InvalidAddress => "invalid address".to_owned(),
            ContractError::NotFound => "not found".to_owned(),
            ContractError::InvalidKey => "invalid token".to_owned(),
            ContractError::Encoding => "serialization failed".to_owned(),
        }
    }
}

} // verus!
