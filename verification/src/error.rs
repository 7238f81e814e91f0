use vstd::prelude::*;

verus! {

/// Why an operation was rejected. A rejected operation leaves the ledger as it
/// was.
#[derive(Clone, Copy, Debug, PartialEq, Eq, Structural)]
pub enum CommitError {
    /// The caller does not hold exactly one unit of the collectible, or the
    /// collectible's registry entry does not name the trusted creator.
    AuthorizationFailure,
    /// A record is already stored at the derived address.
    AlreadyExists,
    /// No record of the expected kind is stored at the derived address.
    NotFound,
    /// The paying account holds less than the amount to be moved.
    InsufficientFunds,
    /// The seeds derive no address for the program.
    InvalidSeeds,
}

impl CommitError {
    /// A short name for the error.
    pub fn message(&self) -> (text: String)
        ensures
            text@ == self.message_spec(),
    {
        match self {
            CommitError::AuthorizationFailure => "authorization failure".to_string(),
            CommitError::AlreadyExists => "record already exists".to_string(),
            CommitError::NotFound => "record not found".to_string(),
            CommitError::InsufficientFunds => "insufficient funds".to_string(),
            CommitError::InvalidSeeds => "seeds derive no address".to_string(),
        }
    }

    pub open spec fn message_spec(&self) -> Seq<char> {
        match self {
            CommitError::AuthorizationFailure => "authorization failure"@,
            CommitError::AlreadyExists => "record already exists"@,
            CommitError::NotFound => "record not found"@,
            CommitError::InsufficientFunds => "insufficient funds"@,
            CommitError::InvalidSeeds => "seeds derive no address"@,
        }
    }
}

} // verus!
