//! Errors that end a call.

use vstd::prelude::*;

verus! {

/// Failure of a storage read, of a query, or of encoding an answer.
#[derive(Clone, Copy, Debug, PartialEq, Eq, Structural)]
pub enum RuntimeError {
    /// The queried house is not in the registry.
    HouseNotFound {},
    /// Storage holds no registry record: the contract was never instantiated.
    StateNotFound {},
    /// No owner is recorded under the key that was read.
    OwnerNotFound {},
    /// The answer could not be encoded.
    SerializeErr {},
}

/// Everything that can reject a command.
#[derive(Clone, Copy, Debug, PartialEq, Eq, Structural)]
pub enum ContractError {
    /// A storage or runtime error, passed on unchanged.
    Std(RuntimeError),
    /// Declared for callers; no command raises it.
    Unauthorized {},
    /// The first attached fund entry is missing or below the stake threshold.
    InsufficientFunds {},
    /// The host chain knows no validator under the given address.
    ValidatorDoesNotExist {},
    /// The address is not in the registry.
    RealEstateDoesNotExist {},
}

impl RuntimeError {
    /// The text shown to the caller.
    pub open spec fn spec_message(self) -> Seq<char> {
        match self {
            RuntimeError::HouseNotFound {} => "Generic error: House Not Found in Blockchain"@,
            RuntimeError::StateNotFound {} => "gas_fees_benchmark::state::State not found"@,
            RuntimeError::OwnerNotFound {} => "alloc::string::String not found"@,
            RuntimeError::SerializeErr {} => "Error serializing type alloc::string::String"@,
        }
    }

    /// The text shown to the caller.
    pub fn message(&self) -> (text: String)
        ensures
            text@ == self.spec_message(),
    {
        match self {
            RuntimeError::HouseNotFound {} => {
                "Generic error: House Not Found in Blockchain".to_owned()
            },
            RuntimeError::StateNotFound {} => {
                "gas_fees_benchmark::state::State not found".to_owned()
            },
            RuntimeError::OwnerNotFound {} => "alloc::string::String not found".to_owned(),
            RuntimeError::SerializeErr {} => {
                "Error serializing type alloc::string::String".to_owned()
            },
        }
    }
}

impl ContractError {
    /// The text shown to the caller.
    pub open spec fn spec_message(self) -> Seq<char> {
        match self {
            ContractError::Std(e) => e.spec_message(),
            ContractError::Unauthorized {} => "Unauthorized"@,
            ContractError::InsufficientFunds {} =>
                "The Operation cannot be performed due to insufficient funds"@,
            ContractError::ValidatorDoesNotExist {} =>
                "The Validator does not exist in the Blockchain"@,
            ContractError::RealEstateDoesNotExist {} => "The Real Estate does not Exist"@,
        }
    }

    /// The text shown to the caller.
    pub fn message(&self) -> (text: String)
        ensures
            text@ == self.spec_message(),
    {
        match self {
            ContractError::Std(e) => e.message(),
            ContractError::Unauthorized {} => "Unauthorized".to_owned(),
            ContractError::InsufficientFunds {} =>
                "The Operation cannot be performed due to insufficient funds".to_owned(),
            ContractError::ValidatorDoesNotExist {} =>
                "The Validator does not exist in the Blockchain".to_owned(),
            ContractError::RealEstateDoesNotExist {} => "The Real Estate does not Exist".to_owned(),
        }
    }
}

impl From<RuntimeError> for ContractError {
    fn from(e: RuntimeError) -> (r: ContractError)
    {
        ContractError::Std(e)
    }
}

impl vstd::std_specs::convert::FromSpecImpl<RuntimeError> for ContractError {
    open spec fn obeys_from_spec() -> bool {
        true
    }

    open spec fn from_spec(e: RuntimeError) -> ContractError {
        ContractError::Std(e)
    }
}

} // verus!
