//! Contract code as a test can supply it.

use vstd::prelude::*;

verus! {

/// A compiled contract binary, by where it lies.
#[derive(Debug, Clone, PartialEq, Eq)]
pub enum Artifact {
    /// A file on the local disk.
    Local(String),
}

/// Contract code handed in for registration: an implementation that is
/// already linked into the process, or a reference to a compiled binary.
pub enum ContractType<C> {
    MultiTestContract(C),
    Artifact(Artifact),
}

/// Why contract code was not registered.
#[derive(Debug, Clone, PartialEq, Eq)]
pub enum CodeError {
    /// The code is no in-memory implementation; binaries are never loaded.
    UnsupportedArtifact,
}

impl CodeError {
    /// A one-line description of the error.
    pub fn message(&self) -> (s: String)
        ensures
            s@ == "Artifact not supported for MultiTestRunner"@,
    {
        "Artifact not supported for MultiTestRunner".to_owned()
    }
}

/// What registering `code` does: the implementation to hand to the
/// simulator, or the refusal of anything else.
pub open spec fn registrable<C>(code: ContractType<C>) -> Result<C, CodeError> {
    match code {
        ContractType::MultiTestContract(contract) => Ok(contract),
        ContractType::Artifact(_) => Err(CodeError::UnsupportedArtifact),
    }
}

/// Picks the in-memory implementation out of `code`; every other kind of
/// artifact is refused.
pub fn in_memory_contract<C>(code: ContractType<C>) -> (r: Result<C, CodeError>)
    ensures
        r == registrable(code),
{
    match code {
        ContractType::MultiTestContract(contract) => Ok(contract),
        ContractType::Artifact(_) => Err(CodeError::UnsupportedArtifact),
    }
}

} // verus!
