use vstd::prelude::*;

verus! {

/// Why an operation of the contract was rejected.
#[derive(Debug, PartialEq)]
pub enum ContractError {
    Unauthorized {},
    Claimed {},
    Expired {},
    FreeLimitExceeded {},
    NotMinter {},
    NotSigner {},
    NotAllSigned {},
    CannotGetExtension {},
    CannotExecuteMsg {},
    ApprovalNotFound { spender: String },
}

} // verus!
