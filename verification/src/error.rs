//! The ways in which a request is rejected.

use vstd::prelude::*;
use vstd::string::StringExecFns;

verus! {

/// `cosmwasm_std::StdError`, the error of the host's queries: carried through
/// unread.
#[verifier::external_type_specification]
#[verifier::external_body]
pub struct ExStdError(cosmwasm_std::StdError);

/// Why a request was rejected.
#[derive(Debug, PartialEq)]
pub enum ContractError {
    /// The caller may not change the configuration.
    Unauthorized,
    /// The request is malformed; the text says how.
    InvalidInput(String),
    /// A query of the host failed; its error is handed on as it came.
    Std(cosmwasm_std::StdError),
    /// The offered amount does not cover the ticket price.
    InvalidFunds,
}

/// Calls `to_string` on a `cosmwasm_std::StdError`, which writes the error
/// as its `Display` does. Nothing is claimed of the text.
#[verifier::external_body]
fn std_error_text(error: &cosmwasm_std::StdError) -> (r: String) {
    error.to_string()
}

impl ContractError {
    /// Whether this is the given kind of malformed request.
    pub open spec fn is_invalid_input(&self, text: Seq<char>) -> bool {
        *self matches ContractError::InvalidInput(t) && t@ == text
    }

    /// The message that the caller is shown.
    pub fn message(&self) -> (r: String)
        ensures
            *self is Unauthorized ==> r@ == "Unauthorized"@,
            *self matches ContractError::InvalidInput(t) ==> r@ == "InvalidInput: "@ + t@,
            *self is InvalidFunds ==> r@ == "Invalid Funds"@,
    {
        match self {
            ContractError::Unauthorized => "Unauthorized".to_string(),
            ContractError::InvalidInput(text) => "InvalidInput: ".to_string().concat(
                text.as_str(),
            ),
            ContractError::Std(error) => std_error_text(error),
            ContractError::InvalidFunds => "Invalid Funds".to_string(),
        }
    }
}

} // verus!
