//! The failures that a light client reports for a runtime call.

use vstd::prelude::*;
use vstd::string::StringExecFns;

verus! {

/// Why a runtime call did not give a result.
#[derive(Debug, Clone, PartialEq, Eq)]
pub enum ClientError {
    /// The state of the block is not held locally.
    NotAvailableOnLightClient,
    /// The call itself failed; the text is that of the failure, as it was reported.
    Execution(String),
    /// The state given for proving cannot be read as a trie.
    UnableToGenerateProof,
    /// The proved state holds no runtime code.
    RuntimeCodeMissing,
    /// The proof does not lead to the state root it was checked against.
    InvalidProof,
}

/// A `ClientError` with its text as a sequence of characters.
pub enum ClientErrorView {
    NotAvailableOnLightClient,
    Execution(Seq<char>),
    UnableToGenerateProof,
    RuntimeCodeMissing,
    InvalidProof,
}

impl View for ClientError {
    type V = ClientErrorView;

    open spec fn view(&self) -> ClientErrorView {
        match self {
            ClientError::NotAvailableOnLightClient => ClientErrorView::NotAvailableOnLightClient,
            ClientError::Execution(details) => ClientErrorView::Execution(details@),
            ClientError::UnableToGenerateProof => ClientErrorView::UnableToGenerateProof,
            ClientError::RuntimeCodeMissing => ClientErrorView::RuntimeCodeMissing,
            ClientError::InvalidProof => ClientErrorView::InvalidProof,
        }
    }
}

impl ClientErrorView {
    /// The text that describes the error.
    pub open spec fn message(self) -> Seq<char> {
        match self {
            ClientErrorView::NotAvailableOnLightClient =>
                "This method is not currently available when running in light client mode"@,
            ClientErrorView::Execution(details) => "Execution failed: "@ + details,
            ClientErrorView::UnableToGenerateProof => "Unable to generate proof"@,
            ClientErrorView::RuntimeCodeMissing => "Runtime :code missing in storage"@,
            ClientErrorView::InvalidProof => "Invalid execution proof"@,
        }
    }

    /// The error that reports `self` as the failure of a call, keeping its text.
    pub open spec fn wrapped(self) -> ClientErrorView {
        ClientErrorView::Execution(self.message())
    }
}

impl ClientError {
    /// The text that describes the error.
    pub fn message(&self) -> (text: String)
        ensures
            text@ == self@.message(),
    {
        match self {
            ClientError::NotAvailableOnLightClient => String::from_str(
                "This method is not currently available when running in light client mode",
            ),
            ClientError::Execution(details) => String::from_str("Execution failed: ").concat(
                details.as_str(),
            ),
            ClientError::UnableToGenerateProof => String::from_str("Unable to generate proof"),
            ClientError::RuntimeCodeMissing => String::from_str("Runtime :code missing in storage"),
            ClientError::InvalidProof => String::from_str("Invalid execution proof"),
        }
    }

    /// Reports `self` as the failure of a call: an `Execution` error that carries the text of
    /// `self`.
    pub fn wrapped(&self) -> (error: ClientError)
        ensures
            error@ == self@.wrapped(),
    {
        ClientError::Execution(self.message())
    }
}

} // verus!
