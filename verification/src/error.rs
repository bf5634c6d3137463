//! The failures that the harness reports.

use vstd::prelude::*;

verus! {

/// A failure of the harness. Each variant carries the diagnostic of the
/// collaborator that failed, unchanged.
#[derive(Debug)]
pub enum Error {
    /// The backend rejected the proof request or could not complete it.
    FailedToProveProvingGame(String),
    /// The backend found the proof invalid for the verifying key.
    FailedToVerifyProof(String),
    /// The program trapped, or its input was invalid, during execution.
    FailedToExecuteProvingGame(String),
    /// The directory or the file of a Solidity fixture could not be written.
    FailedToCreateSolidityFixture(String),
}

/// What an [`Error`] is, with its diagnostic as a sequence of characters.
pub enum ErrorView {
    FailedToProveProvingGame(Seq<char>),
    FailedToVerifyProof(Seq<char>),
    FailedToExecuteProvingGame(Seq<char>),
    FailedToCreateSolidityFixture(Seq<char>),
}

impl View for Error {
    type V = ErrorView;

    open spec fn view(&self) -> ErrorView {
        match self {
            Error::FailedToProveProvingGame(m) => ErrorView::FailedToProveProvingGame(m@),
            Error::FailedToVerifyProof(m) => ErrorView::FailedToVerifyProof(m@),
            Error::FailedToExecuteProvingGame(m) => ErrorView::FailedToExecuteProvingGame(m@),
            Error::FailedToCreateSolidityFixture(m) => ErrorView::FailedToCreateSolidityFixture(m@),
        }
    }
}

impl ErrorView {
    /// The diagnostic that the failure carries.
    pub open spec fn diagnostic(self) -> Seq<char> {
        match self {
            ErrorView::FailedToProveProvingGame(m) => m,
            ErrorView::FailedToVerifyProof(m) => m,
            ErrorView::FailedToExecuteProvingGame(m) => m,
            ErrorView::FailedToCreateSolidityFixture(m) => m,
        }
    }
}

impl Error {
    /// The diagnostic that the failure carries.
    pub fn diagnostic(&self) -> (text: &str)
        ensures
            text@ == self@.diagnostic(),
    {
        match self {
            Error::FailedToProveProvingGame(m) => m.as_str(),
            Error::FailedToVerifyProof(m) => m.as_str(),
            Error::FailedToExecuteProvingGame(m) => m.as_str(),
            Error::FailedToCreateSolidityFixture(m) => m.as_str(),
        }
    }
}

/// What a result of the harness holds: the value as it is, or the failure
/// by its view.
pub open spec fn result_view<T>(result: Result<T, Error>) -> Result<T, ErrorView> {
    match result {
        Ok(value) => Ok(value),
        Err(error) => Err(error@),
    }
}

/// What an answer of a collaborator holds: the value as it is, or the
/// diagnostic as a sequence of characters.
pub open spec fn answer_view<T>(answer: Result<T, String>) -> Result<T, Seq<char>> {
    match answer {
        Ok(value) => Ok(value),
        Err(diagnostic) => Err(diagnostic@),
    }
}

} // verus!
