//! The ways in which obtaining a credential for a request can fail.

use crate::decimal::NumeralError;
use vstd::prelude::*;

verus! {

/// A failure to authenticate. Each variant carries the detail of the failure.
#[derive(Debug)]
pub enum AuthenticationError {
    /// The token endpoint was reached and did not grant a token.
    AuthenticationAcquisitionError(String),
    /// What the token endpoint sent could not be read as a token.
    ParseError(String),
    /// The token endpoint could not be spoken to.
    CommunicationError(String),
    /// Any other failure, such as a token cache left unusable.
    GeneralError(String),
}

/// An authentication failure as a value of the model.
pub enum AuthenticationErrorView {
    AuthenticationAcquisitionError(Seq<char>),
    ParseError(Seq<char>),
    CommunicationError(Seq<char>),
    GeneralError(Seq<char>),
}

impl AuthenticationErrorView {
    /// The sentence that presents the failure to a reader.
    pub open spec fn message(self) -> Seq<char> {
        match self {
            AuthenticationErrorView::AuthenticationAcquisitionError(detail) =>
                "Unable to obtain authentication credentials: "@ + detail,
            AuthenticationErrorView::ParseError(detail) =>
                "Error converting, parsing, or formatting information for authentication: "@
                    + detail,
            AuthenticationErrorView::CommunicationError(detail) =>
                "Communication error for authentication: "@ + detail,
            AuthenticationErrorView::GeneralError(detail) => "General error for authentication: "@
                + detail,
        }
    }
}

impl View for AuthenticationError {
    type V = AuthenticationErrorView;

    open spec fn view(&self) -> AuthenticationErrorView {
        match self {
            AuthenticationError::AuthenticationAcquisitionError(detail) =>
                AuthenticationErrorView::AuthenticationAcquisitionError(detail@),
            AuthenticationError::ParseError(detail) => AuthenticationErrorView::ParseError(detail@),
            AuthenticationError::CommunicationError(detail) =>
                AuthenticationErrorView::CommunicationError(detail@),
            AuthenticationError::GeneralError(detail) => AuthenticationErrorView::GeneralError(
                detail@,
            ),
        }
    }
}

impl AuthenticationError {
    /// Renders the failure as the sentence shown to a reader.
    pub fn to_string(&self) -> (text: String)
        ensures
            text@ == self@.message(),
    {
        match self {
            AuthenticationError::AuthenticationAcquisitionError(detail) => {
                String::from_str("Unable to obtain authentication credentials: ").concat(
                    detail.as_str(),
                )
            },
            AuthenticationError::ParseError(detail) => {
                String::from_str(
                    "Error converting, parsing, or formatting information for authentication: ",
                ).concat(detail.as_str())
            },
            AuthenticationError::CommunicationError(detail) => {
                String::from_str("Communication error for authentication: ").concat(
                    detail.as_str(),
                )
            },
            AuthenticationError::GeneralError(detail) => {
                String::from_str("General error for authentication: ").concat(detail.as_str())
            },
        }
    }

    /// The failure that a refusal by the token endpoint amounts to;
    /// `status` is the status of its reply as a reader is shown it.
    pub fn from_refused_exchange(status: String) -> (err: AuthenticationError)
        ensures
            err@ == AuthenticationErrorView::AuthenticationAcquisitionError(status@),
    {
        AuthenticationError::AuthenticationAcquisitionError(status)
    }

    /// The failure that a malformed numeral in a token amounts to.
    pub fn from_numeral_error(e: NumeralError) -> (err: AuthenticationError)
        ensures
            err@ == AuthenticationErrorView::ParseError(e.message()),
    {
        AuthenticationError::ParseError(e.to_string())
    }

    /// The failure that an unusable token cache amounts to: the lock that
    /// guards it was poisoned, and `reason` says how.
    pub fn from_poisoned_lock(reason: &str) -> (err: AuthenticationError)
        ensures
            err@ == AuthenticationErrorView::GeneralError("Concurrency error: "@ + reason@),
    {
        AuthenticationError::GeneralError(String::from_str("Concurrency error: ").concat(reason))
    }

    /// The failure that a transport fault amounts to; `reason` describes the
    /// fault.
    pub fn from_transport_failure(reason: String) -> (err: AuthenticationError)
        ensures
            err@ == AuthenticationErrorView::CommunicationError(reason@),
    {
        AuthenticationError::CommunicationError(reason)
    }
}

} // verus!
