//! The address side of the poller: the capability that observes the public
//! address, and its errors.

use crate::http::{result_view, RequestError, RequestErrorView};
use crate::ipv4::Ipv4Addr;
use vstd::prelude::*;

verus! {

/// Why the public address could not be observed.
#[derive(Clone, Debug, PartialEq, Eq)]
pub enum PublicIpServiceError {
    /// A failure inside the source.
    InternalError,
    /// The router refused the login, or its answer held no session.
    InvalidCredentials,
    /// The router's status answer held no address.
    InvalidIpResponse,
    /// The local interface does not exist or has no IPv4 address.
    NotFound,
    /// The transport failed.
    ClientError { source: RequestError },
}

/// The mathematical model of a [`PublicIpServiceError`].
pub enum PublicIpServiceErrorView {
    InternalError,
    InvalidCredentials,
    InvalidIpResponse,
    NotFound,
    ClientError { source: RequestErrorView },
}

impl View for PublicIpServiceError {
    type V = PublicIpServiceErrorView;

    open spec fn view(&self) -> PublicIpServiceErrorView {
        match self {
            PublicIpServiceError::InternalError => PublicIpServiceErrorView::InternalError,
            PublicIpServiceError::InvalidCredentials => {
                PublicIpServiceErrorView::InvalidCredentials
            },
            PublicIpServiceError::InvalidIpResponse => PublicIpServiceErrorView::InvalidIpResponse,
            PublicIpServiceError::NotFound => PublicIpServiceErrorView::NotFound,
            PublicIpServiceError::ClientError { source } => PublicIpServiceErrorView::ClientError {
                source: source@,
            },
        }
    }
}

impl DeepView for PublicIpServiceError {
    type V = PublicIpServiceErrorView;

    open spec fn deep_view(&self) -> PublicIpServiceErrorView {
        self@
    }
}

impl From<RequestError> for PublicIpServiceError {
    fn from(source: RequestError) -> (mapped: PublicIpServiceError) {
        PublicIpServiceError::ClientError { source }
    }
}

impl vstd::std_specs::convert::FromSpecImpl<RequestError> for PublicIpServiceError {
    open spec fn obeys_from_spec() -> bool {
        true
    }

    open spec fn from_spec(source: RequestError) -> PublicIpServiceError {
        PublicIpServiceError::ClientError { source }
    }
}

/// The capability that the poller needs of a source of the public address.
/// Each source says by its relation which answers it may give.
pub trait PublicIpService {
    /// Whether `outcome` is an answer that this source may give when asked
    /// for the public address. A source that says nothing of itself may give
    /// any answer.
    open spec fn observes(&self, outcome: Result<Ipv4Addr, PublicIpServiceErrorView>) -> bool {
        true
    }

    /// The public IPv4 address as it is now.
    fn get_ip(&self) -> (outcome: Result<Ipv4Addr, PublicIpServiceError>)
        ensures
            self.observes(result_view(outcome)),
    ;
}

/// What a [`PublicIpServiceError`] says of itself.
pub open spec fn public_ip_error_message(error: PublicIpServiceErrorView) -> Seq<char> {
    match error {
        PublicIpServiceErrorView::InternalError => "internal error"@,
        PublicIpServiceErrorView::InvalidCredentials => "invalid credentials"@,
        PublicIpServiceErrorView::InvalidIpResponse => "invalid response"@,
        PublicIpServiceErrorView::NotFound => "no such interface or address"@,
        PublicIpServiceErrorView::ClientError { .. } => "client request error"@,
    }
}

impl PublicIpServiceError {
    /// The error in words.
    pub fn to_string(&self) -> (message: String)
        ensures
            message@ == public_ip_error_message(self@),
    {
        match self {
            PublicIpServiceError::InternalError => "internal error".to_owned(),
            PublicIpServiceError::InvalidCredentials => "invalid credentials".to_owned(),
            PublicIpServiceError::InvalidIpResponse => "invalid response".to_owned(),
            PublicIpServiceError::NotFound => "no such interface or address".to_owned(),
            PublicIpServiceError::ClientError { .. } => "client request error".to_owned(),
        }
    }
}

} // verus!
