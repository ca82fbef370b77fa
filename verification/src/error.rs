//! Why a request is refused before it is sent.

use vstd::prelude::*;

verus! {

/// The kind under which the SDK is told of a refusal.
#[derive(Clone, Copy, Debug, PartialEq, Eq, Structural)]
pub enum ErrorKind {
    /// Something in the request cannot be converted.
    DataConversion,
    /// Anything else.
    Other,
}

/// Why a request is refused before it is sent.
#[derive(Debug)]
pub enum TransportError {
    /// The URL is not an absolute URL.
    InvalidUrl(url::ParseError),
    /// The method is not an HTTP method.
    InvalidMethod(http::method::InvalidMethod),
    /// The request cannot be built: its URL or one of its headers is refused.
    Build(http::Error),
    /// The URL, given with its query redacted, has no host.
    NoHost(String),
}

/// The kind of a refusal.
pub open spec fn error_kind(error: TransportError) -> ErrorKind {
    match error {
        TransportError::Build(_) => ErrorKind::Other,
        _ => ErrorKind::DataConversion,
    }
}

/// What is said of a refusal beside its cause.
pub open spec fn error_message(error: TransportError) -> Option<Seq<char>> {
    match error {
        TransportError::Build(_) => Some("failed to build `agentgateway` policy client request"@),
        TransportError::NoHost(url) => Some(
            "credential request url '"@ + url@ + "' has no host"@,
        ),
        _ => None,
    }
}

impl TransportError {
    /// The kind under which the SDK is told of this refusal.
    pub fn kind(&self) -> (r: ErrorKind)
        ensures
            r == error_kind(*self),
    {
        match self {
            TransportError::Build(_) => ErrorKind::Other,
            _ => ErrorKind::DataConversion,
        }
    }

    /// What to say of this refusal beside its cause, if anything.
    pub fn message(&self) -> (r: Option<String>)
        ensures
            match r {
                Some(text) => error_message(*self) == Some(text@),
                None => error_message(*self) is None,
            },
    {
        match self {
            TransportError::Build(_) => Some(
                "failed to build `agentgateway` policy client request".to_owned(),
            ),
            TransportError::NoHost(url) => {
                let mut text: String = "credential request url '".to_owned();
                text.append(url.as_str());
                text.append("' has no host");
                Some(text)
            },
            _ => None,
        }
    }
}

} // verus!
