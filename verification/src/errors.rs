//! What can go wrong between a callback and a stored credential.

use vstd::prelude::*;

verus! {

/// The headers of a message in the order received.
pub type THeaders = Vec<(String, String)>;

/// What an operation gives: its result, or the error that stopped it.
pub type TResult<T> = Result<T, TError>;

/// One entry of the provider's structured error payload.
#[derive(Debug)]
pub struct TwitterErrorCode {
    pub code: i32,
    pub message: String,
}

/// The provider's structured error payload.
#[derive(Debug)]
pub struct TwitterErrors {
    pub errors: Vec<TwitterErrorCode>,
}

impl TwitterErrors {
    /// The error codes in the order of the payload.
    pub open spec fn codes(self) -> Seq<i32> {
        self.errors@.map_values(|e: TwitterErrorCode| e.code)
    }

    /// Whether the payload lists `code`.
    pub fn has_code(&self, code: i32) -> (r: bool)
        ensures
            r == self.codes().contains(code),
    {
        let mut i: usize = 0;
        while i < self.errors.len()
            invariant
                i <= self.errors.len(),
                forall|j: int| 0 <= j < i ==> self.codes()[j] != code,
            decreases self.errors.len() - i,
        {
            if self.errors[i].code == code {
                assert(self.codes()[i as int] == code);
                return true;
            }
            i += 1;
        }
        false
    }
}

/// The errors of the signing and exchange flows.
#[derive(Debug)]
pub enum TError {
    /// A state or token of the callback does not match the stored one.
    InvalidCredentialError(String),
    /// The provider signals that the quota is used up.
    RateLimit,
    /// The provider answered with a structured error payload.
    TwitterError(THeaders, TwitterErrors),
    /// A status outside 200..=299 without such a payload.
    BadStatus(u16),
    /// The network or the connection failed.
    TransportError(String),
    /// The credential store could not be read or written.
    StoreError(String),
    /// The body is not of the expected JSON shape.
    MalformedResponse(String),
    /// A reply was asked for with a number that is no HTTP status.
    InvalidStatusCode(u16),
    /// The flow was handed an event it was not waiting for.
    UnexpectedEvent,
}

/// The error without its texts.
#[derive(Debug, Clone, Copy, PartialEq, Eq, Structural)]
pub enum ErrorKind {
    InvalidCredential,
    RateLimited,
    ProviderError,
    BadStatus(u16),
    Transport,
    Store,
    Malformed,
    InvalidStatus(u16),
    UnexpectedEvent,
}

impl View for TError {
    type V = ErrorKind;

    open spec fn view(&self) -> ErrorKind {
        match self {
            TError::InvalidCredentialError(_) => ErrorKind::InvalidCredential,
            TError::RateLimit => ErrorKind::RateLimited,
            TError::TwitterError(_, _) => ErrorKind::ProviderError,
            TError::BadStatus(status) => ErrorKind::BadStatus(*status),
            TError::TransportError(_) => ErrorKind::Transport,
            TError::StoreError(_) => ErrorKind::Store,
            TError::MalformedResponse(_) => ErrorKind::Malformed,
            TError::InvalidStatusCode(code) => ErrorKind::InvalidStatus(*code),
            TError::UnexpectedEvent => ErrorKind::UnexpectedEvent,
        }
    }
}

impl TError {
    /// The error without its texts.
    pub fn kind(&self) -> (r: ErrorKind)
        ensures
            r == self@,
    {
        match self {
            TError::InvalidCredentialError(_) => ErrorKind::InvalidCredential,
            TError::RateLimit => ErrorKind::RateLimited,
            TError::TwitterError(_, _) => ErrorKind::ProviderError,
            TError::BadStatus(status) => ErrorKind::BadStatus(*status),
            TError::TransportError(_) => ErrorKind::Transport,
            TError::StoreError(_) => ErrorKind::Store,
            TError::MalformedResponse(_) => ErrorKind::Malformed,
            TError::InvalidStatusCode(code) => ErrorKind::InvalidStatus(*code),
            TError::UnexpectedEvent => ErrorKind::UnexpectedEvent,
        }
    }
}

} // verus!
