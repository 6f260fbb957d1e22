//! Why a call failed.

use openssl::error::ErrorStack;
use vstd::prelude::*;
use vstd::string::to_string_from_display_ensures;

verus! {

/// The stage of a call that a failure belongs to.
#[derive(Clone, Copy, Debug, PartialEq, Eq, Structural)]
pub enum Category {
    /// Resolving the host or dialing the peer.
    Transport,
    /// Preparing the TLS session from the shared configuration.
    Configuration,
    /// The TLS handshake with the peer.
    Handshake,
}

/// What an I/O failure wraps.
#[derive(Debug)]
pub enum IoCause {
    /// The transport failed; the text describes how.
    Transport(String),
    /// The TLS settings could not be turned into a session for `host`: the
    /// cause is OpenSSL's own errors.
    Configuration { host: String, cause: ErrorStack },
    /// The handshake with `host` failed; the text is the handshake error's
    /// description.
    Handshake { host: String, text: String },
}

/// The one error type of a call, whichever stage failed.
#[derive(Debug)]
pub enum ConnectError {
    /// The plaintext connector could not resolve the host or reach the peer;
    /// the text is its report.
    Resolver(String),
    /// An I/O failure, with what it wraps.
    Io(IoCause),
}

impl ConnectError {
    /// The stage that the error belongs to.
    pub open spec fn spec_category(&self) -> Category {
        match self {
            ConnectError::Resolver(_) => Category::Transport,
            ConnectError::Io(IoCause::Transport(_)) => Category::Transport,
            ConnectError::Io(IoCause::Configuration { .. }) => Category::Configuration,
            ConnectError::Io(IoCause::Handshake { .. }) => Category::Handshake,
        }
    }

    /// The stage that the error belongs to.
    #[verifier::when_used_as_spec(spec_category)]
    pub fn category(&self) -> (category: Category)
        ensures
            category == self.spec_category(),
    {
        match self {
            ConnectError::Resolver(_) => Category::Transport,
            ConnectError::Io(IoCause::Transport(_)) => Category::Transport,
            ConnectError::Io(IoCause::Configuration { .. }) => Category::Configuration,
            ConnectError::Io(IoCause::Handshake { .. }) => Category::Handshake,
        }
    }

    /// Whether the error is an I/O failure, whatever it wraps.
    pub open spec fn spec_is_io(&self) -> bool {
        self is Io
    }

    /// Whether the error is an I/O failure, whatever it wraps.
    #[verifier::when_used_as_spec(spec_is_io)]
    pub fn is_io(&self) -> (io: bool)
        ensures
            io == self.spec_is_io(),
    {
        match self {
            ConnectError::Resolver(_) => false,
            ConnectError::Io(_) => true,
        }
    }

    /// The host that the TLS stages failed for; a transport failure names none.
    pub fn host(&self) -> (host: Option<&str>)
        ensures
            match *self {
                ConnectError::Io(IoCause::Configuration { host: h, .. }) => host matches Some(s)
                    && s@ == h@,
                ConnectError::Io(IoCause::Handshake { host: h, .. }) => host matches Some(s) && s@
                    == h@,
                _ => host is None,
            },
    {
        match self {
            ConnectError::Io(IoCause::Configuration { host, .. }) => Some(host.as_str()),
            ConnectError::Io(IoCause::Handshake { host, .. }) => Some(host.as_str()),
            _ => None,
        }
    }

    /// The description of the underlying cause: the text that the error
    /// carries, or what OpenSSL's errors display as.
    pub fn message(&self) -> (message: String)
        ensures
            match *self {
                ConnectError::Resolver(text) => message == text,
                ConnectError::Io(IoCause::Transport(text)) => message == text,
                ConnectError::Io(IoCause::Handshake { text, .. }) => message == text,
                ConnectError::Io(IoCause::Configuration { cause, .. }) =>
                    to_string_from_display_ensures(&cause, message),
            },
    {
        match self {
            ConnectError::Resolver(text) => text.clone(),
            ConnectError::Io(IoCause::Transport(text)) => text.clone(),
            ConnectError::Io(IoCause::Handshake { text, .. }) => text.clone(),
            ConnectError::Io(IoCause::Configuration { cause, .. }) => cause.to_string(),
        }
    }
}

} // verus!
