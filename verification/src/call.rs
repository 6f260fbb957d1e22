//! One call, stage by stage: dial, prepare the TLS session, handshake.
//!
//! The caller performs each stage's I/O and reports how it ended; the
//! functions here say what comes next. A call that has failed has no next
//! stage: there is nothing to resume.

use crate::connector::Connector;
use crate::error::{ConnectError, IoCause};
use crate::target::Connect;
use openssl::error::ErrorStack;
use openssl::ssl::{ConnectConfiguration, SslConnector};
use std::fmt::Debug;
use tokio_openssl::{HandshakeError, SslStream};
use vstd::prelude::*;
use vstd::string::to_string_from_display_ensures;

verus! {

/// What the plaintext connector is asked to do: resolve and dial `request`.
pub struct Dial<R> {
    /// The connector to dial with.
    pub connector: Connector<R>,
    /// The target, as the caller gave it.
    pub request: Connect,
}

/// A call whose dial is under way. It keeps what the later stages need.
pub struct Connecting {
    /// The target's host name.
    pub host: String,
    /// The TLS configuration to prepare the session from.
    pub openssl: SslConnector,
}

/// A call whose handshake is under way.
pub struct Handshaking {
    /// The target's host name, which the peer's identity is checked against.
    pub host: String,
}

/// Where a call stands once its dial has ended.
pub enum Dialed<P> {
    /// The call is over: it failed before any handshake was attempted.
    Failed(ConnectError),
    /// The handshake is next: `config` is the prepared session, `io` the
    /// dialed plaintext stream, and `state` the call from here on.
    Handshake { config: ConnectConfiguration, io: P, state: Handshaking },
}

/// Where a call to `host` stands after a successful dial, given how preparing
/// the TLS session ended.
pub open spec fn after_configure<P>(
    host: String,
    io: P,
    config: Result<ConnectConfiguration, ErrorStack>,
) -> Dialed<P> {
    match config {
        Ok(config) => Dialed::Handshake { config, io, state: Handshaking { host } },
        Err(cause) => Dialed::Failed(ConnectError::Io(IoCause::Configuration { host, cause })),
    }
}

/// Where a call to `host` stands after its dial. The session is not prepared,
/// and `config` has no say, unless the dial succeeded.
pub open spec fn after_dial<P>(
    host: String,
    dial: Result<P, ConnectError>,
    config: Result<ConnectConfiguration, ErrorStack>,
) -> Dialed<P> {
    match dial {
        Ok(io) => after_configure(host, io, config),
        Err(error) => Dialed::Failed(error),
    }
}

/// What a call to `host` returns once its handshake has ended, the handshake's
/// error given by its description.
pub open spec fn after_handshake<S>(host: String, handshake: Result<S, String>) -> Result<
    S,
    ConnectError,
> {
    match handshake {
        Ok(stream) => Ok(stream),
        Err(text) => Err(ConnectError::Io(IoCause::Handshake { host, text })),
    }
}

/// What a call to `host` returns, given how each of its stages ends. A stage
/// has no say unless every stage before it succeeded.
pub open spec fn call_outcome<P, S>(
    host: String,
    dial: Result<P, ConnectError>,
    config: Result<ConnectConfiguration, ErrorStack>,
    handshake: Result<S, String>,
) -> Result<S, ConnectError> {
    match after_dial(host, dial, config) {
        Dialed::Failed(error) => Err(error),
        Dialed::Handshake { .. } => after_handshake(host, handshake),
    }
}

impl Connecting {
    /// Takes the dial's result. A failed dial ends the call with the
    /// connector's error, unchanged. After a successful one the TLS session is
    /// prepared: the handshake is next, or the call ends with OpenSSL's errors.
    pub fn dialed<P>(self, io: Result<P, ConnectError>) -> (next: Dialed<P>)
        ensures
            match io {
                Err(error) => next == Dialed::<P>::Failed(error),
                Ok(stream) => match next {
                    Dialed::Handshake { io, state, .. } => io == stream && state.host == self.host,
                    Dialed::Failed(error) => error matches ConnectError::Io(
                        IoCause::Configuration { host, .. },
                    ) && host == self.host,
                },
            },
            exists|config: Result<ConnectConfiguration, ErrorStack>|
                next == after_dial(self.host, io, config),
    {
        match io {
            Err(error) => {
                proof {
                    let unused: Result<ConnectConfiguration, ErrorStack> = arbitrary();
                    assert(Dialed::<P>::Failed(error) == after_dial(self.host, io, unused));
                }
                Dialed::Failed(error)
            },
            Ok(stream) => {
                let config = self.openssl.configure();
                let next = self.configured(stream, config);
                assert(next == after_dial(self.host, io, config));
                next
            },
        }
    }

    /// Takes how preparing the TLS session ended, after a dial that gave `io`.
    pub fn configured<P>(self, io: P, config: Result<ConnectConfiguration, ErrorStack>) -> (next:
        Dialed<P>)
        ensures
            next == after_configure(self.host, io, config),
    {
        match config {
            Ok(config) => Dialed::Handshake { config, io, state: Handshaking { host: self.host } },
            Err(cause) => Dialed::Failed(
                ConnectError::Io(IoCause::Configuration { host: self.host, cause }),
            ),
        }
    }
}

impl Handshaking {
    /// Takes the handshake's result and ends the call: with the encrypted
    /// stream, or with an I/O failure that wraps the description of the
    /// handshake's error.
    pub fn finished<P: Debug>(self, result: Result<SslStream<P>, HandshakeError<P>>) -> (outcome:
        Result<SslStream<P>, ConnectError>)
        ensures
            match result {
                Ok(stream) => outcome == Ok::<SslStream<P>, ConnectError>(stream),
                Err(error) => exists|text: String|
                    #[trigger] to_string_from_display_ensures(&error, text) && outcome
                        == after_handshake::<SslStream<P>>(self.host, Err(text)),
            },
    {
        match result {
            Ok(stream) => Ok(stream),
            Err(error) => self.described(Err(error.to_string())),
        }
    }

    /// Ends the call, the handshake's error given by its description.
    pub fn described<S>(self, handshake: Result<S, String>) -> (outcome: Result<S, ConnectError>)
        ensures
            outcome == after_handshake(self.host, handshake),
    {
        match handshake {
            Ok(stream) => Ok(stream),
            Err(text) => Err(ConnectError::Io(IoCause::Handshake { host: self.host, text })),
        }
    }
}

} // verus!
