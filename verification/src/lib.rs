//! Establishing TLS connections in two stages: a plaintext connector dials the
//! target, then the dialed stream is upgraded by an OpenSSL handshake.
//!
//! The library performs no I/O. It decides what a call does next, and its
//! caller does that and reports back:
//!
//! 1. [`OpensslConnector::connect`] starts a call. It hands out a [`Dial`], the
//!    request for the plaintext connector, and a [`Connecting`], the call's
//!    state while the dial is under way.
//! 2. [`Connecting::dialed`] takes the dial's result. A failed dial ends the
//!    call with the connector's own error. After a successful one the TLS
//!    session is prepared from the shared configuration, and [`Dialed`] says
//!    whether the handshake is next or the call has failed.
//! 3. [`Handshaking::finished`] takes the handshake's result and ends the call
//!    with the encrypted stream or a [`ConnectError`].
//!
//! A connector holds no state that a call could change, so calls, services and
//! copies are independent of one another, and a service is always ready.

pub mod call;
pub mod connector;
pub mod error;
pub mod target;
pub mod trusted;

pub use call::{Connecting, Dial, Dialed, Handshaking};
pub use connector::{Connector, OpensslConnector, Readiness};
pub use error::{Category, ConnectError, IoCause};
pub use target::{Connect, ConnectView, SocketAddress};
