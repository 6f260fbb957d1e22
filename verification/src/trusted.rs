//! What this library takes on trust from `openssl`, `tokio-openssl` and the
//! standard library. Nothing here is proved: each item states what the code
//! behind it does.

use std::rc::Rc;
use vstd::prelude::*;

verus! {

/// `openssl::ssl::SslConnector`: a shared handle to a TLS client configuration.
#[verifier::external_type_specification]
#[verifier::external_body]
pub struct ExSslConnector(openssl::ssl::SslConnector);

/// `openssl::ssl::ConnectConfiguration`: the settings of one TLS session that
/// has not started its handshake yet.
#[verifier::external_type_specification]
#[verifier::external_body]
pub struct ExConnectConfiguration(openssl::ssl::ConnectConfiguration);

/// `openssl::error::ErrorStack`: the errors OpenSSL queued while it failed.
#[verifier::external_type_specification]
#[verifier::external_body]
pub struct ExErrorStack(openssl::error::ErrorStack);

/// `tokio_openssl::SslStream`: an encrypted stream over the plaintext stream `S`.
#[verifier::external_type_specification]
#[verifier::external_body]
#[verifier::reject_recursive_types(S)]
pub struct ExSslStream<S>(tokio_openssl::SslStream<S>);

/// `tokio_openssl::HandshakeError`: why a handshake over `S` failed.
#[verifier::external_type_specification]
#[verifier::external_body]
#[verifier::reject_recursive_types(S)]
pub struct ExHandshakeError<S>(tokio_openssl::HandshakeError<S>);

/// `SslConnector::configure` creates a fresh session from the shared
/// configuration. Whether it succeeds depends on OpenSSL's state, so nothing is
/// claimed of the result.
pub assume_specification[ openssl::ssl::SslConnector::configure ](
    connector: &openssl::ssl::SslConnector,
) -> (config: Result<openssl::ssl::ConnectConfiguration, openssl::error::ErrorStack>)
;

/// Cloning an `SslConnector` takes another reference to the same OpenSSL
/// context: the clone is the same configuration as its source.
pub assume_specification[ <openssl::ssl::SslConnector as Clone>::clone ](
    connector: &openssl::ssl::SslConnector,
) -> (copy: openssl::ssl::SslConnector)
    ensures
        copy == *connector,
;

/// `Rc::clone` makes another pointer to the same allocation: the value that
/// the copy points to is the value that the source points to.
#[verifier::external_body]
pub(crate) fn share<T>(handle: &Rc<T>) -> (copy: Rc<T>)
    ensures
        copy == *handle,
{
    Rc::clone(handle)
}

} // verus!
