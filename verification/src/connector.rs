//! The connector: a plaintext connector and a TLS configuration, bound into
//! one value that is both a factory of services and a service.

use crate::call::{call_outcome, Connecting, Dial};
use crate::error::{Category, ConnectError, IoCause};
use crate::target::Connect;
use crate::trusted::share;
use openssl::error::ErrorStack;
use openssl::ssl::{ConnectConfiguration, SslConnector};
use std::rc::Rc;
use vstd::prelude::*;
use vstd::std_specs::convert::FromSpec;

verus! {

/// Whether a service can take a call now.
#[derive(Debug)]
pub enum Readiness<T> {
    /// It can, or it never will: the value says which.
    Ready(T),
    /// Not yet.
    Pending,
}

/// The plaintext connector's configuration: the resolver that it resolves host
/// names with. Copies share the resolver.
pub struct Connector<R> {
    resolver: Option<Rc<R>>,
}

impl<R> View for Connector<R> {
    type V = Option<R>;

    /// The custom resolver; `None` stands for the default one.
    closed spec fn view(&self) -> Option<R> {
        match self.resolver {
            Some(resolver) => Some(*resolver),
            None => None,
        }
    }
}

impl<R> Connector<R> {
    /// A connector that resolves with `resolver`.
    pub fn new(resolver: R) -> (connector: Self)
        ensures
            connector@ == Some(resolver),
    {
        Connector { resolver: Some(Rc::new(resolver)) }
    }

    /// The custom resolver, if the connector has one.
    pub fn resolver(&self) -> (resolver: Option<&R>)
        ensures
            resolver == (match self@ {
                Some(r) => Some(&r),
                None => None,
            }),
    {
        match &self.resolver {
            Some(resolver) => Some(&**resolver),
            None => None,
        }
    }
}

impl<R> Default for Connector<R> {
    /// The connector that resolves with the default resolver.
    fn default() -> (connector: Self)
        ensures
            connector@ is None,
    {
        Connector { resolver: None }
    }
}

impl<R> Clone for Connector<R> {
    fn clone(&self) -> (copy: Self)
        ensures
            copy == *self,
    {
        match &self.resolver {
            Some(resolver) => Connector { resolver: Some(share(resolver)) },
            None => Connector { resolver: None },
        }
    }
}

/// Connects to a target and upgrades the connection to TLS.
///
/// It has no state of its own that a call could change: calls and copies are
/// independent of one another.
pub struct OpensslConnector<R> {
    connector: Connector<R>,
    openssl: SslConnector,
}

impl<R> OpensslConnector<R> {
    /// The plaintext connector that calls dial with.
    pub closed spec fn plaintext(&self) -> Connector<R> {
        self.connector
    }

    /// The TLS configuration that calls prepare their sessions from.
    pub closed spec fn tls(&self) -> SslConnector {
        self.openssl
    }

    /// A connector with the default plaintext connector.
    pub fn new(connector: SslConnector) -> (service: Self)
        ensures
            service.tls() == connector,
            service.plaintext()@ is None,
    {
        OpensslConnector { connector: Connector::default(), openssl: connector }
    }

    /// A connector whose plaintext connector resolves with `resolver`.
    pub fn with_resolver(connector: SslConnector, resolver: R) -> (service: Self)
        ensures
            service.tls() == connector,
            service.plaintext()@ == Some(resolver),
    {
        OpensslConnector { connector: Connector::new(resolver), openssl: connector }
    }

    /// Starts a call to the target that `message` converts to: says what to
    /// dial, and keeps what the handshake will need.
    pub fn connect<U>(&self, message: U) -> (call: (Dial<R>, Connecting))
        where Connect: From<U>
        ensures
            exists|target: Connect|
                call_ensures(<Connect as From<U>>::from, (message,), target) && call
                    == #[trigger] self.started(target),
            <Connect as FromSpec<U>>::obeys_from_spec() ==> call == self.started(
                <Connect as FromSpec<U>>::from_spec(message),
            ),
    {
        let target = Connect::from(message);
        let call = self.call(target);
        assert(call == self.started(target));
        call
    }

    /// What a call to `target` starts with.
    pub open spec fn started(&self, target: Connect) -> (Dial<R>, Connecting) {
        (
            Dial { connector: self.plaintext(), request: target },
            Connecting { host: target.host, openssl: self.tls() },
        )
    }

    /// Produces a service: a copy of this connector. It never fails.
    pub fn new_service(&self, _config: ()) -> (service: Result<Self, ()>)
        ensures
            service == Ok::<Self, ()>(*self),
    {
        Ok(self.clone())
    }

    /// The service is ready for a call at any time, whatever was called before.
    pub fn poll_ready(&self) -> (ready: Readiness<Result<(), ConnectError>>)
        ensures
            ready == Readiness::Ready(Ok::<(), ConnectError>(())),
    {
        Readiness::Ready(Ok(()))
    }

    /// Starts a call to `req`.
    pub fn call(&self, req: Connect) -> (call: (Dial<R>, Connecting))
        ensures
            call == self.started(req),
    {
        let host = req.host.clone();
        let dial = Dial { connector: self.connector.clone(), request: req };
        (dial, Connecting { host, openssl: self.openssl.clone() })
    }
}

impl<R> Clone for OpensslConnector<R> {
    fn clone(&self) -> (copy: Self)
        ensures
            copy == *self,
    {
        OpensslConnector { connector: self.connector.clone(), openssl: self.openssl.clone() }
    }
}

/// A peer that takes the connection and then fails the handshake makes the
/// call fail, whatever the target, and never as a transport failure: where the
/// TLS session could be prepared, the failure is the handshake's.
pub proof fn lemma_peer_without_tls_fails_handshake<R, P, S>(
    service: OpensslConnector<R>,
    target: Connect,
    io: P,
    config: Result<ConnectConfiguration, ErrorStack>,
    text: String,
)
    ensures
        ({
            let host = service.started(target).1.host;
            let outcome = call_outcome::<P, S>(host, Ok(io), config, Err(text));
            &&& host == target.host
            &&& outcome is Err
            &&& outcome->Err_0.category() != Category::Transport
            &&& config is Ok ==> outcome == Err::<S, ConnectError>(
                ConnectError::Io(IoCause::Handshake { host, text }),
            ) && outcome->Err_0.category() == Category::Handshake
        }),
{
}

/// A copy behaves as its source does: for every target it starts the call that
/// the source starts, so the two calls end alike whenever their stages end
/// alike.
pub proof fn lemma_copy_calls_alike<R, P, S>(
    source: OpensslConnector<R>,
    copy: OpensslConnector<R>,
    target: Connect,
    dial: Result<P, ConnectError>,
    config: Result<ConnectConfiguration, ErrorStack>,
    handshake: Result<S, String>,
)
    requires
        cloned(source, copy),
    ensures
        copy.plaintext() == source.plaintext(),
        copy.tls() == source.tls(),
        copy.started(target) == source.started(target),
        call_outcome(copy.started(target).1.host, dial, config, handshake) == call_outcome(
            source.started(target).1.host,
            dial,
            config,
            handshake,
        ),
{
}

/// A failed call leaves no trace. The next call to the same target starts as
/// the failed one did, and if its stages end as they did before, it fails with
/// the same error.
pub proof fn lemma_failed_call_repeats<R, P, S>(
    service: OpensslConnector<R>,
    target: Connect,
    first: (Dial<R>, Connecting),
    second: (Dial<R>, Connecting),
    dial: Result<P, ConnectError>,
    config: Result<ConnectConfiguration, ErrorStack>,
    handshake: Result<S, String>,
)
    requires
        first == service.started(target),
        second == service.started(target),
        call_outcome(first.1.host, dial, config, handshake) is Err,
    ensures
        second == first,
        call_outcome(second.1.host, dial, config, handshake) == call_outcome(
            first.1.host,
            dial,
            config,
            handshake,
        ),
{
}

} // verus!
