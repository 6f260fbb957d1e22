//! The stages of a call, each fed by hand.

use openssl::error::ErrorStack;
use openssl::ssl::{SslConnector, SslMethod};

use tls_connect::{
    Category, Connect, ConnectError, Connecting, Dialed, Handshaking, IoCause, OpensslConnector,
    SocketAddress,
};

fn service() -> OpensslConnector<()> {
    OpensslConnector::new(SslConnector::builder(SslMethod::tls()).unwrap().build())
}

#[test]
fn call_says_what_to_dial() {
    let addr = SocketAddress::V6 { ipv6: 1, port: 443, flowinfo: 0, scope_id: 0 };
    let target = Connect::new("example.org").set_port(8443).set_addr(Some(addr));
    let (dial, state) = service().call(target);
    assert_eq!(dial.request.host(), "example.org");
    assert_eq!(dial.request.port(), Some(8443));
    assert_eq!(dial.request.addr(), Some(addr));
    assert_eq!(dial.connector.resolver(), None);
    assert_eq!(state.host, "example.org");
}

#[test]
fn connect_converts_its_message() {
    let (dial, state) = service().connect(String::from("example.org"));
    assert_eq!(dial.request.host(), "example.org");
    assert_eq!(dial.request.port(), None);
    assert_eq!(state.host, "example.org");

    let (dial, state) = service().connect((String::from("example.net"), 993));
    assert_eq!(dial.request.host(), "example.net");
    assert_eq!(dial.request.port(), Some(993));
    assert_eq!(state.host, "example.net");

    let (dial, state) = service().connect(Connect::new("example.com").set_port(25));
    assert_eq!(dial.request.host(), "example.com");
    assert_eq!(dial.request.port(), Some(25));
    assert_eq!(state.host, "example.com");
}

#[test]
fn failed_dial_ends_the_call() {
    let (_, state) = service().call(Connect::new("example.org"));
    let cause = ConnectError::Io(IoCause::Transport(String::from("connection refused")));
    match state.dialed::<u32>(Err(cause)) {
        Dialed::Failed(error) => {
            assert!(matches!(&error, ConnectError::Io(IoCause::Transport(text)) if text == "connection refused"));
            assert_eq!(error.category(), Category::Transport);
            assert!(error.is_io());
            assert_eq!(error.host(), None);
            assert_eq!(error.message(), "connection refused");
        }
        Dialed::Handshake { .. } => panic!("a failed dial went on to the handshake"),
    }
}

#[test]
fn dialed_stream_goes_to_the_handshake() {
    let (_, state) = service().call(Connect::new("example.org"));
    match state.dialed(Ok(17u32)) {
        Dialed::Handshake { io, state, .. } => {
            assert_eq!(io, 17);
            assert_eq!(state.host, "example.org");
        }
        Dialed::Failed(error) => panic!("the default configuration failed: {:?}", error),
    }
}

#[test]
fn failed_configuration_ends_the_call() {
    let (_, state) = service().call(Connect::new("example.org"));
    match state.configured(17u32, Err(ErrorStack::get())) {
        Dialed::Failed(error) => {
            assert!(matches!(&error, ConnectError::Io(IoCause::Configuration { host, .. }) if host == "example.org"));
            assert_eq!(error.category(), Category::Configuration);
            assert!(error.is_io());
            assert_eq!(error.host(), Some("example.org"));
            // An empty error stack displays as this text.
            assert_eq!(error.message(), "OpenSSL error");
        }
        Dialed::Handshake { .. } => {
            panic!("a failed configuration went on to the handshake")
        }
    }
}

#[test]
fn prepared_session_goes_to_the_handshake() {
    let ssl = SslConnector::builder(SslMethod::tls()).unwrap().build();
    let config = ssl.configure();
    assert!(config.is_ok());
    let state = Connecting { host: String::from("example.org"), openssl: ssl };
    match state.configured(17u32, config) {
        Dialed::Handshake { io, state, .. } => {
            assert_eq!(io, 17);
            assert_eq!(state.host, "example.org");
        }
        Dialed::Failed(error) => panic!("a prepared session was dropped: {:?}", error),
    }
}

#[test]
fn handshake_failure_wraps_its_description() {
    let state = Handshaking { host: String::from("example.org") };
    let outcome = state.described::<u32>(Err(String::from("peer reset")));
    let error = outcome.unwrap_err();
    assert!(matches!(
        &error,
        ConnectError::Io(IoCause::Handshake { host, text }) if host == "example.org" && text == "peer reset"
    ));
    assert_eq!(error.category(), Category::Handshake);
    assert!(error.is_io());
    assert_eq!(error.host(), Some("example.org"));
    assert_eq!(error.message(), "peer reset");
}

#[test]
fn handshake_success_is_handed_on() {
    let state = Handshaking { host: String::from("example.org") };
    let outcome = state.described(Ok(17u32));
    assert_eq!(outcome.unwrap(), 17);
}

#[test]
fn new_service_is_a_copy() {
    let ssl = SslConnector::builder(SslMethod::tls()).unwrap().build();
    let factory = OpensslConnector::with_resolver(ssl, 53u16);
    let service = factory.new_service(()).unwrap();
    let (dial, _) = service.call(Connect::new("example.org"));
    assert_eq!(dial.connector.resolver(), Some(&53));
    let (dial, _) = factory.call(Connect::new("example.org"));
    assert_eq!(dial.connector.resolver(), Some(&53));
}
