//! Connect targets.

use tls_connect::{Connect, SocketAddress};

const V4: SocketAddress = SocketAddress::V4 { ipv4: 0xc0a8_0001, port: 8080 };
const V6: SocketAddress = SocketAddress::V6 { ipv6: 1, port: 443, flowinfo: 0, scope_id: 2 };

#[test]
fn new_target_has_host_only() {
    let target = Connect::new("example.org");
    assert_eq!(target.host(), "example.org");
    assert_eq!(target.port(), None);
    assert_eq!(target.addr(), None);
}

#[test]
fn empty_host_is_taken() {
    let target = Connect::new("");
    assert_eq!(target.host(), "");
    assert_eq!(target.host, String::new());
}

#[test]
fn host_is_kept_as_given() {
    let target = Connect::new("example.org:8443");
    assert_eq!(target.host(), "example.org:8443");
    assert_eq!(target.port(), None);
}

#[test]
fn builders_change_one_field() {
    let target = Connect::new("example.org").set_port(8443);
    assert_eq!(target.host(), "example.org");
    assert_eq!(target.port(), Some(8443));
    assert_eq!(target.addr(), None);

    let target = target.set_addr(Some(V4));
    assert_eq!(target.host(), "example.org");
    assert_eq!(target.port(), Some(8443));
    assert_eq!(target.addr(), Some(V4));

    let target = target.set_port(0).set_addr(Some(V6));
    assert_eq!(target.port(), Some(0));
    assert_eq!(target.addr(), Some(V6));

    let target = target.set_addr(None);
    assert_eq!(target.host(), "example.org");
    assert_eq!(target.port(), Some(0));
    assert_eq!(target.addr(), None);
}

#[test]
fn target_from_host() {
    let target = Connect::from(String::from("example.org"));
    assert_eq!(target.host(), "example.org");
    assert_eq!(target.port(), None);
    assert_eq!(target.addr(), None);
}

#[test]
fn target_from_host_and_port() {
    let target = Connect::from((String::from("example.org"), 443));
    assert_eq!(target.host(), "example.org");
    assert_eq!(target.port(), Some(443));
    assert_eq!(target.addr(), None);
}

#[test]
fn clone_keeps_every_field() {
    let target = Connect::new("example.org").set_port(1).set_addr(Some(V6));
    let copy = target.clone();
    assert_eq!(copy.host, target.host);
    assert_eq!(copy.port, target.port);
    assert_eq!(copy.addr, target.addr);
}

#[test]
fn addresses_compare_by_their_numbers() {
    assert_ne!(V4, V6);
    assert_eq!(V4, SocketAddress::V4 { ipv4: 0xc0a8_0001, port: 8080 });
    assert_ne!(V4, SocketAddress::V4 { ipv4: 0xc0a8_0001, port: 8081 });
}
