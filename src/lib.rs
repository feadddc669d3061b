//! Implementation-neutral TLS abstraction: error kinds, builder settings,
//! server-priority ALPN selection, the handshake result, and two backends
//! that need no TLS library (a passthrough and a stub).

use vstd::prelude::*;

pub mod acceptor;
pub mod alpn;
pub mod conformance;
pub mod config;
pub mod connector;
pub mod error;
pub mod info;
pub mod not_tls;
pub mod stream;
pub mod stub;

verus! {

fn assert_send<T: Send>() {
}

fn assert_sync<T: Sync>() {
}

fn handshake_result_is_send<S: Send>() {
    assert_send::<error::Result<stream::TlsStream<S>>>();
}

/// Checks at compile time that connectors, builders, streams and errors can
/// be handed to another thread, and connectors shared between threads.
pub fn _assert_kinds() {
    assert_send::<not_tls::TlsConnectorBuilder>();
    assert_send::<not_tls::TlsConnector>();
    assert_sync::<not_tls::TlsConnector>();
    assert_send::<not_tls::TlsAcceptorBuilder>();
    assert_send::<not_tls::TlsAcceptor>();
    assert_sync::<not_tls::TlsAcceptor>();
    assert_send::<stub::TlsConnector>();
    assert_sync::<stub::TlsConnector>();
    assert_send::<config::ConnectorConfig>();
    assert_send::<config::AcceptorConfig>();
    handshake_result_is_send::<Vec<u8>>();
    assert_send::<error::Error>();
    assert_sync::<error::Error>();
}

} // verus!
