//! A backend that performs no TLS: a handshake hands the plain socket back.
use vstd::prelude::*;

use crate::acceptor::AcceptorState;
use crate::config::AcceptorConfig;
use crate::config::AcceptorSettings;
use crate::config::ConnectorConfig;
use crate::config::ConnectorSettings;
use crate::connector::ConnectorState;
use crate::error::Error;
use crate::error::Result;
use crate::info::ImplInfo;
use crate::stream::TlsStream;

verus! {

/// Builder of the passthrough connector.
pub struct TlsConnectorBuilder {
    config: ConnectorConfig,
}

/// The passthrough connector.
pub struct TlsConnector {
    config: ConnectorConfig,
}

impl TlsConnectorBuilder {
    /// The accumulated configuration.
    pub fn config(&self) -> (r: &ConnectorConfig)
        ensures
            r@ == crate::connector::TlsConnectorBuilder::settings(self),
    {
        &self.config
    }
}

impl crate::connector::TlsConnectorBuilder for TlsConnectorBuilder {
    type Connector = TlsConnector;

    type Underlying = ConnectorConfig;

    /// The accumulated configuration, which is all this backend has.
    fn underlying_mut(&mut self) -> (r: &mut ConnectorConfig)
        ensures
            (*r)@ == old(self).settings(),
            final(self).settings() == (*final(r))@,
    {
        &mut self.config
    }

    closed spec fn settings(&self) -> ConnectorSettings {
        self.config@
    }

    open spec fn alpn_supported() -> bool {
        false
    }

    open spec fn can_disable_verification() -> bool {
        true
    }

    /// Fails: this backend cannot negotiate ALPN.
    fn set_alpn_protocols(&mut self, protocols: &[&[u8]]) -> (r: Result<()>)
        ensures
            r == Err::<(), Error>(Error::AlpnUnsupported),
    {
        Err(Error::AlpnUnsupported)
    }

    /// Records the hostname-verification policy; always accepted.
    fn set_verify_hostname(&mut self, verify: bool) -> (r: Result<()>)
        ensures
            r is Ok,
    {
        self.config.set_verify_hostname(verify);
        Ok(())
    }

    /// Records a root certificate; always accepted.
    fn add_root_certificate(&mut self, cert: &[u8]) -> (r: Result<()>)
        ensures
            r is Ok,
    {
        self.config.add_root_certificate(cert);
        Ok(())
    }

    /// Finalizes the builder; never fails.
    fn build(self) -> (r: Result<TlsConnector>)
        ensures
            r is Ok,
    {
        Ok(TlsConnector { config: self.config })
    }
}

impl TlsConnector {
    /// This backend performs no handshake.
    pub const IMPLEMENTED: bool = false;

    /// This backend cannot negotiate ALPN.
    pub const SUPPORTS_ALPN: bool = false;

    /// The configuration the connector was built with.
    pub fn config(&self) -> (r: &ConnectorConfig)
        ensures
            r@ == self.settings(),
    {
        &self.config
    }
}

impl ConnectorState for TlsConnector {
    closed spec fn settings(&self) -> ConnectorSettings {
        self.config@
    }
}

impl crate::connector::TlsConnector for TlsConnector {
    type Builder = TlsConnectorBuilder;

    type Underlying = ConnectorConfig;

    /// The configuration, which is all this backend has.
    fn underlying_mut(&mut self) -> (r: &mut ConnectorConfig)
        ensures
            (*r)@ == old(self).settings(),
            final(self).settings() == (*final(r))@,
    {
        &mut self.config
    }

    fn info() -> (r: ImplInfo)
        ensures
            r.name@ == "no-tls"@,
            r.version@ == "none"@,
    {
        ImplInfo { name: "no-tls".to_owned(), version: "none".to_owned() }
    }

    fn implemented() -> (r: bool)
        ensures
            !r,
    {
        TlsConnector::IMPLEMENTED
    }

    fn supports_alpn() -> (r: bool) {
        TlsConnector::SUPPORTS_ALPN
    }

    /// A fresh builder; never fails.
    fn builder() -> (r: Result<TlsConnectorBuilder>)
        ensures
            r is Ok,
    {
        Ok(TlsConnectorBuilder { config: ConnectorConfig::new() })
    }

    /// The whole "handshake": wraps the socket as it is, without ALPN.
    fn connect_with_socket<S>(&self, domain: &str, stream: S) -> (r: Result<TlsStream<S>>)
        ensures
            r is Ok,
            r->Ok_0.socket() == stream,
            r->Ok_0.negotiated() is None,
    {
        Ok(TlsStream::new(stream, None))
    }
}

/// Builder of the passthrough acceptor.
pub struct TlsAcceptorBuilder {
    config: AcceptorConfig,
}

/// The passthrough acceptor.
pub struct TlsAcceptor {
    config: AcceptorConfig,
}

impl crate::acceptor::TlsAcceptorBuilder for TlsAcceptorBuilder {
    type Acceptor = TlsAcceptor;

    closed spec fn settings(&self) -> AcceptorSettings {
        self.config@
    }

    open spec fn alpn_supported() -> bool {
        false
    }

    /// Fails: this backend cannot negotiate ALPN.
    fn set_alpn_protocols(&mut self, protocols: &[&[u8]]) -> (r: Result<()>)
        ensures
            r == Err::<(), Error>(Error::AlpnUnsupported),
    {
        Err(Error::AlpnUnsupported)
    }

    /// Finalizes the builder; never fails.
    fn build(self) -> (r: Result<TlsAcceptor>)
        ensures
            r is Ok,
    {
        Ok(TlsAcceptor { config: self.config })
    }
}

impl TlsAcceptor {
    /// This backend performs no handshake.
    pub const IMPLEMENTED: bool = false;

    /// This backend cannot negotiate ALPN.
    pub const SUPPORTS_ALPN: bool = false;

    /// The configuration the acceptor was built with.
    pub fn config(&self) -> (r: &AcceptorConfig)
        ensures
            r@ == self.settings(),
    {
        &self.config
    }
}

impl AcceptorState for TlsAcceptor {
    closed spec fn settings(&self) -> AcceptorSettings {
        self.config@
    }
}

impl crate::acceptor::TlsAcceptor for TlsAcceptor {
    type Builder = TlsAcceptorBuilder;

    fn info() -> (r: ImplInfo)
        ensures
            r.name@ == "no-tls"@,
            r.version@ == "none"@,
    {
        ImplInfo { name: "no-tls".to_owned(), version: "none".to_owned() }
    }

    fn implemented() -> (r: bool)
        ensures
            !r,
    {
        TlsAcceptor::IMPLEMENTED
    }

    fn supports_alpn() -> (r: bool) {
        TlsAcceptor::SUPPORTS_ALPN
    }

    /// Keeps the key material, which this backend never uses; never fails.
    fn builder_from_der_key(cert: &[u8], key: &[u8]) -> (r: Result<TlsAcceptorBuilder>)
        ensures
            r is Ok,
    {
        Ok(TlsAcceptorBuilder { config: AcceptorConfig::from_der_keys(cert, key) })
    }

    /// The whole "handshake": wraps the socket as it is, without ALPN.
    fn accept_with_socket<S>(&self, stream: S) -> (r: Result<TlsStream<S>>)
        ensures
            r is Ok,
            r->Ok_0.socket() == stream,
            r->Ok_0.negotiated() is None,
    {
        Ok(TlsStream::new(stream, None))
    }
}

} // verus!
