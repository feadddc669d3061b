//! The generic client-side interface that every backend implements.
use vstd::prelude::*;

use crate::alpn::protocols_of_slices;
use crate::config::ConnectorSettings;
use crate::error::Error;
use crate::error::Result;
use crate::info::ImplInfo;
use crate::stream::TlsStream;

verus! {

/// A finalized connector's settings, as its builder left them.
pub trait ConnectorState {
    /// The settings the connector was built with.
    spec fn settings(&self) -> ConnectorSettings;
}

/// A single-use, mutable configuration of a connector. `build` takes the
/// builder by value, so it cannot be used once it has been finalized.
pub trait TlsConnectorBuilder: Sized {
    /// The connector that `build` makes.
    type Connector: ConnectorState;

    /// The backend's own configuration object.
    type Underlying;

    /// Access to the backend's own configuration object, for settings that
    /// the abstraction does not cover.
    fn underlying_mut(&mut self) -> &mut Self::Underlying;

    /// What the builder has been told so far.
    spec fn settings(&self) -> ConnectorSettings;

    /// Whether the backend can negotiate ALPN.
    spec fn alpn_supported() -> bool;

    /// Whether the backend can turn hostname verification off.
    spec fn can_disable_verification() -> bool;

    /// Sets the ALPN list that the connector offers, in preference order.
    /// It fails exactly on a backend without ALPN, with the capability-gap error.
    fn set_alpn_protocols(&mut self, protocols: &[&[u8]]) -> (r: Result<()>)
        ensures
            r is Err <==> !Self::alpn_supported(),
            r is Err ==> r == Err::<(), Error>(Error::AlpnUnsupported),
            r is Ok ==> final(self).settings() == old(self).settings().with_alpn_protocols(
                protocols_of_slices(protocols@),
            ),
            r is Err ==> final(self).settings() == old(self).settings(),
    ;

    /// Turns hostname verification on or off. Only turning it off on a
    /// backend that cannot do so fails, with the capability-gap error.
    fn set_verify_hostname(&mut self, verify: bool) -> (r: Result<()>)
        ensures
            r is Err <==> (!verify && !Self::can_disable_verification()),
            r is Err ==> r == Err::<(), Error>(Error::VerifyHostnameUnsupported),
            r is Ok ==> final(self).settings() == old(self).settings().with_verify_hostname(
                verify,
            ),
            r is Err ==> final(self).settings() == old(self).settings(),
    ;

    /// Adds one DER-encoded certificate to the trust store.
    fn add_root_certificate(&mut self, cert: &[u8]) -> (r: Result<()>)
        ensures
            r is Ok ==> final(self).settings() == old(self).settings().with_root_certificate(
                cert@,
            ),
            r is Err ==> final(self).settings() == old(self).settings(),
    ;

    /// Finalizes the configuration; the connector keeps the settings.
    fn build(self) -> (r: Result<Self::Connector>)
        ensures
            r is Ok ==> r->Ok_0.settings() == self.settings(),
    ;
}

/// An immutable, reusable capability to start client handshakes.
pub trait TlsConnector: ConnectorState + Sized {
    /// The builder of this connector.
    type Builder: TlsConnectorBuilder<Connector = Self>;

    /// The backend's own connector object.
    type Underlying;

    /// Access to the backend's own connector object.
    fn underlying_mut(&mut self) -> &mut Self::Underlying;

    /// Identifies the backend.
    fn info() -> ImplInfo;

    /// Whether the backend performs real handshakes.
    fn implemented() -> bool;

    /// Whether the backend can negotiate ALPN.
    fn supports_alpn() -> (r: bool)
        ensures
            r == <Self::Builder as TlsConnectorBuilder>::alpn_supported(),
    ;

    /// A fresh builder with the initial settings.
    fn builder() -> (r: Result<Self::Builder>)
        ensures
            r is Ok ==> r->Ok_0.settings() == ConnectorSettings::initial(),
    ;

    /// Performs the client handshake over `stream` for `domain`. Without an
    /// ALPN list no protocol is negotiated.
    fn connect_with_socket<S>(&self, domain: &str, stream: S) -> (r: Result<TlsStream<S>>)
        ensures
            r is Ok && self.settings().alpn_protocols is None ==> r->Ok_0.negotiated() is None,
    ;
}

} // verus!
