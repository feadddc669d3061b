//! The generic server-side interface that every backend implements.
use vstd::prelude::*;

use crate::alpn::protocols_of_slices;
use crate::config::AcceptorSettings;
use crate::error::Error;
use crate::error::Result;
use crate::info::ImplInfo;
use crate::stream::TlsStream;

verus! {

/// A finalized acceptor's settings, as its builder left them.
pub trait AcceptorState {
    /// The settings the acceptor was built with.
    spec fn settings(&self) -> AcceptorSettings;
}

/// A single-use, mutable configuration of an acceptor. `build` takes the
/// builder by value, so it cannot be used once it has been finalized.
pub trait TlsAcceptorBuilder: Sized {
    /// The acceptor that `build` makes.
    type Acceptor: AcceptorState;

    /// What the builder has been told so far.
    spec fn settings(&self) -> AcceptorSettings;

    /// Whether the backend can negotiate ALPN.
    spec fn alpn_supported() -> bool;

    /// Sets the ALPN list that the acceptor selects from, in its priority
    /// order. It fails exactly on a backend without ALPN, with the
    /// capability-gap error.
    fn set_alpn_protocols(&mut self, protocols: &[&[u8]]) -> (r: Result<()>)
        ensures
            r is Err <==> !Self::alpn_supported(),
            r is Err ==> r == Err::<(), Error>(Error::AlpnUnsupported),
            r is Ok ==> final(self).settings() == old(self).settings().with_alpn_protocols(
                protocols_of_slices(protocols@),
            ),
            r is Err ==> final(self).settings() == old(self).settings(),
    ;

    /// Finalizes the configuration; the acceptor keeps the settings.
    fn build(self) -> (r: Result<Self::Acceptor>)
        ensures
            r is Ok ==> r->Ok_0.settings() == self.settings(),
    ;
}

/// An immutable, reusable capability to accept server handshakes.
pub trait TlsAcceptor: AcceptorState + Sized {
    /// The builder of this acceptor.
    type Builder: TlsAcceptorBuilder<Acceptor = Self>;

    /// Identifies the backend.
    fn info() -> ImplInfo;

    /// Whether the backend performs real handshakes.
    fn implemented() -> bool;

    /// Whether the backend can negotiate ALPN.
    fn supports_alpn() -> (r: bool)
        ensures
            r == <Self::Builder as TlsAcceptorBuilder>::alpn_supported(),
    ;

    /// A builder from a DER certificate and its DER private key.
    fn builder_from_der_key(cert: &[u8], key: &[u8]) -> (r: Result<Self::Builder>)
        ensures
            r is Ok ==> r->Ok_0.settings() == (AcceptorSettings {
                certificate: cert@,
                private_key: key@,
                alpn_protocols: None,
            }),
    ;

    /// Performs the server handshake over `stream`. Without an ALPN list no
    /// protocol is negotiated.
    fn accept_with_socket<S>(&self, stream: S) -> (r: Result<TlsStream<S>>)
        ensures
            r is Ok && self.settings().alpn_protocols is None ==> r->Ok_0.negotiated() is None,
    ;
}

} // verus!
