//! A backend that cannot be instantiated: its builder and connector hold an
//! uninhabited value, and every operation fails.
use vstd::prelude::*;

use crate::config::ConnectorSettings;
use crate::connector::ConnectorState;
use crate::error::Error;
use crate::error::Result;
use crate::info::ImplInfo;
use crate::stream::TlsStream;

verus! {

/// `void::Void`, the uninhabited type, carried opaquely.
#[verifier::external_type_specification]
#[verifier::external_body]
pub struct ExVoid(void::Void);

/// The text of every failure of this backend but the capability gaps.
pub open spec fn is_stub_error(e: Error) -> bool {
    e is Backend && e->Backend_0@ == "stub implementation"@
}

fn stub_error() -> (e: Error)
    ensures
        is_stub_error(e),
{
    Error::backend("stub implementation")
}

/// Non-instantiable.
pub struct TlsConnectorBuilder(void::Void);

/// Non-instantiable.
pub struct TlsConnector(void::Void);

impl crate::connector::TlsConnectorBuilder for TlsConnectorBuilder {
    type Connector = TlsConnector;

    type Underlying = void::Void;

    fn underlying_mut(&mut self) -> &mut void::Void {
        &mut self.0
    }

    /// No builder of this backend exists; this is what one would report.
    open spec fn settings(&self) -> ConnectorSettings {
        ConnectorSettings::initial()
    }

    open spec fn alpn_supported() -> bool {
        false
    }

    open spec fn can_disable_verification() -> bool {
        false
    }

    /// Fails: this backend cannot negotiate ALPN.
    fn set_alpn_protocols(&mut self, protocols: &[&[u8]]) -> (r: Result<()>)
        ensures
            r == Err::<(), Error>(Error::AlpnUnsupported),
    {
        Err(Error::AlpnUnsupported)
    }

    /// Refuses to turn verification off; no builder of this backend exists
    /// to ask.
    fn set_verify_hostname(&mut self, verify: bool) -> (r: Result<()>) {
        if verify {
            Ok(())
        } else {
            Err(Error::VerifyHostnameUnsupported)
        }
    }

    fn add_root_certificate(&mut self, cert: &[u8]) -> (r: Result<()>)
        ensures
            r is Err && is_stub_error(r->Err_0),
    {
        Err(stub_error())
    }

    fn build(self) -> (r: Result<TlsConnector>)
        ensures
            r is Err && is_stub_error(r->Err_0),
    {
        Err(stub_error())
    }
}

impl TlsConnector {
    /// This backend performs no handshake.
    pub const IMPLEMENTED: bool = false;

    /// This backend cannot negotiate ALPN.
    pub const SUPPORTS_ALPN: bool = false;
}

impl ConnectorState for TlsConnector {
    open spec fn settings(&self) -> ConnectorSettings {
        ConnectorSettings::initial()
    }
}

impl crate::connector::TlsConnector for TlsConnector {
    type Builder = TlsConnectorBuilder;

    type Underlying = void::Void;

    fn underlying_mut(&mut self) -> &mut void::Void {
        &mut self.0
    }

    fn implemented() -> (r: bool)
        ensures
            !r,
    {
        TlsConnector::IMPLEMENTED
    }

    fn supports_alpn() -> (r: bool) {
        TlsConnector::SUPPORTS_ALPN
    }

    /// Identifies the backend.
    fn info() -> (r: ImplInfo)
        ensures
            r.name@ == "stub"@,
            r.version@ == "none"@,
    {
        ImplInfo { name: "stub".to_owned(), version: "none".to_owned() }
    }

    /// Fails: no builder of this backend can exist.
    fn builder() -> (r: Result<TlsConnectorBuilder>)
        ensures
            r is Err && is_stub_error(r->Err_0),
    {
        Err(stub_error())
    }

    fn connect_with_socket<S>(&self, domain: &str, stream: S) -> (r: Result<TlsStream<S>>)
        ensures
            r is Err && is_stub_error(r->Err_0),
    {
        Err(stub_error())
    }
}

} // verus!
