//! The configuration half of the backend-neutral conformance scenarios: how
//! the client and server ends are built before a loopback handshake.
use vstd::prelude::*;

use crate::acceptor::AcceptorState;
use crate::acceptor::TlsAcceptor;
use crate::acceptor::TlsAcceptorBuilder;
use crate::alpn::offers;
use crate::alpn::protocols_of_slices;
use crate::alpn::server_choice;
use crate::config::negotiated;
use crate::config::AcceptorSettings;
use crate::config::ConnectorSettings;
use crate::connector::ConnectorState;
use crate::connector::TlsConnector;
use crate::connector::TlsConnectorBuilder;
use crate::error::Result;

verus! {

/// The list the client offers in the ALPN scenario: `xyz`, `de`, `u`.
pub open spec fn client_alpn_list() -> Seq<Seq<u8>> {
    seq![seq![120u8, 121u8, 122u8], seq![100u8, 101u8], seq![117u8]]
}

/// The list the server selects from in the ALPN scenario: `abc`, `de`, `f`.
pub open spec fn server_alpn_list() -> Seq<Seq<u8>> {
    seq![seq![97u8, 98u8, 99u8], seq![100u8, 101u8], seq![102u8]]
}

/// The two lists share `de` alone, so that is what both ends must report.
pub proof fn lemma_scenario_lists_negotiate_de()
    ensures
        server_choice(server_alpn_list(), client_alpn_list()) == Some(seq![100u8, 101u8]),
{
    let s = server_alpn_list();
    let c = client_alpn_list();
    let de = seq![100u8, 101u8];
    assert(s[0][0] == 97u8);
    assert(c[0][0] == 120u8);
    assert(c[1][0] == 100u8);
    assert(c[2][0] == 117u8);
    assert forall|i: int| 0 <= i < c.len() implies c[i] != s[0] by {
        assert(c[i][0] != s[0][0]);
    }
    assert(!offers(c, s[0]));
    let rest = s.drop_first();
    assert(server_choice(s, c) == server_choice(rest, c));
    assert(rest[0] =~= de);
    assert(c[1] =~= de);
    assert(offers(c, rest[0]));
    assert(server_choice(rest, c) == Some(rest[0]));
}

/// A builder of `C` that trusts `root_ca` in addition to the defaults.
pub fn new_connector_with_root_ca<C: TlsConnector>(root_ca: &[u8]) -> (r: Result<C::Builder>)
    ensures
        r is Ok ==> r->Ok_0.settings() == ConnectorSettings::initial().with_root_certificate(
            root_ca@,
        ),
{
    let mut connector = C::builder()?;
    connector.add_root_certificate(root_ca)?;
    Ok(connector)
}

/// A connector of `C` with hostname verification off, for the scenario
/// that connects under a name the certificate does not cover. A backend that
/// cannot turn verification off yields no connector.
pub fn new_connector_without_hostname_check<C: TlsConnector>() -> (r: Result<C>)
    ensures
        !<C::Builder as TlsConnectorBuilder>::can_disable_verification() ==> r is Err,
        r is Ok ==> r->Ok_0.settings() == ConnectorSettings::initial().with_verify_hostname(false),
{
    let mut builder = C::builder()?;
    builder.set_verify_hostname(false)?;
    builder.build()
}

/// A builder of `A` from the server's DER certificate and private key.
pub fn new_acceptor<A: TlsAcceptor>(cert: &[u8], key: &[u8]) -> (r: Result<A::Builder>)
    ensures
        r is Ok ==> r->Ok_0.settings() == (AcceptorSettings {
            certificate: cert@,
            private_key: key@,
            alpn_protocols: None,
        }),
{
    A::builder_from_der_key(cert, key)
}

/// The two ends of the loopback scenario: an acceptor holding the server's
/// keys and a connector that trusts the matching root.
pub fn server_endpoints<C: TlsConnector, A: TlsAcceptor>(
    root_ca: &[u8],
    cert: &[u8],
    key: &[u8],
) -> (r: Result<(C, A)>)
    ensures
        r is Ok ==> r->Ok_0.0.settings() == ConnectorSettings::initial().with_root_certificate(
            root_ca@,
        ),
        r is Ok ==> r->Ok_0.1.settings() == (AcceptorSettings {
            certificate: cert@,
            private_key: key@,
            alpn_protocols: None,
        }),
{
    let acceptor = new_acceptor::<A>(cert, key)?.build()?;
    let connector = new_connector_with_root_ca::<C>(root_ca)?.build()?;
    Ok((connector, acceptor))
}

/// The two ends of the ALPN scenario, or `None` where either backend lacks
/// ALPN, in which case the scenario is skipped. Where both are built, the
/// protocol their handshake must agree on is `de`.
pub fn alpn_endpoints<C: TlsConnector, A: TlsAcceptor>(
    root_ca: &[u8],
    cert: &[u8],
    key: &[u8],
) -> (r: Result<Option<(C, A)>>)
    ensures
        !(<C::Builder as TlsConnectorBuilder>::alpn_supported()
            && <A::Builder as TlsAcceptorBuilder>::alpn_supported()) ==> r is Ok && r->Ok_0 is None,
        r is Ok && r->Ok_0 is None ==> !(<C::Builder as TlsConnectorBuilder>::alpn_supported()
            && <A::Builder as TlsAcceptorBuilder>::alpn_supported()),
        r is Ok && r->Ok_0 is Some ==> {
            let (c, a) = r->Ok_0->Some_0;
            &&& c.settings() == ConnectorSettings::initial().with_root_certificate(
                root_ca@,
            ).with_alpn_protocols(client_alpn_list())
            &&& a.settings() == (AcceptorSettings {
                certificate: cert@,
                private_key: key@,
                alpn_protocols: Some(server_alpn_list()),
            })
            &&& negotiated(c.settings(), a.settings()) == Some(seq![100u8, 101u8])
        },
{
    if !C::supports_alpn() {
        return Ok(None);
    }
    if !A::supports_alpn() {
        return Ok(None);
    }
    let abc: Vec<u8> = vec![97, 98, 99];
    let de: Vec<u8> = vec![100, 101];
    let f: Vec<u8> = vec![102];
    let xyz: Vec<u8> = vec![120, 121, 122];
    let u: Vec<u8> = vec![117];
    let mut server_list: Vec<&[u8]> = Vec::new();
    server_list.push(abc.as_slice());
    server_list.push(de.as_slice());
    server_list.push(f.as_slice());
    let mut client_list: Vec<&[u8]> = Vec::new();
    client_list.push(xyz.as_slice());
    client_list.push(de.as_slice());
    client_list.push(u.as_slice());
    let server_slice = server_list.as_slice();
    let client_slice = client_list.as_slice();
    proof {
        assert(protocols_of_slices(server_slice@) =~~= server_alpn_list());
        assert(protocols_of_slices(client_slice@) =~~= client_alpn_list());
        lemma_scenario_lists_negotiate_de();
    }

    let mut acceptor = new_acceptor::<A>(cert, key)?;
    acceptor.set_alpn_protocols(server_slice)?;
    let acceptor = acceptor.build()?;

    let mut connector = new_connector_with_root_ca::<C>(root_ca)?;
    connector.set_alpn_protocols(client_slice)?;
    let connector = connector.build()?;
    Ok(Some((connector, acceptor)))
}

} // verus!
