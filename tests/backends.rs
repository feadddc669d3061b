use tls_api::acceptor::TlsAcceptor as _;
use tls_api::acceptor::TlsAcceptorBuilder as _;
use tls_api::conformance::alpn_endpoints;
use tls_api::conformance::new_acceptor;
use tls_api::conformance::new_connector_with_root_ca;
use tls_api::conformance::new_connector_without_hostname_check;
use tls_api::conformance::server_endpoints;
use tls_api::connector::TlsConnector as _;
use tls_api::connector::TlsConnectorBuilder as _;
use tls_api::error::Error;
use tls_api::not_tls;
use tls_api::stream::TlsStream;
use tls_api::stub;

#[test]
fn not_tls_flags() {
    assert!(!not_tls::TlsConnector::IMPLEMENTED);
    assert!(!not_tls::TlsConnector::SUPPORTS_ALPN);
    let info = not_tls::TlsConnector::info();
    assert_eq!(info.name, "no-tls");
    assert_eq!(info.version, "none");
}

#[test]
fn not_tls_refuses_alpn_with_capability_gap() {
    let mut b = not_tls::TlsConnector::builder().expect("builder");
    let e = b.set_alpn_protocols(&[b"xyz", b"de", b"u"]).unwrap_err();
    assert_eq!(e, Error::AlpnUnsupported);
    assert!(e.is_capability_gap());
}

#[test]
fn not_tls_accepts_verification_and_roots() {
    let mut b = not_tls::TlsConnector::builder().expect("builder");
    assert_eq!(b.set_verify_hostname(false), Ok(()));
    assert_eq!(b.add_root_certificate(b"ca"), Ok(()));
    let c = b.build().expect("build");
    assert!(!c.config().verify_hostname());
    assert_eq!(c.config().root_certificates(), &vec![b"ca".to_vec()]);
}

#[test]
fn not_tls_last_verify_hostname_wins_after_build() {
    let mut b = not_tls::TlsConnector::builder().expect("builder");
    b.set_verify_hostname(false).unwrap();
    b.set_verify_hostname(true).unwrap();
    b.set_verify_hostname(false).unwrap();
    assert!(!b.config().verify_hostname());
    let c = b.build().expect("build");
    assert!(!c.config().verify_hostname());
}

#[test]
fn not_tls_refused_alpn_leaves_settings() {
    let mut b = not_tls::TlsConnector::builder().expect("builder");
    assert!(b.set_alpn_protocols(&[b"h2"]).is_err());
    let c = b.build().expect("build");
    assert!(c.config().alpn_protocols().is_none());
    assert!(c.config().verify_hostname());
    assert!(!not_tls::TlsConnector::supports_alpn());
}

#[test]
fn not_tls_acceptor_passthrough() {
    assert!(!not_tls::TlsAcceptor::IMPLEMENTED);
    assert!(!not_tls::TlsAcceptor::supports_alpn());
    assert_eq!(not_tls::TlsAcceptor::info().name, "no-tls");
    let mut b = not_tls::TlsAcceptor::builder_from_der_key(b"cert", b"key").expect("builder");
    assert_eq!(b.set_alpn_protocols(&[b"abc", b"de", b"f"]), Err(Error::AlpnUnsupported));
    let a = b.build().expect("build");
    assert_eq!(a.config().certificate(), &b"cert".to_vec());
    assert_eq!(a.config().private_key(), &b"key".to_vec());
    let s = a.accept_with_socket(5u16).expect("accept");
    assert_eq!(s.get_alpn_protocol(), None);
    assert_eq!(s.into_socket(), 5);
}

#[test]
fn passthrough_ends_hand_the_socket_over() {
    let (connector, acceptor) =
        match server_endpoints::<not_tls::TlsConnector, not_tls::TlsAcceptor>(b"ca", b"cert", b"key") {
            Ok(pair) => pair,
            Err(e) => panic!("endpoints: {:?}", e),
        };
    let client = connector.connect_with_socket("localhost", Vec::<u8>::new()).expect("connect");
    let mut wire = client.into_socket();
    wire.extend_from_slice(b"hello");
    let server = acceptor.accept_with_socket(wire).expect("accept");
    assert_eq!(server.get_socket_ref(), &b"hello".to_vec());
    let mut back = server.into_socket();
    back.clear();
    back.extend_from_slice(b"world");
    assert_eq!(back, b"world".to_vec());
}

#[test]
fn alpn_scenario_skipped_without_alpn() {
    match alpn_endpoints::<not_tls::TlsConnector, not_tls::TlsAcceptor>(b"ca", b"cert", b"key") {
        Ok(None) => {}
        Ok(Some(_)) => panic!("not-tls has no ALPN"),
        Err(e) => panic!("endpoints: {:?}", e),
    }
}

#[test]
fn scenario_builders_hold_key_material() {
    let c = match new_connector_with_root_ca::<not_tls::TlsConnector>(b"root") {
        Ok(c) => c,
        Err(e) => panic!("{:?}", e),
    };
    assert_eq!(c.config().root_certificates(), &vec![b"root".to_vec()]);
    let a = match new_acceptor::<not_tls::TlsAcceptor>(b"cert", b"key") {
        Ok(a) => a,
        Err(e) => panic!("{:?}", e),
    };
    let a = a.build().expect("build");
    assert_eq!(a.config().certificate(), &b"cert".to_vec());
    assert!(new_connector_with_root_ca::<stub::TlsConnector>(b"root").is_err());
}

#[test]
fn not_tls_connect_hands_socket_back() {
    let b = not_tls::TlsConnector::builder().expect("builder");
    let c = b.build().expect("build");
    let socket: Vec<u8> = b"hello".to_vec();
    let stream = c.connect_with_socket("localhost", socket).expect("connect");
    assert_eq!(stream.get_alpn_protocol(), None);
    assert_eq!(stream.get_socket_ref(), &b"hello".to_vec());
    assert_eq!(stream.into_socket(), b"hello".to_vec());
}

#[test]
fn not_tls_connector_is_reusable() {
    let c = not_tls::TlsConnector::builder().unwrap().build().unwrap();
    let a = c.connect_with_socket("a.example", 1u32).unwrap();
    let b = c.connect_with_socket("b.example", 2u32).unwrap();
    assert_eq!(a.into_socket(), 1);
    assert_eq!(b.into_socket(), 2);
}

#[test]
fn stub_cannot_build() {
    assert!(!stub::TlsConnector::IMPLEMENTED);
    assert!(!stub::TlsConnector::SUPPORTS_ALPN);
    let e = match stub::TlsConnector::builder() {
        Ok(_) => panic!("stub builder must fail"),
        Err(e) => e,
    };
    assert_eq!(e, Error::Backend("stub implementation".to_string()));
    assert!(!e.is_capability_gap());
    assert_eq!(e.message(), "stub implementation");
    assert_eq!(stub::TlsConnector::info().name, "stub");
}

#[test]
fn stream_reports_negotiated_protocol() {
    let s = TlsStream::new(7u8, Some(b"de".to_vec()));
    assert_eq!(s.get_alpn_protocol(), Some(b"de".to_vec()));
    assert_eq!(*s.get_socket_ref(), 7);
    let plain = TlsStream::new(7u8, None);
    assert_eq!(plain.get_alpn_protocol(), None);
}

#[test]
fn error_texts() {
    assert_eq!(
        Error::AlpnUnsupported.message(),
        "ALPN is not supported by this implementation"
    );
    assert_eq!(
        Error::VerifyHostnameUnsupported.message(),
        "disabling hostname verification is not supported by this implementation"
    );
    assert!(Error::VerifyHostnameUnsupported.is_capability_gap());
    assert_eq!(Error::backend("boom"), Error::Backend("boom".to_string()));
    assert_eq!(Error::backend("boom").message(), "boom");
}

#[test]
fn kinds_hold() {
    tls_api::_assert_kinds();
}

#[test]
fn stream_socket_can_be_written_in_place() {
    let mut s = TlsStream::new(Vec::<u8>::new(), Some(b"h2".to_vec()));
    s.get_socket_mut().extend_from_slice(b"abc");
    assert_eq!(s.get_socket_ref(), &b"abc".to_vec());
    assert_eq!(s.get_alpn_protocol(), Some(b"h2".to_vec()));
}

#[test]
fn implemented_flags_through_traits() {
    assert!(!not_tls::TlsConnector::implemented());
    assert!(!not_tls::TlsAcceptor::implemented());
    assert!(!stub::TlsConnector::implemented());
}

#[test]
fn not_tls_underlying_is_its_config() {
    let mut b = not_tls::TlsConnector::builder().expect("builder");
    b.underlying_mut().set_verify_hostname(false);
    let mut c = b.build().expect("build");
    assert!(!c.config().verify_hostname());
    c.underlying_mut().add_root_certificate(b"ca");
    assert_eq!(c.config().root_certificates(), &vec![b"ca".to_vec()]);
}

#[test]
fn verification_off_connector() {
    let c = match new_connector_without_hostname_check::<not_tls::TlsConnector>() {
        Ok(c) => c,
        Err(e) => panic!("{:?}", e),
    };
    assert!(!c.config().verify_hostname());
    assert!(new_connector_without_hostname_check::<stub::TlsConnector>().is_err());
}

#[test]
fn repeated_settings_keep_succeeding() {
    let mut b = not_tls::TlsConnector::builder().expect("builder");
    assert_eq!(b.set_verify_hostname(false), Ok(()));
    assert_eq!(b.set_verify_hostname(false), Ok(()));
    assert_eq!(b.add_root_certificate(b"ca"), Ok(()));
    assert_eq!(b.add_root_certificate(b"ca"), Ok(()));
    assert_eq!(b.set_alpn_protocols(&[b"h2"]), Err(Error::AlpnUnsupported));
    assert_eq!(b.set_alpn_protocols(&[b"h2"]), Err(Error::AlpnUnsupported));
    let c = b.build().expect("build");
    assert!(!c.config().verify_hostname());
    assert_eq!(c.config().root_certificates().len(), 2);
}
