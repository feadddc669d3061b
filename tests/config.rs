use tls_api::config::AcceptorConfig;
use tls_api::config::ConnectorConfig;

#[test]
fn fresh_connector_config() {
    let c = ConnectorConfig::new();
    assert!(c.verify_hostname());
    assert!(c.root_certificates().is_empty());
    assert!(c.alpn_protocols().is_none());
}

#[test]
fn last_verify_hostname_wins() {
    let mut c = ConnectorConfig::new();
    c.set_verify_hostname(false);
    c.set_verify_hostname(true);
    c.set_verify_hostname(false);
    assert!(!c.verify_hostname());
    c.set_verify_hostname(true);
    assert!(c.verify_hostname());
}

#[test]
fn last_alpn_list_wins() {
    let mut c = ConnectorConfig::new();
    c.set_alpn_protocols(&[b"h2", b"http/1.1"]);
    c.set_alpn_protocols(&[b"de"]);
    assert_eq!(c.alpn_protocols(), &Some(vec![b"de".to_vec()]));
    c.set_alpn_protocols(&[]);
    assert_eq!(c.alpn_protocols(), &Some(Vec::<Vec<u8>>::new()));
}

#[test]
fn root_certificates_accumulate_in_order() {
    let mut c = ConnectorConfig::new();
    c.add_root_certificate(b"first");
    c.add_root_certificate(b"second");
    assert_eq!(
        c.root_certificates(),
        &vec![b"first".to_vec(), b"second".to_vec()]
    );
    assert!(c.verify_hostname());
}

#[test]
fn acceptor_config_keeps_key_material() {
    let mut a = AcceptorConfig::from_der_keys(&[1, 2, 3], &[9, 8]);
    assert_eq!(a.certificate(), &vec![1, 2, 3]);
    assert_eq!(a.private_key(), &vec![9, 8]);
    a.set_alpn_protocols(&[b"abc"]);
    assert_eq!(a.certificate(), &vec![1, 2, 3]);
}
