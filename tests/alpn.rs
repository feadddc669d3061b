use tls_api::alpn::copy_protocol;
use tls_api::alpn::select_alpn;
use tls_api::config::negotiate_alpn;
use tls_api::config::AcceptorConfig;
use tls_api::config::ConnectorConfig;

fn list(items: &[&[u8]]) -> Vec<Vec<u8>> {
    items.iter().map(|p| p.to_vec()).collect()
}

#[test]
fn server_priority_picks_shared_entry() {
    let server = list(&[b"abc", b"de", b"f"]);
    let client = list(&[b"xyz", b"de", b"u"]);
    assert_eq!(select_alpn(&server, &client), Some(b"de".to_vec()));
}

#[test]
fn server_order_wins_over_client_order() {
    let server = list(&[b"h2", b"http/1.1"]);
    let client = list(&[b"http/1.1", b"h2"]);
    assert_eq!(select_alpn(&server, &client), Some(b"h2".to_vec()));
    assert_eq!(select_alpn(&client, &server), Some(b"http/1.1".to_vec()));
}

#[test]
fn no_shared_protocol_selects_none() {
    let server = list(&[b"abc", b"f"]);
    let client = list(&[b"xyz", b"u"]);
    assert_eq!(select_alpn(&server, &client), None);
    assert_eq!(select_alpn(&[], &client), None);
    assert_eq!(select_alpn(&server, &[]), None);
}

#[test]
fn prefix_is_not_a_match() {
    let server = list(&[b"ab", b"abcd"]);
    let client = list(&[b"abc", b"abcd"]);
    assert_eq!(select_alpn(&server, &client), Some(b"abcd".to_vec()));
}

#[test]
fn copy_keeps_bytes() {
    assert_eq!(copy_protocol(b"h2"), b"h2".to_vec());
    assert_eq!(copy_protocol(b""), Vec::<u8>::new());
}

#[test]
fn both_sides_report_acceptor_choice() {
    let mut client = ConnectorConfig::new();
    client.set_alpn_protocols(&[b"xyz", b"de", b"u"]);
    let mut server = AcceptorConfig::from_der_keys(b"cert", b"key");
    server.set_alpn_protocols(&[b"abc", b"de", b"f"]);
    assert_eq!(negotiate_alpn(&client, &server), Some(b"de".to_vec()));
}

#[test]
fn alpn_on_one_side_only_negotiates_nothing() {
    let mut client = ConnectorConfig::new();
    client.set_alpn_protocols(&[b"de"]);
    let server = AcceptorConfig::from_der_keys(b"cert", b"key");
    assert_eq!(negotiate_alpn(&client, &server), None);

    let client = ConnectorConfig::new();
    let mut server = AcceptorConfig::from_der_keys(b"cert", b"key");
    server.set_alpn_protocols(&[b"de"]);
    assert_eq!(negotiate_alpn(&client, &server), None);
}
