use vstd::prelude::*;

use crate::alpn::copy_protocol;
use crate::alpn::protocols_of;
use crate::alpn::protocols_of_slices;
use crate::alpn::select_alpn;
use crate::alpn::server_choice;

verus! {

/// What a connector builder has been told so far.
pub struct ConnectorSettings {
    pub verify_hostname: bool,
    pub root_certificates: Seq<Seq<u8>>,
    pub alpn_protocols: Option<Seq<Seq<u8>>>,
}

impl ConnectorSettings {
    /// Settings of a fresh builder: hostname verification on, no extra
    /// roots, no ALPN.
    pub open spec fn initial() -> ConnectorSettings {
        ConnectorSettings { verify_hostname: true, root_certificates: Seq::empty(), alpn_protocols: None }
    }

    pub open spec fn with_verify_hostname(self, verify: bool) -> ConnectorSettings {
        ConnectorSettings { verify_hostname: verify, ..self }
    }

    pub open spec fn with_root_certificate(self, cert: Seq<u8>) -> ConnectorSettings {
        ConnectorSettings { root_certificates: self.root_certificates.push(cert), ..self }
    }

    pub open spec fn with_alpn_protocols(self, protocols: Seq<Seq<u8>>) -> ConnectorSettings {
        ConnectorSettings { alpn_protocols: Some(protocols), ..self }
    }

    /// The settings after `set_verify_hostname` with each value of `values` in turn.
    pub open spec fn with_verify_hostname_all(self, values: Seq<bool>) -> ConnectorSettings
        decreases values.len(),
    {
        if values.len() == 0 {
            self
        } else {
            self.with_verify_hostname(values[0]).with_verify_hostname_all(values.drop_first())
        }
    }

    /// The settings after `set_alpn_protocols` with each list of `lists` in turn.
    pub open spec fn with_alpn_protocols_all(self, lists: Seq<Seq<Seq<u8>>>) -> ConnectorSettings
        decreases lists.len(),
    {
        if lists.len() == 0 {
            self
        } else {
            self.with_alpn_protocols(lists[0]).with_alpn_protocols_all(lists.drop_first())
        }
    }
}

/// Setting hostname verification any number of times leaves only the last
/// value, and no other setting changes.
pub proof fn lemma_last_verify_hostname_wins(s: ConnectorSettings, values: Seq<bool>)
    requires
        values.len() > 0,
    ensures
        s.with_verify_hostname_all(values) == s.with_verify_hostname(values.last()),
    decreases values.len(),
{
    let rest = values.drop_first();
    if values.len() > 1 {
        lemma_last_verify_hostname_wins(s.with_verify_hostname(values[0]), rest);
        assert(rest.last() == values.last());
    } else {
        assert(rest.len() == 0);
        assert(s.with_verify_hostname(values[0]).with_verify_hostname_all(rest) == s.with_verify_hostname(values[0]));
    }
    assert(s.with_verify_hostname_all(values) == s.with_verify_hostname(values[0]).with_verify_hostname_all(rest));
}

/// Setting the ALPN list any number of times leaves only the last list, and
/// no other setting changes.
pub proof fn lemma_last_alpn_protocols_win(s: ConnectorSettings, lists: Seq<Seq<Seq<u8>>>)
    requires
        lists.len() > 0,
    ensures
        s.with_alpn_protocols_all(lists) == s.with_alpn_protocols(lists.last()),
    decreases lists.len(),
{
    let rest = lists.drop_first();
    if lists.len() > 1 {
        lemma_last_alpn_protocols_win(s.with_alpn_protocols(lists[0]), rest);
        assert(rest.last() == lists.last());
    } else {
        assert(rest.len() == 0);
        assert(s.with_alpn_protocols(lists[0]).with_alpn_protocols_all(rest) == s.with_alpn_protocols(lists[0]));
    }
    assert(s.with_alpn_protocols_all(lists) == s.with_alpn_protocols(lists[0]).with_alpn_protocols_all(rest));
}

/// Roots accumulate, and adding the same certificate again leaves the set
/// of trusted certificates as one addition made it.
pub proof fn lemma_repeated_root_same_trust_set(s: ConnectorSettings, cert: Seq<u8>)
    ensures
        s.with_root_certificate(cert).root_certificates.to_set() == s.root_certificates.to_set().insert(
            cert,
        ),
        s.with_root_certificate(cert).with_root_certificate(cert).root_certificates.to_set()
            == s.with_root_certificate(cert).root_certificates.to_set(),
{
    let once = s.root_certificates.push(cert);
    let twice = once.push(cert);
    assert(once.to_set() =~= s.root_certificates.to_set().insert(cert)) by {
        assert forall|x: Seq<u8>| #[trigger] once.contains(x) <==> (s.root_certificates.contains(x) || x == cert) by {
            if s.root_certificates.contains(x) {
                let i = choose|i: int| 0 <= i < s.root_certificates.len() && s.root_certificates[i] == x;
                assert(once[i] == x);
            }
            if x == cert {
                assert(once[once.len() - 1] == x);
            }
        }
    }
    assert(twice.to_set() =~= once.to_set()) by {
        assert forall|x: Seq<u8>| #[trigger] twice.contains(x) <==> once.contains(x) by {
            if once.contains(x) {
                let i = choose|i: int| 0 <= i < once.len() && once[i] == x;
                assert(twice[i] == x);
            }
            if twice.contains(x) {
                let i = choose|i: int| 0 <= i < twice.len() && twice[i] == x;
                if i == twice.len() - 1 {
                    assert(once[once.len() - 1] == x);
                } else {
                    assert(once[i] == x);
                }
            }
        }
    }
}

/// Copies a borrowed protocol list.
pub fn copy_protocols(protocols: &[&[u8]]) -> (r: Vec<Vec<u8>>)
    ensures
        protocols_of(r@) == protocols_of_slices(protocols@),
{
    let mut out: Vec<Vec<u8>> = Vec::new();
    let mut i: usize = 0;
    while i < protocols.len()
        invariant
            0 <= i <= protocols@.len(),
            protocols_of(out@) =~= protocols_of_slices(protocols@).subrange(0, i as int),
        decreases protocols@.len() - i,
    {
        let p = copy_protocol(protocols[i]);
        let ghost before = out@;
        out.push(p);
        assert(out@ == before.push(p));
        assert(p@ == protocols_of_slices(protocols@)[i as int]);
        assert(protocols_of(out@) =~= protocols_of(before).push(p@));
        i = i + 1;
        assert(protocols_of(out@) =~= protocols_of_slices(protocols@).subrange(0, i as int));
    }
    assert(protocols_of_slices(protocols@).subrange(0, i as int) =~= protocols_of_slices(
        protocols@,
    ));
    out
}

/// The configuration that a connector builder accumulates.
pub struct ConnectorConfig {
    verify_hostname: bool,
    root_certificates: Vec<Vec<u8>>,
    alpn_protocols: Option<Vec<Vec<u8>>>,
}

impl View for ConnectorConfig {
    type V = ConnectorSettings;

    closed spec fn view(&self) -> ConnectorSettings {
        ConnectorSettings {
            verify_hostname: self.verify_hostname,
            root_certificates: protocols_of(self.root_certificates@),
            alpn_protocols: match self.alpn_protocols {
                Some(v) => Some(protocols_of(v@)),
                None => None,
            },
        }
    }
}

impl ConnectorConfig {
    pub fn new() -> (r: ConnectorConfig)
        ensures
            r@ == ConnectorSettings::initial(),
    {
        let r = ConnectorConfig { verify_hostname: true, root_certificates: Vec::new(), alpn_protocols: None };
        assert(r@.root_certificates =~= Seq::<Seq<u8>>::empty());
        r
    }

    pub fn set_verify_hostname(&mut self, verify: bool)
        ensures
            final(self)@ == old(self)@.with_verify_hostname(verify),
    {
        self.verify_hostname = verify;
    }

    /// Appends one DER-encoded certificate to the trust store.
    pub fn add_root_certificate(&mut self, cert: &[u8])
        ensures
            final(self)@ == old(self)@.with_root_certificate(cert@),
    {
        let c = copy_protocol(cert);
        self.root_certificates.push(c);
        assert(self@.root_certificates =~= old(self)@.root_certificates.push(cert@));
    }

    pub fn set_alpn_protocols(&mut self, protocols: &[&[u8]])
        ensures
            final(self)@ == old(self)@.with_alpn_protocols(protocols_of_slices(protocols@)),
    {
        self.alpn_protocols = Some(copy_protocols(protocols));
    }

    pub fn verify_hostname(&self) -> (r: bool)
        ensures
            r == self@.verify_hostname,
    {
        self.verify_hostname
    }

    pub fn root_certificates(&self) -> (r: &Vec<Vec<u8>>)
        ensures
            protocols_of(r@) == self@.root_certificates,
    {
        &self.root_certificates
    }

    pub fn alpn_protocols(&self) -> (r: &Option<Vec<Vec<u8>>>)
        ensures
            r is None <==> self@.alpn_protocols is None,
            r is Some ==> self@.alpn_protocols == Some(protocols_of(r->Some_0@)),
    {
        &self.alpn_protocols
    }
}

/// What an acceptor builder has been told: its key material and ALPN list.
pub struct AcceptorSettings {
    pub certificate: Seq<u8>,
    pub private_key: Seq<u8>,
    pub alpn_protocols: Option<Seq<Seq<u8>>>,
}

impl AcceptorSettings {
    pub open spec fn with_alpn_protocols(self, protocols: Seq<Seq<u8>>) -> AcceptorSettings {
        AcceptorSettings { alpn_protocols: Some(protocols), ..self }
    }

    /// The settings after `set_alpn_protocols` with each list of `lists` in turn.
    pub open spec fn with_alpn_protocols_all(self, lists: Seq<Seq<Seq<u8>>>) -> AcceptorSettings
        decreases lists.len(),
    {
        if lists.len() == 0 {
            self
        } else {
            self.with_alpn_protocols(lists[0]).with_alpn_protocols_all(lists.drop_first())
        }
    }
}

/// On the acceptor too, setting the ALPN list any number of times leaves only
/// the last list, and the key material does not change.
pub proof fn lemma_acceptor_last_alpn_protocols_win(s: AcceptorSettings, lists: Seq<Seq<Seq<u8>>>)
    requires
        lists.len() > 0,
    ensures
        s.with_alpn_protocols_all(lists) == s.with_alpn_protocols(lists.last()),
    decreases lists.len(),
{
    let rest = lists.drop_first();
    if lists.len() > 1 {
        lemma_acceptor_last_alpn_protocols_win(s.with_alpn_protocols(lists[0]), rest);
        assert(rest.last() == lists.last());
    } else {
        assert(rest.len() == 0);
        assert(s.with_alpn_protocols(lists[0]).with_alpn_protocols_all(rest) == s.with_alpn_protocols(lists[0]));
    }
    assert(s.with_alpn_protocols_all(lists) == s.with_alpn_protocols(lists[0]).with_alpn_protocols_all(rest));
}

/// The configuration that an acceptor builder accumulates.
pub struct AcceptorConfig {
    certificate: Vec<u8>,
    private_key: Vec<u8>,
    alpn_protocols: Option<Vec<Vec<u8>>>,
}

impl View for AcceptorConfig {
    type V = AcceptorSettings;

    closed spec fn view(&self) -> AcceptorSettings {
        AcceptorSettings {
            certificate: self.certificate@,
            private_key: self.private_key@,
            alpn_protocols: match self.alpn_protocols {
                Some(v) => Some(protocols_of(v@)),
                None => None,
            },
        }
    }
}

impl AcceptorConfig {
    /// A configuration from a DER certificate and its DER private key, without ALPN.
    pub fn from_der_keys(certificate: &[u8], private_key: &[u8]) -> (r: AcceptorConfig)
        ensures
            r@ == (AcceptorSettings {
                certificate: certificate@,
                private_key: private_key@,
                alpn_protocols: None,
            }),
    {
        AcceptorConfig {
            certificate: copy_protocol(certificate),
            private_key: copy_protocol(private_key),
            alpn_protocols: None,
        }
    }

    pub fn set_alpn_protocols(&mut self, protocols: &[&[u8]])
        ensures
            final(self)@ == old(self)@.with_alpn_protocols(protocols_of_slices(protocols@)),
    {
        self.alpn_protocols = Some(copy_protocols(protocols));
    }

    pub fn certificate(&self) -> (r: &Vec<u8>)
        ensures
            r@ == self@.certificate,
    {
        &self.certificate
    }

    pub fn private_key(&self) -> (r: &Vec<u8>)
        ensures
            r@ == self@.private_key,
    {
        &self.private_key
    }
}

/// The protocol that both ends of a handshake report: ALPN is used only when
/// both sides configured a list, and then the acceptor's priority decides.
pub open spec fn negotiated(client: ConnectorSettings, server: AcceptorSettings) -> Option<Seq<u8>> {
    match (client.alpn_protocols, server.alpn_protocols) {
        (Some(c), Some(s)) => server_choice(s, c),
        _ => None,
    }
}

/// The protocol negotiated between a connector and an acceptor configured so.
pub fn negotiate_alpn(client: &ConnectorConfig, server: &AcceptorConfig) -> (r: Option<Vec<u8>>)
    ensures
        r is None <==> negotiated(client@, server@) is None,
        r is Some ==> negotiated(client@, server@) == Some(r->Some_0@),
{
    match (&client.alpn_protocols, &server.alpn_protocols) {
        (Some(c), Some(s)) => select_alpn(s.as_slice(), c.as_slice()),
        _ => None,
    }
}

} // verus!
