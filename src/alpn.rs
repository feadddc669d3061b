use vstd::prelude::*;

verus! {

/// A protocol list as byte sequences.
pub open spec fn protocols_of(v: Seq<Vec<u8>>) -> Seq<Seq<u8>> {
    v.map_values(|b: Vec<u8>| b@)
}

/// A borrowed protocol list as byte sequences.
pub open spec fn protocols_of_slices(v: Seq<&[u8]>) -> Seq<Seq<u8>> {
    v.map_values(|b: &[u8]| b@)
}

/// Whether `p` stands in the list.
pub open spec fn offers(list: Seq<Seq<u8>>, p: Seq<u8>) -> bool {
    exists|i: int| 0 <= i < list.len() && list[i] == p
}

/// The protocol that a server with preference list `server` picks from what
/// the client offered: the first of its own entries that the client offered too.
pub open spec fn server_choice(server: Seq<Seq<u8>>, client: Seq<Seq<u8>>) -> Option<Seq<u8>>
    decreases server.len(),
{
    if server.len() == 0 {
        None
    } else if offers(client, server[0]) {
        Some(server[0])
    } else {
        server_choice(server.drop_first(), client)
    }
}

/// The server's priority decides: the chosen protocol is offered by both
/// sides, and every entry that the server lists before it is one the client
/// did not offer. No protocol is chosen exactly when the lists share none.
pub proof fn lemma_server_priority(server: Seq<Seq<u8>>, client: Seq<Seq<u8>>)
    ensures
        server_choice(server, client) is None <==> (forall|i: int|
            0 <= i < server.len() ==> !offers(client, #[trigger] server[i])),
        server_choice(server, client) is Some ==> exists|i: int|
            0 <= i < server.len() && server[i] == server_choice(server, client)->Some_0 && offers(
                client,
                server[i],
            ) && forall|j: int| 0 <= j < i ==> !offers(client, #[trigger] server[j]),
    decreases server.len(),
{
    if server.len() > 0 {
        let rest = server.drop_first();
        lemma_server_priority(rest, client);
        if offers(client, server[0]) {
            assert(server[0] == server_choice(server, client)->Some_0);
        } else {
            assert forall|i: int| 0 < i < server.len() implies server[i] == rest[i - 1] by {}
            if server_choice(rest, client) is Some {
                let k = choose|k: int|
                    0 <= k < rest.len() && rest[k] == server_choice(rest, client)->Some_0
                        && offers(client, rest[k]) && forall|j: int|
                        0 <= j < k ==> !offers(client, #[trigger] rest[j]);
                assert(server[k + 1] == rest[k]);
                assert forall|j: int| 0 <= j < k + 1 implies !offers(client, #[trigger] server[j]) by {
                    if j > 0 {
                        assert(server[j] == rest[j - 1]);
                    }
                }
            } else {
                assert forall|i: int| 0 <= i < server.len() implies !offers(
                    client,
                    #[trigger] server[i],
                ) by {
                    if i > 0 {
                        assert(server[i] == rest[i - 1]);
                    }
                }
            }
        }
    }
}

/// Byte-wise equality of two protocol names.
fn same_protocol(a: &[u8], b: &[u8]) -> (r: bool)
    ensures
        r == (a@ == b@),
{
    if a.len() != b.len() {
        return false;
    }
    let mut i: usize = 0;
    while i < a.len()
        invariant
            a@.len() == b@.len(),
            0 <= i <= a@.len(),
            forall|k: int| 0 <= k < i ==> a@[k] == b@[k],
        decreases a@.len() - i,
    {
        if a[i] != b[i] {
            return false;
        }
        i = i + 1;
    }
    assert(a@ =~= b@);
    true
}

/// Whether the list holds `p`.
fn list_offers(list: &[Vec<u8>], p: &[u8]) -> (r: bool)
    ensures
        r == offers(protocols_of(list@), p@),
{
    let mut i: usize = 0;
    while i < list.len()
        invariant
            0 <= i <= list@.len(),
            forall|k: int| 0 <= k < i ==> list@[k]@ != p@,
        decreases list@.len() - i,
    {
        if same_protocol(list[i].as_slice(), p) {
            assert(protocols_of(list@)[i as int] == p@);
            return true;
        }
        i = i + 1;
    }
    assert forall|k: int| 0 <= k < list@.len() implies protocols_of(list@)[k] != p@ by {}
    false
}

/// Copies a protocol name.
pub fn copy_protocol(p: &[u8]) -> (r: Vec<u8>)
    ensures
        r@ == p@,
{
    let mut out: Vec<u8> = Vec::new();
    let mut i: usize = 0;
    while i < p.len()
        invariant
            0 <= i <= p@.len(),
            out@ == p@.subrange(0, i as int),
        decreases p@.len() - i,
    {
        out.push(p[i]);
        i = i + 1;
    }
    assert(out@ =~= p@);
    out
}

/// The protocol a server with preference list `server` selects from the
/// client's list `client`: the first entry of `server` that `client` holds.
pub fn select_alpn(server: &[Vec<u8>], client: &[Vec<u8>]) -> (r: Option<Vec<u8>>)
    ensures
        r is None <==> server_choice(protocols_of(server@), protocols_of(client@)) is None,
        r is Some ==> server_choice(protocols_of(server@), protocols_of(client@)) == Some(
            r->Some_0@,
        ),
{
    let ghost s = protocols_of(server@);
    let ghost c = protocols_of(client@);
    assert(s.subrange(0, s.len() as int) =~= s);
    let mut i: usize = 0;
    while i < server.len()
        invariant
            0 <= i <= server@.len(),
            s == protocols_of(server@),
            c == protocols_of(client@),
            server_choice(s, c) == server_choice(s.subrange(i as int, s.len() as int), c),
        decreases server@.len() - i,
    {
        let ghost tail = s.subrange(i as int, s.len() as int);
        assert(tail.drop_first() =~= s.subrange(i + 1, s.len() as int));
        assert(tail[0] == server@[i as int]@);
        if list_offers(client, server[i].as_slice()) {
            return Some(copy_protocol(server[i].as_slice()));
        }
        i = i + 1;
    }
    assert(s.subrange(i as int, s.len() as int).len() == 0);
    None
}

} // verus!
