use vstd::prelude::*;

verus! {

/// An established channel: the socket it owns and the protocol that ALPN
/// negotiated, if any.
pub struct TlsStream<S> {
    socket: S,
    alpn_protocol: Option<Vec<u8>>,
}

impl<S> TlsStream<S> {
    /// The socket that the stream owns.
    pub closed spec fn socket(self) -> S {
        self.socket
    }

    /// The negotiated protocol, `None` where ALPN was not used.
    pub closed spec fn negotiated(self) -> Option<Seq<u8>> {
        match self.alpn_protocol {
            Some(p) => Some(p@),
            None => None,
        }
    }

    /// A stream over `socket` after a completed handshake.
    pub fn new(socket: S, alpn_protocol: Option<Vec<u8>>) -> (r: TlsStream<S>)
        ensures
            r.socket() == socket,
            alpn_protocol is None ==> r.negotiated() is None,
            alpn_protocol is Some ==> r.negotiated() == Some(alpn_protocol->Some_0@),
    {
        TlsStream { socket, alpn_protocol }
    }

    /// The negotiated ALPN protocol.
    pub fn get_alpn_protocol(&self) -> (r: Option<Vec<u8>>)
        ensures
            r is None <==> self.negotiated() is None,
            r is Some ==> self.negotiated() == Some(r->Some_0@),
    {
        match &self.alpn_protocol {
            Some(p) => Some(crate::alpn::copy_protocol(p.as_slice())),
            None => None,
        }
    }

    /// The underlying socket.
    pub fn get_socket_ref(&self) -> (r: &S)
        ensures
            *r == self.socket(),
    {
        &self.socket
    }

    /// The underlying socket, for reads and writes.
    pub fn get_socket_mut(&mut self) -> (r: &mut S)
        ensures
            *r == old(self).socket(),
            final(self).socket() == *final(r),
            final(self).negotiated() == old(self).negotiated(),
    {
        &mut self.socket
    }

    /// Gives the underlying socket back.
    pub fn into_socket(self) -> (r: S)
        ensures
            r == self.socket(),
    {
        self.socket
    }
}

} // verus!
