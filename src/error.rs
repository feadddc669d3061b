use vstd::prelude::*;

verus! {

/// The uniform error of every builder, handshake and stream operation.
///
/// The first two variants are the capability gaps that the abstraction itself
/// reports; `Backend` carries a backend failure as text only.
#[derive(Debug, PartialEq, Eq)]
pub enum Error {
    /// The backend cannot negotiate ALPN.
    AlpnUnsupported,
    /// The backend cannot turn hostname verification off.
    VerifyHostnameUnsupported,
    /// A failure reported by the backend, kept as its display text.
    Backend(String),
}

/// Result of a fallible operation of the abstraction.
pub type Result<T> = core::result::Result<T, Error>;

impl Error {
    /// Wraps the display text of a backend failure.
    pub fn backend(message: &str) -> (r: Error)
        ensures
            r is Backend,
            r->Backend_0@ == message@,
    {
        Error::Backend(message.to_owned())
    }

    /// Whether this is one of the abstraction's own capability-gap kinds,
    /// which callers may adapt to instead of aborting.
    pub fn is_capability_gap(&self) -> (r: bool)
        ensures
            r == (self is AlpnUnsupported || self is VerifyHostnameUnsupported),
    {
        match self {
            Error::AlpnUnsupported => true,
            Error::VerifyHostnameUnsupported => true,
            Error::Backend(_) => false,
        }
    }

    /// Text suitable for a log line.
    pub fn message(&self) -> (r: String)
        ensures
            self is AlpnUnsupported ==> r@ == "ALPN is not supported by this implementation"@,
            self is VerifyHostnameUnsupported ==> r@
                == "disabling hostname verification is not supported by this implementation"@,
            self is Backend ==> r@ == self->Backend_0@,
    {
        match self {
            Error::AlpnUnsupported => "ALPN is not supported by this implementation".to_owned(),
            Error::VerifyHostnameUnsupported => {
                "disabling hostname verification is not supported by this implementation".to_owned()
            },
            Error::Backend(m) => m.clone(),
        }
    }
}

} // verus!
