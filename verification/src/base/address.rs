//! Socket addresses as they are written in a configuration.

use vstd::prelude::*;

verus! {

/// Whether a text is the literal of a socket address: an IPv4 address, or an IPv6 address
/// in square brackets, then a colon and a port. A host name is no such literal.
pub uninterp spec fn names_socket_address(text: Seq<char>) -> bool;

/// Says whether a text is the literal of a socket address.
///
/// Trusted: calls `str::parse` for `core::net::SocketAddr` and says whether it gave an
/// address. The answer depends on the text alone; it is named and not spelled out.
#[verifier::external_body]
pub(crate) fn is_socket_address(text: &str) -> (ok: bool)
    ensures
        ok == names_socket_address(text@),
{
    text.parse::<core::net::SocketAddr>().is_ok()
}

} // verus!
