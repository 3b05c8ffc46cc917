//! The descriptor of an accepted connection.

use vstd::prelude::*;

use crate::addr::{addr_eq, Addr};

verus! {

/// Whether the connection was already identified and terminated as TLS
/// before it reached the dispatcher.
#[derive(Clone, Copy, Debug, PartialEq, Eq, Structural)]
pub enum TlsStatus {
    Tls,
    NotTls,
}

/// Describes an accepted connection: its peer, the local socket it was
/// accepted on, the original destination recorded by the platform's
/// redirection, if any, and its TLS status.
#[derive(Clone, Copy, Debug, PartialEq, Eq, Structural)]
pub struct Source {
    pub remote: Addr,
    pub local: Addr,
    pub orig_dst: Option<Addr>,
    pub tls_status: TlsStatus,
}

/// The original destination as consumers see it: absent when none was
/// recorded or when it is the local socket itself.
pub open spec fn effective_orig_dst(s: Source) -> Option<Addr> {
    match s.orig_dst {
        None => None,
        Some(d) => if addr_eq(d, s.local) {
            None
        } else {
            Some(d)
        },
    }
}

impl Source {
    /// A `Source` made of the given parts.
    pub fn for_test(
        remote: Addr,
        local: Addr,
        orig_dst: Option<Addr>,
        tls_status: TlsStatus,
    ) -> (r: Source)
        ensures
            r.remote == remote,
            r.local == local,
            r.orig_dst == orig_dst,
            r.tls_status == tls_status,
    {
        Source { remote, local, orig_dst, tls_status }
    }

    /// The original destination, unless it is the listening socket itself,
    /// which would make the proxy route the connection back to itself.
    pub fn orig_dst_if_not_local(&self) -> (r: Option<Addr>)
        ensures
            r == effective_orig_dst(*self),
            r.is_none() <==> (self.orig_dst.is_none() || addr_eq(self.orig_dst.unwrap(), self.local)),
            r.is_some() ==> r == self.orig_dst,
    {
        match self.orig_dst {
            None => None,
            Some(orig_dst) => {
                if Addr::same_addr(&orig_dst, &self.local) {
                    None
                } else {
                    Some(orig_dst)
                }
            },
        }
    }
}

} // verus!
