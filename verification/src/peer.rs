//! The peer model: a network address paired with a fixed-capacity display-name
//! buffer. Byte-for-byte equality of the address and the full name buffer
//! defines peer identity.

use vstd::prelude::*;

verus! {

/// A network address as plain values: four octets for a version-4 address or
/// eight 16-bit groups for a version-6 address.
#[derive(Clone, Copy, PartialEq, Eq, Structural, Debug)]
pub enum IpAddress {
    V4(u8, u8, u8, u8),
    V6(u16, u16, u16, u16, u16, u16, u16, u16),
}

/// A discovered node: its address and its display-name buffer. The buffer is
/// raw bytes, not necessarily valid text, and is normally exactly `NAME_SIZE`
/// bytes long (see [`Peer::wf`]). Peers are immutable once constructed.
#[derive(Debug)]
pub struct Peer {
    pub addr: IpAddress,
    pub name: Vec<u8>,
}

/// Two peers denote the same node exactly when their addresses are equal and
/// their name buffers hold the same bytes.
pub open spec fn same_identity(p: Peer, q: Peer) -> bool {
    p.addr == q.addr && p.name@ == q.name@
}

impl Peer {
    /// A well-formed peer carries a full-size name buffer.
    pub open spec fn wf(&self) -> bool {
        self.name@.len() == crate::NAME_SIZE
    }

    /// Builds a peer from an address and a full-size name buffer.
    pub fn new(addr: IpAddress, name: Vec<u8>) -> (r: Peer)
        requires
            name@.len() == crate::NAME_SIZE,
        ensures
            r.wf(),
            r.addr == addr,
            r.name@ == name@,
    {
        Peer { addr, name }
    }
}

/// Compares two byte vectors for equality of their contents.
pub fn bytes_eq(a: &Vec<u8>, b: &Vec<u8>) -> (r: bool)
    ensures
        r == (a@ == b@),
{
    if a.len() != b.len() {
        assert(a@ != b@) by {
            assert(a@.len() != b@.len());
        }
        return false;
    }
    let mut i: usize = 0;
    while i < a.len()
        invariant
            i <= a@.len(),
            a@.len() == b@.len(),
            forall|j: int| 0 <= j < i ==> a@[j] == b@[j],
        decreases a@.len() - i,
    {
        if a[i] != b[i] {
            assert(a@ != b@);
            return false;
        }
        i = i + 1;
    }
    assert(a@ =~= b@);
    true
}

impl PartialEq for Peer {
    fn eq(&self, other: &Peer) -> (r: bool) {
        self.addr == other.addr && bytes_eq(&self.name, &other.name)
    }
}

impl Eq for Peer {}

impl vstd::std_specs::cmp::PartialEqSpecImpl for Peer {
    open spec fn obeys_eq_spec() -> bool {
        true
    }

    open spec fn eq_spec(&self, other: &Peer) -> bool {
        same_identity(*self, *other)
    }
}

/// Two peers share an identity exactly when their addresses are equal, their
/// name buffers have the same length, and the buffers agree byte for byte.
pub proof fn lemma_peer_identity(p: Peer, q: Peer)
    ensures
        same_identity(p, q) <==> (p.addr == q.addr && p.name@.len() == q.name@.len()
            && (forall|i: int| 0 <= i < p.name@.len() ==> p.name@[i] == q.name@[i])),
{
    if p.addr == q.addr && p.name@.len() == q.name@.len()
        && (forall|i: int| 0 <= i < p.name@.len() ==> p.name@[i] == q.name@[i]) {
        assert(p.name@ =~= q.name@);
    }
}

} // verus!
