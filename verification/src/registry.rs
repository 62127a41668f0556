//! The peer registry: a deduplicated collection of discovered peers with a
//! stable, caller-visible enumeration order. Peers are appended in the order
//! they are first heard and are never removed, so the numeric indices shown to
//! the operator stay valid for the whole process run.

use vstd::prelude::*;

use crate::peer::{same_identity, Peer};

verus! {

/// Whether some stored peer shares `p`'s identity.
pub open spec fn contains_peer(s: Seq<Peer>, p: Peer) -> bool {
    exists|i: int| 0 <= i < s.len() && same_identity(s[i], p)
}

/// No two distinct stored peers share an identity.
pub open spec fn distinct_peers(s: Seq<Peer>) -> bool {
    forall|i: int, j: int| 0 <= i < j < s.len() ==> !same_identity(s[i], s[j])
}

/// What an insert-if-absent leaves behind: the sequence unchanged when the
/// peer is already present, else the peer appended at the end.
pub open spec fn insert_result(s: Seq<Peer>, p: Peer) -> Seq<Peer> {
    if contains_peer(s, p) {
        s
    } else {
        s.push(p)
    }
}

/// The registry of discovered peers, enumerated in insertion order.
pub struct Registry {
    peers: Vec<Peer>,
}

impl View for Registry {
    type V = Seq<Peer>;

    closed spec fn view(&self) -> Seq<Peer> {
        self.peers@
    }
}

impl Registry {
    /// The registry invariant: stored peers are pairwise distinct.
    pub open spec fn wf(&self) -> bool {
        distinct_peers(self@)
    }

    /// Creates an empty registry.
    pub fn new() -> (r: Registry)
        ensures
            r@ =~= Seq::<Peer>::empty(),
            r.wf(),
    {
        Registry { peers: Vec::new() }
    }

    /// How many peers have been discovered so far.
    pub fn len(&self) -> (n: usize)
        ensures
            n == self@.len(),
    {
        self.peers.len()
    }

    /// Inserts a peer unless one with the same identity is already stored.
    /// Returns whether the peer was newly added; when it was, it now stands at
    /// the end of the enumeration and every earlier index is unchanged.
    pub fn insert(&mut self, p: Peer) -> (added: bool)
        requires
            old(self).wf(),
        ensures
            final(self).wf(),
            added == !contains_peer(old(self)@, p),
            final(self)@ == insert_result(old(self)@, p),
    {
        let n = self.peers.len();
        let mut i: usize = 0;
        while i < n
            invariant
                i <= n,
                n == self.peers@.len(),
                distinct_peers(self.peers@),
                forall|j: int| 0 <= j < i ==> !same_identity(self.peers@[j], p),
            decreases n - i,
        {
            if self.peers[i] == p {
                assert(contains_peer(self.peers@, p));
                return false;
            }
            i = i + 1;
        }
        assert(!contains_peer(self.peers@, p));
        self.peers.push(p);
        assert forall|a: int, b: int| 0 <= a < b < self.peers@.len() implies !same_identity(
            self.peers@[a],
            self.peers@[b],
        ) by {
            if b == self.peers@.len() - 1 {
                assert(self.peers@[b] == p);
                assert(!same_identity(self.peers@[a], p));
            }
        }
        true
    }

    /// Returns the peer at stable position `i`, or nothing when `i` is out of
    /// bounds.
    pub fn get_by_index(&self, i: usize) -> (r: Option<&Peer>)
        ensures
            match r {
                Some(p) => i < self@.len() && *p == self@[i as int],
                None => i >= self@.len(),
            },
    {
        if i < self.peers.len() {
            Some(&self.peers[i])
        } else {
            None
        }
    }
}

/// Inserting the same peer twice grows the enumeration by at most one entry in
/// total: after one insert the peer is present, and a second insert of it
/// leaves the registry unchanged.
pub proof fn lemma_insert_dedup(s: Seq<Peer>, p: Peer)
    ensures
        contains_peer(insert_result(s, p), p),
        insert_result(insert_result(s, p), p) == insert_result(s, p),
        insert_result(s, p).len() <= s.len() + 1,
{
    if !contains_peer(s, p) {
        let t = s.push(p);
        assert(same_identity(t[s.len() as int], p));
        assert(contains_peer(t, p));
    }
}

/// Insertion never disturbs existing positions: every index valid before an
/// insert resolves to the same peer afterwards, and a newly added peer stands
/// at the first fresh index.
pub proof fn lemma_insert_stable_indices(s: Seq<Peer>, p: Peer)
    ensures
        forall|j: int| 0 <= j < s.len() ==> insert_result(s, p)[j] == s[j],
        !contains_peer(s, p) ==> insert_result(s, p)[s.len() as int] == p,
{
}

} // verus!
