//! The coordinator: the top-level decision step taken while no session is
//! active. The process edge polls the discovery channel and the operator's
//! command stream in turn and hands each observation to [`coordinate`], which
//! updates the registry and says what to do next.

use vstd::prelude::*;

use crate::peer::{IpAddress, Peer};
use crate::registry::{contains_peer, insert_result, Registry};
use crate::text::{all_digits, digits_value, trim_spec};

verus! {

/// One observation made while no session is active.
pub enum CoordEvent {
    /// The discovery listener heard this peer's beacon.
    PeerFound(Peer),
    /// The operator typed a line; these are its raw bytes.
    Input(Vec<u8>),
}

/// What the process edge must do after a coordinator step.
#[derive(Clone, Copy, PartialEq, Eq, Structural, Debug)]
pub enum CoordAction {
    /// A peer was newly added: render the full indexed peer list.
    ShowPeerList,
    /// Nothing changed and nothing is owed to the operator.
    Pass,
    /// Open an outgoing session stream to this address on the session port.
    Connect(IpAddress),
    /// The input does not name a non-negative integer: show a user-visible
    /// error and keep looping.
    ErrorNotANumber,
    /// The input names this index, but no peer stands at it: show a
    /// user-visible error and keep looping.
    ErrorNoSuchPeer(u64),
}

/// Decides one idle-loop step.
///
/// A discovered peer is inserted if absent; the peer list is rendered exactly
/// when the peer was new. An input line is trimmed and read as a base-10
/// index: a valid index of a known peer asks for a connection to that peer's
/// address, an index with no peer reports which index failed, and anything
/// else is rejected as not a number. Input never changes the registry.
pub fn coordinate(reg: &mut Registry, ev: CoordEvent) -> (r: CoordAction)
    requires
        old(reg).wf(),
    ensures
        final (reg).wf(),
        match ev {
            CoordEvent::PeerFound(p) => {
                &&& final (reg)@ == insert_result(old(reg)@, p)
                &&& r == (if contains_peer(old(reg)@, p) {
                    CoordAction::Pass
                } else {
                    CoordAction::ShowPeerList
                })
            },
            CoordEvent::Input(line) => {
                let t = trim_spec(line@);
                &&& final (reg)@ == old(reg)@
                &&& if t.len() > 0 && all_digits(t) && digits_value(t) <= u64::MAX {
                    if digits_value(t) < old(reg)@.len() {
                        r == CoordAction::Connect(old(reg)@[digits_value(t)].addr)
                    } else {
                        r == CoordAction::ErrorNoSuchPeer(digits_value(t) as u64)
                    }
                } else {
                    r == CoordAction::ErrorNotANumber
                }
            },
        },
{
    match ev {
        CoordEvent::PeerFound(p) => {
            let added = reg.insert(p);
            if added {
                CoordAction::ShowPeerList
            } else {
                CoordAction::Pass
            }
        },
        CoordEvent::Input(line) => {
            let t = crate::text::trim_bytes(&line);
            match crate::text::parse_index(&t) {
                None => CoordAction::ErrorNotANumber,
                Some(n) => {
                    if n < reg.len() as u64 {
                        let i: usize = n as usize;
                        match reg.get_by_index(i) {
                            Some(p) => CoordAction::Connect(p.addr),
                            None => {
                                proof {
                                    assert(false);
                                }
                                CoordAction::ErrorNotANumber
                            },
                        }
                    } else {
                        CoordAction::ErrorNoSuchPeer(n)
                    }
                },
            }
        },
    }
}

} // verus!
