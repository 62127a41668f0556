//! The discovery step: what the broadcast-and-listen loop does with each
//! thing it observes, plus the timing rules that damp broadcast storms. The
//! process edge binds the sockets, sends the beacon, and blocks for one
//! datagram per iteration; the decisions live here.

use vstd::prelude::*;

use crate::peer::{IpAddress, Peer};

verus! {

/// One observation made by the discovery listener.
pub enum DiscoveryEvent {
    /// No datagram arrived before the receive deadline.
    TimedOut,
    /// A datagram arrived from this address with this payload.
    Datagram(IpAddress, Vec<u8>),
}

/// What the process edge must do after a discovery step.
pub enum DiscoveryAction {
    /// Announce local presence again, then go back to listening.
    Rebroadcast,
    /// Hand this newly heard peer to the coordinator, then sleep the
    /// randomized backoff and rebroadcast.
    Emit(Peer),
    /// The payload was not a full name buffer: drop this iteration and
    /// rebroadcast. The listener thread itself goes on.
    Skip,
}

/// Decides one iteration of the broadcast-and-listen loop. A timeout means it
/// is time to announce again; a datagram carrying exactly a full name buffer
/// names a peer; anything shorter or longer is dropped.
pub fn discovery_step(ev: DiscoveryEvent) -> (r: DiscoveryAction)
    ensures
        match ev {
            DiscoveryEvent::TimedOut => r is Rebroadcast,
            DiscoveryEvent::Datagram(a, d) => {
                if d@.len() == crate::NAME_SIZE {
                    r matches DiscoveryAction::Emit(p) && p.wf() && p.addr == a && p.name@ == d@
                } else {
                    r is Skip
                }
            },
        },
{
    match ev {
        DiscoveryEvent::TimedOut => DiscoveryAction::Rebroadcast,
        DiscoveryEvent::Datagram(a, d) => {
            if d.len() == crate::NAME_SIZE {
                DiscoveryAction::Emit(Peer::new(a, d))
            } else {
                DiscoveryAction::Skip
            }
        },
    }
}

/// The receive deadline for one listen: the rebroadcast interval plus a
/// pseudo-random jitter of up to 200 milliseconds, so that peers started in
/// lockstep drift apart instead of broadcasting in unison.
pub fn recv_deadline_ms(jitter_seed: u64) -> (r: u64)
    ensures
        r == crate::REBROADCAST_MS + jitter_seed % 201,
        crate::REBROADCAST_MS <= r <= crate::REBROADCAST_MS + 200,
{
    crate::REBROADCAST_MS + jitter_seed % 201
}

/// The randomized backoff slept after emitting a peer, under 100 milliseconds.
pub fn backoff_ms(seed: u64) -> (r: u64)
    ensures
        r == seed % 100,
        r < 100,
{
    seed % 100
}

/// Pads or truncates a local display name to the fixed beacon size: the name's
/// first `NAME_SIZE` bytes, then zero bytes up to the full buffer.
pub fn pad_name(input: &Vec<u8>) -> (r: Vec<u8>)
    ensures
        r@.len() == crate::NAME_SIZE,
        forall|i: int|
            0 <= i < crate::NAME_SIZE ==> r@[i] == (if i < input@.len() {
                input@[i]
            } else {
                0u8
            }),
{
    let mut r: Vec<u8> = Vec::new();
    let mut i: usize = 0;
    while i < crate::NAME_SIZE
        invariant
            i <= crate::NAME_SIZE,
            r@.len() == i,
            forall|j: int|
                0 <= j < i ==> r@[j] == (if j < input@.len() {
                    input@[j]
                } else {
                    0u8
                }),
        decreases crate::NAME_SIZE - i,
    {
        if i < input.len() {
            r.push(input[i]);
        } else {
            r.push(0);
        }
        i = i + 1;
    }
    r
}

} // verus!
