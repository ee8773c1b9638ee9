//! Readiness: a fetch waits until the link is up and an address is assigned.

use vstd::prelude::*;

verus! {

/// How long to wait between two readiness polls.
pub const READINESS_POLL_MS: u64 = 500;

/// An IPv4 address as a big-endian integer, with its prefix length.
#[derive(Clone, Copy, Debug, PartialEq, Eq, Structural)]
pub struct Address {
    pub ip: u32,
    pub prefix_len: u8,
}

/// One observation of the network interface.
#[derive(Clone, Copy, Debug, PartialEq, Eq)]
pub struct LinkStatus {
    pub link_up: bool,
    pub address: Option<Address>,
}

/// What is decided on one observation.
#[derive(Clone, Copy, Debug, PartialEq, Eq)]
pub enum Readiness {
    /// Both conditions hold: the fetch may start, using this address.
    Ready(Address),
    /// Poll again after `poll_ms` milliseconds.
    Wait { poll_ms: u64 },
}

/// The link is up and an address is assigned, both at once.
pub open spec fn is_ready(status: LinkStatus) -> bool {
    status.link_up && status.address is Some
}

/// Decides on one observation: ready exactly when both conditions hold at
/// this instant, otherwise wait one poll interval; never an error.
pub fn check_readiness(status: LinkStatus) -> (r: Readiness)
    ensures
        is_ready(status) ==> r == Readiness::Ready(status.address->Some_0),
        !is_ready(status) ==> r == (Readiness::Wait { poll_ms: READINESS_POLL_MS }),
{
    match status.address {
        Some(address) if status.link_up => Readiness::Ready(address),
        _ => Readiness::Wait { poll_ms: READINESS_POLL_MS },
    }
}

/// Polls readiness over successive observations: returns the first poll at which
/// the link is up with an address, and that address. While that never happens
/// it returns `None`: there is no timeout and keeps waiting through drops.
pub fn await_ready(polls: &Vec<LinkStatus>) -> (r: Option<(usize, Address)>)
    ensures
        match r {
            Some((i, a)) => {
                &&& i < polls@.len()
                &&& is_ready(polls@[i as int])
                &&& polls@[i as int].address == Some(a)
                &&& forall|j: int| 0 <= j < i ==> !is_ready(#[trigger] polls@[j])
            },
            None => forall|j: int| 0 <= j < polls@.len() ==> !is_ready(#[trigger] polls@[j]),
        },
{
    let mut i: usize = 0;
    while i < polls.len()
        invariant
            i <= polls@.len(),
            forall|j: int| 0 <= j < i ==> !is_ready(#[trigger] polls@[j]),
        decreases polls@.len() - i,
    {
        match check_readiness(polls[i]) {
            Readiness::Ready(a) => {
                return Some((i, a));
            },
            Readiness::Wait { .. } => {},
        }
        i = i + 1;
    }
    None
}

} // verus!
