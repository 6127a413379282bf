use vstd::prelude::*;

verus! {

/// One ready registration as the backend reports it: the observed interest
/// bits and the token that was stored at registration.
#[derive(Clone, Copy, Debug, PartialEq, Eq, Structural)]
pub struct ReadyEvent {
    pub events: u32,
    pub token: u64,
}

/// Builds the record that pairs an interest mask with a token.
pub fn epoll_event(events: u32, data: u64) -> (r: ReadyEvent)
    ensures
        r.events == events,
        r.token == data,
{
    ReadyEvent { events, token: data }
}

/// Read-ready interest bit.
pub open spec fn read_ready() -> u32 {
    0x1
}

/// Edge-triggered delivery bit.
pub open spec fn edge_triggered() -> u32 {
    0x8000_0000
}

/// Relies on libc::EPOLLIN, the read-ready bit (0x1).
#[verifier::external_body]
fn epollin() -> (r: u32)
    ensures
        r == read_ready(),
{
    libc::EPOLLIN as u32
}

/// Relies on libc::EPOLLET, the edge-triggered bit (0x8000_0000).
#[verifier::external_body]
fn epollet() -> (r: u32)
    ensures
        r == edge_triggered(),
{
    libc::EPOLLET as u32
}

/// Error number of a call interrupted by a signal.
pub open spec fn interrupted() -> i32 {
    4
}

/// Relies on libc::EINTR, the error number of an interrupted call (4 on
/// Linux, where the readiness backend exists).
#[verifier::external_body]
fn eintr() -> (r: i32)
    ensures
        r == interrupted(),
{
    libc::EINTR
}

/// Whether a failed call was only interrupted and is to be retried.
pub fn is_interrupted(code: i32) -> (r: bool)
    ensures
        r == (code == interrupted()),
{
    code == eintr()
}

/// Interest mask of the wake registration: read-ready, edge-triggered.
pub fn wake_interest() -> (r: u32)
    ensures
        r == read_ready() | edge_triggered(),
        r == 0x8000_0001u32,
{
    let r = epollin() | epollet();
    assert(0x1u32 | 0x8000_0000u32 == 0x8000_0001u32) by (bit_vector);
    r
}

} // verus!
