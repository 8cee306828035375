//! How an in-memory payload becomes a readable stream.
//!
//! A payload that fits into a pipe without blocking is written into a fresh
//! pipe at once and the writing end is closed, so that no worker is needed.
//! Anything longer goes through a thread bridge. What fits is the
//! platform's to say, within limits: up to [`MIN_ATOMIC_PIPE_WRITE`] bytes
//! always fit, and more than [`MAX_ATOMIC_PIPE_WRITE`] never do.

use vstd::prelude::*;

verus! {

/// The way an in-memory payload is turned into a stream.
#[derive(Clone, Copy, Debug, PartialEq, Eq, Structural)]
pub enum PayloadRoute {
    /// Write the whole payload into a new pipe, close the writing end, and
    /// read from the other end. No worker runs.
    EagerPipe,
    /// Start a worker that copies the payload into a pipe.
    ThreadBridge,
}

/// The number of bytes that every platform lets a single pipe write take
/// without blocking.
pub const MIN_ATOMIC_PIPE_WRITE: usize = 512;

/// The longest payload that is ever written into a pipe ahead of its
/// reader. A longer payload goes through a bridge whatever bound the
/// platform reports: an eager write of more than a pipe holds would never
/// return.
pub const MAX_ATOMIC_PIPE_WRITE: usize = 32768;

/// The route of a payload of `len` bytes where a pipe takes
/// `atomic_limit` bytes without blocking.
pub open spec fn route_for(len: nat, atomic_limit: nat) -> PayloadRoute {
    if len <= atomic_limit {
        PayloadRoute::EagerPipe
    } else {
        PayloadRoute::ThreadBridge
    }
}

/// The platform's bound on a pipe write that cannot block.
///
/// Reads the constant `libc::PIPE_BUF`. Its value depends on the target;
/// every definition in libc is at least 512, the minimum that POSIX allows,
/// and that is all the contract claims.
#[verifier::external_body]
pub(crate) fn pipe_buf() -> (limit: usize)
    ensures
        limit >= MIN_ATOMIC_PIPE_WRITE,
{
    libc::PIPE_BUF
}

/// Chooses the route of a payload of `len` bytes where a pipe takes
/// `atomic_limit` bytes without blocking.
pub fn payload_route(len: usize, atomic_limit: usize) -> (route: PayloadRoute)
    ensures
        route == route_for(len as nat, atomic_limit as nat),
{
    if len <= atomic_limit {
        PayloadRoute::EagerPipe
    } else {
        PayloadRoute::ThreadBridge
    }
}

/// The bound that the eager route goes by: the platform's, but never more
/// than [`MAX_ATOMIC_PIPE_WRITE`].
pub open spec fn capped_limit(platform_limit: nat) -> nat {
    if platform_limit <= MAX_ATOMIC_PIPE_WRITE {
        platform_limit
    } else {
        MAX_ATOMIC_PIPE_WRITE as nat
    }
}

/// Caps the platform's bound at [`MAX_ATOMIC_PIPE_WRITE`].
pub fn cap_limit(platform_limit: usize) -> (atomic_limit: usize)
    ensures
        atomic_limit == capped_limit(platform_limit as nat),
{
    if platform_limit <= MAX_ATOMIC_PIPE_WRITE {
        platform_limit
    } else {
        MAX_ATOMIC_PIPE_WRITE
    }
}

/// Chooses the route of a payload of `len` bytes on this platform.
///
/// The bound is the platform's, capped. It lies between
/// [`MIN_ATOMIC_PIPE_WRITE`] and [`MAX_ATOMIC_PIPE_WRITE`], so a payload of
/// at most the former is written eagerly, a payload of more than the latter
/// goes through a bridge, and any other takes the route of some bound
/// between the two.
pub fn platform_route(len: usize) -> (route: PayloadRoute)
    ensures
        len <= MIN_ATOMIC_PIPE_WRITE ==> route == PayloadRoute::EagerPipe,
        len > MAX_ATOMIC_PIPE_WRITE ==> route == PayloadRoute::ThreadBridge,
        exists|atomic_limit: nat|
            MIN_ATOMIC_PIPE_WRITE <= atomic_limit <= MAX_ATOMIC_PIPE_WRITE && route
                == #[trigger] route_for(len as nat, atomic_limit),
{
    let platform_limit: usize = pipe_buf();
    let atomic_limit: usize = cap_limit(platform_limit);
    payload_route(len, atomic_limit)
}

/// Under every bound that the eager route can go by, a payload of more than
/// [`MAX_ATOMIC_PIPE_WRITE`] bytes goes through a bridge and one of at most
/// [`MIN_ATOMIC_PIPE_WRITE`] bytes does not; and the eager route is taken
/// exactly by the payloads that fit the bound.
pub proof fn lemma_route_respects_the_bound(len: nat, platform_limit: nat)
    requires
        platform_limit >= MIN_ATOMIC_PIPE_WRITE,
    ensures
        MIN_ATOMIC_PIPE_WRITE <= capped_limit(platform_limit) <= MAX_ATOMIC_PIPE_WRITE,
        capped_limit(platform_limit) <= platform_limit,
        route_for(len, capped_limit(platform_limit)) == PayloadRoute::EagerPipe <==> len
            <= capped_limit(platform_limit),
        len > MAX_ATOMIC_PIPE_WRITE ==> route_for(len, capped_limit(platform_limit))
            == PayloadRoute::ThreadBridge,
        len <= MIN_ATOMIC_PIPE_WRITE ==> route_for(len, capped_limit(platform_limit))
            == PayloadRoute::EagerPipe,
{
}

/// A longer payload never takes the eager route where a shorter one, under
/// the same bound, needs a bridge.
pub proof fn lemma_route_monotone(shorter: nat, longer: nat, atomic_limit: nat)
    requires
        shorter <= longer,
    ensures
        route_for(longer, atomic_limit) == PayloadRoute::EagerPipe ==> route_for(
            shorter,
            atomic_limit,
        ) == PayloadRoute::EagerPipe,
{
}

} // verus!
