//! The thread bridge, seen from the foreground.
//!
//! A stream that has no descriptor of its own is given one by a worker that
//! copies between the stream and one end of a pipe. The handle aliases the
//! other end. While the bridge is *active* the handle knows the endpoint it
//! feeds; once the endpoint has been taken out, to be closed and the worker
//! joined, the bridge is *consumed*. The way goes in one direction, with one
//! exception: a flush of a writing bridge gives the endpoint up to build a
//! new bridge around the same sink.

use crate::descriptor::Descriptor;
use vstd::prelude::*;

verus! {

/// Where a handle stands with respect to a thread bridge.
#[derive(Clone, Copy, Debug, PartialEq, Eq, Structural)]
pub enum BridgePhase {
    /// The handle's resource is not a bridge.
    Unbridged,
    /// A worker is running and this endpoint is open.
    Active(Descriptor),
    /// A flush has given the endpoint up and a new bridge is yet to come.
    /// Only a writing bridge is ever in this phase.
    Draining,
    /// The endpoint was taken out for good; the worker has been or is being
    /// joined.
    Consumed,
}

/// How a failed operation on a handle's descriptor reaches the caller.
#[derive(Debug, PartialEq, Eq)]
pub enum ErrorRoute<E> {
    /// Return this error, which is the one the descriptor gave.
    PassThrough(E),
    /// Close this endpoint and join the worker. If the worker ended with an
    /// error, return that in place of this one, which is the one the
    /// descriptor gave; if it ended well, return this one.
    JoinWorker(Descriptor, E),
}

/// What became of an operation on a handle's descriptor.
#[derive(Debug, PartialEq, Eq)]
pub enum Completion<T, E> {
    /// The operation succeeded with this value.
    Done(T),
    /// The operation failed; the route says which error to return.
    Failed(ErrorRoute<E>),
}

/// What must be done before a handle's resources are released.
#[derive(Clone, Copy, Debug, PartialEq, Eq, Structural)]
pub enum Teardown {
    /// Nothing beyond releasing the resource.
    Nothing,
    /// Close this endpoint first, then join the worker.
    CloseAndJoin(Descriptor),
}

/// How the teardown of a bridge ended.
#[derive(Debug, PartialEq, Eq)]
pub enum TeardownVerdict<E> {
    /// The worker ended without an error.
    Clean,
    /// The worker ended with an error that nobody saw: data was lost and
    /// there is no caller left to tell, so the process must not go on.
    Abort(E),
}

/// What the worker of a writing bridge does once its copy has ended.
#[derive(Debug, PartialEq, Eq)]
pub enum WorkerStep<E> {
    /// The pipe is exhausted: flush the sink.
    FlushSink,
    /// The copy failed: end with this error, without flushing.
    Fail(E),
}

/// The result of the worker of a reading bridge, whose copy from the source
/// into the pipe ended with `copied`: the count of bytes is dropped, an
/// error is kept as it is.
pub fn read_worker_result<E>(copied: Result<u64, E>) -> (result: Result<(), E>)
    ensures
        copied is Ok ==> result is Ok,
        copied matches Err(e) ==> result == Err::<(), E>(e),
{
    match copied {
        Ok(_) => Ok(()),
        Err(e) => Err(e),
    }
}

/// What the worker of a writing bridge does after its copy from the pipe
/// into the sink ended with `copied`.
pub fn write_worker_step<E>(copied: Result<u64, E>) -> (step: WorkerStep<E>)
    ensures
        copied is Ok ==> step == WorkerStep::<E>::FlushSink,
        copied matches Err(e) ==> step == WorkerStep::Fail(e),
{
    match copied {
        Ok(_) => WorkerStep::FlushSink,
        Err(e) => WorkerStep::Fail(e),
    }
}

/// The result of the worker of a writing bridge after it flushed `sink`
/// with the outcome `flushed`: the sink itself, so that a new bridge can be
/// built around it, or the error of the flush.
pub fn write_worker_result<S, E>(sink: S, flushed: Result<(), E>) -> (result: Result<S, E>)
    ensures
        flushed is Ok ==> result == Ok::<S, E>(sink),
        flushed matches Err(e) ==> result == Err::<S, E>(e),
{
    match flushed {
        Ok(_) => Ok(sink),
        Err(e) => Err(e),
    }
}

/// The error that the caller sees after the descriptor of a bridged handle
/// failed with `foreground` and the worker was joined: the worker's, if it
/// ended with one, since that is the cause; else the descriptor's own.
pub open spec fn surfaced<S, E>(foreground: E, joined: Result<S, E>) -> E {
    match joined {
        Ok(_) => foreground,
        Err(cause) => cause,
    }
}

/// The verdict on a worker that was joined at teardown.
pub open spec fn verdict_of<S, E>(joined: Result<S, E>) -> TeardownVerdict<E> {
    match joined {
        Ok(_) => TeardownVerdict::Clean,
        Err(e) => TeardownVerdict::Abort(e),
    }
}

/// Chooses the error that the caller sees after the descriptor of a bridged
/// handle failed with `foreground` and the worker was joined.
///
/// A worker that ended with an error is the cause of the failure, and its
/// error is returned in place of the descriptor's. A worker that ended well
/// explains nothing, and the descriptor's error is returned as it is: a
/// read that found the stream too short, say.
pub fn surfaced_error<S, E>(foreground: E, joined: Result<S, E>) -> (error: E)
    ensures
        error == surfaced(foreground, joined),
{
    match joined {
        Ok(_) => foreground,
        Err(cause) => cause,
    }
}

/// Judges the result of a worker that was joined at teardown.
pub fn teardown_verdict<S, E>(joined: Result<S, E>) -> (verdict: TeardownVerdict<E>)
    ensures
        verdict == verdict_of(joined),
{
    match joined {
        Ok(_) => TeardownVerdict::Clean,
        Err(e) => TeardownVerdict::Abort(e),
    }
}

} // verus!
