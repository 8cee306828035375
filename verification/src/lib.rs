//! Unbuffered and unlocked I/O streams: the verified core.
//!
//! A handle pairs a [`Descriptor`], a non-owning alias of a raw operating
//! system handle, with the resource that keeps the handle alive. This crate
//! holds the rules of that pairing: which descriptor a handle aliases, who
//! may hold the process's standard streams, and the protocol by which a
//! stream without a descriptor is bridged through a worker and a pipe,
//! flushed, torn down and rebuilt.
//!
//! The crate performs no I/O itself. A driver opens, reads, writes, spawns
//! and joins; after each such step it tells the handle what happened and the
//! handle answers with the next thing to do. Every answer is fixed by a
//! contract.

pub mod bridge;
pub mod command;
pub mod descriptor;
pub mod payload;
pub mod read_handle;
pub mod read_write;
pub mod read_write_handle;
pub mod stdio;
pub mod write_handle;

pub use bridge::{
    read_worker_result, surfaced_error, teardown_verdict, write_worker_result,
    write_worker_step, BridgePhase, Completion, ErrorRoute, Teardown, TeardownVerdict,
    WorkerStep,
};
pub use command::{CommandStdio, StdioMode};
pub use descriptor::{Descriptor, Platform};
pub use payload::{
    cap_limit, payload_route, platform_route, PayloadRoute, MAX_ATOMIC_PIPE_WRITE,
    MIN_ATOMIC_PIPE_WRITE,
};
pub use read_handle::{ReadHandle, ReadResources};
pub use read_write::{
    AsRawHandleOrSocket, AsRawReadWriteFd, AsRawReadWriteHandleOrSocket, ReadWrite,
};
pub use read_write_handle::{ReadWriteHandle, ReadWriteResources};
pub use stdio::{AlreadyHeld, StdStream, StdioLocks, StdioToken};
pub use write_handle::{
    DrainStep, Drained, FlushStep, WriteBridge, WriteHandle, WriteResources,
};
