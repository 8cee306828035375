//! Output streams, and the flush protocol of the thread bridge.
//!
//! A pipe cannot carry a flush to whatever reads its other end: all it can
//! signal is its own end. A flush of a bridged handle is therefore a round
//! trip. The endpoint is flushed and closed, which the worker sees as the
//! end of its input; the worker drains what is left, flushes the sink and
//! hands the sink back; and a new bridge is built around that same sink.
//! The handle then aliases the new endpoint and can be written to again.
//!
//! Between the moment the endpoint is given up and the moment the new bridge
//! stands, the bridge is *draining*. Only a draining bridge is rebuilt: one
//! that was consumed by a failure stays consumed.

use crate::bridge::{
    surfaced, verdict_of, BridgePhase, Completion, ErrorRoute, Teardown, TeardownVerdict,
};
use crate::descriptor::{Descriptor, Platform};
use crate::read_write::AsRawHandleOrSocket;
use crate::stdio::{AlreadyHeld, StdStream, StdioLocks, StdioToken};
use vstd::prelude::*;

verus! {

/// The state of the thread bridge of a [`WriteHandle`].
#[derive(Clone, Copy, Debug, PartialEq, Eq, Structural)]
pub enum WriteBridge {
    /// A worker is running and this endpoint, which feeds it, is open.
    Active(Descriptor),
    /// A flush has given the endpoint up and a new bridge is yet to come.
    Draining,
    /// The endpoint was taken out for good.
    Consumed,
}

/// What a [`WriteHandle`] keeps alive beside its descriptor.
#[derive(Debug)]
pub enum WriteResources {
    /// An open file.
    File,
    /// An open TCP stream.
    TcpStream,
    /// An open Unix-domain stream.
    UnixStream,
    /// The writing end of a pipe.
    PipeWriter,
    /// Standard output, with the token that reserves it.
    Stdout(StdioToken),
    /// A thread bridge.
    PipedThread(WriteBridge),
    /// A child process whose standard input is written.
    Child,
    /// A child's standard input.
    ChildStdin,
}

/// What follows the flush of a handle's descriptor.
#[derive(Debug, PartialEq, Eq)]
pub enum FlushStep<E> {
    /// The flush is complete and succeeded.
    Done,
    /// The flush failed; the route says which error to return.
    Failed(ErrorRoute<E>),
    /// The handle is bridged. Flush this endpoint, close it, and join the
    /// worker; then report with [`WriteHandle::flush_drained`].
    DrainBridge(Descriptor),
}

/// What came of draining a bridge.
#[derive(Debug, PartialEq, Eq)]
pub enum Drained<S, E> {
    /// The flush of the endpoint failed. The endpoint was dropped and the
    /// worker was not joined.
    EndpointFlushFailed(E),
    /// The endpoint was flushed and closed, and the worker ended with this
    /// result: the sink, or the error that its copy or its flush of the sink
    /// failed with.
    Joined(Result<S, E>),
}

/// What follows the draining of a bridge.
#[derive(Debug, PartialEq, Eq)]
pub enum DrainStep<S, E> {
    /// Build a new bridge around this sink, which is the one that the worker
    /// handed back, and report with [`WriteHandle::flush_rebuilt`].
    Rebuild(S),
    /// The flush failed with this error, which is returned to the caller of
    /// the flush as it is: the error of flushing the endpoint, or the error
    /// that the worker ended with.
    Failed(E),
}

/// An unbuffered and unlocked output byte stream, abstracted over the
/// destination of the output.
///
/// It consists of one descriptor and of the resource that keeps the
/// descriptor valid. Only the constructors, and the last step of a flush,
/// pair the two.
#[derive(Debug)]
pub struct WriteHandle {
    descriptor: Descriptor,
    resources: WriteResources,
}

/// What a [`WriteHandle`] is to its contracts.
pub struct WriteHandleView {
    /// The descriptor through which the handle writes.
    pub descriptor: Descriptor,
    /// The resource that the handle keeps alive.
    pub resources: WriteResources,
}

impl WriteHandleView {
    /// Where the handle stands with respect to a thread bridge.
    pub open spec fn bridge(self) -> BridgePhase {
        match self.resources {
            WriteResources::PipedThread(WriteBridge::Active(endpoint)) => BridgePhase::Active(
                endpoint,
            ),
            WriteResources::PipedThread(WriteBridge::Draining) => BridgePhase::Draining,
            WriteResources::PipedThread(WriteBridge::Consumed) => BridgePhase::Consumed,
            _ => BridgePhase::Unbridged,
        }
    }

    /// Whether an operation on the descriptor may be under way: the handle
    /// has no bridge, or an active one.
    pub open spec fn usable(self) -> bool {
        self.bridge() is Unbridged || self.bridge() is Active
    }

    /// Whether a descriptor is of the kind that names the given resource:
    /// a socket for a TCP stream, a file descriptor for a Unix-domain
    /// stream, which only a platform of unified numbering has, and a handle
    /// for everything else.
    pub open spec fn kind_fits(descriptor: Descriptor, resources: WriteResources) -> bool {
        match resources {
            WriteResources::TcpStream => descriptor.is_socket_like(),
            WriteResources::UnixStream => descriptor is Fd,
            _ => descriptor.is_handle_like(),
        }
    }

    /// The pairing that every constructor establishes and every handle
    /// keeps: the descriptor is of the kind that names the resource, an
    /// active bridge is fed through the very endpoint that the handle writes
    /// to, and a token held for standard output is one for standard output.
    pub open spec fn wf(self) -> bool {
        &&& Self::kind_fits(self.descriptor, self.resources)
        &&& self.resources matches WriteResources::PipedThread(WriteBridge::Active(endpoint))
            ==> endpoint == self.descriptor
        &&& self.resources matches WriteResources::Stdout(token) ==> token.stream()
            == StdStream::Stdout
    }

    /// A handle over a new, active bridge that is fed through `endpoint`.
    pub open spec fn bridged(endpoint: Descriptor) -> Self {
        WriteHandleView {
            descriptor: endpoint,
            resources: WriteResources::PipedThread(WriteBridge::Active(endpoint)),
        }
    }

    /// This handle with its bridge in the given state.
    pub open spec fn with_bridge(self, bridge: WriteBridge) -> Self {
        WriteHandleView { resources: WriteResources::PipedThread(bridge), ..self }
    }

    /// The route of an error `e` that the descriptor gave.
    pub open spec fn error_route<E>(self, e: E) -> ErrorRoute<E> {
        match self.bridge() {
            BridgePhase::Active(endpoint) => ErrorRoute::JoinWorker(endpoint, e),
            _ => ErrorRoute::PassThrough(e),
        }
    }

    /// The handle after an operation on its descriptor failed: the endpoint
    /// of an active bridge was taken out for good, so that the bridge is
    /// consumed. Any other handle is unchanged.
    pub open spec fn after_take(self) -> Self {
        if self.bridge() is Active {
            self.with_bridge(WriteBridge::Consumed)
        } else {
            self
        }
    }

    /// The handle after a flush of its descriptor ended with `flushed`: a
    /// failure takes the endpoint out for good, a success gives the endpoint
    /// of an active bridge up to be drained.
    pub open spec fn after_flush<E>(self, flushed: Result<(), E>) -> Self {
        if !(self.bridge() is Active) {
            self
        } else if flushed is Ok {
            self.with_bridge(WriteBridge::Draining)
        } else {
            self.with_bridge(WriteBridge::Consumed)
        }
    }

    /// What follows a flush of the descriptor that ended with `flushed`.
    pub open spec fn flush_step<E>(self, flushed: Result<(), E>) -> FlushStep<E> {
        match flushed {
            Err(e) => FlushStep::Failed(self.error_route(e)),
            Ok(_) => match self.bridge() {
                BridgePhase::Active(endpoint) => FlushStep::DrainBridge(endpoint),
                _ => FlushStep::Done,
            },
        }
    }

    /// What must happen before the handle's resource is released: an
    /// active bridge is closed and then joined.
    pub open spec fn teardown_plan(self) -> Teardown {
        match self.bridge() {
            BridgePhase::Active(endpoint) => Teardown::CloseAndJoin(endpoint),
            _ => Teardown::Nothing,
        }
    }

    /// What follows the draining of a bridge.
    pub open spec fn drain_step<S, E>(drained: Drained<S, E>) -> DrainStep<S, E> {
        match drained {
            Drained::EndpointFlushFailed(e) => DrainStep::Failed(e),
            Drained::Joined(Err(e)) => DrainStep::Failed(e),
            Drained::Joined(Ok(sink)) => DrainStep::Rebuild(sink),
        }
    }

    /// The handle, whose bridge is draining, after the drain ended with
    /// `drained`: it goes on draining if a new bridge is to be built, and is
    /// consumed otherwise.
    pub open spec fn after_drain<S, E>(self, drained: Drained<S, E>) -> Self {
        if drained matches Drained::Joined(Ok(_)) {
            self
        } else {
            self.with_bridge(WriteBridge::Consumed)
        }
    }

    /// The handle, whose bridge is draining, after the attempt to build a
    /// new bridge ended with `rebuilt`.
    pub open spec fn after_rebuild<E>(self, rebuilt: Result<Descriptor, E>) -> Self {
        match rebuilt {
            Ok(endpoint) => Self::bridged(endpoint),
            Err(_) => self.with_bridge(WriteBridge::Consumed),
        }
    }
}

impl View for WriteHandle {
    type V = WriteHandleView;

    closed spec fn view(&self) -> WriteHandleView {
        WriteHandleView { descriptor: self.descriptor, resources: self.resources }
    }
}

impl WriteHandle {
    #[verifier::type_invariant]
    spec fn well_formed(self) -> bool {
        self@.wf()
    }

    /// The descriptor through which this handle writes.
    pub fn descriptor(&self) -> (descriptor: Descriptor)
        ensures
            descriptor == self@.descriptor,
    {
        self.descriptor
    }

    /// The resource that this handle keeps alive.
    pub fn resources(&self) -> (resources: &WriteResources)
        ensures
            *resources == self@.resources,
    {
        &self.resources
    }

    /// Where this handle stands with respect to a thread bridge. Every
    /// handle is well formed, and this says so.
    pub fn bridge(&self) -> (phase: BridgePhase)
        ensures
            phase == self@.bridge(),
            self@.wf(),
    {
        proof {
            use_type_invariant(self);
        }
        match &self.resources {
            WriteResources::PipedThread(WriteBridge::Active(endpoint)) => BridgePhase::Active(
                *endpoint,
            ),
            WriteResources::PipedThread(WriteBridge::Draining) => BridgePhase::Draining,
            WriteResources::PipedThread(WriteBridge::Consumed) => BridgePhase::Consumed,
            _ => BridgePhase::Unbridged,
        }
    }

    /// Writes to standard output, which `descriptor` names.
    ///
    /// Claims standard output in `locks`, and fails, changing nothing, if a
    /// live handle already uses it.
    pub fn stdout(locks: &mut StdioLocks, descriptor: Descriptor) -> (handle: Result<
        Self,
        AlreadyHeld,
    >)
        requires
            descriptor.is_handle_like(),
        ensures
            handle is Ok <==> StdioLocks::claimable(old(locks)@, StdStream::Stdout),
            handle matches Ok(h) ==> {
                &&& h@.wf()
                &&& h@.descriptor == descriptor
                &&& h@.resources is Stdout
                &&& final(locks)@ == old(locks)@.insert(StdStream::Stdout)
            },
            handle matches Err(conflict) ==> {
                &&& conflict.stream == StdStream::Stdout
                &&& final(locks)@ == old(locks)@
            },
    {
        match locks.acquire(StdStream::Stdout) {
            Ok(token) => Ok(WriteHandle { descriptor, resources: WriteResources::Stdout(token) }),
            Err(conflict) => Err(conflict),
        }
    }

    /// Writes to an open file, which `descriptor` names.
    pub fn file(descriptor: Descriptor) -> (handle: Self)
        requires
            descriptor.is_handle_like(),
        ensures
            handle@ == (WriteHandleView { descriptor, resources: WriteResources::File }),
    {
        WriteHandle { descriptor, resources: WriteResources::File }
    }

    /// Writes to an open TCP stream, which `descriptor` names as a socket.
    pub fn tcp_stream(descriptor: Descriptor) -> (handle: Self)
        requires
            descriptor.is_socket_like(),
        ensures
            handle@ == (WriteHandleView { descriptor, resources: WriteResources::TcpStream }),
    {
        WriteHandle { descriptor, resources: WriteResources::TcpStream }
    }

    /// Writes to an open Unix-domain stream, which `descriptor` names as a
    /// file descriptor.
    pub fn unix_stream(descriptor: Descriptor) -> (handle: Self)
        requires
            descriptor is Fd,
        ensures
            handle@ == (WriteHandleView { descriptor, resources: WriteResources::UnixStream }),
    {
        WriteHandle { descriptor, resources: WriteResources::UnixStream }
    }

    /// Writes to the writing end of an open pipe, which `descriptor` names.
    pub fn pipe_writer(descriptor: Descriptor) -> (handle: Self)
        requires
            descriptor.is_handle_like(),
        ensures
            handle@ == (WriteHandleView { descriptor, resources: WriteResources::PipeWriter }),
    {
        WriteHandle { descriptor, resources: WriteResources::PipeWriter }
    }

    /// Writes to a sink that has no descriptor of its own, through a worker
    /// that copies from a pipe into the sink. `endpoint` names the writing
    /// end of that pipe. The bridge starts out active.
    ///
    /// Writes to the pipe are not synchronous with writes to the sink: only
    /// a flush makes sure that what was written has arrived.
    pub fn piped_thread(endpoint: Descriptor) -> (handle: Self)
        requires
            endpoint.is_handle_like(),
        ensures
            handle@ == WriteHandleView::bridged(endpoint),
    {
        WriteHandle {
            descriptor: endpoint,
            resources: WriteResources::PipedThread(WriteBridge::Active(endpoint)),
        }
    }

    /// Writes to the standard input of a command that was spawned with the
    /// setup of [`crate::command::CommandStdio::for_writing`]. `child_stdin`
    /// names that input; the handle keeps the child itself alive.
    pub fn write_to_command(child_stdin: Descriptor) -> (handle: Self)
        requires
            child_stdin.is_handle_like(),
        ensures
            handle@ == (WriteHandleView {
                descriptor: child_stdin,
                resources: WriteResources::Child,
            }),
    {
        WriteHandle { descriptor: child_stdin, resources: WriteResources::Child }
    }

    /// Writes to a child process' standard input, which `descriptor` names.
    pub fn child_stdin(descriptor: Descriptor) -> (handle: Self)
        requires
            descriptor.is_handle_like(),
        ensures
            handle@ == (WriteHandleView { descriptor, resources: WriteResources::ChildStdin }),
    {
        WriteHandle { descriptor, resources: WriteResources::ChildStdin }
    }

    /// The path of the null device, which is opened for
    /// [`WriteHandle::null`].
    pub fn null_device(platform: Platform) -> (path: &'static str)
        ensures
            path@ == (match platform {
                Platform::Unified => "/dev/null"@,
                Platform::Segmented => "NUL"@,
            }),
    {
        match platform {
            Platform::Unified => "/dev/null",
            Platform::Segmented => "NUL",
        }
    }

    /// Writes to the null device, which ignores all data. `device` names
    /// the opened device, which the handle owns as a file.
    pub fn null(device: Descriptor) -> (handle: Self)
        requires
            device.is_handle_like(),
        ensures
            handle@ == (WriteHandleView { descriptor: device, resources: WriteResources::File }),
    {
        Self::file(device)
    }

    /// Decides which error the caller sees after the descriptor failed with
    /// `e`.
    ///
    /// Without a bridge the error passes through unchanged and so does the
    /// handle. With an active bridge the endpoint is taken out, so that the
    /// bridge is consumed, and the worker is to be joined: its error, if it
    /// ended with one, is returned in place of `e`, and `e` itself if it
    /// ended well, as [`surfaced_error`](crate::bridge::surfaced_error)
    /// says. An endpoint that was taken out must not be taken out a second
    /// time.
    pub fn map_err<E>(&mut self, e: E) -> (route: ErrorRoute<E>)
        requires
            old(self)@.usable(),
        ensures
            route == old(self)@.error_route(e),
            final(self)@ == old(self)@.after_take(),
            final(self)@.wf(),
    {
        proof {
            use_type_invariant(&*self);
        }
        match self.resources {
            WriteResources::PipedThread(WriteBridge::Active(endpoint)) => {
                self.resources = WriteResources::PipedThread(WriteBridge::Consumed);
                ErrorRoute::JoinWorker(endpoint, e)
            },
            _ => ErrorRoute::PassThrough(e),
        }
    }

    /// Takes the outcome of one operation on the descriptor other than a
    /// flush: a write of any form.
    ///
    /// Success is handed on as it is and leaves the handle unchanged.
    /// Failure goes through [`WriteHandle::map_err`].
    pub fn complete<T, E>(&mut self, outcome: Result<T, E>) -> (completion: Completion<T, E>)
        requires
            outcome is Err ==> old(self)@.usable(),
        ensures
            final(self)@.wf(),
            outcome matches Ok(value) ==> completion == Completion::<T, E>::Done(value)
                && final(self)@ == old(self)@,
            outcome matches Err(e) ==> completion == Completion::<T, E>::Failed(
                old(self)@.error_route(e),
            ) && final(self)@ == old(self)@.after_take(),
    {
        proof {
            use_type_invariant(&*self);
        }
        match outcome {
            Ok(value) => Completion::Done(value),
            Err(e) => Completion::Failed(self.map_err(e)),
        }
    }

    /// Begins a flush: takes the outcome of flushing the descriptor.
    ///
    /// A failure goes through [`WriteHandle::map_err`], which consumes an
    /// active bridge. After a success a handle without a bridge is done, and
    /// a bridged handle gives its endpoint up to be drained: its bridge is
    /// draining from then on. An endpoint that was taken out must not be
    /// taken out a second time.
    pub fn flush<E>(&mut self, flushed: Result<(), E>) -> (step: FlushStep<E>)
        requires
            old(self)@.usable(),
        ensures
            step == old(self)@.flush_step(flushed),
            final(self)@ == old(self)@.after_flush(flushed),
            final(self)@.wf(),
    {
        proof {
            use_type_invariant(&*self);
        }
        match flushed {
            Ok(_) => {
                match self.resources {
                    WriteResources::PipedThread(WriteBridge::Active(endpoint)) => {
                        self.resources = WriteResources::PipedThread(WriteBridge::Draining);
                        FlushStep::DrainBridge(endpoint)
                    },
                    _ => FlushStep::Done,
                }
            },
            Err(e) => FlushStep::Failed(self.map_err(e)),
        }
    }

    /// Continues a flush after the bridge was drained.
    ///
    /// A failed flush of the endpoint is the flush's own error. So is the
    /// error of a worker that could not bring the bytes to its sink: the
    /// caller of the flush is the one to hear of it. Either way the bridge is
    /// consumed. A worker that handed its sink back gets a new bridge around
    /// that sink, and the bridge goes on draining until it stands.
    pub fn flush_drained<S, E>(&mut self, drained: Drained<S, E>) -> (step: DrainStep<S, E>)
        requires
            old(self)@.bridge() is Draining,
        ensures
            step == WriteHandleView::drain_step(drained),
            final(self)@ == old(self)@.after_drain(drained),
            final(self)@.wf(),
    {
        proof {
            use_type_invariant(&*self);
        }
        match drained {
            Drained::Joined(Ok(sink)) => DrainStep::Rebuild(sink),
            Drained::Joined(Err(e)) => {
                self.resources = WriteResources::PipedThread(WriteBridge::Consumed);
                DrainStep::Failed(e)
            },
            Drained::EndpointFlushFailed(e) => {
                self.resources = WriteResources::PipedThread(WriteBridge::Consumed);
                DrainStep::Failed(e)
            },
        }
    }

    /// Ends a flush: takes the endpoint of the new bridge, or the error of
    /// building it.
    ///
    /// With a new endpoint the handle is what
    /// [`WriteHandle::piped_thread`] makes of that endpoint, and the flush
    /// succeeded. Otherwise the flush fails with the error as it is and the
    /// bridge is consumed. Only a draining bridge is rebuilt.
    pub fn flush_rebuilt<E>(&mut self, rebuilt: Result<Descriptor, E>) -> (flushed: Result<(), E>)
        requires
            old(self)@.bridge() is Draining,
            rebuilt matches Ok(endpoint) ==> endpoint.is_handle_like(),
        ensures
            final(self)@ == old(self)@.after_rebuild(rebuilt),
            final(self)@.wf(),
            rebuilt is Ok ==> flushed is Ok,
            rebuilt matches Err(e) ==> flushed == Err::<(), E>(e),
    {
        proof {
            use_type_invariant(&*self);
        }
        match rebuilt {
            Ok(endpoint) => {
                *self = Self::piped_thread(endpoint);
                Ok(())
            },
            Err(e) => {
                self.resources = WriteResources::PipedThread(WriteBridge::Consumed);
                Err(e)
            },
        }
    }

    /// Ends the handle's life: gives back the token of standard output, if
    /// the handle holds it, and says what must happen before the resource is
    /// released.
    ///
    /// An active bridge is torn down by closing the endpoint and then
    /// joining the worker, in this order: the worker ends only once it sees
    /// the pipe closed. A bridge whose endpoint was taken out has nothing
    /// left to tear down.
    pub fn teardown(self, locks: &mut StdioLocks) -> (plan: Teardown)
        ensures
            plan == self@.teardown_plan(),
            final(locks)@ == (if self@.resources is Stdout {
                old(locks)@.remove(StdStream::Stdout)
            } else {
                old(locks)@
            }),
    {
        proof {
            use_type_invariant(&self);
        }
        match self.resources {
            WriteResources::Stdout(token) => {
                locks.release(token);
                Teardown::Nothing
            },
            WriteResources::PipedThread(WriteBridge::Active(endpoint)) => Teardown::CloseAndJoin(
                endpoint,
            ),
            _ => Teardown::Nothing,
        }
    }

    /// The raw file descriptor, on a platform with unified numbering.
    pub fn as_raw_fd(&self) -> (raw: Option<i32>)
        ensures
            raw == self@.descriptor.as_raw_fd(),
    {
        self.descriptor.as_raw_fd()
    }
}

impl AsRawHandleOrSocket for WriteHandle {
    fn as_raw_handle(&self) -> (raw: Option<usize>)
        ensures
            raw == self@.descriptor.as_raw_handle(),
    {
        self.descriptor.as_raw_handle()
    }

    fn as_raw_socket(&self) -> (raw: Option<u64>)
        ensures
            raw == self@.descriptor.as_raw_socket(),
    {
        self.descriptor.as_raw_socket()
    }
}

/// A new bridge is well formed and active at its endpoint, which is the
/// descriptor that the handle writes to.
pub proof fn lemma_new_bridge_is_active(endpoint: Descriptor)
    requires
        endpoint.is_handle_like(),
    ensures
        WriteHandleView::bridged(endpoint).wf(),
        WriteHandleView::bridged(endpoint).descriptor == endpoint,
        WriteHandleView::bridged(endpoint).bridge() == BridgePhase::Active(endpoint),
{
}

/// The bridge of a handle goes one way. A consumed bridge stays consumed
/// whatever is reported to the handle: no step leads out of it. A bridge
/// becomes active again only by the rebuilding that ends a flush.
pub proof fn lemma_consumed_is_final<S, E>(
    handle: WriteHandleView,
    flushed: Result<(), E>,
    drained: Drained<S, E>,
)
    requires
        handle.wf(),
        handle.bridge() is Consumed,
    ensures
        handle.after_take() == handle,
        handle.after_flush(flushed) == handle,
        handle.after_drain(drained).bridge() is Consumed,
        !handle.usable(),
{
}

/// No step but a successful rebuilding makes a bridge active: a failure and
/// a flush take an active bridge out of that state, draining keeps or
/// consumes, and none of them touches the descriptor.
pub proof fn lemma_only_rebuilding_activates<S, E>(
    handle: WriteHandleView,
    flushed: Result<(), E>,
    drained: Drained<S, E>,
    failure: E,
)
    requires
        handle.wf(),
    ensures
        handle.after_take().wf() && handle.after_take().descriptor == handle.descriptor,
        handle.after_flush(flushed).wf() && handle.after_flush(flushed).descriptor
            == handle.descriptor,
        handle.bridge() is Active ==> handle.after_take().bridge() is Consumed,
        handle.bridge() is Active ==> !(handle.after_flush(flushed).bridge() is Active),
        handle.bridge() is Draining ==> !(handle.after_drain(drained).bridge() is Active),
        handle.bridge() is Draining ==> handle.after_rebuild(Err::<Descriptor, E>(failure)).bridge()
            is Consumed,
        !(handle.bridge() is Active) ==> handle.after_take() == handle && handle.after_flush(
            flushed,
        ) == handle,
{
}

/// A flush in which every step succeeds leaves a bridged handle exactly as a
/// newly built one is, with nothing of the old bridge left: the flush gives
/// the endpoint up, the drain hands the worker's sink on to be wrapped
/// again, and the rebuilding ends with an active bridge at the next
/// endpoint, from which a further flush starts in the same way. So a handle
/// can be written to and flushed any number of times.
pub proof fn lemma_flush_then_continue<S, E>(
    handle: WriteHandleView,
    sink: S,
    next_endpoint: Descriptor,
)
    requires
        handle.wf(),
        handle.bridge() is Active,
        next_endpoint.is_handle_like(),
    ensures
        handle.flush_step(Ok::<(), E>(())) == FlushStep::<E>::DrainBridge(handle.descriptor),
        handle.after_flush(Ok::<(), E>(())).bridge() is Draining,
        WriteHandleView::drain_step(Drained::<S, E>::Joined(Ok(sink))) == DrainStep::<
            S,
            E,
        >::Rebuild(sink),
        handle.after_flush(Ok::<(), E>(())).after_drain(Drained::<S, E>::Joined(Ok(sink))).bridge()
            is Draining,
        handle.after_flush(Ok::<(), E>(())).after_drain(
            Drained::<S, E>::Joined(Ok(sink)),
        ).after_rebuild(Ok::<Descriptor, E>(next_endpoint)) == WriteHandleView::bridged(
            next_endpoint,
        ),
        WriteHandleView::bridged(next_endpoint).wf(),
        WriteHandleView::bridged(next_endpoint).bridge() == BridgePhase::Active(next_endpoint),
        WriteHandleView::bridged(next_endpoint).flush_step(Ok::<(), E>(()))
            == FlushStep::<E>::DrainBridge(next_endpoint),
{
}

/// A flush that fails at any step after the endpoint was given up leaves the
/// bridge consumed and returns the failing step's own error to its caller:
/// the error of flushing the endpoint, the error that the worker ended with,
/// or the error of building the new bridge. None of them aborts.
pub proof fn lemma_failed_flush_returns_its_error<S, E>(handle: WriteHandleView, failure: E)
    requires
        handle.wf(),
        handle.bridge() is Draining,
    ensures
        WriteHandleView::drain_step(Drained::<S, E>::EndpointFlushFailed(failure))
            == DrainStep::<S, E>::Failed(failure),
        handle.after_drain(Drained::<S, E>::EndpointFlushFailed(failure)).bridge() is Consumed,
        WriteHandleView::drain_step(Drained::<S, E>::Joined(Err(failure))) == DrainStep::<
            S,
            E,
        >::Failed(failure),
        handle.after_drain(Drained::<S, E>::Joined(Err(failure))).bridge() is Consumed,
        handle.after_rebuild(Err::<Descriptor, E>(failure)).bridge() is Consumed,
        handle.after_rebuild(Err::<Descriptor, E>(failure)).wf(),
{
}

/// No error is dropped. A failed operation returns the worker's error if
/// the worker ended with one, and the descriptor's own if the worker ended
/// well or if there is no bridge. A flush returns the error of the worker
/// that it joined. The teardown aborts with the error of a worker that
/// nobody joined before, and an active bridge is never released without its
/// worker being joined.
pub proof fn lemma_no_error_is_dropped<S, E>(
    handle: WriteHandleView,
    sink: S,
    foreground: E,
    cause: E,
)
    requires
        handle.wf(),
    ensures
        handle.bridge() is Active ==> handle.error_route(foreground) == ErrorRoute::JoinWorker(
            handle.descriptor,
            foreground,
        ),
        !(handle.bridge() is Active) ==> handle.error_route(foreground) == ErrorRoute::PassThrough(
            foreground,
        ),
        surfaced(foreground, Err::<S, E>(cause)) == cause,
        surfaced(foreground, Ok::<S, E>(sink)) == foreground,
        WriteHandleView::drain_step(Drained::<S, E>::Joined(Err(cause))) == DrainStep::<
            S,
            E,
        >::Failed(cause),
        verdict_of(Err::<S, E>(cause)) == TeardownVerdict::Abort(cause),
        handle.bridge() is Active <==> handle.teardown_plan() == Teardown::CloseAndJoin(
            handle.descriptor,
        ),
        !(handle.bridge() is Active) <==> handle.teardown_plan() == Teardown::Nothing,
{
}

/// Where handles and sockets are numbered apart, a handle answers exactly
/// one of the two questions for its raw value, and which one follows from
/// its resource: the raw handle is missing exactly for a TCP stream, for
/// which the raw socket is there. Where numbering is unified it answers
/// with its file descriptor, whatever the resource.
pub proof fn lemma_introspection_follows_the_resource(handle: WriteHandleView)
    requires
        handle.wf(),
    ensures
        handle.descriptor is Fd ==> handle.descriptor.as_raw_fd() is Some
            && handle.descriptor.as_raw_handle() is None && handle.descriptor.as_raw_socket()
            is None,
        !(handle.descriptor is Fd) ==> {
            &&& handle.descriptor.as_raw_fd() is None
            &&& handle.descriptor.as_raw_handle() is None <==> handle.resources is TcpStream
            &&& handle.descriptor.as_raw_socket() is Some <==> handle.resources is TcpStream
            &&& handle.descriptor.as_raw_handle() is Some != handle.descriptor.as_raw_socket()
                is Some
            &&& !(handle.resources is UnixStream)
        },
{
}

/// A flush of a handle without a bridge is over once its descriptor is
/// flushed, and changes nothing, as does every operation that succeeds:
/// this is so for the null device as for any file, socket, pipe or child
/// stream.
pub proof fn lemma_unbridged_flush_is_plain<E>(handle: WriteHandleView, flushed: Result<(), E>)
    requires
        handle.wf(),
        handle.bridge() is Unbridged,
    ensures
        handle.flush_step(Ok::<(), E>(())) == FlushStep::<E>::Done,
        handle.after_flush(flushed) == handle,
        handle.after_take() == handle,
{
}

} // verus!
