//! Input streams.

use crate::bridge::{
    surfaced, verdict_of, BridgePhase, Completion, ErrorRoute, Teardown, TeardownVerdict,
};
use crate::descriptor::Descriptor;
use crate::payload::{
    platform_route, route_for, PayloadRoute, MAX_ATOMIC_PIPE_WRITE, MIN_ATOMIC_PIPE_WRITE,
};
use crate::read_write::AsRawHandleOrSocket;
use crate::stdio::{AlreadyHeld, StdStream, StdioLocks, StdioToken};
use vstd::prelude::*;
use vstd::string::StringSliceAdditionalSpecFns;

verus! {

/// What a [`ReadHandle`] keeps alive beside its descriptor.
#[derive(Debug)]
pub enum ReadResources {
    /// An open file.
    File,
    /// An open TCP stream.
    TcpStream,
    /// An open Unix-domain stream.
    UnixStream,
    /// The reading end of a pipe.
    PipeReader,
    /// Standard input, with the token that reserves it.
    Stdin(StdioToken),
    /// A thread bridge: the endpoint while it is active, `None` once it has
    /// been taken out.
    PipedThread(Option<Descriptor>),
    /// A child process whose standard output is read.
    Child,
    /// A child's standard output.
    ChildStdout,
    /// A child's standard error.
    ChildStderr,
}

/// An unbuffered and unlocked input byte stream, abstracted over the source
/// of the input.
///
/// It consists of one descriptor and of the resource that keeps the
/// descriptor valid. Only the constructors pair the two.
#[derive(Debug)]
pub struct ReadHandle {
    descriptor: Descriptor,
    resources: ReadResources,
}

/// What a [`ReadHandle`] is to its contracts.
pub struct ReadHandleView {
    /// The descriptor through which the handle reads.
    pub descriptor: Descriptor,
    /// The resource that the handle keeps alive.
    pub resources: ReadResources,
}

impl ReadHandleView {
    /// Where the handle stands with respect to a thread bridge.
    pub open spec fn bridge(self) -> BridgePhase {
        match self.resources {
            ReadResources::PipedThread(Some(endpoint)) => BridgePhase::Active(endpoint),
            ReadResources::PipedThread(None) => BridgePhase::Consumed,
            _ => BridgePhase::Unbridged,
        }
    }

    /// Whether an operation on the descriptor may be under way: the handle
    /// has no bridge, or an active one.
    pub open spec fn usable(self) -> bool {
        self.bridge() is Unbridged || self.bridge() is Active
    }

    /// Whether a descriptor is of the kind that names the given resource:
    /// a socket for a TCP stream, a file descriptor for a Unix-domain
    /// stream, which only a platform of unified numbering has, and a handle
    /// for everything else.
    pub open spec fn kind_fits(descriptor: Descriptor, resources: ReadResources) -> bool {
        match resources {
            ReadResources::TcpStream => descriptor.is_socket_like(),
            ReadResources::UnixStream => descriptor is Fd,
            _ => descriptor.is_handle_like(),
        }
    }

    /// The pairing that every constructor establishes and every handle
    /// keeps: the descriptor is of the kind that names the resource, an
    /// active bridge feeds the very endpoint that the handle reads from, and
    /// a token held for standard input is one for standard input.
    pub open spec fn wf(self) -> bool {
        &&& Self::kind_fits(self.descriptor, self.resources)
        &&& self.resources matches ReadResources::PipedThread(Some(endpoint)) ==> endpoint
            == self.descriptor
        &&& self.resources matches ReadResources::Stdin(token) ==> token.stream()
            == StdStream::Stdin
    }

    /// The route of an error `e` that the descriptor gave.
    pub open spec fn error_route<E>(self, e: E) -> ErrorRoute<E> {
        match self.bridge() {
            BridgePhase::Active(endpoint) => ErrorRoute::JoinWorker(endpoint, e),
            _ => ErrorRoute::PassThrough(e),
        }
    }

    /// What must happen before the handle's resource is released: an
    /// active bridge is closed and then joined.
    pub open spec fn teardown_plan(self) -> Teardown {
        match self.bridge() {
            BridgePhase::Active(endpoint) => Teardown::CloseAndJoin(endpoint),
            _ => Teardown::Nothing,
        }
    }

    /// The handle after the endpoint of its bridge, if it has an active one,
    /// was taken out: the bridge is consumed. Any other handle is
    /// unchanged.
    pub open spec fn after_take(self) -> Self {
        if self.bridge() is Active {
            ReadHandleView { resources: ReadResources::PipedThread(None), ..self }
        } else {
            self
        }
    }
}

impl View for ReadHandle {
    type V = ReadHandleView;

    closed spec fn view(&self) -> ReadHandleView {
        ReadHandleView { descriptor: self.descriptor, resources: self.resources }
    }
}

impl ReadHandle {
    #[verifier::type_invariant]
    spec fn well_formed(self) -> bool {
        self@.wf()
    }

    /// The descriptor through which this handle reads.
    pub fn descriptor(&self) -> (descriptor: Descriptor)
        ensures
            descriptor == self@.descriptor,
    {
        self.descriptor
    }

    /// The resource that this handle keeps alive.
    pub fn resources(&self) -> (resources: &ReadResources)
        ensures
            *resources == self@.resources,
    {
        &self.resources
    }

    /// Where this handle stands with respect to a thread bridge. Every
    /// handle is well formed, and this says so.
    pub fn bridge(&self) -> (phase: BridgePhase)
        ensures
            phase == self@.bridge(),
            self@.wf(),
    {
        proof {
            use_type_invariant(self);
        }
        match &self.resources {
            ReadResources::PipedThread(Some(endpoint)) => BridgePhase::Active(*endpoint),
            ReadResources::PipedThread(None) => BridgePhase::Consumed,
            _ => BridgePhase::Unbridged,
        }
    }

    /// Reads from standard input, which `descriptor` names.
    ///
    /// Claims standard input in `locks`, and fails, changing nothing, if a
    /// live handle already uses it.
    pub fn stdin(locks: &mut StdioLocks, descriptor: Descriptor) -> (handle: Result<
        Self,
        AlreadyHeld,
    >)
        requires
            descriptor.is_handle_like(),
        ensures
            handle is Ok <==> StdioLocks::claimable(old(locks)@, StdStream::Stdin),
            handle matches Ok(h) ==> {
                &&& h@.wf()
                &&& h@.descriptor == descriptor
                &&& h@.resources is Stdin
                &&& final(locks)@ == old(locks)@.insert(StdStream::Stdin)
            },
            handle matches Err(conflict) ==> {
                &&& conflict.stream == StdStream::Stdin
                &&& final(locks)@ == old(locks)@
            },
    {
        match locks.acquire(StdStream::Stdin) {
            Ok(token) => Ok(ReadHandle { descriptor, resources: ReadResources::Stdin(token) }),
            Err(conflict) => Err(conflict),
        }
    }

    /// Reads from an open file, which `descriptor` names.
    pub fn file(descriptor: Descriptor) -> (handle: Self)
        requires
            descriptor.is_handle_like(),
        ensures
            handle@ == (ReadHandleView { descriptor, resources: ReadResources::File }),
    {
        ReadHandle { descriptor, resources: ReadResources::File }
    }

    /// Reads from an open TCP stream, which `descriptor` names as a socket.
    pub fn tcp_stream(descriptor: Descriptor) -> (handle: Self)
        requires
            descriptor.is_socket_like(),
        ensures
            handle@ == (ReadHandleView { descriptor, resources: ReadResources::TcpStream }),
    {
        ReadHandle { descriptor, resources: ReadResources::TcpStream }
    }

    /// Reads from an open Unix-domain stream, which `descriptor` names as a
    /// file descriptor.
    pub fn unix_stream(descriptor: Descriptor) -> (handle: Self)
        requires
            descriptor is Fd,
        ensures
            handle@ == (ReadHandleView { descriptor, resources: ReadResources::UnixStream }),
    {
        ReadHandle { descriptor, resources: ReadResources::UnixStream }
    }

    /// Reads from the reading end of an open pipe, which `descriptor` names.
    pub fn pipe_reader(descriptor: Descriptor) -> (handle: Self)
        requires
            descriptor.is_handle_like(),
        ensures
            handle@ == (ReadHandleView { descriptor, resources: ReadResources::PipeReader }),
    {
        ReadHandle { descriptor, resources: ReadResources::PipeReader }
    }

    /// Reads the standard output of a command that was spawned with the
    /// setup of [`crate::command::CommandStdio::for_reading`]. `child_stdout`
    /// names that output; the handle keeps the child itself alive.
    pub fn read_from_command(child_stdout: Descriptor) -> (handle: Self)
        requires
            child_stdout.is_handle_like(),
        ensures
            handle@ == (ReadHandleView {
                descriptor: child_stdout,
                resources: ReadResources::Child,
            }),
    {
        ReadHandle { descriptor: child_stdout, resources: ReadResources::Child }
    }

    /// Reads from a child process' standard output, which `descriptor`
    /// names.
    pub fn child_stdout(descriptor: Descriptor) -> (handle: Self)
        requires
            descriptor.is_handle_like(),
        ensures
            handle@ == (ReadHandleView { descriptor, resources: ReadResources::ChildStdout }),
    {
        ReadHandle { descriptor, resources: ReadResources::ChildStdout }
    }

    /// Reads from a child process' standard error, which `descriptor` names.
    pub fn child_stderr(descriptor: Descriptor) -> (handle: Self)
        requires
            descriptor.is_handle_like(),
        ensures
            handle@ == (ReadHandleView { descriptor, resources: ReadResources::ChildStderr }),
    {
        ReadHandle { descriptor, resources: ReadResources::ChildStderr }
    }

    /// Reads from a stream that has no descriptor of its own, through a
    /// worker that copies it into a pipe. `endpoint` names the reading end
    /// of that pipe. The bridge starts out active.
    pub fn piped_thread(endpoint: Descriptor) -> (handle: Self)
        requires
            endpoint.is_handle_like(),
        ensures
            handle@ == (ReadHandleView {
                descriptor: endpoint,
                resources: ReadResources::PipedThread(Some(endpoint)),
            }),
    {
        ReadHandle { descriptor: endpoint, resources: ReadResources::PipedThread(Some(endpoint)) }
    }

    /// Chooses how to read from the given string: as from its bytes.
    pub fn str(s: &str) -> (route: PayloadRoute)
        ensures
            s.spec_bytes().len() <= MIN_ATOMIC_PIPE_WRITE ==> route == PayloadRoute::EagerPipe,
            s.spec_bytes().len() > MAX_ATOMIC_PIPE_WRITE ==> route == PayloadRoute::ThreadBridge,
            exists|atomic_limit: nat|
                MIN_ATOMIC_PIPE_WRITE <= atomic_limit <= MAX_ATOMIC_PIPE_WRITE && route
                    == #[trigger] route_for(s.spec_bytes().len(), atomic_limit),
    {
        Self::bytes(s.as_bytes())
    }

    /// Chooses how to read from the given bytes: eagerly if they fit the
    /// platform's bound on a pipe write that cannot block, and never if they
    /// are more than [`MAX_ATOMIC_PIPE_WRITE`]; through a bridge otherwise.
    ///
    /// On [`PayloadRoute::EagerPipe`] the bytes are written into a new pipe
    /// and the handle is made by [`ReadHandle::pipe_reader`]; on
    /// [`PayloadRoute::ThreadBridge`], by [`ReadHandle::piped_thread`] over
    /// a copy of the bytes.
    pub fn bytes(bytes: &[u8]) -> (route: PayloadRoute)
        ensures
            bytes@.len() <= MIN_ATOMIC_PIPE_WRITE ==> route == PayloadRoute::EagerPipe,
            bytes@.len() > MAX_ATOMIC_PIPE_WRITE ==> route == PayloadRoute::ThreadBridge,
            exists|atomic_limit: nat|
                MIN_ATOMIC_PIPE_WRITE <= atomic_limit <= MAX_ATOMIC_PIPE_WRITE && route
                    == #[trigger] route_for(bytes@.len(), atomic_limit),
    {
        platform_route(bytes.len())
    }

    /// Decides which error the caller sees after the descriptor failed with
    /// `e`.
    ///
    /// Without a bridge the error passes through unchanged and so does the
    /// handle. With an active bridge the endpoint is taken out, so that the
    /// bridge is consumed, and the worker is to be joined: its error, if it
    /// ended with one, is returned in place of `e`, and `e` itself if it
    /// ended well, as [`surfaced_error`](crate::bridge::surfaced_error)
    /// says. An endpoint that was taken out must not be taken out a second
    /// time.
    pub fn map_err<E>(&mut self, e: E) -> (route: ErrorRoute<E>)
        requires
            old(self)@.usable(),
        ensures
            route == old(self)@.error_route(e),
            final(self)@ == old(self)@.after_take(),
            final(self)@.wf(),
    {
        proof {
            use_type_invariant(&*self);
        }
        match self.resources {
            ReadResources::PipedThread(Some(endpoint)) => {
                self.resources = ReadResources::PipedThread(None);
                ErrorRoute::JoinWorker(endpoint, e)
            },
            _ => ErrorRoute::PassThrough(e),
        }
    }

    /// Takes the outcome of one operation on the descriptor: a read of any
    /// form.
    ///
    /// Success is handed on as it is and leaves the handle unchanged.
    /// Failure goes through [`ReadHandle::map_err`].
    pub fn complete<T, E>(&mut self, outcome: Result<T, E>) -> (completion: Completion<T, E>)
        requires
            outcome is Err ==> old(self)@.usable(),
        ensures
            final(self)@.wf(),
            outcome matches Ok(value) ==> completion == Completion::<T, E>::Done(value)
                && final(self)@ == old(self)@,
            outcome matches Err(e) ==> completion == Completion::<T, E>::Failed(
                old(self)@.error_route(e),
            ) && final(self)@ == old(self)@.after_take(),
    {
        proof {
            use_type_invariant(&*self);
        }
        match outcome {
            Ok(value) => Completion::Done(value),
            Err(e) => Completion::Failed(self.map_err(e)),
        }
    }

    /// Ends the handle's life: gives back the token of standard input, if
    /// the handle holds it, and says what must happen before the resource is
    /// released.
    ///
    /// An active bridge is torn down by closing the endpoint and then
    /// joining the worker, in this order: a worker that is still copying
    /// ends only once it finds the pipe closed. A consumed bridge has
    /// nothing left to tear down.
    pub fn teardown(self, locks: &mut StdioLocks) -> (plan: Teardown)
        ensures
            plan == self@.teardown_plan(),
            final(locks)@ == (if self@.resources is Stdin {
                old(locks)@.remove(StdStream::Stdin)
            } else {
                old(locks)@
            }),
    {
        proof {
            use_type_invariant(&self);
        }
        match self.resources {
            ReadResources::Stdin(token) => {
                locks.release(token);
                Teardown::Nothing
            },
            ReadResources::PipedThread(Some(endpoint)) => Teardown::CloseAndJoin(endpoint),
            _ => Teardown::Nothing,
        }
    }

    /// The raw file descriptor, on a platform with unified numbering.
    pub fn as_raw_fd(&self) -> (raw: Option<i32>)
        ensures
            raw == self@.descriptor.as_raw_fd(),
    {
        self.descriptor.as_raw_fd()
    }
}

impl AsRawHandleOrSocket for ReadHandle {
    fn as_raw_handle(&self) -> (raw: Option<usize>)
        ensures
            raw == self@.descriptor.as_raw_handle(),
    {
        self.descriptor.as_raw_handle()
    }

    fn as_raw_socket(&self) -> (raw: Option<u64>)
        ensures
            raw == self@.descriptor.as_raw_socket(),
    {
        self.descriptor.as_raw_socket()
    }
}

/// Every handle that a constructor makes of a descriptor of the right kind
/// is well formed: a bridge starts out active at the endpoint that the
/// handle reads from, and no other resource is a bridge.
pub proof fn lemma_constructed_is_well_formed(descriptor: Descriptor, resources: ReadResources)
    requires
        ReadHandleView::kind_fits(descriptor, resources),
        !(resources is Stdin),
        resources is PipedThread ==> resources == ReadResources::PipedThread(Some(descriptor)),
    ensures
        (ReadHandleView { descriptor, resources }).wf(),
        resources is PipedThread ==> (ReadHandleView { descriptor, resources }).bridge()
            == BridgePhase::Active(descriptor),
        !(resources is PipedThread) ==> (ReadHandleView { descriptor, resources }).bridge()
            == BridgePhase::Unbridged,
{
}

/// Where handles and sockets are numbered apart, a handle answers exactly
/// one of the two questions for its raw value, and which one follows from
/// its resource: the raw handle is missing exactly for a TCP stream, for
/// which the raw socket is there. Where numbering is unified it answers
/// with its file descriptor, whatever the resource.
pub proof fn lemma_introspection_follows_the_resource(handle: ReadHandleView)
    requires
        handle.wf(),
    ensures
        handle.descriptor is Fd ==> handle.descriptor.as_raw_fd() is Some
            && handle.descriptor.as_raw_handle() is None && handle.descriptor.as_raw_socket()
            is None,
        !(handle.descriptor is Fd) ==> {
            &&& handle.descriptor.as_raw_fd() is None
            &&& handle.descriptor.as_raw_handle() is None <==> handle.resources is TcpStream
            &&& handle.descriptor.as_raw_socket() is Some <==> handle.resources is TcpStream
            &&& handle.descriptor.as_raw_handle() is Some != handle.descriptor.as_raw_socket()
                is Some
            &&& !(handle.resources is UnixStream)
        },
{
}

/// The bridge of a handle goes one way: taking the endpoint out of an
/// active bridge consumes it, a consumed bridge stays consumed, nothing that
/// happens to a reading handle makes a bridge active, and the descriptor and
/// the well-formedness of the handle are kept.
pub proof fn lemma_take_is_one_way(handle: ReadHandleView)
    requires
        handle.wf(),
    ensures
        handle.after_take().wf(),
        handle.after_take().descriptor == handle.descriptor,
        !(handle.after_take().bridge() is Active),
        !handle.after_take().usable() <==> handle.after_take().bridge() is Consumed,
        handle.bridge() is Active ==> handle.after_take().bridge() == BridgePhase::Consumed,
        !(handle.bridge() is Active) ==> handle.after_take() == handle,
        handle.after_take().after_take() == handle.after_take(),
{
}

/// No error is dropped. A failed read returns the worker's error if the
/// worker ended with one, and the descriptor's own if the worker ended well
/// or if there is no bridge. The teardown aborts with the error of a worker
/// that nobody joined before, and an active bridge is never released without
/// its worker being joined.
pub proof fn lemma_no_error_is_dropped<E>(handle: ReadHandleView, foreground: E, cause: E)
    requires
        handle.wf(),
    ensures
        handle.bridge() is Active ==> handle.error_route(foreground) == ErrorRoute::JoinWorker(
            handle.descriptor,
            foreground,
        ),
        !(handle.bridge() is Active) ==> handle.error_route(foreground) == ErrorRoute::PassThrough(
            foreground,
        ),
        surfaced(foreground, Err::<(), E>(cause)) == cause,
        surfaced(foreground, Ok::<(), E>(())) == foreground,
        verdict_of(Err::<(), E>(cause)) == TeardownVerdict::Abort(cause),
        handle.bridge() is Active <==> handle.teardown_plan() == Teardown::CloseAndJoin(
            handle.descriptor,
        ),
        !(handle.bridge() is Active) <==> handle.teardown_plan() == Teardown::Nothing,
{
}

} // verus!
