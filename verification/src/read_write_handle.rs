//! Interactive streams: one handle that reads and writes.
//!
//! The two directions have a descriptor each. The two may name the same
//! object, as for a socket or a character device, or two objects, as for
//! standard input and output. There is no constructor from a file: normal
//! files are not interactive.

use crate::descriptor::Descriptor;
use crate::read_write::{AsRawReadWriteFd, AsRawReadWriteHandleOrSocket, ReadWrite};
use crate::stdio::{
    lemma_claim_and_release_restores, AlreadyHeld, StdStream, StdioLocks, StdioToken,
};
use vstd::prelude::*;

verus! {

/// What a [`ReadWriteHandle`] keeps alive beside its descriptors.
#[derive(Debug)]
pub enum ReadWriteResources {
    /// The two ends of a pair of pipes.
    PipeReaderWriter,
    /// Standard input and standard output, with the tokens that reserve
    /// them, in this order.
    StdinStdout(StdioToken, StdioToken),
    /// A child process whose standard output is read and whose standard
    /// input is written.
    Child,
    /// A child's standard output and standard input.
    ChildStdoutStdin,
    /// An open character device.
    CharDevice,
    /// An open TCP stream.
    TcpStream,
    /// An open Unix-domain stream.
    UnixStream,
}

/// An unbuffered and unlocked interactive combination input and output
/// stream.
#[derive(Debug)]
pub struct ReadWriteHandle {
    read_descriptor: Descriptor,
    write_descriptor: Descriptor,
    resources: ReadWriteResources,
}

/// What a [`ReadWriteHandle`] is to its contracts.
pub struct ReadWriteHandleView {
    /// The descriptor through which the handle reads.
    pub read_descriptor: Descriptor,
    /// The descriptor through which the handle writes.
    pub write_descriptor: Descriptor,
    /// The resource that the handle keeps alive.
    pub resources: ReadWriteResources,
}

impl ReadWriteHandleView {
    /// Whether a descriptor is of the kind that names the given resource:
    /// a socket for a TCP stream, a file descriptor for a Unix-domain
    /// stream, which only a platform of unified numbering has, and a handle
    /// for everything else.
    pub open spec fn kind_fits(descriptor: Descriptor, resources: ReadWriteResources) -> bool {
        match resources {
            ReadWriteResources::TcpStream => descriptor.is_socket_like(),
            ReadWriteResources::UnixStream => descriptor is Fd,
            _ => descriptor.is_handle_like(),
        }
    }

    /// The pairing that every constructor establishes and every handle
    /// keeps: both descriptors are of the kind that names the resource, a
    /// resource that is one object is read and written through one
    /// descriptor, and the tokens held for the standard streams are those of
    /// input and output.
    pub open spec fn wf(self) -> bool {
        &&& Self::kind_fits(self.read_descriptor, self.resources)
        &&& Self::kind_fits(self.write_descriptor, self.resources)
        &&& (self.resources is CharDevice || self.resources is TcpStream
            || self.resources is UnixStream) ==> self.read_descriptor == self.write_descriptor
        &&& self.resources matches ReadWriteResources::StdinStdout(input, output)
            ==> input.stream() == StdStream::Stdin && output.stream() == StdStream::Stdout
    }

    /// A handle that reads and writes one object through `descriptor`.
    pub open spec fn single(descriptor: Descriptor, resources: ReadWriteResources) -> Self {
        ReadWriteHandleView {
            read_descriptor: descriptor,
            write_descriptor: descriptor,
            resources,
        }
    }
}

impl View for ReadWriteHandle {
    type V = ReadWriteHandleView;

    closed spec fn view(&self) -> ReadWriteHandleView {
        ReadWriteHandleView {
            read_descriptor: self.read_descriptor,
            write_descriptor: self.write_descriptor,
            resources: self.resources,
        }
    }
}

impl ReadWriteHandle {
    #[verifier::type_invariant]
    spec fn well_formed(self) -> bool {
        self@.wf()
    }

    /// The descriptor through which this handle reads. Every handle is well
    /// formed, and this says so.
    pub fn read_descriptor(&self) -> (descriptor: Descriptor)
        ensures
            descriptor == self@.read_descriptor,
            self@.wf(),
    {
        proof {
            use_type_invariant(self);
        }
        self.read_descriptor
    }

    /// The descriptor through which this handle writes.
    pub fn write_descriptor(&self) -> (descriptor: Descriptor)
        ensures
            descriptor == self@.write_descriptor,
    {
        self.write_descriptor
    }

    /// The resource that this handle keeps alive.
    pub fn resources(&self) -> (resources: &ReadWriteResources)
        ensures
            *resources == self@.resources,
    {
        &self.resources
    }

    /// Interacts with standard input and standard output, which `stdin` and
    /// `stdout` name.
    ///
    /// Claims both streams in `locks`, input first. Fails, changing
    /// nothing, if a live handle already uses either: the conflict names
    /// input if input is in use, and output otherwise.
    pub fn stdin_stdout(locks: &mut StdioLocks, stdin: Descriptor, stdout: Descriptor) -> (handle:
        Result<Self, AlreadyHeld>)
        requires
            stdin.is_handle_like(),
            stdout.is_handle_like(),
        ensures
            handle is Ok <==> StdioLocks::claimable(old(locks)@, StdStream::Stdin)
                && StdioLocks::claimable(old(locks)@, StdStream::Stdout),
            handle matches Ok(h) ==> {
                &&& h@.wf()
                &&& h@.read_descriptor == stdin
                &&& h@.write_descriptor == stdout
                &&& h@.resources is StdinStdout
                &&& final(locks)@ == old(locks)@.insert(StdStream::Stdin).insert(
                    StdStream::Stdout,
                )
            },
            handle matches Err(conflict) ==> {
                &&& conflict.stream == (if old(locks)@.contains(StdStream::Stdin) {
                    StdStream::Stdin
                } else {
                    StdStream::Stdout
                })
                &&& final(locks)@ == old(locks)@
            },
    {
        let input = match locks.acquire(StdStream::Stdin) {
            Ok(token) => token,
            Err(conflict) => {
                return Err(conflict);
            },
        };
        match locks.acquire(StdStream::Stdout) {
            Ok(output) => Ok(
                ReadWriteHandle {
                    read_descriptor: stdin,
                    write_descriptor: stdout,
                    resources: ReadWriteResources::StdinStdout(input, output),
                },
            ),
            Err(conflict) => {
                locks.release(input);
                proof {
                    lemma_claim_and_release_restores(old(locks)@, StdStream::Stdin);
                }
                Err(conflict)
            },
        }
    }

    /// Interacts with a command that was spawned with the setup of
    /// [`crate::command::CommandStdio::for_interaction`]. `child_stdout` and
    /// `child_stdin` name its output and input; the handle keeps the child
    /// itself alive.
    pub fn interact_with_command(child_stdout: Descriptor, child_stdin: Descriptor) -> (handle:
        Self)
        requires
            child_stdout.is_handle_like(),
            child_stdin.is_handle_like(),
        ensures
            handle@ == (ReadWriteHandleView {
                read_descriptor: child_stdout,
                write_descriptor: child_stdin,
                resources: ReadWriteResources::Child,
            }),
    {
        ReadWriteHandle {
            read_descriptor: child_stdout,
            write_descriptor: child_stdin,
            resources: ReadWriteResources::Child,
        }
    }

    /// Interacts with a child process' standard output and standard input,
    /// which the two descriptors name.
    pub fn child_stdout_stdin(child_stdout: Descriptor, child_stdin: Descriptor) -> (handle: Self)
        requires
            child_stdout.is_handle_like(),
            child_stdin.is_handle_like(),
        ensures
            handle@ == (ReadWriteHandleView {
                read_descriptor: child_stdout,
                write_descriptor: child_stdin,
                resources: ReadWriteResources::ChildStdoutStdin,
            }),
    {
        ReadWriteHandle {
            read_descriptor: child_stdout,
            write_descriptor: child_stdin,
            resources: ReadWriteResources::ChildStdoutStdin,
        }
    }

    /// Interacts with an open character device, which `descriptor` names
    /// for both directions.
    pub fn char_device(descriptor: Descriptor) -> (handle: Self)
        requires
            descriptor.is_handle_like(),
        ensures
            handle@ == ReadWriteHandleView::single(descriptor, ReadWriteResources::CharDevice),
    {
        ReadWriteHandle {
            read_descriptor: descriptor,
            write_descriptor: descriptor,
            resources: ReadWriteResources::CharDevice,
        }
    }

    /// Interacts with an open TCP stream, which `descriptor` names for both
    /// directions.
    pub fn tcp_stream(descriptor: Descriptor) -> (handle: Self)
        requires
            descriptor.is_socket_like(),
        ensures
            handle@ == ReadWriteHandleView::single(descriptor, ReadWriteResources::TcpStream),
    {
        ReadWriteHandle {
            read_descriptor: descriptor,
            write_descriptor: descriptor,
            resources: ReadWriteResources::TcpStream,
        }
    }

    /// Interacts with an open Unix-domain stream, which `descriptor` names
    /// for both directions.
    pub fn unix_stream(descriptor: Descriptor) -> (handle: Self)
        requires
            descriptor is Fd,
        ensures
            handle@ == ReadWriteHandleView::single(descriptor, ReadWriteResources::UnixStream),
    {
        ReadWriteHandle {
            read_descriptor: descriptor,
            write_descriptor: descriptor,
            resources: ReadWriteResources::UnixStream,
        }
    }

    /// Interacts with a pair of pipe streams, which the two descriptors
    /// name.
    pub fn pipe_reader_writer(pipe_reader: Descriptor, pipe_writer: Descriptor) -> (handle: Self)
        requires
            pipe_reader.is_handle_like(),
            pipe_writer.is_handle_like(),
        ensures
            handle@ == (ReadWriteHandleView {
                read_descriptor: pipe_reader,
                write_descriptor: pipe_writer,
                resources: ReadWriteResources::PipeReaderWriter,
            }),
    {
        ReadWriteHandle {
            read_descriptor: pipe_reader,
            write_descriptor: pipe_writer,
            resources: ReadWriteResources::PipeReaderWriter,
        }
    }

    /// Decides which error the caller sees after either descriptor failed
    /// with `e`: an interactive stream is never bridged, so it is `e`
    /// itself, and the handle does not change.
    pub fn map_err<E>(&mut self, e: E) -> (error: E)
        ensures
            error == e,
            final(self)@ == old(self)@,
    {
        e
    }

    /// Takes the outcome of one operation on either descriptor, and hands
    /// it on as it is. The two directions do not affect each other.
    pub fn complete<T, E>(&mut self, outcome: Result<T, E>) -> (completion: Result<T, E>)
        ensures
            completion == outcome,
            final(self)@ == old(self)@,
    {
        match outcome {
            Ok(value) => Ok(value),
            Err(e) => Err(self.map_err(e)),
        }
    }

    /// Ends the handle's life: gives back the tokens of the standard
    /// streams, if the handle holds them.
    pub fn teardown(self, locks: &mut StdioLocks)
        ensures
            final(locks)@ == (if self@.resources is StdinStdout {
                old(locks)@.remove(StdStream::Stdin).remove(StdStream::Stdout)
            } else {
                old(locks)@
            }),
    {
        proof {
            use_type_invariant(&self);
        }
        match self.resources {
            ReadWriteResources::StdinStdout(input, output) => {
                locks.release(input);
                locks.release(output);
            },
            _ => {},
        }
    }
}

impl ReadWrite for ReadWriteHandle {

}

impl AsRawReadWriteFd for ReadWriteHandle {
    fn as_raw_read_fd(&self) -> (raw: Option<i32>)
        ensures
            raw == self@.read_descriptor.as_raw_fd(),
    {
        self.read_descriptor.as_raw_fd()
    }

    fn as_raw_write_fd(&self) -> (raw: Option<i32>)
        ensures
            raw == self@.write_descriptor.as_raw_fd(),
    {
        self.write_descriptor.as_raw_fd()
    }
}

impl AsRawReadWriteHandleOrSocket for ReadWriteHandle {
    fn as_raw_read_handle(&self) -> (raw: Option<usize>)
        ensures
            raw == self@.read_descriptor.as_raw_handle(),
    {
        self.read_descriptor.as_raw_handle()
    }

    fn as_raw_write_handle(&self) -> (raw: Option<usize>)
        ensures
            raw == self@.write_descriptor.as_raw_handle(),
    {
        self.write_descriptor.as_raw_handle()
    }

    fn as_raw_read_socket(&self) -> (raw: Option<u64>)
        ensures
            raw == self@.read_descriptor.as_raw_socket(),
    {
        self.read_descriptor.as_raw_socket()
    }

    fn as_raw_write_socket(&self) -> (raw: Option<u64>)
        ensures
            raw == self@.write_descriptor.as_raw_socket(),
    {
        self.write_descriptor.as_raw_socket()
    }
}

/// A resource that is one object is read and written through one
/// descriptor of its kind; a resource that is two objects keeps the two
/// handles it was given, which may differ.
pub proof fn lemma_descriptors_follow_the_resource(
    read: Descriptor,
    write: Descriptor,
    resources: ReadWriteResources,
)
    requires
        ReadWriteHandleView::kind_fits(read, resources),
        ReadWriteHandleView::kind_fits(write, resources),
        !(resources is StdinStdout),
    ensures
        ReadWriteHandleView::single(read, resources).wf(),
        ReadWriteHandleView::single(read, resources).read_descriptor
            == ReadWriteHandleView::single(read, resources).write_descriptor,
        (resources is PipeReaderWriter || resources is ChildStdoutStdin || resources is Child)
            ==> (ReadWriteHandleView {
            read_descriptor: read,
            write_descriptor: write,
            resources,
        }).wf(),
{
}

/// Where handles and sockets are numbered apart, each direction of a handle
/// answers exactly one of the two questions for its raw value, and which
/// one follows from the resource: the raw handles are missing exactly for a
/// TCP stream, for which the raw sockets are there.
pub proof fn lemma_introspection_follows_the_resource(handle: ReadWriteHandleView)
    requires
        handle.wf(),
    ensures
        !(handle.read_descriptor is Fd) ==> {
            &&& handle.read_descriptor.as_raw_handle() is None <==> handle.resources is TcpStream
            &&& handle.read_descriptor.as_raw_socket() is Some <==> handle.resources is TcpStream
            &&& !(handle.resources is UnixStream)
        },
        !(handle.write_descriptor is Fd) ==> {
            &&& handle.write_descriptor.as_raw_handle() is None <==> handle.resources is TcpStream
            &&& handle.write_descriptor.as_raw_socket() is Some <==> handle.resources is TcpStream
            &&& !(handle.resources is UnixStream)
        },
{
}

} // verus!
