//! Raw operating-system handles, by kind.

use vstd::prelude::*;

verus! {

/// How a platform numbers what can be read or written.
#[derive(Clone, Copy, Debug, PartialEq, Eq, Structural)]
pub enum Platform {
    /// One numbering space of file descriptors for everything.
    Unified,
    /// Separate spaces for handles and for sockets.
    Segmented,
}

/// A non-owning alias of one raw operating-system handle.
///
/// Platforms with a single numbering space for everything that can be read
/// or written use `Fd` alone. Platforms that keep handles and sockets in
/// separate spaces use `Handle` and `Socket`.
///
/// A descriptor never closes what it names: the resource stored beside it in
/// a handle does that, once.
#[derive(Clone, Copy, Debug, PartialEq, Eq, Structural)]
pub enum Descriptor {
    /// A file descriptor of a unified numbering space.
    Fd(i32),
    /// A handle-like object of a segmented space.
    Handle(usize),
    /// A socket-like object of a segmented space.
    Socket(u64),
}

impl Descriptor {
    /// Whether this can name a file, a pipe, a standard stream or a child's
    /// stream: a file descriptor where numbering is unified, a handle where
    /// it is not.
    pub open spec fn spec_is_handle_like(&self) -> bool {
        !(*self is Socket)
    }

    /// Whether this can name a socket: a file descriptor where numbering is
    /// unified, a socket where it is not.
    pub open spec fn spec_is_socket_like(&self) -> bool {
        !(*self is Handle)
    }

    /// The file descriptor, where this is one.
    pub open spec fn spec_as_raw_fd(&self) -> Option<i32> {
        match *self {
            Descriptor::Fd(fd) => Some(fd),
            _ => None,
        }
    }

    /// The raw handle, where this is one.
    pub open spec fn spec_as_raw_handle(&self) -> Option<usize> {
        match *self {
            Descriptor::Handle(handle) => Some(handle),
            _ => None,
        }
    }

    /// The raw socket, where this is one.
    pub open spec fn spec_as_raw_socket(&self) -> Option<u64> {
        match *self {
            Descriptor::Socket(socket) => Some(socket),
            _ => None,
        }
    }

    /// Whether this can name a file, a pipe, a standard stream or a child's
    /// stream.
    #[verifier::when_used_as_spec(spec_is_handle_like)]
    pub fn is_handle_like(&self) -> (fits: bool)
        ensures
            fits == self.spec_is_handle_like(),
    {
        match self {
            Descriptor::Socket(_) => false,
            _ => true,
        }
    }

    /// Whether this can name a socket.
    #[verifier::when_used_as_spec(spec_is_socket_like)]
    pub fn is_socket_like(&self) -> (fits: bool)
        ensures
            fits == self.spec_is_socket_like(),
    {
        match self {
            Descriptor::Handle(_) => false,
            _ => true,
        }
    }

    /// Whether this is a file descriptor of a unified numbering space.
    pub fn is_fd(&self) -> (fits: bool)
        ensures
            fits == (*self is Fd),
    {
        match self {
            Descriptor::Fd(_) => true,
            _ => false,
        }
    }

    /// Aliases a raw file descriptor.
    pub fn raw_fd(raw_fd: i32) -> (d: Self)
        ensures
            d == Descriptor::Fd(raw_fd),
    {
        Descriptor::Fd(raw_fd)
    }

    /// Aliases a raw handle.
    pub fn raw_handle(raw_handle: usize) -> (d: Self)
        ensures
            d == Descriptor::Handle(raw_handle),
    {
        Descriptor::Handle(raw_handle)
    }

    /// Aliases a raw socket.
    pub fn raw_socket(raw_socket: u64) -> (d: Self)
        ensures
            d == Descriptor::Socket(raw_socket),
    {
        Descriptor::Socket(raw_socket)
    }

    /// The kind of platform that this descriptor belongs to.
    pub fn platform(&self) -> (platform: Platform)
        ensures
            platform == (match *self {
                Descriptor::Fd(_) => Platform::Unified,
                _ => Platform::Segmented,
            }),
    {
        match self {
            Descriptor::Fd(_) => Platform::Unified,
            _ => Platform::Segmented,
        }
    }

    /// The file descriptor, where this is one.
    #[verifier::when_used_as_spec(spec_as_raw_fd)]
    pub fn as_raw_fd(&self) -> (raw: Option<i32>)
        ensures
            raw == self.spec_as_raw_fd(),
    {
        match self {
            Descriptor::Fd(fd) => Some(*fd),
            _ => None,
        }
    }

    /// The raw handle, where this is one.
    #[verifier::when_used_as_spec(spec_as_raw_handle)]
    pub fn as_raw_handle(&self) -> (raw: Option<usize>)
        ensures
            raw == self.spec_as_raw_handle(),
    {
        match self {
            Descriptor::Handle(handle) => Some(*handle),
            _ => None,
        }
    }

    /// The raw socket, where this is one.
    #[verifier::when_used_as_spec(spec_as_raw_socket)]
    pub fn as_raw_socket(&self) -> (raw: Option<u64>)
        ensures
            raw == self.spec_as_raw_socket(),
    {
        match self {
            Descriptor::Socket(socket) => Some(*socket),
            _ => None,
        }
    }
}

/// A descriptor answers exactly one of the three questions for its raw
/// value. Where numbering is segmented it is a handle or a socket, never
/// both; where it is unified it can name either kind of object.
pub proof fn lemma_descriptor_has_one_raw_value(d: Descriptor)
    ensures
        (d.as_raw_fd() is Some) != ((d.as_raw_handle() is Some) || (d.as_raw_socket() is Some)),
        !(d.as_raw_handle() is Some && d.as_raw_socket() is Some),
        d is Fd ==> d.is_handle_like() && d.is_socket_like(),
        !(d is Fd) ==> d.is_handle_like() != d.is_socket_like(),
        !(d is Fd) ==> (d.is_handle_like() <==> d.as_raw_handle() is Some),
        !(d is Fd) ==> (d.is_socket_like() <==> d.as_raw_socket() is Some),
{
}

} // verus!
