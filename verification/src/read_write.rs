//! Traits of interactive streams and of raw-handle introspection.

use vstd::prelude::*;

verus! {

/// A stream that is both read from and written to, intended for interactive
/// I/O as opposed to normal file I/O.
pub trait ReadWrite {

}

/// Introspection for streams that may read and write through two different
/// file descriptors of a unified numbering space.
pub trait AsRawReadWriteFd {
    /// The raw file descriptor for reading, where there is one.
    fn as_raw_read_fd(&self) -> Option<i32>;

    /// The raw file descriptor for writing, where there is one.
    fn as_raw_write_fd(&self) -> Option<i32>;
}

/// Introspection for streams which may or may not hold a raw handle or a raw
/// socket at run time.
pub trait AsRawHandleOrSocket {
    /// The raw handle, where there is one.
    fn as_raw_handle(&self) -> Option<usize>;

    /// The raw socket, where there is one.
    fn as_raw_socket(&self) -> Option<u64>;
}

/// Like [`AsRawHandleOrSocket`], for streams that may read and write through
/// two different handles or sockets.
pub trait AsRawReadWriteHandleOrSocket {
    /// The raw handle for reading, where there is one.
    fn as_raw_read_handle(&self) -> Option<usize>;

    /// The raw handle for writing, where there is one.
    fn as_raw_write_handle(&self) -> Option<usize>;

    /// The raw socket for reading, where there is one.
    fn as_raw_read_socket(&self) -> Option<u64>;

    /// The raw socket for writing, where there is one.
    fn as_raw_write_socket(&self) -> Option<u64>;
}

} // verus!
