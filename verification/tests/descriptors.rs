use io_handles::{
    AsRawHandleOrSocket, AsRawReadWriteFd, AsRawReadWriteHandleOrSocket, CommandStdio,
    Descriptor, Platform, ReadHandle, ReadResources, ReadWriteHandle, ReadWriteResources,
    StdioMode, WriteBridge, WriteHandle, WriteResources,
};

#[test]
fn raw_fd_is_only_a_file_descriptor() {
    let d = Descriptor::raw_fd(3);
    assert_eq!(d, Descriptor::Fd(3));
    assert_eq!(d.as_raw_fd(), Some(3));
    assert_eq!(d.as_raw_handle(), None);
    assert_eq!(d.as_raw_socket(), None);
    assert_eq!(d.platform(), Platform::Unified);
}

#[test]
fn raw_handle_is_only_a_handle() {
    let d = Descriptor::raw_handle(0x1f4);
    assert_eq!(d, Descriptor::Handle(0x1f4));
    assert_eq!(d.as_raw_fd(), None);
    assert_eq!(d.as_raw_handle(), Some(0x1f4));
    assert_eq!(d.as_raw_socket(), None);
    assert_eq!(d.platform(), Platform::Segmented);
}

#[test]
fn raw_socket_is_only_a_socket() {
    let d = Descriptor::raw_socket(u64::MAX);
    assert_eq!(d, Descriptor::Socket(u64::MAX));
    assert_eq!(d.as_raw_fd(), None);
    assert_eq!(d.as_raw_handle(), None);
    assert_eq!(d.as_raw_socket(), Some(u64::MAX));
    assert_eq!(d.platform(), Platform::Segmented);
}

#[test]
fn negative_file_descriptor_is_kept_as_given() {
    assert_eq!(Descriptor::raw_fd(-1).as_raw_fd(), Some(-1));
    assert_eq!(Descriptor::raw_fd(i32::MAX).as_raw_fd(), Some(i32::MAX));
}

#[test]
fn read_constructors_alias_the_descriptor_and_keep_the_resource() {
    let d = Descriptor::Fd(7);
    let h = ReadHandle::file(d);
    assert_eq!(h.descriptor(), d);
    assert!(matches!(h.resources(), ReadResources::File));
    let h = ReadHandle::tcp_stream(d);
    assert_eq!(h.descriptor(), d);
    assert!(matches!(h.resources(), ReadResources::TcpStream));
    let h = ReadHandle::unix_stream(d);
    assert_eq!(h.descriptor(), d);
    assert!(matches!(h.resources(), ReadResources::UnixStream));
    let h = ReadHandle::pipe_reader(d);
    assert_eq!(h.descriptor(), d);
    assert!(matches!(h.resources(), ReadResources::PipeReader));
    let h = ReadHandle::read_from_command(d);
    assert_eq!(h.descriptor(), d);
    assert!(matches!(h.resources(), ReadResources::Child));
    let h = ReadHandle::child_stdout(d);
    assert_eq!(h.descriptor(), d);
    assert!(matches!(h.resources(), ReadResources::ChildStdout));
    let h = ReadHandle::child_stderr(d);
    assert_eq!(h.descriptor(), d);
    assert!(matches!(h.resources(), ReadResources::ChildStderr));
    let h = ReadHandle::piped_thread(d);
    assert_eq!(h.descriptor(), d);
    assert!(matches!(h.resources(), ReadResources::PipedThread(Some(e)) if *e == d));
}

#[test]
fn write_constructors_alias_the_descriptor_and_keep_the_resource() {
    let d = Descriptor::Handle(44);
    let h = WriteHandle::file(d);
    assert_eq!(h.descriptor(), d);
    assert!(matches!(h.resources(), WriteResources::File));
    let h = WriteHandle::tcp_stream(Descriptor::Socket(9));
    assert_eq!(h.descriptor(), Descriptor::Socket(9));
    assert!(matches!(h.resources(), WriteResources::TcpStream));
    let h = WriteHandle::unix_stream(Descriptor::Fd(9));
    assert!(matches!(h.resources(), WriteResources::UnixStream));
    let h = WriteHandle::pipe_writer(d);
    assert_eq!(h.descriptor(), d);
    assert!(matches!(h.resources(), WriteResources::PipeWriter));
    let h = WriteHandle::write_to_command(d);
    assert_eq!(h.descriptor(), d);
    assert!(matches!(h.resources(), WriteResources::Child));
    let h = WriteHandle::child_stdin(d);
    assert_eq!(h.descriptor(), d);
    assert!(matches!(h.resources(), WriteResources::ChildStdin));
    let h = WriteHandle::piped_thread(d);
    assert_eq!(h.descriptor(), d);
    assert!(matches!(h.resources(), WriteResources::PipedThread(WriteBridge::Active(e)) if *e == d));
}

#[test]
fn null_sink_is_an_owned_file() {
    let h = WriteHandle::null(Descriptor::Fd(5));
    assert_eq!(h.descriptor(), Descriptor::Fd(5));
    assert!(matches!(h.resources(), WriteResources::File));
}

#[test]
fn null_device_path_follows_the_platform() {
    assert_eq!(WriteHandle::null_device(Platform::Unified), "/dev/null");
    assert_eq!(WriteHandle::null_device(Platform::Segmented), "NUL");
}

#[test]
fn handle_introspection_answers_by_kind() {
    let r = ReadHandle::file(Descriptor::Fd(3));
    assert_eq!(r.as_raw_fd(), Some(3));
    assert_eq!(r.as_raw_handle(), None);
    assert_eq!(r.as_raw_socket(), None);
    let r = ReadHandle::tcp_stream(Descriptor::Socket(12));
    assert_eq!(r.as_raw_fd(), None);
    assert_eq!(r.as_raw_handle(), None);
    assert_eq!(r.as_raw_socket(), Some(12));
    let w = WriteHandle::file(Descriptor::Handle(8));
    assert_eq!(w.as_raw_fd(), None);
    assert_eq!(w.as_raw_handle(), Some(8));
    assert_eq!(w.as_raw_socket(), None);
}

#[test]
fn single_object_is_read_and_written_through_one_descriptor() {
    let d = Descriptor::Fd(11);
    let h = ReadWriteHandle::char_device(d);
    assert_eq!(h.read_descriptor(), d);
    assert_eq!(h.write_descriptor(), d);
    assert!(matches!(h.resources(), ReadWriteResources::CharDevice));
    let h = ReadWriteHandle::tcp_stream(d);
    assert_eq!(h.read_descriptor(), h.write_descriptor());
    assert!(matches!(h.resources(), ReadWriteResources::TcpStream));
    let h = ReadWriteHandle::unix_stream(d);
    assert_eq!(h.as_raw_read_fd(), Some(11));
    assert_eq!(h.as_raw_write_fd(), Some(11));
    assert!(matches!(h.resources(), ReadWriteResources::UnixStream));
}

#[test]
fn two_objects_keep_their_own_descriptors() {
    let h = ReadWriteHandle::pipe_reader_writer(Descriptor::Fd(4), Descriptor::Fd(5));
    assert_eq!(h.as_raw_read_fd(), Some(4));
    assert_eq!(h.as_raw_write_fd(), Some(5));
    assert!(matches!(h.resources(), ReadWriteResources::PipeReaderWriter));
    let h = ReadWriteHandle::child_stdout_stdin(Descriptor::Handle(20), Descriptor::Handle(21));
    assert_eq!(h.as_raw_read_handle(), Some(20));
    assert_eq!(h.as_raw_write_handle(), Some(21));
    assert_eq!(h.as_raw_read_socket(), None);
    assert_eq!(h.as_raw_write_socket(), None);
    assert_eq!(h.as_raw_read_fd(), None);
    assert!(matches!(h.resources(), ReadWriteResources::ChildStdoutStdin));
    let h = ReadWriteHandle::interact_with_command(Descriptor::Fd(6), Descriptor::Fd(7));
    assert_eq!(h.read_descriptor(), Descriptor::Fd(6));
    assert_eq!(h.write_descriptor(), Descriptor::Fd(7));
    assert!(matches!(h.resources(), ReadWriteResources::Child));
    let h = ReadWriteHandle::tcp_stream(Descriptor::Socket(30));
    assert_eq!(h.as_raw_read_socket(), Some(30));
    assert_eq!(h.as_raw_write_socket(), Some(30));
    assert_eq!(h.as_raw_read_handle(), None);
}

#[test]
fn interactive_stream_hands_outcomes_on_unchanged() {
    let mut h = ReadWriteHandle::tcp_stream(Descriptor::Fd(3));
    assert_eq!(h.map_err("reset"), "reset");
    assert_eq!(h.complete::<usize, &str>(Ok(13)), Ok(13));
    assert_eq!(h.complete::<usize, &str>(Err("reset")), Err("reset"));
    assert_eq!(h.read_descriptor(), Descriptor::Fd(3));
    assert_eq!(h.write_descriptor(), Descriptor::Fd(3));
}

#[test]
fn command_setups_pipe_what_is_used_and_suppress_the_rest() {
    assert_eq!(
        CommandStdio::for_reading(),
        CommandStdio { stdin: StdioMode::Null, stdout: StdioMode::Piped, stderr: StdioMode::Null }
    );
    assert_eq!(
        CommandStdio::for_writing(),
        CommandStdio { stdin: StdioMode::Piped, stdout: StdioMode::Null, stderr: StdioMode::Null }
    );
    assert_eq!(
        CommandStdio::for_interaction(),
        CommandStdio { stdin: StdioMode::Piped, stdout: StdioMode::Piped, stderr: StdioMode::Null }
    );
}

#[test]
fn descriptor_kinds_tell_handles_from_sockets() {
    assert!(Descriptor::Fd(3).is_fd());
    assert!(Descriptor::Fd(3).is_handle_like());
    assert!(Descriptor::Fd(3).is_socket_like());
    assert!(!Descriptor::Handle(3).is_fd());
    assert!(Descriptor::Handle(3).is_handle_like());
    assert!(!Descriptor::Handle(3).is_socket_like());
    assert!(!Descriptor::Socket(3).is_fd());
    assert!(!Descriptor::Socket(3).is_handle_like());
    assert!(Descriptor::Socket(3).is_socket_like());
}

#[test]
fn raw_handle_is_missing_exactly_for_a_tcp_stream() {
    let handle = Descriptor::Handle(20);
    let socket = Descriptor::Socket(21);
    let with_handle = [
        ReadHandle::file(handle),
        ReadHandle::pipe_reader(handle),
        ReadHandle::read_from_command(handle),
        ReadHandle::child_stdout(handle),
        ReadHandle::child_stderr(handle),
        ReadHandle::piped_thread(handle),
    ];
    for h in &with_handle {
        assert_eq!(h.as_raw_handle(), Some(20));
        assert_eq!(h.as_raw_socket(), None);
        assert_eq!(h.as_raw_fd(), None);
    }
    let tcp = ReadHandle::tcp_stream(socket);
    assert_eq!(tcp.as_raw_handle(), None);
    assert_eq!(tcp.as_raw_socket(), Some(21));
    let tcp = WriteHandle::tcp_stream(socket);
    assert_eq!(tcp.as_raw_handle(), None);
    assert_eq!(tcp.as_raw_socket(), Some(21));
    let null = WriteHandle::null(handle);
    assert_eq!(null.as_raw_handle(), Some(20));
    assert_eq!(null.as_raw_socket(), None);
}
