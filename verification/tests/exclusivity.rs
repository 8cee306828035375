use io_handles::{
    AlreadyHeld, Descriptor, ReadHandle, ReadResources, ReadWriteHandle, ReadWriteResources,
    StdStream, StdioLocks, Teardown, WriteHandle, WriteResources,
};

const STDIN: Descriptor = Descriptor::Fd(0);
const STDOUT: Descriptor = Descriptor::Fd(1);

#[test]
fn new_table_holds_nothing() {
    let locks = StdioLocks::new();
    assert!(!locks.is_held(StdStream::Stdin));
    assert!(!locks.is_held(StdStream::Stdout));
}

#[test]
fn acquire_marks_only_the_stream_it_claims() {
    let mut locks = StdioLocks::new();
    let token = locks.acquire(StdStream::Stdout).unwrap();
    assert_eq!(token.stream(), StdStream::Stdout);
    assert!(locks.is_held(StdStream::Stdout));
    assert!(!locks.is_held(StdStream::Stdin));
    locks.release(token);
    assert!(!locks.is_held(StdStream::Stdout));
}

#[test]
fn second_acquire_fails_until_release() {
    let mut locks = StdioLocks::new();
    let token = locks.acquire(StdStream::Stdin).unwrap();
    assert_eq!(
        locks.acquire(StdStream::Stdin).unwrap_err(),
        AlreadyHeld { stream: StdStream::Stdin }
    );
    assert!(locks.is_held(StdStream::Stdin));
    locks.release(token);
    assert!(locks.acquire(StdStream::Stdin).is_ok());
}

#[test]
fn second_stdin_handle_fails_while_first_lives() {
    let mut locks = StdioLocks::new();
    let first = ReadHandle::stdin(&mut locks, STDIN).unwrap();
    assert_eq!(first.descriptor(), STDIN);
    assert!(matches!(first.resources(), ReadResources::Stdin(t) if t.stream() == StdStream::Stdin));
    let second = ReadHandle::stdin(&mut locks, STDIN);
    assert_eq!(second.unwrap_err(), AlreadyHeld { stream: StdStream::Stdin });
    assert!(locks.is_held(StdStream::Stdin));
    assert_eq!(first.teardown(&mut locks), Teardown::Nothing);
    assert!(!locks.is_held(StdStream::Stdin));
    assert!(ReadHandle::stdin(&mut locks, STDIN).is_ok());
}

#[test]
fn second_stdout_handle_fails_while_first_lives() {
    let mut locks = StdioLocks::new();
    let first = WriteHandle::stdout(&mut locks, STDOUT).unwrap();
    assert_eq!(first.descriptor(), STDOUT);
    assert!(
        matches!(first.resources(), WriteResources::Stdout(t) if t.stream() == StdStream::Stdout)
    );
    let second = WriteHandle::stdout(&mut locks, STDOUT);
    assert_eq!(second.unwrap_err(), AlreadyHeld { stream: StdStream::Stdout });
    assert_eq!(first.teardown(&mut locks), Teardown::Nothing);
    assert!(!locks.is_held(StdStream::Stdout));
    assert!(WriteHandle::stdout(&mut locks, STDOUT).is_ok());
}

#[test]
fn stdin_and_stdout_are_claimed_independently() {
    let mut locks = StdioLocks::new();
    let input = ReadHandle::stdin(&mut locks, STDIN).unwrap();
    let output = WriteHandle::stdout(&mut locks, STDOUT).unwrap();
    assert!(locks.is_held(StdStream::Stdin));
    assert!(locks.is_held(StdStream::Stdout));
    input.teardown(&mut locks);
    assert!(!locks.is_held(StdStream::Stdin));
    assert!(locks.is_held(StdStream::Stdout));
    output.teardown(&mut locks);
    assert!(!locks.is_held(StdStream::Stdout));
}

#[test]
fn interactive_handle_claims_both_streams() {
    let mut locks = StdioLocks::new();
    let both = ReadWriteHandle::stdin_stdout(&mut locks, STDIN, STDOUT).unwrap();
    assert_eq!(both.read_descriptor(), STDIN);
    assert_eq!(both.write_descriptor(), STDOUT);
    assert!(matches!(
        both.resources(),
        ReadWriteResources::StdinStdout(i, o)
            if i.stream() == StdStream::Stdin && o.stream() == StdStream::Stdout
    ));
    assert!(locks.is_held(StdStream::Stdin));
    assert!(locks.is_held(StdStream::Stdout));
    assert_eq!(
        ReadHandle::stdin(&mut locks, STDIN).unwrap_err(),
        AlreadyHeld { stream: StdStream::Stdin }
    );
    assert_eq!(
        WriteHandle::stdout(&mut locks, STDOUT).unwrap_err(),
        AlreadyHeld { stream: StdStream::Stdout }
    );
    assert_eq!(
        ReadWriteHandle::stdin_stdout(&mut locks, STDIN, STDOUT).unwrap_err(),
        AlreadyHeld { stream: StdStream::Stdin }
    );
    both.teardown(&mut locks);
    assert!(!locks.is_held(StdStream::Stdin));
    assert!(!locks.is_held(StdStream::Stdout));
    assert!(ReadWriteHandle::stdin_stdout(&mut locks, STDIN, STDOUT).is_ok());
}

#[test]
fn interactive_handle_gives_input_back_when_output_is_in_use() {
    let mut locks = StdioLocks::new();
    let output = WriteHandle::stdout(&mut locks, STDOUT).unwrap();
    let both = ReadWriteHandle::stdin_stdout(&mut locks, STDIN, STDOUT);
    assert_eq!(both.unwrap_err(), AlreadyHeld { stream: StdStream::Stdout });
    assert!(!locks.is_held(StdStream::Stdin));
    assert!(locks.is_held(StdStream::Stdout));
    assert!(ReadHandle::stdin(&mut locks, STDIN).is_ok());
    output.teardown(&mut locks);
}

#[test]
fn interactive_handle_fails_on_input_in_use_and_leaves_output_free() {
    let mut locks = StdioLocks::new();
    let input = ReadHandle::stdin(&mut locks, STDIN).unwrap();
    let both = ReadWriteHandle::stdin_stdout(&mut locks, STDIN, STDOUT);
    assert_eq!(both.unwrap_err(), AlreadyHeld { stream: StdStream::Stdin });
    assert!(locks.is_held(StdStream::Stdin));
    assert!(!locks.is_held(StdStream::Stdout));
    input.teardown(&mut locks);
}

#[test]
fn teardown_of_other_handles_leaves_the_table_alone() {
    let mut locks = StdioLocks::new();
    let _input = ReadHandle::stdin(&mut locks, STDIN).unwrap();
    ReadHandle::file(Descriptor::Fd(9)).teardown(&mut locks);
    WriteHandle::file(Descriptor::Fd(9)).teardown(&mut locks);
    ReadWriteHandle::tcp_stream(Descriptor::Fd(9)).teardown(&mut locks);
    assert!(locks.is_held(StdStream::Stdin));
    assert!(!locks.is_held(StdStream::Stdout));
}
