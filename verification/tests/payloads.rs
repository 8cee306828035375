use io_handles::{
    cap_limit, payload_route, platform_route, Completion, Descriptor, PayloadRoute, ReadHandle,
    MAX_ATOMIC_PIPE_WRITE, MIN_ATOMIC_PIPE_WRITE,
};
use std::io::{Read, Write};

#[test]
fn route_is_eager_up_to_the_limit() {
    assert_eq!(payload_route(0, 0), PayloadRoute::EagerPipe);
    assert_eq!(payload_route(1, 0), PayloadRoute::ThreadBridge);
    assert_eq!(payload_route(4095, 4096), PayloadRoute::EagerPipe);
    assert_eq!(payload_route(4096, 4096), PayloadRoute::EagerPipe);
    assert_eq!(payload_route(4097, 4096), PayloadRoute::ThreadBridge);
    assert_eq!(payload_route(usize::MAX, usize::MAX), PayloadRoute::EagerPipe);
    assert_eq!(payload_route(usize::MAX, 512), PayloadRoute::ThreadBridge);
}

#[test]
fn minimum_atomic_write_is_what_posix_allows() {
    assert_eq!(MIN_ATOMIC_PIPE_WRITE, 512);
    assert!(libc::PIPE_BUF >= MIN_ATOMIC_PIPE_WRITE);
}

#[test]
fn platform_route_uses_the_platform_bound() {
    assert_eq!(platform_route(libc::PIPE_BUF), PayloadRoute::EagerPipe);
    assert_eq!(platform_route(libc::PIPE_BUF + 1), PayloadRoute::ThreadBridge);
    assert_eq!(platform_route(0), PayloadRoute::EagerPipe);
    assert_eq!(platform_route(512), PayloadRoute::EagerPipe);
}

#[test]
fn bytes_route_goes_by_length() {
    assert_eq!(ReadHandle::bytes(b""), PayloadRoute::EagerPipe);
    assert_eq!(ReadHandle::bytes(b"Hello, world!"), PayloadRoute::EagerPipe);
    assert_eq!(ReadHandle::bytes(&vec![0u8; 512]), PayloadRoute::EagerPipe);
    assert_eq!(ReadHandle::bytes(&vec![0u8; libc::PIPE_BUF]), PayloadRoute::EagerPipe);
    assert_eq!(ReadHandle::bytes(&vec![0u8; libc::PIPE_BUF + 1]), PayloadRoute::ThreadBridge);
    assert_eq!(ReadHandle::bytes(&vec![7u8; 1 << 20]), PayloadRoute::ThreadBridge);
}

#[test]
fn str_route_goes_by_bytes_not_characters() {
    assert_eq!(ReadHandle::str("send to null"), PayloadRoute::EagerPipe);
    assert_eq!(ReadHandle::str(""), PayloadRoute::EagerPipe);
    // Two bytes each: as many characters as the bound are twice too many bytes.
    let wide = "\u{e9}".repeat(libc::PIPE_BUF);
    assert_eq!(wide.chars().count(), libc::PIPE_BUF);
    assert_eq!(ReadHandle::str(&wide), PayloadRoute::ThreadBridge);
    let half = "\u{e9}".repeat(libc::PIPE_BUF / 2);
    assert_eq!(ReadHandle::str(&half), PayloadRoute::EagerPipe);
}

#[test]
fn eager_route_fills_an_os_pipe_without_blocking() {
    for len in [0usize, 1, 13, 512, libc::PIPE_BUF] {
        let payload: Vec<u8> = (0..len).map(|i| (i % 251) as u8).collect();
        assert_eq!(ReadHandle::bytes(&payload), PayloadRoute::EagerPipe);
        let (mut pipe_reader, mut pipe_writer) = os_pipe::pipe().unwrap();
        pipe_writer.write_all(&payload).unwrap();
        pipe_writer.flush().unwrap();
        drop(pipe_writer);
        let mut handle = ReadHandle::pipe_reader(Descriptor::raw_fd(3));
        let mut out = Vec::new();
        let mut chunk = [0u8; 7];
        loop {
            let outcome = pipe_reader.read(&mut chunk);
            match handle.complete(outcome) {
                Completion::Done(0) => break,
                Completion::Done(n) => out.extend_from_slice(&chunk[..n]),
                Completion::Failed(route) => panic!("read failed: {:?}", route),
            }
        }
        assert_eq!(out, payload);
    }
}

#[test]
fn cap_keeps_a_bound_up_to_the_maximum() {
    assert_eq!(MAX_ATOMIC_PIPE_WRITE, 32768);
    assert_eq!(cap_limit(0), 0);
    assert_eq!(cap_limit(512), 512);
    assert_eq!(cap_limit(4096), 4096);
    assert_eq!(cap_limit(32768), 32768);
    assert_eq!(cap_limit(32769), 32768);
    assert_eq!(cap_limit(usize::MAX), 32768);
    assert_eq!(cap_limit(libc::PIPE_BUF), libc::PIPE_BUF);
}

#[test]
fn payload_above_the_maximum_always_takes_the_bridge() {
    assert_eq!(platform_route(MAX_ATOMIC_PIPE_WRITE + 1), PayloadRoute::ThreadBridge);
    assert_eq!(platform_route(usize::MAX), PayloadRoute::ThreadBridge);
    assert_eq!(
        ReadHandle::bytes(&vec![0u8; MAX_ATOMIC_PIPE_WRITE + 1]),
        PayloadRoute::ThreadBridge
    );
    assert_eq!(
        ReadHandle::str(&"a".repeat(MAX_ATOMIC_PIPE_WRITE + 1)),
        PayloadRoute::ThreadBridge
    );
    // Under a bound at the maximum, a payload of exactly that length fits.
    assert_eq!(payload_route(MAX_ATOMIC_PIPE_WRITE, cap_limit(usize::MAX)), PayloadRoute::EagerPipe);
    assert_eq!(
        payload_route(MAX_ATOMIC_PIPE_WRITE + 1, cap_limit(usize::MAX)),
        PayloadRoute::ThreadBridge
    );
}
