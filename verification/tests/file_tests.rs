use wasi_io::context::IoContext;

fn read_whole_file(path: &str) -> Vec<u8> {
    let mut ctx = IoContext::deterministic();
    ctx.set_stdin_from_file(&String::from(path)).unwrap();
    let mut all: Vec<u8> = Vec::new();
    loop {
        let chunk = ctx.read_stdin(4096).unwrap();
        if chunk.is_empty() {
            break;
        }
        all.extend_from_slice(&chunk);
    }
    all
}

#[test]
fn stdout_file_receives_exactly_the_written_bytes() {
    let path = "/tmp/wasi_io_test_stdout_roundtrip";
    let payload = vec![104u8, 101, 108, 108, 111, 10];
    let mut ctx = IoContext::deterministic();
    ctx.set_stdout_to_file(&String::from(path)).unwrap();
    assert_eq!(ctx.write_stdout(&payload), Ok(payload.len()));
    drop(ctx);
    assert_eq!(read_whole_file(path), payload);
}

#[test]
fn stdout_file_truncates_preexisting_content() {
    let path = "/tmp/wasi_io_test_stdout_truncate";
    // First fill the file with a longer payload.
    let mut ctx = IoContext::deterministic();
    ctx.set_stdout_to_file(&String::from(path)).unwrap();
    assert_eq!(ctx.write_stdout(&vec![1u8; 32]), Ok(32));
    drop(ctx);
    // Re-installing the same path truncates it before the new bytes.
    let mut ctx = IoContext::deterministic();
    ctx.set_stdout_to_file(&String::from(path)).unwrap();
    assert_eq!(ctx.write_stdout(&vec![7u8, 8]), Ok(2));
    drop(ctx);
    assert_eq!(read_whole_file(path), vec![7u8, 8]);
}

#[test]
fn replacing_stdout_routes_writes_to_the_second_file_only() {
    let p1 = "/tmp/wasi_io_test_replaced_first";
    let p2 = "/tmp/wasi_io_test_replaced_second";
    let mut ctx = IoContext::deterministic();
    ctx.set_stdout_to_file(&String::from(p1)).unwrap();
    ctx.set_stdout_to_file(&String::from(p2)).unwrap();
    assert_eq!(ctx.write_stdout(&vec![5u8, 6, 7]), Ok(3));
    drop(ctx);
    // Only the second file received the guest output; the first stayed as
    // the install left it: empty.
    assert_eq!(read_whole_file(p1), Vec::<u8>::new());
    assert_eq!(read_whole_file(p2), vec![5u8, 6, 7]);
}

#[test]
fn stderr_file_receives_exactly_the_written_bytes() {
    let path = "/tmp/wasi_io_test_stderr_roundtrip";
    let mut ctx = IoContext::deterministic();
    ctx.set_stderr_to_file(&String::from(path)).unwrap();
    assert_eq!(ctx.write_stderr(&vec![3u8, 1, 4, 1, 5]), Ok(5));
    drop(ctx);
    assert_eq!(read_whole_file(path), vec![3u8, 1, 4, 1, 5]);
}

#[test]
fn stdin_file_feeds_the_guest_sequentially() {
    let path = "/tmp/wasi_io_test_stdin_file";
    let mut ctx = IoContext::deterministic();
    ctx.set_stdout_to_file(&String::from(path)).unwrap();
    assert_eq!(ctx.write_stdout(&vec![11u8, 22, 33, 44]), Ok(4));
    drop(ctx);

    let mut ctx = IoContext::deterministic();
    ctx.set_stdin_from_file(&String::from(path)).unwrap();
    let mut all: Vec<u8> = Vec::new();
    loop {
        let chunk = ctx.read_stdin(3).unwrap();
        if chunk.is_empty() {
            break;
        }
        assert!(chunk.len() <= 3);
        all.extend_from_slice(&chunk);
    }
    assert_eq!(all, vec![11u8, 22, 33, 44]);
}

#[test]
fn engine_context_builds_from_configured_slots() {
    let path = "/tmp/wasi_io_test_engine_stdout";
    let mut ctx = IoContext::deterministic();
    ctx.set_stdin_from_bytes(&vec![1u8, 2, 3]);
    ctx.set_stdout_to_file(&String::from(path)).unwrap();
    let (engine, out, err) = ctx.get_inner();
    // The file slot crossed into the engine; the bounded stderr came back.
    assert!(out.is_none());
    assert!(err.is_some());
    drop(engine);
}
