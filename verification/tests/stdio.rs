use stdio_core::{stdin, stdout, Console, FileLike, StdioContext, StdioError};

#[test]
fn zero_length_blocking_read_returns_zero() {
    let mut ctx = StdioContext::new();
    ctx.inject_byte(7);
    let h = stdin();
    let mut buf: Vec<u8> = Vec::new();
    let r = h.read_blocked(&mut ctx, &mut buf);
    assert_eq!(r, Ok(0));
    assert_eq!(ctx.yield_count(), 0);
    assert!(ctx.output().is_empty());
    // the scripted byte is untouched and served by the next read
    let mut buf2 = vec![0u8; 1];
    let r2 = h.read_blocked(&mut ctx, &mut buf2);
    assert_eq!(r2, Ok(1));
    assert_eq!(buf2[0], 7);
}

#[test]
fn blocking_read_returns_first_available_byte() {
    let mut ctx = StdioContext::new();
    ctx.inject_gap();
    ctx.inject_gap();
    ctx.inject_byte(65);
    let h = stdin();
    let mut buf = vec![0u8; 4];
    let r = h.read_blocked(&mut ctx, &mut buf);
    assert_eq!(r, Ok(1));
    assert_eq!(buf[0], 65);
    // two empty polls: the first retry comes at once, the second after a yield
    assert_eq!(ctx.yield_count(), 1);
}

#[test]
fn blocking_read_with_data_ready_never_yields() {
    let mut ctx = StdioContext::new();
    ctx.inject_byte(b'h');
    ctx.inject_byte(b'i');
    let h = stdin();
    let mut buf = vec![0u8; 2];
    let r = h.read_blocked(&mut ctx, &mut buf);
    assert_eq!(r, Ok(2));
    assert_eq!(&buf[..], b"hi");
    assert_eq!(ctx.yield_count(), 0);
}

#[test]
fn yield_count_grows_with_empty_polls() {
    let mut ctx = StdioContext::new();
    ctx.inject_gap();
    ctx.inject_gap();
    ctx.inject_gap();
    ctx.inject_byte(1);
    let h = stdin();
    let mut buf = vec![0u8; 1];
    let r = h.read_blocked(&mut ctx, &mut buf);
    assert_eq!(r, Ok(1));
    assert_eq!(ctx.yield_count(), 2);
}

#[test]
fn every_consumed_byte_echoed_once_in_order() {
    let mut ctx = StdioContext::new();
    ctx.inject_byte(b'a');
    ctx.inject_byte(b'b');
    ctx.inject_byte(b'c');
    let h = stdin();
    let mut buf = vec![0u8; 8];
    let r = h.read_blocked(&mut ctx, &mut buf);
    assert_eq!(r, Ok(3));
    assert_eq!(&buf[..3], b"abc");
    assert_eq!(ctx.output().as_slice(), b"abc");
}

#[test]
fn buffered_bytes_are_not_echoed_again() {
    let mut ctx = StdioContext::new();
    ctx.inject_byte(b'a');
    ctx.inject_byte(b'b');
    ctx.inject_byte(b'c');
    let h = stdin();
    // a one-byte read pulls (and echoes) the whole available run into the
    // internal buffer, then hands out one byte
    let mut one = vec![0u8; 1];
    assert_eq!(h.read_nonblocked(&mut ctx, &mut one), Ok(1));
    assert_eq!(one[0], b'a');
    assert_eq!(ctx.output().as_slice(), b"abc");
    // the rest comes from the buffer, echoed exactly once in total
    let mut two = vec![0u8; 2];
    assert_eq!(h.read_nonblocked(&mut ctx, &mut two), Ok(2));
    assert_eq!(&two[..], b"bc");
    assert_eq!(ctx.output().as_slice(), b"abc");
}

#[test]
fn carriage_return_becomes_line_feed_in_buffer_and_echo() {
    let mut ctx = StdioContext::new();
    ctx.inject_byte(0x0d);
    let h = stdin();
    let mut buf = vec![0u8; 1];
    let r = h.read_blocked(&mut ctx, &mut buf);
    assert_eq!(r, Ok(1));
    assert_eq!(buf[0], 0x0a);
    assert_eq!(ctx.output().as_slice(), &[0x0a]);
}

#[test]
fn nonblocking_read_without_data_would_block() {
    let mut ctx = StdioContext::new();
    let mut h = stdin();
    assert_eq!(h.set_nonblocking(true), Ok(()));
    let mut buf = vec![0u8; 4];
    let r = FileLike::read(&h, &mut ctx, &mut buf);
    assert_eq!(r, Err(StdioError::WouldBlock));
    assert_eq!(ctx.yield_count(), 0);
    assert!(ctx.output().is_empty());
}

#[test]
fn low_level_nonblocking_read_surfaces_zero() {
    let mut ctx = StdioContext::new();
    let h = stdin();
    let mut buf = vec![0u8; 4];
    // the low-level call reports 0 as a valid non-blocking result; only the
    // capability layer turns it into would-block
    assert_eq!(h.read_nonblocked(&mut ctx, &mut buf), Ok(0));
}

#[test]
fn nonblocking_flag_toggles_read_behavior() {
    let mut ctx = StdioContext::new();
    let mut h = stdin();
    assert_eq!(h.set_nonblocking(true), Ok(()));
    let mut buf = vec![0u8; 1];
    assert_eq!(FileLike::read(&h, &mut ctx, &mut buf), Err(StdioError::WouldBlock));
    assert_eq!(h.set_nonblocking(false), Ok(()));
    ctx.inject_byte(0x5a);
    let r = FileLike::read(&h, &mut ctx, &mut buf);
    assert_eq!(r, Ok(1));
    assert_eq!(buf[0], 0x5a);
}

#[test]
fn stat_reports_character_device_modes() {
    let hin = stdin();
    let hout = stdout();
    let sin = hin.stat().unwrap();
    assert_eq!(sin.st_mode, 0o20000 | 0o440);
    assert_eq!(sin.st_ino, 1);
    assert_eq!(sin.st_nlink, 1);
    assert_eq!(sin.st_uid, 0);
    assert_eq!(sin.st_gid, 0);
    assert_eq!(sin.st_size, 0);
    let sout = hout.stat().unwrap();
    assert_eq!(sout.st_mode, 0o20000 | 0o220);
    assert_eq!(sout.st_ino, 1);
    assert_eq!(sout.st_nlink, 1);
}

#[test]
fn write_reports_full_length() {
    let mut ctx = StdioContext::new();
    let h = stdout();
    let msg = b"hello".to_vec();
    let r = FileLike::write(&h, &mut ctx, &msg);
    assert_eq!(r, Ok(5));
    assert_eq!(ctx.output().as_slice(), b"hello");
    // the plain stream write behaves the same
    let r2 = h.write(&mut ctx, &msg);
    assert_eq!(r2, Ok(5));
    assert_eq!(ctx.output().as_slice(), b"hellohello");
}

#[test]
fn write_empty_buffer_reports_zero() {
    let mut ctx = StdioContext::new();
    let h = stdout();
    let empty: Vec<u8> = Vec::new();
    assert_eq!(FileLike::write(&h, &mut ctx, &empty), Ok(0));
    assert!(ctx.output().is_empty());
}

#[test]
fn wrong_direction_fails_with_permission_denied() {
    let mut ctx = StdioContext::new();
    ctx.inject_byte(9);
    let hin = stdin();
    let hout = stdout();
    let msg = vec![1u8, 2, 3];
    assert_eq!(FileLike::write(&hin, &mut ctx, &msg), Err(StdioError::PermissionDenied));
    assert!(ctx.output().is_empty());
    let mut buf = vec![0u8; 3];
    assert_eq!(FileLike::read(&hout, &mut ctx, &mut buf), Err(StdioError::PermissionDenied));
    assert_eq!(&buf[..], &[0, 0, 0]);
    // no side effect: the scripted byte is still delivered afterwards
    let mut buf2 = vec![0u8; 1];
    assert_eq!(hin.read_blocked(&mut ctx, &mut buf2), Ok(1));
    assert_eq!(buf2[0], 9);
}

#[test]
fn poll_always_reports_both_directions_ready() {
    let hin = stdin();
    let hout = stdout();
    let pin = hin.poll().unwrap();
    assert!(pin.readable);
    assert!(pin.writable);
    let pout = hout.poll().unwrap();
    assert!(pout.readable);
    assert!(pout.writable);
}

#[test]
fn flush_is_a_trivial_success() {
    let mut ctx = StdioContext::new();
    let hin = stdin();
    let hout = stdout();
    assert_eq!(FileLike::flush(&hin, &mut ctx), Ok(()));
    assert_eq!(FileLike::flush(&hout, &mut ctx), Ok(()));
    assert_eq!(hout.flush(&mut ctx), Ok(()));
    assert!(ctx.output().is_empty());
}

#[test]
fn stdout_accepts_set_nonblocking_without_effect() {
    let mut ctx = StdioContext::new();
    let mut h = stdout();
    assert_eq!(h.set_nonblocking(true), Ok(()));
    let msg = vec![42u8];
    assert_eq!(FileLike::write(&h, &mut ctx, &msg), Ok(1));
}

#[test]
fn handles_start_in_blocking_mode() {
    let h = stdin();
    assert!(!h.load_nonblocking());
    let mut h2 = stdin();
    assert_eq!(h2.set_nonblocking(true), Ok(()));
    assert!(h2.load_nonblocking());
    assert_eq!(h2.set_nonblocking(false), Ok(()));
    assert!(!h2.load_nonblocking());
}

#[test]
fn into_any_is_the_identity_cast() {
    let mut ctx = StdioContext::new();
    ctx.inject_byte(3);
    let h = stdin().into_any();
    let mut buf = vec![0u8; 1];
    assert_eq!(h.read_blocked(&mut ctx, &mut buf), Ok(1));
    assert_eq!(buf[0], 3);
    let hout = stdout().into_any();
    let msg = vec![4u8];
    assert_eq!(hout.write(&mut ctx, &msg), Ok(1));
}

#[test]
fn raw_device_script_is_fifo_and_unnormalized() {
    let mut dev = Console::new();
    dev.inject_byte(0x0d);
    dev.inject_gap();
    dev.inject_byte(2);
    // the device itself hands bytes back raw; normalization and echo belong
    // to the adapter above it
    assert_eq!(dev.try_get_byte(), Some(0x0d));
    assert!(dev.output().is_empty());
    assert_eq!(dev.try_get_byte(), None);
    assert_eq!(dev.try_get_byte(), Some(2));
    assert_eq!(dev.try_get_byte(), None);
    let msg = vec![7u8, 8];
    dev.write_bytes(&msg);
    assert_eq!(dev.output().as_slice(), &[7, 8]);
}

#[test]
fn small_reads_refill_through_internal_buffer() {
    let mut ctx = StdioContext::new();
    let total: usize = 1030;
    for i in 0..total {
        ctx.inject_byte((i % 251) as u8);
    }
    let h = stdin();
    // a small read pulls one buffer's worth (1024 bytes) from the device
    let mut small = vec![0u8; 4];
    assert_eq!(h.read_blocked(&mut ctx, &mut small), Ok(4));
    assert_eq!(ctx.output().len(), 1024);
    // a big read first drains what the buffer still holds
    let mut big = vec![0u8; 2000];
    assert_eq!(h.read_nonblocked(&mut ctx, &mut big), Ok(1020));
    assert_eq!(ctx.output().len(), 1024);
    // the remaining scripted bytes come in one more read, echoed on arrival
    let mut rest = vec![0u8; 16];
    assert_eq!(h.read_nonblocked(&mut ctx, &mut rest), Ok(6));
    assert_eq!(ctx.output().len(), 1030);
    for i in 0..total {
        let raw = (i % 251) as u8;
        let want = if raw == 0x0d { 0x0a } else { raw };
        assert_eq!(ctx.output()[i], want);
    }
}

#[test]
fn large_read_bypasses_internal_buffer() {
    let mut ctx = StdioContext::new();
    for _ in 0..1500 {
        ctx.inject_byte(b'x');
    }
    let h = stdin();
    let mut buf = vec![0u8; 1500];
    assert_eq!(h.read_blocked(&mut ctx, &mut buf), Ok(1500));
    assert!(buf.iter().all(|b| *b == b'x'));
    assert_eq!(ctx.output().len(), 1500);
}

#[test]
fn plain_stream_read_always_blocks() {
    let mut ctx = StdioContext::new();
    ctx.inject_gap();
    ctx.inject_byte(b'q');
    // the plain read ignores the capability flag and follows the blocking
    // protocol
    let mut h = stdin();
    assert_eq!(h.set_nonblocking(true), Ok(()));
    let mut buf = vec![0u8; 1];
    assert_eq!(h.read(&mut ctx, &mut buf), Ok(1));
    assert_eq!(buf[0], b'q');
}

#[test]
fn echo_and_explicit_writes_share_the_output_path() {
    let mut ctx = StdioContext::new();
    ctx.inject_byte(b'k');
    let hin = stdin();
    let hout = stdout();
    let mut buf = vec![0u8; 1];
    assert_eq!(hin.read_blocked(&mut ctx, &mut buf), Ok(1));
    let msg = b"!".to_vec();
    assert_eq!(hout.write(&mut ctx, &msg), Ok(1));
    assert_eq!(ctx.output().as_slice(), b"k!");
}
