use rotor_test::stream::{MemIo, ReadOutcome};

fn read_all(s: &mut MemIo) -> Vec<u8> {
    let mut collected: Vec<u8> = Vec::new();
    loop {
        match s.read(16) {
            ReadOutcome::Data(d) => collected.extend(d),
            ReadOutcome::Eof => break,
            ReadOutcome::WouldBlock => panic!("input should be closed"),
        }
    }
    collected
}

#[test]
fn input() {
    let mut s = MemIo::new();
    s.push_bytes(b"hello world");
    s.shutdown_input();
    let collected = read_all(&mut s);
    assert_eq!(collected.len(), 11);
    assert_eq!(String::from_utf8(collected).unwrap(), "hello world");
}

#[test]
fn output() {
    let mut s = MemIo::new();
    s.write(b"hello");
    s.write(b"world");
    assert_eq!(s.output_str(), "helloworld");
}

#[test]
fn reads_fifo_capacity_bounded() {
    let mut s = MemIo::new();
    s.push_bytes(b"abc");
    s.push_bytes(b"de");
    let mut total = 0usize;
    let mut collected: Vec<u8> = Vec::new();
    loop {
        match s.read(2) {
            ReadOutcome::Data(d) => {
                assert!(d.len() <= 2);
                total += d.len();
                collected.extend(d);
            }
            ReadOutcome::WouldBlock => break,
            ReadOutcome::Eof => panic!("input was never closed"),
        }
    }
    assert_eq!(total, 5);
    assert_eq!(collected, b"abcde".to_vec());
}

#[test]
fn interleaved_pushes_stay_fifo() {
    let mut s = MemIo::new();
    s.push_bytes(b"ab");
    match s.read(1) {
        ReadOutcome::Data(d) => assert_eq!(d, vec![b'a']),
        _ => panic!("data expected"),
    }
    s.push_bytes(b"cd");
    s.shutdown_input();
    assert_eq!(read_all(&mut s), b"bcd".to_vec());
}

#[test]
fn eof_repeats_after_shutdown() {
    let mut s = MemIo::new();
    s.shutdown_input();
    assert!(matches!(s.read(8), ReadOutcome::Eof));
    assert!(matches!(s.read(8), ReadOutcome::Eof));
    assert!(matches!(s.read(8), ReadOutcome::Eof));
}

#[test]
fn empty_open_input_would_blocks() {
    let mut s = MemIo::new();
    assert!(matches!(s.read(8), ReadOutcome::WouldBlock));
    assert!(matches!(s.read(8), ReadOutcome::WouldBlock));
    s.push_bytes(b"x");
    match s.read(8) {
        ReadOutcome::Data(d) => assert_eq!(d, vec![b'x']),
        _ => panic!("data expected after a push"),
    }
}

#[test]
fn output_snapshots_nondestructive() {
    let mut s = MemIo::new();
    assert_eq!(s.write(b"hello"), 5);
    assert_eq!(s.write(b"world"), 5);
    let first = s.output_str();
    let second = s.output_str();
    assert_eq!(first, "helloworld");
    assert_eq!(first, second);
    assert_eq!(s.output_bytes(), b"helloworld".to_vec());
    assert_eq!(s.output_bytes(), b"helloworld".to_vec());
}

#[test]
fn zero_capacity_read_takes_nothing() {
    let mut s = MemIo::new();
    s.push_bytes(b"a");
    match s.read(0) {
        ReadOutcome::Data(d) => assert_eq!(d.len(), 0),
        _ => panic!("a non-empty input reports data even at capacity zero"),
    }
    match s.read(1) {
        ReadOutcome::Data(d) => assert_eq!(d, vec![b'a']),
        _ => panic!("data expected"),
    }
}

#[test]
fn output_str_degrades_invalid_utf8() {
    let mut s = MemIo::new();
    s.write(&[0x68, 0xFF]);
    assert_eq!(s.output_str(), "h\u{FFFD}");
    assert_eq!(s.output_bytes(), vec![0x68, 0xFF]);
}

#[test]
fn flush_is_noop() {
    let mut s = MemIo::new();
    s.write(b"hi");
    s.flush();
    assert_eq!(s.output_str(), "hi");
    assert!(matches!(s.read(4), ReadOutcome::WouldBlock));
}
