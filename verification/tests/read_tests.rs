use io_check::fault::Fault;
use io_check::read::{test_read, test_read_no_panic, ReadProbe, TestReader};

fn assert_eq_fault(num: u16, expected: u16) -> Result<(), Fault> {
    if num != expected {
        Err(Fault::with_message(format!(
            "assertion failed: `(left == right)`\n  left: `{}`,\n right: `{}`",
            num, expected
        )))
    } else {
        Ok(())
    }
}

/// Reads two bytes in one call and trusts the buffer without checking the
/// returned count.
struct ReadTwoUnchecked;

impl ReadProbe for ReadTwoUnchecked {
    fn run(&self, reader: &mut TestReader) -> Result<(), Fault> {
        let mut buf = vec![0u8; 2];
        let _ = reader.read(&mut buf)?;
        let num = u16::from_le_bytes([buf[0], buf[1]]);
        assert_eq_fault(num, 1)
    }
}

/// Reads two bytes correctly with `read_exact`, then two more in a single
/// `read` call without checking the returned count.
struct ReadExactThenUnchecked;

impl ReadProbe for ReadExactThenUnchecked {
    fn run(&self, reader: &mut TestReader) -> Result<(), Fault> {
        let mut buf = vec![0u8; 2];
        reader.read_exact(&mut buf)?;
        let num = u16::from_le_bytes([buf[0], buf[1]]);
        assert_eq_fault(num, 1)?;

        let mut buf = vec![0u8; 2];
        let _ = reader.read(&mut buf)?;
        let num = u16::from_le_bytes([buf[0], buf[1]]);
        assert_eq_fault(num, 1)
    }
}

/// Reads two bytes with `read_exact` only: correct usage.
struct ReadExactOnly;

impl ReadProbe for ReadExactOnly {
    fn run(&self, reader: &mut TestReader) -> Result<(), Fault> {
        let mut buf = vec![0u8; 2];
        reader.read_exact(&mut buf)?;
        let num = u16::from_le_bytes([buf[0], buf[1]]);
        assert_eq_fault(num, 1)
    }
}

#[test]
fn basic() {
    let err = test_read_no_panic(&[1, 0], &ReadTwoUnchecked).unwrap_err();

    assert_eq!(
        err.panic_message1(),
        Some("assertion failed: `(left == right)`\n  left: `65281`,\n right: `1`")
    );
    assert_eq!(err.panic_message2(), err.panic_message1());
    assert_eq!(err.pos().unwrap(), 1);
}

#[test]
fn read_exact_followed_by_read() {
    let err = test_read_no_panic(&[1, 0, 1, 0], &ReadExactThenUnchecked).unwrap_err();

    assert_eq!(
        err.panic_message1(),
        Some("assertion failed: `(left == right)`\n  left: `65281`,\n right: `1`")
    );
    assert_eq!(err.panic_message2(), err.panic_message1());
    assert_eq!(err.pos().unwrap(), 3);
}

#[test]
fn no_error() {
    test_read_no_panic(&[1, 0], &ReadExactOnly).unwrap();
}

/// A probe that fills its buffer by retrying after every short read,
/// trusting only the returned counts: correct usage that must pass.
struct RetryingReader {
    expected: Vec<u8>,
}

impl ReadProbe for RetryingReader {
    fn run(&self, reader: &mut TestReader) -> Result<(), Fault> {
        let mut collected: Vec<u8> = Vec::new();
        loop {
            let mut buf = vec![0u8; 2];
            let n = reader.read(&mut buf)?;
            if n == 0 {
                break;
            }
            collected.extend_from_slice(&buf[..n]);
        }
        if collected == self.expected {
            Ok(())
        } else {
            Err(Fault::with_message(format!(
                "decoded {:?} instead of {:?}",
                collected, self.expected
            )))
        }
    }
}

#[test]
fn retrying_reader_passes() {
    let probe = RetryingReader { expected: vec![1, 0, 42, 0] };
    test_read_no_panic(&[1, 0, 42, 0], &probe).unwrap();
    test_read(&[1, 0, 42, 0], &probe, false).unwrap();
}

#[test]
fn buggy_read_after_correct_read_localized() {
    // A correct two-byte read, then a two-byte read that consumes only one
    // byte without the probe noticing: the sweep reports the lowest split
    // that reproduces the fault, right where the buggy call straddles.
    struct Probe;
    impl ReadProbe for Probe {
        fn run(&self, reader: &mut TestReader) -> Result<(), Fault> {
            let mut buf = vec![0u8; 2];
            reader.read_exact(&mut buf)?;
            let num = u16::from_le_bytes([buf[0], buf[1]]);
            assert_eq_fault(num, 1)?;

            let mut buf = vec![0u8; 2];
            let _ = reader.read(&mut buf)?;
            let num = u16::from_le_bytes([buf[0], buf[1]]);
            assert_eq_fault(num, 42)
        }
    }
    let err = test_read_no_panic(&[1, 0, 42, 0], &Probe).unwrap_err();
    assert_eq!(
        err.panic_message1(),
        Some("assertion failed: `(left == right)`\n  left: `65322`,\n right: `42`")
    );
    assert_eq!(err.panic_message2(), err.panic_message1());
    assert_eq!(err.pos().unwrap(), 3);
}

#[test]
fn breaking_single_byte_read_never_corrupts() {
    let mut reader = TestReader::breaking(&[5, 6, 7]);
    let mut buf = vec![9u8];
    let n = reader.read(&mut buf).unwrap();
    assert_eq!(n, 1);
    assert_eq!(buf, vec![5u8]);
}

#[test]
fn breaking_multi_byte_read_corrupts_second_byte() {
    let mut reader = TestReader::breaking(&[5, 6, 7]);
    let mut buf = vec![0u8; 3];
    let n = reader.read(&mut buf).unwrap();
    assert_eq!(n, 1);
    assert_eq!(buf[0], 5);
    assert_eq!(buf[1], !6u8);
    assert_eq!(buf[2], 0);

    // The corrupted byte was not consumed: the next read still serves it.
    let mut buf = vec![0u8; 1];
    let n = reader.read(&mut buf).unwrap();
    assert_eq!(n, 1);
    assert_eq!(buf[0], 6);
}

#[test]
fn breaking_empty_destination_faults() {
    let mut reader = TestReader::breaking(&[1, 2]);
    let mut buf: Vec<u8> = Vec::new();
    let fault = reader.read(&mut buf).unwrap_err();
    assert_eq!(
        io_check::fault::get_panic_message(&fault),
        Some("attempt to read into an empty buffer")
    );
}

#[test]
fn read_exact_past_end_faults() {
    let mut reader = TestReader::breaking(&[1, 2]);
    let mut buf = vec![0u8; 3];
    let fault = reader.read_exact(&mut buf).unwrap_err();
    assert_eq!(
        io_check::fault::get_panic_message(&fault),
        Some("failed to fill whole buffer")
    );
}

#[test]
fn read_to_end_serves_everything() {
    let mut reader = TestReader::breaking(&[1, 2, 3]);
    let mut buf = vec![9u8];
    let n = reader.read_to_end(&mut buf).unwrap();
    assert_eq!(n, 3);
    assert_eq!(buf, vec![9, 1, 2, 3]);
}

#[test]
fn searching_reader_splits_and_corrupts() {
    let mut reader = TestReader::searching(&[10, 20, 30, 40], 2);
    let mut buf = vec![0u8; 4];
    // Straddles the split: short read of the left segment, with the first
    // byte past the split corrupted in the destination.
    let n = reader.read(&mut buf).unwrap();
    assert_eq!(n, 2);
    assert_eq!(buf[0], 10);
    assert_eq!(buf[1], 20);
    assert_eq!(buf[2], !30u8);
    // After the left segment is exhausted, a plain read over the right.
    let mut buf = vec![0u8; 4];
    let n = reader.read(&mut buf).unwrap();
    assert_eq!(n, 2);
    assert_eq!(&buf[..2], &[30, 40]);
}

#[test]
fn composed_message_reports_position() {
    let err = test_read(&[1, 0], &ReadTwoUnchecked, false).unwrap_err();
    let msg = io_check::fault::get_panic_message(&err).unwrap();
    assert!(msg.starts_with(
        "test failed at position 1: assertion failed: `(left == right)`\n  left: `65281`,\n right: `1`\n"
    ));
}

#[test]
fn unreproduced_fault_reports_unknown_position() {
    // Faults only in breaking mode (two single-byte reads in a row), never
    // under any single split: the position cannot be correlated.
    struct Probe;
    impl ReadProbe for Probe {
        fn run(&self, reader: &mut TestReader) -> Result<(), Fault> {
            let mut buf = vec![0u8; 4];
            let n1 = reader.read(&mut buf)?;
            let mut buf = vec![0u8; 4];
            let n2 = reader.read(&mut buf)?;
            if n1 == 1 && n2 == 1 {
                return Err(Fault::with_message("saw two single-byte reads".to_string()));
            }
            Ok(())
        }
    }
    let err = test_read(&[1, 0, 42, 0], &Probe, false).unwrap_err();
    let msg = io_check::fault::get_panic_message(&err).unwrap();
    assert_eq!(msg, "test failed at unknown position: saw two single-byte reads");
}

#[test]
fn expect_content_probe_passes() {
    let probe = io_check::read::ExpectContentProbe { expected: vec![1, 0, 42, 0] };
    test_read_no_panic(&[1, 0, 42, 0], &probe).unwrap();
    test_read(&[1, 0, 42, 0], &probe, false).unwrap();
}

#[test]
fn expect_content_probe_mismatch_is_localized() {
    let probe = io_check::read::ExpectContentProbe { expected: vec![1, 2] };
    let err = test_read(&[9, 9], &probe, false).unwrap_err();
    let msg = io_check::fault::get_panic_message(&err).unwrap();
    assert!(msg.starts_with("test failed at position 1: read content does not match the expected bytes\n"));
}
