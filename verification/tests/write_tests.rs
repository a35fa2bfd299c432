use io_check::fault::{get_panic_message, Fault};
use io_check::write::{test_write, TestWriter, WriteProbe};

/// A probe that writes nothing.
struct WritesNothing;

impl WriteProbe for WritesNothing {
    fn run(&self, _writer: &mut TestWriter) -> Result<(), Fault> {
        Ok(())
    }
}

/// A probe that performs the given elemental write calls in order, ignoring
/// the returned counts.
struct Writes(Vec<Vec<u8>>);

impl WriteProbe for Writes {
    fn run(&self, writer: &mut TestWriter) -> Result<(), Fault> {
        for chunk in &self.0 {
            writer.write(chunk)?;
        }
        Ok(())
    }
}

/// A probe that performs the given full writes in order.
struct WriteAlls(Vec<Vec<u8>>);

impl WriteProbe for WriteAlls {
    fn run(&self, writer: &mut TestWriter) -> Result<(), Fault> {
        for chunk in &self.0 {
            writer.write_all(chunk)?;
        }
        Ok(())
    }
}

/// An elemental write of everything at once, then a full write of the rest.
struct WriteThenWriteAll(Vec<u8>, Vec<u8>);

impl WriteProbe for WriteThenWriteAll {
    fn run(&self, writer: &mut TestWriter) -> Result<(), Fault> {
        writer.write(&self.0)?;
        writer.write_all(&self.1)?;
        Ok(())
    }
}

fn failure_message(expected: &[u8], probe: &impl WriteProbe) -> String {
    let fault = test_write(expected, probe, false).unwrap_err();
    get_panic_message(&fault).unwrap().to_string()
}

#[test]
fn empty() {
    test_write(&[], &WritesNothing, false).unwrap();
}

#[test]
fn empty_write_past_end() {
    let msg = failure_message(&[], &Writes(vec![vec![42]]));
    assert_eq!(msg, "attempt to write more data than expected");
}

#[test]
fn empty_write_all_past_end() {
    let msg = failure_message(&[], &WriteAlls(vec![vec![42]]));
    assert_eq!(msg, "attempt to write more data than expected");
}

#[test]
fn one_byte_not_enoug() {
    let msg = failure_message(&[42], &WritesNothing);
    assert!(msg.starts_with(
        "too few bytes were written to the writer but it seems unrelated to partial writes"
    ));
}

#[test]
fn one_byte_write() {
    test_write(&[42], &Writes(vec![vec![42]]), false).unwrap();
}

#[test]
fn one_byte_write_all() {
    test_write(&[42], &WriteAlls(vec![vec![42]]), false).unwrap();
}

#[test]
fn one_byte_write_past_end() {
    let msg = failure_message(&[42], &Writes(vec![vec![42, 47]]));
    assert_eq!(msg, "attempt to write more data than expected");
}

#[test]
fn one_byte_write_all_past_end() {
    let msg = failure_message(&[42], &WriteAlls(vec![vec![42, 47]]));
    assert_eq!(msg, "attempt to write more data than expected");
}

#[test]
fn one_byte_write_past_end_two_writes() {
    let msg = failure_message(&[42], &Writes(vec![vec![42], vec![47]]));
    assert_eq!(msg, "attempt to write more data than expected");
}

#[test]
fn one_byte_write_past_end_two_write_all() {
    let msg = failure_message(&[42], &WriteAlls(vec![vec![42], vec![47]]));
    assert_eq!(msg, "attempt to write more data than expected");
}

#[test]
fn two_byte_write_all() {
    test_write(&[42, 47], &WriteAlls(vec![vec![42, 47]]), false).unwrap();
}

#[test]
fn two_bytes_two_writes() {
    test_write(&[42, 47], &Writes(vec![vec![42], vec![47]]), false).unwrap();
}

#[test]
fn two_bytes_two_write_all() {
    test_write(&[42, 47], &WriteAlls(vec![vec![42], vec![47]]), false).unwrap();
}

#[test]
fn two_bytes_unhandled_partial() {
    let msg = failure_message(&[42, 47], &Writes(vec![vec![42, 47]]));
    assert!(msg.starts_with("the write call at position 0 didn't handle partial write"));
    assert!(msg.contains("didn't handle partial write"));
}

#[test]
fn three_bytes_unhandled_partial() {
    let msg = failure_message(&[42, 47, 1], &WriteThenWriteAll(vec![42, 47], vec![1]));
    assert!(msg.starts_with("the write call at position 0 didn't handle partial write"));
}

#[test]
fn zero_byte_write_rejected() {
    let msg = failure_message(&[42], &Writes(vec![vec![]]));
    assert_eq!(
        msg,
        "attempt to write 0 bytes to the writer; probably unrelated to splitting"
    );
}

#[test]
fn mismatched_content_reported() {
    let msg = failure_message(&[42, 47], &Writes(vec![vec![13]]));
    assert!(msg.starts_with(
        "attempt to write unexpected data at pos 0, probably unrelated to partial writes\nexpected: [42]\nreceived: [13]\n"
    ));
}

#[test]
fn mismatch_after_progress_reports_position() {
    // One good byte, then garbage: the report names the position of the
    // mismatching call, not an unhandled partial write.
    let msg = failure_message(&[42, 47, 1], &Writes(vec![vec![42], vec![13]]));
    assert!(msg.starts_with(
        "attempt to write unexpected data at pos 1, probably unrelated to partial writes\nexpected: [47]\nreceived: [13]\n"
    ));
}

#[test]
fn partial_write_via_retry_passes() {
    // A probe that heeds the returned count and re-sends the remainder:
    // correct partial-write handling must pass.
    struct Retrying(Vec<u8>);
    impl WriteProbe for Retrying {
        fn run(&self, writer: &mut TestWriter) -> Result<(), Fault> {
            let mut sent = 0;
            while sent < self.0.len() {
                sent += writer.write(&self.0[sent..])?;
            }
            Ok(())
        }
    }
    test_write(&[42, 47, 1], &Retrying(vec![42, 47, 1]), false).unwrap();
}

#[test]
fn mixed_exact_writes_pass() {
    // Single-byte writes and full writes interleaved over the exact
    // expected sequence always succeed.
    struct Mixed;
    impl WriteProbe for Mixed {
        fn run(&self, writer: &mut TestWriter) -> Result<(), Fault> {
            writer.write(&[10])?;
            writer.write_all(&[20, 30])?;
            writer.write(&[40])?;
            writer.write_all(&[50])?;
            Ok(())
        }
    }
    test_write(&[10, 20, 30, 40, 50], &Mixed, false).unwrap();
}

#[test]
fn flush_is_accepted() {
    struct FlushingProbe;
    impl WriteProbe for FlushingProbe {
        fn run(&self, writer: &mut TestWriter) -> Result<(), Fault> {
            writer.write_all(&[42])?;
            writer.flush()?;
            Ok(())
        }
    }
    test_write(&[42], &FlushingProbe, false).unwrap();
}

#[test]
fn write_all_once_probe_passes() {
    let probe = io_check::write::WriteAllOnceProbe { data: vec![42, 47] };
    test_write(&[42, 47], &probe, false).unwrap();
}

#[test]
fn write_all_once_probe_mismatch_fails() {
    let probe = io_check::write::WriteAllOnceProbe { data: vec![13, 14] };
    let msg = failure_message(&[42, 47], &probe);
    assert!(msg.starts_with(
        "attempt to write unexpected data at pos 0, probably unrelated to partial writes\nexpected: [42, 47]\nreceived: [13, 14]\n"
    ));
}
