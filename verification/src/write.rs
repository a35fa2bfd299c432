//! Testing of byte-stream writers: the adversarial writer and the write
//! localization driver.
//!
//! The writer compares bytes actually written against the expected sequence
//! one call at a time, accepts exactly one byte per elemental `write` (the
//! hardest way to stress partial-write handling), and keeps write statistics
//! so that the driver can decide, after the probe returns, whether a
//! shortfall is an unhandled partial write or an unrelated logic error.

use vstd::prelude::*;
use vstd::slice::{slice_subrange, slice_to_vec};

use crate::backtrace_impl::{capture, resolve, DisplayBacktrace, Snapshot};
use crate::fault::Fault;
use crate::text::{bytes_debug_rep, dec_rep, push_bytes_debug, push_dec};

verus! {

/// The kinds of defect the adversarial writer signals.
pub enum WriteFaultKind {
    /// More data than the expected sequence has left: caller usage error.
    TooMuchData,
    /// A zero-byte write: caller usage error, probably unrelated to
    /// splitting.
    ZeroWrite,
    /// The data is consistent with re-sending bytes that a previous call
    /// already partially accepted: that call, at the recorded position,
    /// did not handle a partial write.
    UnhandledPartial { pos: usize },
    /// The data does not match the expected bytes at all.
    Mismatch { pos: usize, expected: Vec<u8>, received: Vec<u8> },
}

/// The mathematical form of a signalled defect.
pub enum WriteFaultKindView {
    TooMuchData,
    ZeroWrite,
    UnhandledPartial { pos: nat },
    Mismatch { pos: nat, expected: Seq<u8>, received: Seq<u8> },
}

impl View for WriteFaultKind {
    type V = WriteFaultKindView;

    open spec fn view(&self) -> WriteFaultKindView {
        match self {
            WriteFaultKind::TooMuchData => WriteFaultKindView::TooMuchData,
            WriteFaultKind::ZeroWrite => WriteFaultKindView::ZeroWrite,
            WriteFaultKind::UnhandledPartial { pos } => WriteFaultKindView::UnhandledPartial {
                pos: *pos as nat,
            },
            WriteFaultKind::Mismatch { pos, expected, received } => WriteFaultKindView::Mismatch {
                pos: *pos as nat,
                expected: expected@,
                received: received@,
            },
        }
    }
}

/// Message of the usage fault for writing past the expected sequence.
pub open spec fn too_much_message() -> Seq<char> {
    "attempt to write more data than expected"@
}

/// Message of the usage fault for a zero-byte write.
pub open spec fn zero_write_message() -> Seq<char> {
    "attempt to write 0 bytes to the writer; probably unrelated to splitting"@
}

/// Message reporting that the write call at `pos` did not handle a partial
/// write, with rendered evidence `ev`.
pub open spec fn unhandled_partial_message(pos: nat, ev: Seq<char>) -> Seq<char> {
    "the write call at position "@ + dec_rep(pos) + " didn't handle partial write\n"@ + ev
}

/// Message reporting a content mismatch at `pos`, with both byte sequences
/// and rendered evidence `ev`.
pub open spec fn mismatch_message(
    pos: nat,
    expected: Seq<u8>,
    received: Seq<u8>,
    ev: Seq<char>,
) -> Seq<char> {
    "attempt to write unexpected data at pos "@ + dec_rep(pos)
        + ", probably unrelated to partial writes\nexpected: "@ + bytes_debug_rep(expected)
        + "\nreceived: "@ + bytes_debug_rep(received) + "\n"@ + ev
}

/// Message reporting that too few bytes were written in total, with the
/// shortfall unrelated to partial-write handling.
pub open spec fn too_few_message(ev: Seq<char>) -> Seq<char> {
    "too few bytes were written to the writer but it seems unrelated to partial writes\n"@ + ev
}

/// The message that a signalled defect of kind `k` carries, rendered with
/// evidence `ev` where the kind bears evidence.
pub open spec fn write_fault_message(k: WriteFaultKindView, ev: Seq<char>) -> Seq<char> {
    match k {
        WriteFaultKindView::TooMuchData => too_much_message(),
        WriteFaultKindView::ZeroWrite => zero_write_message(),
        WriteFaultKindView::UnhandledPartial { pos } => unhandled_partial_message(pos, ev),
        WriteFaultKindView::Mismatch { pos, expected, received } => mismatch_message(
            pos,
            expected,
            received,
            ev,
        ),
    }
}

/// The mathematical state of the writer: the expected sequence, the
/// cumulative accepted-byte count, the count of bytes unwritten but
/// acknowledged by the last call, whether evidence of an ambiguous call is
/// held, and the first defect signalled so far.
pub struct WriterView {
    pub expected: Seq<u8>,
    pub pos: nat,
    pub last_unwritten: nat,
    pub captured: bool,
    pub fault: Option<WriteFaultKindView>,
}

/// The state of a freshly constructed writer over `expected`.
pub open spec fn fresh_writer_view(expected: Seq<u8>) -> WriterView {
    WriterView { expected, pos: 0, last_unwritten: 0, captured: false, fault: None }
}

/// The defect, if any, that a write call with `data` signals in state `w`:
/// usage errors first, then the content check, which distinguishes data that
/// matches one position later (an unhandled partial write by the previous
/// call) from a plain mismatch.
pub open spec fn check_kind(w: WriterView, data: Seq<u8>) -> Option<WriteFaultKindView> {
    let rem = w.expected.len() - w.pos;
    if data.len() > rem {
        Some(WriteFaultKindView::TooMuchData)
    } else if data.len() == 0 {
        Some(WriteFaultKindView::ZeroWrite)
    } else if data != w.expected.subrange(w.pos as int, w.pos + data.len() as int) {
        if w.last_unwritten + data.len() <= rem && data == w.expected.subrange(
            w.pos + w.last_unwritten as int,
            w.pos + w.last_unwritten + data.len() as int,
        ) {
            Some(WriteFaultKindView::UnhandledPartial { pos: (w.pos - 1) as nat })
        } else {
            Some(
                WriteFaultKindView::Mismatch {
                    pos: w.pos,
                    expected: w.expected.subrange(w.pos as int, w.pos + data.len() as int),
                    received: data,
                },
            )
        }
    } else {
        None
    }
}

/// Whether evidence is held after the check: a generic content mismatch
/// blames the current call, so a fresh snapshot is captured for it; every
/// other outcome leaves the held evidence as it was.
pub open spec fn check_captured(w: WriterView, data: Seq<u8>) -> bool {
    if check_kind(w, data) matches Some(k) && k is Mismatch {
        true
    } else {
        w.captured
    }
}

/// The writer state after an elemental `write` with `data`: on a defect the
/// state is unchanged but for recording the first defect (and, on a generic
/// mismatch, holding evidence of the current call); on success one byte is
/// accepted, the unacknowledged rest is remembered, and evidence is held
/// exactly when the call asked for more than one byte.
pub open spec fn write_step(w: WriterView, data: Seq<u8>) -> WriterView {
    match check_kind(w, data) {
        Some(k) => WriterView {
            fault: if w.fault is Some {
                w.fault
            } else {
                Some(k)
            },
            captured: check_captured(w, data),
            ..w
        },
        None => WriterView {
            pos: w.pos + 1,
            last_unwritten: (data.len() - 1) as nat,
            captured: data.len() > 1,
            ..w
        },
    }
}

/// The writer state after a `write_all` with `data`: full consumption, so on
/// success the whole length is accepted, nothing is left unacknowledged, and
/// no evidence is held.
pub open spec fn write_all_step(w: WriterView, data: Seq<u8>) -> WriterView {
    match check_kind(w, data) {
        Some(k) => WriterView {
            fault: if w.fault is Some {
                w.fault
            } else {
                Some(k)
            },
            captured: check_captured(w, data),
            ..w
        },
        None => WriterView { pos: w.pos + data.len(), last_unwritten: 0, captured: false, ..w },
    }
}

struct RecordedFault {
    kind: WriteFaultKind,
    fault: Fault,
}

/// Write stats used to diagnose issues: mutated exclusively by the writer
/// during a single probe invocation; each invocation gets a fresh instance.
struct WriteStats {
    pos: usize,
    last_call: Option<Snapshot>,
    last_unwritten: usize,
    first_fault: Option<RecordedFault>,
}

impl WriteStats {
    /// The report for a call that did not handle a partial write. A previous
    /// write must exist, or the shortfall could not have been unhandled.
    fn emit_unhandled_partial_write(&self, verbose: bool) -> (r: Fault)
        requires
            self.pos >= 1,
        ensures
            exists|ev: Seq<char>|
                r@ == Some(#[trigger] unhandled_partial_message((self.pos - 1) as nat, ev)),
    {
        let ev = DisplayBacktrace::write().render(&self.last_call, verbose);
        let mut out = String::new();
        out.append("the write call at position ");
        push_dec(&mut out, (self.pos - 1) as u64);
        out.append(" didn't handle partial write\n");
        out.append(ev.as_str());
        proof {
            assert(out@ =~= unhandled_partial_message((self.pos - 1) as nat, ev@));
        }
        Fault::with_message(out)
    }

    /// Must be called before a snapshot is displayed for the first time.
    fn resolve_backtrace(&mut self)
        ensures
            final(self).last_call is Some <==> old(self).last_call is Some,
            final(self).pos == old(self).pos,
            final(self).last_unwritten == old(self).last_unwritten,
            final(self).first_fault == old(self).first_fault,
    {
        resolve(&mut self.last_call);
    }
}

/// Writer that checks written bytes against the expected sequence to test
/// stream producers.
///
/// Each elemental `write` accepts exactly one byte of progress; `write_all`
/// accepts everything, since its contract guarantees full consumption. The
/// bytes of every call are checked against the expected sequence at the
/// current position, and defects are signalled as faults.
pub struct TestWriter {
    expected: Vec<u8>,
    stats: WriteStats,
    verbose: bool,
}

impl View for TestWriter {
    type V = WriterView;

    closed spec fn view(&self) -> WriterView {
        WriterView {
            expected: self.expected@,
            pos: self.stats.pos as nat,
            last_unwritten: self.stats.last_unwritten as nat,
            captured: self.stats.last_call is Some,
            fault: match self.stats.first_fault {
                Some(rf) => Some(rf.kind@),
                None => None,
            },
        }
    }
}

fn bytes_match_at(expected: &Vec<u8>, start: usize, data: &[u8]) -> (r: bool)
    requires
        start + data@.len() <= expected@.len(),
    ensures
        r == (data@ == expected@.subrange(start as int, start + data@.len())),
{
    let e_len: usize = expected.len();
    let mut i: usize = 0;
    while i < data.len()
        invariant
            i <= data@.len(),
            start + data@.len() <= e_len == expected@.len(),
            forall|j: int| 0 <= j < i ==> data@[j] == expected@[start + j],
        decreases data@.len() - i,
    {
        if data[i] != expected[start + i] {
            proof {
                assert(data@[i as int] != expected@.subrange(
                    start as int,
                    start + data@.len(),
                )[i as int]);
            }
            return false;
        }
        i += 1;
    }
    proof {
        assert(data@ =~= expected@.subrange(start as int, start + data@.len()));
    }
    true
}

impl TestWriter {
    /// Everything the writer promises to maintain about its own state: the
    /// accepted count never passes the expected length, nothing can be left
    /// unacknowledged before a first write, the unacknowledged count never
    /// passes what remains, and the first recorded fault carries the message
    /// of its kind.
    pub closed spec fn wf(&self) -> bool {
        &&& self.stats.pos <= self.expected@.len()
        &&& self.stats.pos == 0 ==> self.stats.last_unwritten == 0
        &&& self.stats.last_unwritten <= self.expected@.len() - self.stats.pos
        &&& match self.stats.first_fault {
            Some(rf) => exists|ev: Seq<char>|
                rf.fault@ == Some(write_fault_message(rf.kind@, ev)),
            None => true,
        }
    }

    /// A fresh writer over `expected`. `verbose` selects whether evidence
    /// rendered into fault messages includes the full symbolized stack.
    pub fn new(expected: &[u8], verbose: bool) -> (r: TestWriter)
        ensures
            r@ == fresh_writer_view(expected@),
            r.wf(),
    {
        TestWriter {
            expected: slice_to_vec(expected),
            stats: WriteStats { pos: 0, last_call: None, last_unwritten: 0, first_fault: None },
            verbose,
        }
    }

    /// Records the first signalled defect and hands the fault back.
    fn record_fault(&mut self, kind: WriteFaultKind, fault: Fault) -> (r: Fault)
        requires
            old(self).wf(),
            exists|ev: Seq<char>| fault@ == Some(write_fault_message(kind@, ev)),
        ensures
            final(self).wf(),
            r@ == fault@,
            final(self)@ == (WriterView {
                fault: if old(self)@.fault is Some {
                    old(self)@.fault
                } else {
                    Some(kind@)
                },
                ..old(self)@
            }),
    {
        let out = fault.duplicate();
        if self.stats.first_fault.is_none() {
            self.stats.first_fault = Some(RecordedFault { kind, fault });
        }
        out
    }

    /// Checks that the data about to be written is expected, signalling the
    /// defect otherwise.
    fn check_write(&mut self, data: &[u8]) -> (r: Option<Fault>)
        requires
            old(self).wf(),
        ensures
            final(self).wf(),
            r is None <==> check_kind(old(self)@, data@) is None,
            r matches Some(f) ==> (check_kind(old(self)@, data@) matches Some(k) && exists|
                ev: Seq<char>,
            | f@ == Some(write_fault_message(k, ev))),
            final(self)@ == (WriterView {
                fault: if old(self)@.fault is Some {
                    old(self)@.fault
                } else {
                    check_kind(old(self)@, data@)
                },
                captured: check_captured(old(self)@, data@),
                ..old(self)@
            }),
    {
        let rem = self.expected.len() - self.stats.pos;
        if data.len() > rem {
            let fault = Fault::with_message(String::from_str(
                "attempt to write more data than expected",
            ));
            let kind = WriteFaultKind::TooMuchData;
            proof {
                assert(fault@ == Some(write_fault_message(kind@, Seq::<char>::empty())));
            }
            return Some(self.record_fault(kind, fault));
        }
        if data.len() == 0 {
            let fault = Fault::with_message(String::from_str(
                "attempt to write 0 bytes to the writer; probably unrelated to splitting",
            ));
            let kind = WriteFaultKind::ZeroWrite;
            proof {
                assert(fault@ == Some(write_fault_message(kind@, Seq::<char>::empty())));
            }
            return Some(self.record_fault(kind, fault));
        }
        if !bytes_match_at(&self.expected, self.stats.pos, data) {
            let offset_matches = data.len() <= rem - self.stats.last_unwritten
                && bytes_match_at(&self.expected, self.stats.pos + self.stats.last_unwritten, data);
            if offset_matches {
                // The previous call's position and evidence are the report.
                self.stats.resolve_backtrace();
                proof {
                    // A first write must exist: with none, nothing was left
                    // unacknowledged, and matching one position later would
                    // be matching in place.
                    if self.stats.pos == 0 {
                        assert(data@ == old(self)@.expected.subrange(
                            old(self)@.pos as int,
                            old(self)@.pos + data@.len() as int,
                        ));
                        assert(false);
                    }
                }
                let fault = self.stats.emit_unhandled_partial_write(self.verbose);
                let kind = WriteFaultKind::UnhandledPartial { pos: self.stats.pos - 1 };
                proof {
                    let ev0 = choose|ev: Seq<char>|
                        fault@ == Some(
                            #[trigger] unhandled_partial_message((self.stats.pos - 1) as nat, ev),
                        );
                    assert(fault@ == Some(write_fault_message(kind@, ev0)));
                }
                return Some(self.record_fault(kind, fault));
            } else {
                // A generic mismatch carries evidence of the current call.
                capture(&mut self.stats.last_call);
                self.stats.resolve_backtrace();
                let ev = DisplayBacktrace::write().render(&self.stats.last_call, self.verbose);
                let expected_part = slice_subrange(
                    self.expected.as_slice(),
                    self.stats.pos,
                    self.stats.pos + data.len(),
                );
                let mut out = String::from_str("attempt to write unexpected data at pos ");
                push_dec(&mut out, self.stats.pos as u64);
                out.append(", probably unrelated to partial writes\nexpected: ");
                push_bytes_debug(&mut out, expected_part);
                out.append("\nreceived: ");
                push_bytes_debug(&mut out, data);
                out.append("\n");
                out.append(ev.as_str());
                let kind = WriteFaultKind::Mismatch {
                    pos: self.stats.pos,
                    expected: slice_to_vec(expected_part),
                    received: slice_to_vec(data),
                };
                proof {
                    assert(out@ =~= mismatch_message(
                        old(self)@.pos,
                        old(self)@.expected.subrange(
                            old(self)@.pos as int,
                            old(self)@.pos + data@.len() as int,
                        ),
                        data@,
                        ev@,
                    ));
                }
                let fault = Fault::with_message(out);
                proof {
                    assert(fault@ == Some(write_fault_message(kind@, ev@)));
                }
                return Some(self.record_fault(kind, fault));
            }
        }
        None
    }

    /// An elemental write: checks `data` against the expected sequence and,
    /// on success, reports exactly one byte of progress back — deliberately
    /// minimal, to stress partial-write handling the hardest way. Evidence is
    /// held exactly when more than one byte was handed in, since a future
    /// mismatch may need to blame this call; the accepted count only grows.
    pub fn write(&mut self, data: &[u8]) -> (r: Result<usize, Fault>)
        requires
            old(self).wf(),
        ensures
            final(self).wf(),
            final(self)@ == write_step(old(self)@, data@),
            check_kind(old(self)@, data@) is None <==> r == Ok::<usize, Fault>(1usize),
            check_kind(old(self)@, data@) is Some <==> r is Err,
            r matches Err(f) ==> (check_kind(old(self)@, data@) matches Some(k) && exists|
                ev: Seq<char>,
            | f@ == Some(write_fault_message(k, ev))),
    {
        match self.check_write(data) {
            Some(f) => Err(f),
            None => {
                if data.len() == 1 {
                    // Erase the snapshot: returning exactly the accepted
                    // count is correct usage and needs no diagnosis.
                    self.stats.last_call = None;
                } else {
                    capture(&mut self.stats.last_call);
                }
                self.stats.last_unwritten = data.len() - 1;
                let total = self.expected.len();
                proof {
                    assert(self.stats.pos < total);
                }
                self.stats.pos = self.stats.pos + 1;
                Ok(1)
            },
        }
    }

    /// A full write: checks `data` and, on success, accepts it whole. Its
    /// contract leaves no partial-write ambiguity, so evidence is cleared.
    pub fn write_all(&mut self, data: &[u8]) -> (r: Result<(), Fault>)
        requires
            old(self).wf(),
        ensures
            final(self).wf(),
            final(self)@ == write_all_step(old(self)@, data@),
            check_kind(old(self)@, data@) is None <==> r is Ok,
            r matches Err(f) ==> (check_kind(old(self)@, data@) matches Some(k) && exists|
                ev: Seq<char>,
            | f@ == Some(write_fault_message(k, ev))),
    {
        match self.check_write(data) {
            Some(f) => Err(f),
            None => {
                self.stats.last_unwritten = 0;
                // Erase the snapshot: full consumption is correct usage.
                self.stats.last_call = None;
                let total = self.expected.len();
                proof {
                    assert(self.stats.pos + data@.len() <= total);
                }
                self.stats.pos = self.stats.pos + data.len();
                Ok(())
            },
        }
    }

    /// Accepts a flush without effect on the checked state.
    pub fn flush(&mut self) -> (r: Result<(), Fault>)
        requires
            old(self).wf(),
        ensures
            final(self).wf(),
            final(self)@ == old(self)@,
            r is Ok,
    {
        Ok(())
    }
}

/// Caller-supplied logic under test: it writes its output through the given
/// writer, raising (or propagating) a fault instead of completing when
/// something is wrong.
///
/// A probe must be pure: the writer state it leaves behind and its result
/// may depend on the state of the writer it is handed and on nothing else.
/// When the writer itself signalled a defect, only the shape of the probe's
/// result is pinned down, since the fault it propagates carries rendered
/// evidence.
pub trait WriteProbe {
    /// What the probe does when handed a writer in state `w`: the writer
    /// state it leaves behind, and `None` when it completes normally or
    /// `Some(m)` when it raises a fault whose message is `m`. The default
    /// says nothing useful; a verified implementation overrides it with its
    /// actual behaviour.
    open spec fn outcome(&self, w: WriterView) -> (WriterView, Option<Option<Seq<char>>>) {
        (w, None)
    }

    /// Runs the probe once against the given writer.
    fn run(&self, writer: &mut TestWriter) -> (r: Result<(), Fault>)
        requires
            old(writer).wf(),
        ensures
            final(writer).wf(),
            final(writer)@ == self.outcome(old(writer)@).0,
            final(writer)@.expected == old(writer)@.expected,
            r is Ok <==> self.outcome(old(writer)@).1 is None,
            final(writer)@.fault is None ==> (r matches Err(f) ==> self.outcome(old(writer)@).1
                == Some(f@)),
    ;
}

/// A ready-made probe: it produces its bytes in one `write_all` call, whose
/// full-consumption contract leaves no partial-write ambiguity. Handed a
/// fresh writer whose expected sequence equals its data, it always passes.
pub struct WriteAllOnceProbe {
    pub data: Vec<u8>,
}

impl WriteProbe for WriteAllOnceProbe {
    open spec fn outcome(&self, w: WriterView) -> (WriterView, Option<Option<Seq<char>>>) {
        (
            write_all_step(w, self.data@),
            match check_kind(w, self.data@) {
                Some(_) => Some(None),
                None => None,
            },
        )
    }

    fn run(&self, writer: &mut TestWriter) -> (r: Result<(), Fault>) {
        match writer.write_all(self.data.as_slice()) {
            Ok(()) => Ok(()),
            Err(f) => Err(f),
        }
    }
}

/// Tests whether the probe correctly produces exactly the expected bytes,
/// handling partial acceptance.
///
/// This is the library's entry point for write testing. The probe runs once;
/// writes are checked incrementally, so the first defect the writer signals
/// is reported. When the probe completes without a defect but accepted fewer
/// bytes than expected, the shortfall is diagnosed after the fact: a gap
/// exactly equal to what the final call left unacknowledged means that call
/// did not handle a partial write; anything else is reported as unrelated to
/// partial writes. `verbose` selects whether rendered evidence includes the
/// full symbolized stack.
pub fn test_write<P: WriteProbe>(expected: &[u8], probe: &P, verbose: bool) -> (r: Result<
    (),
    Fault,
>)
    ensures
        ({
            let (wv, res) = probe.outcome(fresh_writer_view(expected@));
            &&& (r is Ok <==> (wv.fault is None && res is None && wv.pos == expected@.len()))
            &&& (wv.fault matches Some(k) ==> r matches Err(f) && exists|ev: Seq<char>|
                f@ == Some(#[trigger] write_fault_message(k, ev)))
            &&& (wv.fault is None && res is Some ==> (r matches Err(f) && Some(f@) == res))
            &&& (wv.fault is None && res is None && wv.pos < expected@.len() ==> (r matches Err(f)
                && (if wv.last_unwritten == expected@.len() - wv.pos {
                exists|ev: Seq<char>|
                    f@ == Some(
                        #[trigger] unhandled_partial_message((wv.pos - 1) as nat, ev),
                    )
            } else {
                exists|ev: Seq<char>| f@ == Some(#[trigger] too_few_message(ev))
            })))
        }),
{
    let mut writer = TestWriter::new(expected, verbose);
    let run_result = probe.run(&mut writer);
    let TestWriter { expected: expected_vec, stats: mut stats, verbose: _ } = writer;
    let result: Result<(), Fault> = match stats.first_fault {
        Some(rf) => {
            proof {
                let ev0 = choose|ev: Seq<char>|
                    rf.fault@ == Some(#[trigger] write_fault_message(rf.kind@, ev));
                assert(rf.fault@ == Some(write_fault_message(rf.kind@, ev0)));
            }
            Err(rf.fault)
        },
        None => match run_result {
            Err(f) => Err(f),
            Ok(()) => {
                if stats.pos < expected_vec.len() {
                    stats.resolve_backtrace();
                    if stats.last_unwritten == expected_vec.len() - stats.pos {
                        Err(stats.emit_unhandled_partial_write(verbose))
                    } else {
                        let ev = DisplayBacktrace::write().render(&stats.last_call, verbose);
                        let mut out = String::from_str(
                            "too few bytes were written to the writer but it seems unrelated to partial writes\n",
                        );
                        out.append(ev.as_str());
                        proof {
                            assert(out@ =~= too_few_message(ev@));
                        }
                        Err(Fault::with_message(out))
                    }
                } else {
                    Ok(())
                }
            },
        },
    };
    result
}

/// Whether a plan of write calls tiles the expected sequence exactly from
/// `at` on. Each planned call is a pair: `true` selects a full write through
/// `write_all`, `false` an elemental single-byte `write`; the second
/// component is the data handed in.
pub open spec fn chunks_valid(expected: Seq<u8>, at: int, chunks: Seq<(bool, Seq<u8>)>) -> bool
    decreases chunks.len(),
{
    if chunks.len() == 0 {
        true
    } else {
        let c = chunks[0];
        &&& c.1.len() > 0
        &&& !c.0 ==> c.1.len() == 1
        &&& at + c.1.len() <= expected.len()
        &&& c.1 == expected.subrange(at, at + c.1.len() as int)
        &&& chunks_valid(expected, at + c.1.len() as int, chunks.drop_first())
    }
}

/// The total number of bytes the planned calls hand in.
pub open spec fn chunks_total(chunks: Seq<(bool, Seq<u8>)>) -> nat
    decreases chunks.len(),
{
    if chunks.len() == 0 {
        0
    } else {
        chunks[0].1.len() + chunks_total(chunks.drop_first())
    }
}

/// The writer state after performing the planned calls in order.
pub open spec fn run_chunks(w: WriterView, chunks: Seq<(bool, Seq<u8>)>) -> WriterView
    decreases chunks.len(),
{
    if chunks.len() == 0 {
        w
    } else {
        let c = chunks[0];
        let w1 = if c.0 {
            write_all_step(w, c.1)
        } else {
            write_step(w, c.1)
        };
        run_chunks(w1, chunks.drop_first())
    }
}

/// Law: writing the exact expected sequence through any combination of
/// single-byte elemental writes and full `write_all` calls is always
/// accepted — no defect is ever signalled, and the accepted count advances
/// by everything handed in. Together with `test_write`'s contract, a probe
/// that writes this way and covers the whole expected sequence always
/// passes.
pub proof fn lemma_exact_writes_accepted(w: WriterView, chunks: Seq<(bool, Seq<u8>)>)
    requires
        w.fault is None,
        w.pos <= w.expected.len(),
        chunks_valid(w.expected, w.pos as int, chunks),
    ensures
        ({
            let w2 = run_chunks(w, chunks);
            &&& w2.fault is None
            &&& w2.expected == w.expected
            &&& w2.pos == w.pos + chunks_total(chunks)
            &&& w2.pos <= w.expected.len()
            &&& chunks.len() > 0 ==> w2.last_unwritten == 0
            &&& chunks.len() == 0 ==> w2 == w
        }),
    decreases chunks.len(),
{
    if chunks.len() > 0 {
        let c = chunks[0];
        assert(check_kind(w, c.1) is None);
        let w1 = if c.0 {
            write_all_step(w, c.1)
        } else {
            write_step(w, c.1)
        };
        lemma_exact_writes_accepted(w1, chunks.drop_first());
    }
}

/// Law: the accepted-byte count only increases within an invocation — no
/// write call, whatever its data and outcome, moves it backwards.
pub proof fn lemma_accepted_count_only_grows(w: WriterView, data: Seq<u8>)
    ensures
        write_step(w, data).pos >= w.pos,
        write_all_step(w, data).pos >= w.pos,
{
}

/// Whether `needle` occurs as a contiguous part of `hay`.
pub open spec fn contains_subrange(hay: Seq<char>, needle: Seq<char>) -> bool {
    exists|i: int|
        0 <= i && i + needle.len() <= hay.len() && #[trigger] hay.subrange(
            i,
            i + needle.len() as int,
        ) == needle
}

/// Law: content that matches the expected bytes one position later — a
/// re-send of bytes that a previous call already partially accepted — is
/// classified as that previous call's unhandled partial write. The defect
/// names the previous position, and by `write`'s and `write_all`'s
/// contracts the fault returned and recorded carries
/// `unhandled_partial_message` for that position, which contains
/// "didn't handle partial write" whatever evidence is rendered.
pub proof fn lemma_skipped_byte_reports_unhandled_partial(
    w: WriterView,
    data: Seq<u8>,
    ev: Seq<char>,
)
    requires
        0 < data.len(),
        w.pos + data.len() <= w.expected.len(),
        w.last_unwritten > 0,
        w.pos == 0 ==> w.last_unwritten == 0,
        w.last_unwritten + data.len() <= w.expected.len() - w.pos,
        data != w.expected.subrange(w.pos as int, w.pos + data.len() as int),
        data == w.expected.subrange(
            w.pos + w.last_unwritten as int,
            w.pos + w.last_unwritten + data.len() as int,
        ),
    ensures
        check_kind(w, data) == Some(
            WriteFaultKindView::UnhandledPartial { pos: (w.pos - 1) as nat },
        ),
        write_fault_message(
            WriteFaultKindView::UnhandledPartial { pos: (w.pos - 1) as nat },
            ev,
        ) == unhandled_partial_message((w.pos - 1) as nat, ev),
        contains_subrange(
            unhandled_partial_message((w.pos - 1) as nat, ev),
            "didn't handle partial write"@,
        ),
{
    lemma_unhandled_partial_message_names_defect((w.pos - 1) as nat, ev);
}

/// Law: every report of an unhandled partial write names the defect — the
/// message contains "didn't handle partial write", whatever the position
/// and the rendered evidence.
pub proof fn lemma_unhandled_partial_message_names_defect(pos: nat, ev: Seq<char>)
    ensures
        contains_subrange(unhandled_partial_message(pos, ev), "didn't handle partial write"@),
{
    reveal_strlit("the write call at position ");
    reveal_strlit(" didn't handle partial write\n");
    reveal_strlit("didn't handle partial write");
    let msg = unhandled_partial_message(pos, ev);
    let head = "the write call at position "@ + dec_rep(pos);
    let needle = "didn't handle partial write"@;
    let i = head.len() + 1;
    assert(msg.subrange(i as int, i + needle.len() as int) =~= needle);
}

} // verus!
