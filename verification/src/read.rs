//! Testing of byte-stream readers: the adversarial readers and the read
//! localization driver.
//!
//! The driver first runs the probe against a *breaking* reader, which serves
//! one byte per call and corrupts unread space, to detect mishandled short
//! reads. When that run faults, a *searching* sweep reruns the probe against
//! a reader split at each position in ascending order and reports the lowest
//! split that reproduces a fault, together with call-stack evidence captured
//! at the straddling read.

use vstd::prelude::*;
use vstd::slice::slice_to_vec;

use crate::backtrace_impl::{capture, resolve, DisplayBacktrace, Snapshot};
use crate::fault::{get_panic_message, Fault};
use crate::text::{dec_rep, push_dec, str_eq};

verus! {

/// The bitwise complement of a byte: the corrupted value the adversarial
/// readers plant in destination space that was not actually served.
pub open spec fn complement(b: u8) -> u8 {
    (255 - b) as u8
}

/// The mathematical state of a reader: the full input, the cursor, the mode,
/// and — in searching mode — the split position and whether evidence has been
/// captured.
pub struct ReaderView {
    pub data: Seq<u8>,
    pub pos: nat,
    pub breaking: bool,
    pub split: nat,
    pub captured: bool,
}

/// The state of a freshly constructed breaking-mode reader over `data`.
pub open spec fn breaking_view(data: Seq<u8>) -> ReaderView {
    ReaderView { data, pos: 0, breaking: true, split: 0, captured: false }
}

/// The state of a freshly constructed searching-mode reader over `data`,
/// split at `split`.
pub open spec fn searching_view(data: Seq<u8>, split: nat) -> ReaderView {
    ReaderView { data, pos: 0, breaking: false, split, captured: false }
}

/// Reader that splits input to test stream consumers.
///
/// In breaking mode every elemental `read` serves exactly one byte of
/// progress, and plants a corrupted byte in the second destination slot when
/// there is room, to surface "read more than you checked" bugs. In searching
/// mode the input is split at a fixed position; an elemental `read` whose
/// destination straddles the split captures call-stack evidence, corrupts the
/// first destination slot past the split, and serves an intentional short
/// read.
///
/// The full-consumption operations `read_exact` and `read_to_end` pass
/// through whole, since their contracts already guarantee complete transfers.
pub struct TestReader {
    input: Vec<u8>,
    pos: usize,
    breaking: bool,
    split: usize,
    backtrace: Option<Snapshot>,
}

impl View for TestReader {
    type V = ReaderView;

    closed spec fn view(&self) -> ReaderView {
        ReaderView {
            data: self.input@,
            pos: self.pos as nat,
            breaking: self.breaking,
            split: self.split as nat,
            captured: self.backtrace is Some,
        }
    }
}

/// Message of the fault raised when a breaking-mode read is handed an empty
/// destination: a caller usage error, faulted by design.
pub open spec fn empty_read_message() -> Seq<char> {
    "attempt to read into an empty buffer"@
}

/// Message of the fault raised when `read_exact` asks for more bytes than
/// remain.
pub open spec fn eof_message() -> Seq<char> {
    "failed to fill whole buffer"@
}

fn copy_into(buf: &mut Vec<u8>, src: &Vec<u8>, src_start: usize, count: usize)
    requires
        src_start + count <= src@.len(),
        count <= old(buf)@.len(),
    ensures
        final(buf)@.len() == old(buf)@.len(),
        forall|i: int| 0 <= i < count ==> final(buf)@[i] == src@[src_start + i],
        forall|i: int| count <= i < old(buf)@.len() ==> final(buf)@[i] == old(buf)@[i],
{
    let src_len: usize = src.len();
    let mut j: usize = 0;
    while j < count
        invariant
            j <= count,
            src_start + count <= src_len == src@.len(),
            count <= buf@.len(),
            buf@.len() == old(buf)@.len(),
            forall|i: int| 0 <= i < j ==> buf@[i] == src@[src_start + i],
            forall|i: int| j <= i < old(buf)@.len() ==> buf@[i] == old(buf)@[i],
        decreases count - j,
    {
        let b = src[src_start + j];
        buf.set(j, b);
        j += 1;
    }
}

impl TestReader {
    /// Everything the reader promises to maintain about its own state.
    pub closed spec fn wf(&self) -> bool {
        &&& self.pos <= self.input@.len()
        &&& !self.breaking ==> 1 <= self.split < self.input@.len()
        &&& self.breaking ==> self.split == 0 && self.backtrace is None
    }

    /// A breaking-mode reader over `input`.
    pub fn breaking(input: &[u8]) -> (r: TestReader)
        ensures
            r@ == breaking_view(input@),
            r.wf(),
    {
        TestReader {
            input: slice_to_vec(input),
            pos: 0,
            breaking: true,
            split: 0,
            backtrace: None,
        }
    }

    /// A searching-mode reader over `input`, split at `pos`.
    pub fn searching(input: &[u8], pos: usize) -> (r: TestReader)
        requires
            1 <= pos < input@.len(),
        ensures
            r@ == searching_view(input@, pos as nat),
            r.wf(),
    {
        TestReader {
            input: slice_to_vec(input),
            pos: 0,
            breaking: false,
            split: pos,
            backtrace: None,
        }
    }

    /// Hands the captured evidence out, consuming the reader.
    pub fn into_snapshot(self) -> (r: Option<Snapshot>)
        ensures
            r is Some <==> self@.captured,
    {
        self.backtrace
    }

    /// An elemental read into `buf`, returning how many bytes were served.
    ///
    /// Breaking mode: serves exactly one byte of progress (zero once the
    /// input is exhausted); when the destination has room for at least two
    /// bytes and more than one source byte remains, the second destination
    /// byte is corrupted with the complement of the byte that would stand
    /// there, without advancing past it. An empty destination is a usage
    /// error and faults by design.
    ///
    /// Searching mode: serves from the left segment until it is exhausted,
    /// then from the right. A destination that straddles the split captures
    /// evidence, corrupts the first destination slot past the split, and
    /// serves only the rest of the left segment.
    pub fn read(&mut self, buf: &mut Vec<u8>) -> (r: Result<usize, Fault>)
        requires
            old(self).wf(),
        ensures
            final(self).wf(),
            final(self)@.data == old(self)@.data,
            final(self)@.breaking == old(self)@.breaking,
            final(self)@.split == old(self)@.split,
            final(buf)@.len() == old(buf)@.len(),
            old(self)@.breaking ==> ({
                let data = old(self)@.data;
                let pos = old(self)@.pos;
                let n = old(buf)@.len();
                let rem = data.len() - pos;
                &&& final(self)@.captured == old(self)@.captured
                &&& if n == 0 {
                    &&& r matches Err(f) && f@ == Some(empty_read_message())
                    &&& final(self)@.pos == pos
                    &&& final(buf)@ == old(buf)@
                } else {
                    let served: int = if rem > 0 { 1 } else { 0 };
                    let corrupted = n > 1 && rem > 1;
                    &&& r == Ok::<usize, Fault>(served as usize)
                    &&& final(self)@.pos == pos + served
                    &&& served == 1 ==> final(buf)@[0] == data[pos as int]
                    &&& corrupted ==> final(buf)@[1] == complement(data[pos + 1 as int])
                    &&& forall|i: int|
                        0 <= i < n && !(i == 0 && served == 1) && !(i == 1 && corrupted)
                            ==> final(buf)@[i] == old(buf)@[i]
                }
            }),
            !old(self)@.breaking ==> ({
                let data = old(self)@.data;
                let pos = old(self)@.pos;
                let split = old(self)@.split;
                let n = old(buf)@.len();
                &&& if pos >= split {
                    let rem = data.len() - pos;
                    let served: int = if n <= rem { n as int } else { rem };
                    &&& r == Ok::<usize, Fault>(served as usize)
                    &&& final(self)@.pos == pos + served
                    &&& final(self)@.captured == old(self)@.captured
                    &&& forall|i: int| 0 <= i < served ==> final(buf)@[i] == data[pos + i]
                    &&& forall|i: int| served <= i < n ==> final(buf)@[i] == old(buf)@[i]
                } else if split - pos < n {
                    &&& r == Ok::<usize, Fault>((split - pos) as usize)
                    &&& final(self)@.pos == split
                    &&& final(self)@.captured
                    &&& forall|i: int| 0 <= i < split - pos ==> final(buf)@[i] == data[pos + i]
                    &&& final(buf)@[split - pos] == complement(data[split as int])
                    &&& forall|i: int|
                        split - pos < i < n ==> final(buf)@[i] == old(buf)@[i]
                } else {
                    &&& r == Ok::<usize, Fault>(n as usize)
                    &&& final(self)@.pos == pos + n
                    &&& final(self)@.captured == old(self)@.captured
                    &&& forall|i: int| 0 <= i < n ==> final(buf)@[i] == data[pos + i]
                }
            }),
    {
        if self.breaking {
            if buf.len() == 0 {
                return Err(Fault::with_message(String::from_str(
                    "attempt to read into an empty buffer",
                )));
            }
            let rem = self.input.len() - self.pos;
            if buf.len() > 1 && rem > 1 {
                let c = 255 - self.input[self.pos + 1];
                buf.set(1, c);
            }
            if rem > 0 {
                let b = self.input[self.pos];
                buf.set(0, b);
                self.pos = self.pos + 1;
                Ok(1)
            } else {
                Ok(0)
            }
        } else {
            if self.pos >= self.split {
                let rem = self.input.len() - self.pos;
                let served = if buf.len() <= rem { buf.len() } else { rem };
                copy_into(buf, &self.input, self.pos, served);
                self.pos = self.pos + served;
                Ok(served)
            } else {
                let left_rem = self.split - self.pos;
                if left_rem < buf.len() {
                    // If there is a problem it is caused by the call that
                    // straddles the split: capture evidence now, decide later
                    // whether to keep it.
                    capture(&mut self.backtrace);
                    let c = 255 - self.input[self.split];
                    buf.set(left_rem, c);
                    copy_into(buf, &self.input, self.pos, left_rem);
                    self.pos = self.split;
                    Ok(left_rem)
                } else {
                    copy_into(buf, &self.input, self.pos, buf.len());
                    self.pos = self.pos + buf.len();
                    Ok(buf.len())
                }
            }
        }
    }

    /// Fills `buf` whole, or faults when fewer bytes remain.
    ///
    /// Correct usage by its contract, so the breaking mode passes it through
    /// without byte-limiting. In searching mode a fill that crosses the split
    /// still captures evidence (the corrupted byte is overwritten by the
    /// bytes served after the split); when the input cannot fill the
    /// destination, everything remaining is consumed and an end-of-input
    /// fault is returned.
    pub fn read_exact(&mut self, buf: &mut Vec<u8>) -> (r: Result<(), Fault>)
        requires
            old(self).wf(),
        ensures
            final(self).wf(),
            final(self)@.data == old(self)@.data,
            final(self)@.breaking == old(self)@.breaking,
            final(self)@.split == old(self)@.split,
            final(buf)@.len() == old(buf)@.len(),
            old(self)@.breaking ==> ({
                let data = old(self)@.data;
                let pos = old(self)@.pos;
                let n = old(buf)@.len();
                &&& final(self)@.captured == old(self)@.captured
                &&& if n <= data.len() - pos {
                    &&& r is Ok
                    &&& final(self)@.pos == pos + n
                    &&& final(buf)@ == data.subrange(pos as int, pos + n as int)
                } else {
                    &&& r matches Err(f) && f@ == Some(eof_message())
                    &&& final(self)@.pos == pos
                    &&& final(buf)@ == old(buf)@
                }
            }),
            !old(self)@.breaking ==> ({
                let data = old(self)@.data;
                let pos = old(self)@.pos;
                let split = old(self)@.split;
                let n = old(buf)@.len();
                let rem = data.len() - pos;
                &&& if n <= rem {
                    &&& r is Ok
                    &&& final(self)@.pos == pos + n
                    &&& final(buf)@ == data.subrange(pos as int, pos + n as int)
                    &&& final(self)@.captured == (old(self)@.captured || (pos < split && pos + n
                        > split))
                } else {
                    &&& r matches Err(f) && f@ == Some(eof_message())
                    &&& final(self)@.pos == data.len()
                    &&& forall|i: int| 0 <= i < rem ==> final(buf)@[i] == data[pos + i]
                    &&& forall|i: int| rem <= i < n ==> final(buf)@[i] == old(buf)@[i]
                    &&& final(self)@.captured == (old(self)@.captured || pos < split)
                }
            }),
    {
        let rem = self.input.len() - self.pos;
        if self.breaking {
            if buf.len() <= rem {
                copy_into(buf, &self.input, self.pos, buf.len());
                self.pos = self.pos + buf.len();
                proof {
                    assert(buf@ =~= old(self)@.data.subrange(
                        old(self)@.pos as int,
                        old(self)@.pos + old(buf)@.len() as int,
                    ));
                }
                Ok(())
            } else {
                Err(Fault::with_message(String::from_str("failed to fill whole buffer")))
            }
        } else {
            if buf.len() <= rem {
                if self.pos < self.split && self.pos + buf.len() > self.split {
                    capture(&mut self.backtrace);
                }
                copy_into(buf, &self.input, self.pos, buf.len());
                self.pos = self.pos + buf.len();
                proof {
                    assert(buf@ =~= old(self)@.data.subrange(
                        old(self)@.pos as int,
                        old(self)@.pos + old(buf)@.len() as int,
                    ));
                }
                Ok(())
            } else {
                if self.pos < self.split {
                    capture(&mut self.backtrace);
                }
                copy_into(buf, &self.input, self.pos, rem);
                self.pos = self.input.len();
                Err(Fault::with_message(String::from_str("failed to fill whole buffer")))
            }
        }
    }

    /// Appends everything that remains to `buf` and consumes the input.
    ///
    /// Correct usage by its contract; in searching mode a call issued while
    /// the left segment is still unserved captures evidence as the straddling
    /// transfer does.
    pub fn read_to_end(&mut self, buf: &mut Vec<u8>) -> (r: Result<usize, Fault>)
        requires
            old(self).wf(),
        ensures
            final(self).wf(),
            final(self)@.data == old(self)@.data,
            final(self)@.breaking == old(self)@.breaking,
            final(self)@.split == old(self)@.split,
            final(buf)@ == old(buf)@ + old(self)@.data.skip(old(self)@.pos as int),
            r == Ok::<usize, Fault>((old(self)@.data.len() - old(self)@.pos) as usize),
            final(self)@.pos == old(self)@.data.len(),
            old(self)@.breaking ==> final(self)@.captured == old(self)@.captured,
            !old(self)@.breaking ==> final(self)@.captured == (old(self)@.captured || old(
                self,
            )@.pos < old(self)@.split),
    {
        if !self.breaking && self.pos < self.split {
            capture(&mut self.backtrace);
        }
        let count = self.input.len() - self.pos;
        let start = self.pos;
        let ghost buf0 = buf@;
        let mut j = start;
        proof {
            assert(buf@ =~= buf0 + self.input@.subrange(start as int, start as int));
        }
        while j < self.input.len()
            invariant
                start <= j <= self.input@.len(),
                buf@ == buf0 + self.input@.subrange(start as int, j as int),
            decreases self.input@.len() - j,
        {
            let b = self.input[j];
            buf.push(b);
            proof {
                assert(self.input@.subrange(start as int, j + 1 as int) =~= self.input@.subrange(
                    start as int,
                    j as int,
                ).push(self.input@[j as int]));
                assert(buf@ =~= buf0 + self.input@.subrange(start as int, j + 1 as int));
            }
            j = j + 1;
        }
        self.pos = self.input.len();
        proof {
            assert(buf@ =~= buf0 + self.input@.skip(start as int));
        }
        Ok(count)
    }
}

/// Caller-supplied logic under test: it consumes a reader and checks the
/// decoded values, raising a fault (instead of completing) when they are
/// wrong.
///
/// A probe must be pure: its outcome may depend on the state of the reader it
/// is handed and on nothing else, so that it tolerates being invoked
/// repeatedly, including after a prior invocation faulted, without retaining
/// corrupting state between invocations. That purity is what `outcome`
/// expresses, and what the localization sweep relies on.
pub trait ReadProbe {
    /// What the probe produces when handed a reader in state `r`: `None`
    /// when it completes normally, `Some(m)` when it raises a fault whose
    /// message is `m`. The default says nothing useful; a verified
    /// implementation overrides it with its actual behaviour.
    open spec fn outcome(&self, r: ReaderView) -> Option<Option<Seq<char>>> {
        None
    }

    /// Runs the probe once against the given reader.
    fn run(&self, reader: &mut TestReader) -> (r: Result<(), Fault>)
        requires
            old(reader).wf(),
        ensures
            final(reader).wf(),
            r is Ok <==> self.outcome(old(reader)@) is None,
            r matches Err(f) ==> self.outcome(old(reader)@) == Some(f@),
    ;
}

/// Message of the fault [`ExpectContentProbe`] raises when the decoded bytes
/// differ from the expected ones.
pub open spec fn content_mismatch_message() -> Seq<char> {
    "read content does not match the expected bytes"@
}

/// A ready-made probe: it drains the reader with `read_to_end` and faults
/// unless the bytes served equal the expected ones. Since `read_to_end`'s
/// full-consumption contract already guarantees everything is served, this
/// probe is correct usage and passes against every input equal to its
/// expectation.
pub struct ExpectContentProbe {
    pub expected: Vec<u8>,
}

impl ReadProbe for ExpectContentProbe {
    open spec fn outcome(&self, r: ReaderView) -> Option<Option<Seq<char>>> {
        if r.data.skip(r.pos as int) == self.expected@ {
            None
        } else {
            Some(Some(content_mismatch_message()))
        }
    }

    fn run(&self, reader: &mut TestReader) -> (r: Result<(), Fault>) {
        let mut buf: Vec<u8> = Vec::new();
        let served = reader.read_to_end(&mut buf);
        proof {
            assert(served is Ok);
            assert(buf@ =~= old(reader)@.data.skip(old(reader)@.pos as int));
        }
        if crate::text::bytes_eq(buf.as_slice(), self.expected.as_slice()) {
            Ok(())
        } else {
            Err(Fault::with_message(String::from_str(
                "read content does not match the expected bytes",
            )))
        }
    }
}

/// The lowest split position at or after `p` whose searching-mode run of the
/// probe faults, if any, positions running up to (and excluding) the length
/// of `data`.
pub open spec fn first_reproducing_from<P: ReadProbe>(probe: &P, data: Seq<u8>, p: int) -> Option<
    int,
>
    decreases data.len() - p,
{
    if p < 1 || p >= data.len() {
        None
    } else if probe.outcome(searching_view(data, p as nat)) is Some {
        Some(p)
    } else {
        first_reproducing_from(probe, data, p + 1)
    }
}

/// The lowest split position that reproduces a fault: what the searching
/// sweep reports.
pub open spec fn first_reproducing<P: ReadProbe>(probe: &P, data: Seq<u8>) -> Option<int> {
    first_reproducing_from(probe, data, 1)
}

proof fn lemma_first_reproducing_from_is_lowest<P: ReadProbe>(probe: &P, data: Seq<u8>, p: int)
    requires
        1 <= p,
    ensures
        match first_reproducing_from(probe, data, p) {
            Some(q) => {
                &&& p <= q < data.len()
                &&& probe.outcome(searching_view(data, q as nat)) is Some
                &&& forall|j: int|
                    p <= j < q ==> probe.outcome(#[trigger] searching_view(data, j as nat))
                        is None
            },
            None => forall|j: int|
                p <= j < data.len() ==> probe.outcome(
                    #[trigger] searching_view(data, j as nat),
                ) is None,
        },
    decreases data.len() - p,
{
    if 1 <= p < data.len() && probe.outcome(searching_view(data, p as nat)) is None {
        lemma_first_reproducing_from_is_lowest(probe, data, p + 1);
    }
}

/// Law: the searching sweep is deterministic and reports the *lowest*
/// reproducing split. When some split position makes the probe fault, the
/// reported position is a faulting one and every lower position runs clean;
/// when none is reported, no split position makes the probe fault. Since the
/// position is a function of the probe's outcomes alone, repeated runs
/// report the same position.
pub proof fn lemma_first_reproducing_is_lowest<P: ReadProbe>(probe: &P, data: Seq<u8>)
    ensures
        match first_reproducing(probe, data) {
            Some(q) => {
                &&& 1 <= q < data.len()
                &&& probe.outcome(searching_view(data, q as nat)) is Some
                &&& forall|j: int|
                    1 <= j < q ==> probe.outcome(#[trigger] searching_view(data, j as nat))
                        is None
            },
            None => forall|j: int|
                1 <= j < data.len() ==> probe.outcome(
                    #[trigger] searching_view(data, j as nat),
                ) is None,
        },
{
    lemma_first_reproducing_from_is_lowest(probe, data, 1);
}

proof fn lemma_first_reproducing_from_at<P: ReadProbe>(probe: &P, data: Seq<u8>, p: int, q: int)
    requires
        1 <= q <= p < data.len(),
        probe.outcome(searching_view(data, p as nat)) is Some,
        forall|j: int|
            q <= j < p ==> probe.outcome(#[trigger] searching_view(data, j as nat)) is None,
    ensures
        first_reproducing_from(probe, data, q) == Some(p),
    decreases p - q,
{
    if q < p {
        lemma_first_reproducing_from_at(probe, data, p, q + 1);
    }
}

/// Law: when some split position makes the probe fault and every lower
/// position runs clean, the sweep reports exactly that position. With the
/// probe that decodes the first two bytes correctly and then trusts a
/// two-byte read without checking the count, splits inside either correct
/// transfer run clean and the split straddled by the unchecked read faults,
/// so the sweep names that read's boundary.
pub proof fn lemma_first_reproducing_at<P: ReadProbe>(probe: &P, data: Seq<u8>, p: int)
    requires
        1 <= p < data.len(),
        probe.outcome(searching_view(data, p as nat)) is Some,
        forall|j: int|
            1 <= j < p ==> probe.outcome(#[trigger] searching_view(data, j as nat)) is None,
    ensures
        first_reproducing(probe, data) == Some(p),
{
    lemma_first_reproducing_from_at(probe, data, p, 1);
}

/// Test failure correlated to a split position: the fault the re-triggered
/// run raised, the lowest reproducing position, and the resolved evidence
/// captured during that run.
#[derive(Debug)]
pub struct FailureInfo {
    pub unwind: Fault,
    pub pos: usize,
    pub backtrace: Option<Snapshot>,
}

/// Test failure information: the fault of the original breaking-mode run,
/// and, when some split position reproduced a fault, the correlated details.
#[derive(Debug)]
pub struct Error {
    pub unwind: Fault,
    pub failure_info: Option<FailureInfo>,
}

/// The composed diagnostic message for a read failure that was correlated to
/// a split position, built from the original fault's message, the
/// re-triggered fault's message, the position, and the rendered evidence.
/// The four phrasings distinguish equal, differing, and unknown messages.
pub open spec fn read_failure_message(
    m1: Option<Seq<char>>,
    m2: Option<Seq<char>>,
    pos: nat,
    ev: Seq<char>,
) -> Seq<char> {
    match (m1, m2) {
        (Some(a), Some(b)) => if a == b {
            "test failed at position "@ + dec_rep(pos) + ": "@ + a + "\n"@ + ev
        } else {
            "test failed with message \""@ + a
                + "\" but a different message was encountered when breaking at position "@
                + dec_rep(pos) + ": "@ + b + "\n"@ + ev
        },
        (Some(a), None) => "test failed with message \""@ + a
            + "\" but a different panic with unknown message was encountered at position "@
            + dec_rep(pos) + "\n"@ + ev,
        (None, Some(b)) => "test failed with unknown message but a different panic was encountered at position "@
            + dec_rep(pos) + ": "@ + b + "\n"@ + ev,
        (None, None) => "test failed at position "@ + dec_rep(pos) + " with unknown messages\n"@
            + ev,
    }
}

/// The diagnostic message for a read failure that no split position
/// reproduced.
pub open spec fn unknown_position_message(m: Seq<char>) -> Seq<char> {
    "test failed at unknown position: "@ + m
}

impl Error {
    /// The message of the fault raised by the original breaking-mode run.
    pub fn panic_message1(&self) -> (r: Option<&str>)
        ensures
            match r {
                Some(s) => self.unwind@ == Some(s@),
                None => self.unwind@ is None,
            },
    {
        get_panic_message(&self.unwind)
    }

    /// The message of the fault raised by the reproducing searching-mode run.
    pub fn panic_message2(&self) -> (r: Option<&str>)
        ensures
            match self.failure_info {
                Some(info) => match r {
                    Some(s) => info.unwind@ == Some(s@),
                    None => info.unwind@ is None,
                },
                None => r is None,
            },
    {
        match &self.failure_info {
            Some(info) => get_panic_message(&info.unwind),
            None => None,
        }
    }

    /// The lowest split position that reproduced a fault, when one did.
    pub fn pos(&self) -> (r: Option<usize>)
        ensures
            match self.failure_info {
                Some(info) => r == Some(info.pos),
                None => r is None,
            },
    {
        match &self.failure_info {
            Some(info) => Some(info.pos),
            None => None,
        }
    }

    /// The fault re-raised by the top-level entry point: the composed
    /// diagnostic message when a split position was found, the
    /// unknown-position message when none was, and the original fault
    /// unchanged when it carried no message to compose with.
    pub fn into_fault(self, verbose: bool) -> (r: Fault)
        ensures
            match self.failure_info {
                Some(fi) => exists|ev: Seq<char>|
                    r@ == Some(
                        read_failure_message(self.unwind@, fi.unwind@, fi.pos as nat, ev),
                    ),
                None => match self.unwind@ {
                    Some(m) => r@ == Some(unknown_position_message(m)),
                    None => r@ is None,
                },
            },
    {
        let Error { unwind, failure_info } = self;
        match failure_info {
            Some(fi) => {
                let ev = DisplayBacktrace::read().render(&fi.backtrace, verbose);
                let m1 = get_panic_message(&unwind);
                let m2 = get_panic_message(&fi.unwind);
                let mut out = String::new();
                match (m1, m2) {
                    (Some(a), Some(b)) => {
                        if str_eq(a, b) {
                            out.append("test failed at position ");
                            push_dec(&mut out, fi.pos as u64);
                            out.append(": ");
                            out.append(a);
                            out.append("\n");
                            out.append(ev.as_str());
                        } else {
                            out.append("test failed with message \"");
                            out.append(a);
                            out.append(
                                "\" but a different message was encountered when breaking at position ",
                            );
                            push_dec(&mut out, fi.pos as u64);
                            out.append(": ");
                            out.append(b);
                            out.append("\n");
                            out.append(ev.as_str());
                        }
                    },
                    (Some(a), None) => {
                        out.append("test failed with message \"");
                        out.append(a);
                        out.append(
                            "\" but a different panic with unknown message was encountered at position ",
                        );
                        push_dec(&mut out, fi.pos as u64);
                        out.append("\n");
                        out.append(ev.as_str());
                    },
                    (None, Some(b)) => {
                        out.append(
                            "test failed with unknown message but a different panic was encountered at position ",
                        );
                        push_dec(&mut out, fi.pos as u64);
                        out.append(": ");
                        out.append(b);
                        out.append("\n");
                        out.append(ev.as_str());
                    },
                    (None, None) => {
                        out.append("test failed at position ");
                        push_dec(&mut out, fi.pos as u64);
                        out.append(" with unknown messages\n");
                        out.append(ev.as_str());
                    },
                }
                proof {
                    assert(out@ =~= read_failure_message(
                        unwind@,
                        fi.unwind@,
                        fi.pos as nat,
                        ev@,
                    ));
                }
                Fault::with_message(out)
            },
            None => {
                match get_panic_message(&unwind) {
                    Some(m) => {
                        let mut out = String::from_str("test failed at unknown position: ");
                        out.append(m);
                        proof {
                            assert(out@ =~= unknown_position_message(unwind@->0));
                        }
                        Fault::with_message(out)
                    },
                    None => unwind,
                }
            },
        }
    }
}

/// Tests whether the probe correctly handles split reads, reporting the
/// outcome as structured failure information.
///
/// The probe is first run through a breaking-mode reader; success means the
/// test passes. On a fault, every split position is retried in ascending
/// order, so the reported position is the lowest split that reproduces a
/// fault, and repeated runs of a pure probe report the same position. When no
/// position reproduces a fault, the original fault is reported alone.
pub fn test_read_no_panic<P: ReadProbe>(input: &[u8], probe: &P) -> (r: Result<(), Error>)
    requires
        input@.len() >= 2,
    ensures
        r is Ok <==> probe.outcome(breaking_view(input@)) is None,
        r matches Err(e) ==> {
            &&& probe.outcome(breaking_view(input@)) == Some(e.unwind@)
            &&& match first_reproducing(probe, input@) {
                Some(p) => {
                    &&& e.failure_info matches Some(fi)
                    &&& fi.pos == p
                    &&& probe.outcome(searching_view(input@, p as nat)) == Some(fi.unwind@)
                    &&& fi.backtrace matches Some(b) ==> b is Resolved
                },
                None => e.failure_info is None,
            }
        },
{
    let mut first_reader = TestReader::breaking(input);
    match probe.run(&mut first_reader) {
        Ok(()) => Ok(()),
        Err(first) => {
            // Skip splitting at zero and at the end: both are non-informative
            // boundaries.
            let mut pos: usize = 1;
            while pos < input.len()
                invariant
                    1 <= pos <= input@.len(),
                    input@.len() >= 2,
                    probe.outcome(breaking_view(input@)) == Some(first@),
                    first_reproducing(probe, input@) == first_reproducing_from(
                        probe,
                        input@,
                        pos as int,
                    ),
                decreases input@.len() - pos,
            {
                let mut reader = TestReader::searching(input, pos);
                match probe.run(&mut reader) {
                    Err(second) => {
                        let mut snapshot = reader.into_snapshot();
                        resolve(&mut snapshot);
                        return Err(
                            Error {
                                unwind: first,
                                failure_info: Some(
                                    FailureInfo { unwind: second, pos, backtrace: snapshot },
                                ),
                            },
                        );
                    },
                    Ok(()) => {
                        pos = pos + 1;
                    },
                }
            }
            Err(Error { unwind: first, failure_info: None })
        },
    }
}

/// Tests whether the probe correctly handles split reads.
///
/// This is the library's entry point for read testing. It returns normally
/// exactly when the probe completes normally against the breaking-mode
/// reader; otherwise it returns a fault carrying the composed diagnostic
/// message of the localization sweep. `verbose` selects whether rendered
/// evidence includes the full symbolized stack or only a prompt saying how
/// to enable it.
pub fn test_read<P: ReadProbe>(input: &[u8], probe: &P, verbose: bool) -> (r: Result<(), Fault>)
    requires
        input@.len() >= 2,
    ensures
        r is Ok <==> probe.outcome(breaking_view(input@)) is None,
        r matches Err(f) ==> ({
            &&& probe.outcome(breaking_view(input@)) matches Some(m1)
            &&& match first_reproducing(probe, input@) {
                Some(p) => probe.outcome(searching_view(input@, p as nat)) matches Some(m2)
                    && exists|ev: Seq<char>|
                    f@ == Some(#[trigger] read_failure_message(m1, m2, p as nat, ev)),
                None => match m1 {
                    Some(m) => f@ == Some(unknown_position_message(m)),
                    None => f@ is None,
                },
            }
        }),
{
    match test_read_no_panic(input, probe) {
        Ok(()) => Ok(()),
        Err(e) => Err(e.into_fault(verbose)),
    }
}

} // verus!
