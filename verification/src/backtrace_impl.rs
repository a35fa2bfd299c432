//! Lazily captured, lazily resolved call-stack evidence.
//!
//! A snapshot is taken cheaply (unresolved) at the moment the harness
//! suspects a mishandled split, and symbolized at most once, right before it
//! is displayed. Rendering scans the symbolized stack for the harness's own
//! read/write entry point; the next outer frame is reported as the most
//! likely culprit. The scan is inherently best-effort: inlining or tail-call
//! optimization can misattribute the culprit.

use vstd::prelude::*;

use crate::text::{dec_rep, push_dec, str_starts_with};

verus! {

#[verifier::external_type_specification]
#[verifier::external_body]
pub struct ExBacktrace(backtrace::Backtrace);

/// A captured call-stack snapshot, tagged by whether its raw addresses have
/// been symbolized yet. Resolution happens at most once: resolving an already
/// resolved snapshot leaves it untouched.
#[derive(Debug)]
pub enum Snapshot {
    Unresolved(backtrace::Backtrace),
    Resolved(backtrace::Backtrace),
}

/// One symbolized stack frame, reduced to plain values.
pub struct SymbolInfo {
    pub name: Option<String>,
    pub file: Option<String>,
    pub line: Option<u32>,
    pub column: Option<u32>,
}

/// Relies on `backtrace::Backtrace::new_unresolved`: captures the current
/// call stack without symbolizing it.
#[verifier::external_body]
fn bt_capture() -> backtrace::Backtrace {
    backtrace::Backtrace::new_unresolved()
}

/// Relies on `backtrace::Backtrace::resolve`: symbolizes all addresses in
/// place; on a backtrace that was already resolved it does nothing.
#[verifier::external_body]
fn bt_resolve(bt: &mut backtrace::Backtrace) {
    bt.resolve();
}

/// Relies on `backtrace::Backtrace::frames` and
/// `backtrace::BacktraceFrame::symbols` to walk the symbolized frames in call
/// order (innermost first), and on `backtrace::BacktraceSymbol`'s `name`,
/// `filename`, `lineno` and `colno` accessors, converting each symbol to
/// plain values. What comes back depends on the machine, the build and the
/// moment of capture, so nothing is stated about it.
#[verifier::external_body]
fn bt_symbol_infos(bt: &backtrace::Backtrace) -> Vec<SymbolInfo> {
    bt.frames()
        .iter()
        .flat_map(|f| f.symbols())
        .map(|s| SymbolInfo {
            name: s.name().map(|n| n.to_string()),
            file: s.filename().map(|p| p.display().to_string()),
            line: s.lineno(),
            column: s.colno(),
        })
        .collect()
}

/// Relies on `backtrace::Backtrace`'s `Debug` implementation to render the
/// full stack dump.
#[verifier::external_body]
fn bt_debug_text(bt: &backtrace::Backtrace) -> String {
    format!("{:?}", bt)
}

/// Records the current call stack, cheaply (unresolved), in `storage`.
///
/// This is the capture entry point used by the adversarial streams at the
/// moment of a suspicious call.
pub fn capture(storage: &mut Option<Snapshot>)
    ensures
        *final(storage) matches Some(b) && b is Unresolved,
{
    *storage = Some(Snapshot::Unresolved(bt_capture()));
}

/// Symbolizes the snapshot in place. A no-op on an absent snapshot; an
/// already resolved snapshot is left exactly as it was, so the
/// symbolization cost is paid at most once.
pub fn resolve(storage: &mut Option<Snapshot>)
    ensures
        *old(storage) is None ==> *final(storage) is None,
        *old(storage) matches Some(b) ==> {
            &&& *final(storage) matches Some(b2) && b2 is Resolved
            &&& b is Resolved ==> *final(storage) == *old(storage)
        },
{
    match storage.take() {
        None => {},
        Some(Snapshot::Unresolved(mut b)) => {
            bt_resolve(&mut b);
            *storage = Some(Snapshot::Resolved(b));
        },
        Some(Snapshot::Resolved(b)) => {
            *storage = Some(Snapshot::Resolved(b));
        },
    }
}

enum Operation {
    Read,
    Write,
}

/// Renders a snapshot as a human-readable report for a read or a write
/// failure.
pub struct DisplayBacktrace {
    operation: Operation,
}

/// Whether a symbol names the harness entry point the scan looks for.
pub open spec fn is_op_frame(s: SymbolInfo, prefix: Seq<char>) -> bool {
    s.name matches Some(n) && prefix.is_prefix_of(n@)
}

/// The index of the first frame at or after `i` whose symbol name starts
/// with `prefix`, if any.
pub open spec fn first_op_frame_from(syms: Seq<SymbolInfo>, prefix: Seq<char>, i: int) -> Option<
    int,
>
    decreases syms.len() - i,
{
    if i < 0 || i >= syms.len() {
        None
    } else if is_op_frame(syms[i], prefix) {
        Some(i)
    } else {
        first_op_frame_from(syms, prefix, i + 1)
    }
}

/// The most likely culprit: the frame right after the first frame that
/// names the harness entry point, when both exist.
pub open spec fn culprit_index(syms: Seq<SymbolInfo>, prefix: Seq<char>) -> Option<int> {
    match first_op_frame_from(syms, prefix, 0) {
        Some(j) => if j + 1 < syms.len() {
            Some(j + 1)
        } else {
            None
        },
        None => None,
    }
}

/// The culprit part of the report: the culprit's symbol name, then its
/// source location when the file is known, with line and column appended
/// when known. A culprit without a name prints nothing.
pub open spec fn culprit_block_rep(culprit: SymbolInfo) -> Seq<char> {
    match culprit.name {
        Some(name) => "*******\nMost likely culprit in "@ + name@ + "\n"@ + (match culprit.file {
            Some(file) => "    at "@ + file@ + (match culprit.line {
                Some(line) => ":"@ + dec_rep(line as nat) + (match culprit.column {
                    Some(column) => ":"@ + dec_rep(column as nat),
                    None => Seq::<char>::empty(),
                }),
                None => Seq::<char>::empty(),
            }) + "\n"@,
            None => Seq::<char>::empty(),
        }) + "*******\n"@,
        None => Seq::<char>::empty(),
    }
}

/// The report for a present snapshot, as a function of the flattened symbol
/// list (innermost first), the operation's entry-point prefix, the verbose
/// toggle, and the full dump text: when a culprit is found, its block,
/// followed by the full dump when verbose or by the prompt saying how to
/// enable it; the full dump alone when no culprit is found.
pub open spec fn report_rep(
    syms: Seq<SymbolInfo>,
    prefix: Seq<char>,
    verbose: bool,
    dump: Seq<char>,
) -> Seq<char> {
    match culprit_index(syms, prefix) {
        Some(ci) => culprit_block_rep(syms[ci]) + (if verbose {
            "backtrace:\n\n"@ + dump
        } else {
            "Set RUST_BACKTRACE=1 environment variable to see the full backtrace"@
        }),
        None => "backtrace:\n\n"@ + dump,
    }
}

/// The most likely culprit of the symbol list: the frame right after the
/// first frame whose symbol name starts with `prefix`, if both exist.
fn find_culprit(syms: &Vec<SymbolInfo>, prefix: &str) -> (r: Option<usize>)
    ensures
        match r {
            Some(i) => culprit_index(syms@, prefix@) == Some(i as int),
            None => culprit_index(syms@, prefix@) is None,
        },
{
    let mut i: usize = 0;
    while i < syms.len()
        invariant
            i <= syms@.len(),
            first_op_frame_from(syms@, prefix@, 0) == first_op_frame_from(
                syms@,
                prefix@,
                i as int,
            ),
        decreases syms@.len() - i,
    {
        let found = match &syms[i].name {
            Some(n) => str_starts_with(n.as_str(), prefix),
            None => false,
        };
        proof {
            assert(found == is_op_frame(syms@[i as int], prefix@));
        }
        if found {
            if i + 1 < syms.len() {
                return Some(i + 1);
            } else {
                return None;
            }
        }
        i += 1;
    }
    None
}

/// Appends the culprit block for one symbol to `out`.
fn push_culprit_block(out: &mut String, culprit: &SymbolInfo)
    ensures
        final(out)@ == old(out)@ + culprit_block_rep(*culprit),
{
    match &culprit.name {
        Some(name) => {
            out.append("*******\nMost likely culprit in ");
            out.append(name.as_str());
            out.append("\n");
            match &culprit.file {
                Some(file) => {
                    out.append("    at ");
                    out.append(file.as_str());
                    match culprit.line {
                        Some(line) => {
                            out.append(":");
                            push_dec(out, line as u64);
                            match culprit.column {
                                Some(column) => {
                                    out.append(":");
                                    push_dec(out, column as u64);
                                },
                                None => {},
                            }
                        },
                        None => {},
                    }
                    out.append("\n");
                },
                None => {},
            }
            out.append("*******\n");
            proof {
                assert(out@ =~= old(out)@ + culprit_block_rep(*culprit));
            }
        },
        None => {
            proof {
                assert(out@ =~= old(out)@ + culprit_block_rep(*culprit));
            }
        },
    }
}

impl DisplayBacktrace {
    /// The symbol-name prefix of the harness entry point whose caller the
    /// scan blames: the adversarial read for read failures, the adversarial
    /// write for write failures.
    pub closed spec fn entry_prefix(&self) -> Seq<char> {
        match self.operation {
            Operation::Read => "io_check::read::TestReader::read"@,
            Operation::Write => "io_check::write::TestWriter::write"@,
        }
    }

    /// A renderer for evidence captured by the adversarial reader.
    pub fn read() -> (r: DisplayBacktrace)
        ensures
            r.entry_prefix() == "io_check::read::TestReader::read"@,
    {
        DisplayBacktrace { operation: Operation::Read }
    }

    /// A renderer for evidence captured by the adversarial writer.
    pub fn write() -> (r: DisplayBacktrace)
        ensures
            r.entry_prefix() == "io_check::write::TestWriter::write"@,
    {
        DisplayBacktrace { operation: Operation::Write }
    }

    /// Produces the human-readable report for a snapshot.
    ///
    /// Without a snapshot, the report states that the failure is most likely
    /// unrelated to split I/O. With one, the symbolized frames are reduced to
    /// plain values and the output is `report_rep` of them: the symbol data
    /// depends on the machine and the build, so the contract fixes the
    /// output for every value the snapshot can yield without saying which
    /// one this machine yields.
    pub fn render(&self, storage: &Option<Snapshot>, verbose: bool) -> (r: String)
        ensures
            storage is None ==> r@
                == "no backtrace found - the problem is most likely unrelated to flaky IO"@,
            storage is Some ==> exists|syms: Seq<SymbolInfo>, dump: Seq<char>|
                r@ == #[trigger] report_rep(syms, self.entry_prefix(), verbose, dump),
    {
        match storage {
            None => String::from_str(
                "no backtrace found - the problem is most likely unrelated to flaky IO",
            ),
            Some(bt) => {
                let inner = match bt {
                    Snapshot::Unresolved(b) => b,
                    Snapshot::Resolved(b) => b,
                };
                let prefix = match self.operation {
                    Operation::Read => "io_check::read::TestReader::read",
                    Operation::Write => "io_check::write::TestWriter::write",
                };
                proof {
                    assert(prefix@ == self.entry_prefix());
                }
                let syms = bt_symbol_infos(inner);
                let mut out = String::new();
                match find_culprit(&syms, prefix) {
                    Some(ci) => {
                        push_culprit_block(&mut out, &syms[ci]);
                        if verbose {
                            out.append("backtrace:\n\n");
                            let dump = bt_debug_text(inner);
                            out.append(dump.as_str());
                            proof {
                                assert(out@ =~= report_rep(syms@, prefix@, verbose, dump@));
                            }
                        } else {
                            out.append(
                                "Set RUST_BACKTRACE=1 environment variable to see the full backtrace",
                            );
                            proof {
                                assert(out@ =~= report_rep(
                                    syms@,
                                    prefix@,
                                    verbose,
                                    Seq::<char>::empty(),
                                ));
                            }
                        }
                    },
                    None => {
                        out.append("backtrace:\n\n");
                        let dump = bt_debug_text(inner);
                        out.append(dump.as_str());
                        proof {
                            assert(out@ =~= report_rep(syms@, prefix@, verbose, dump@));
                        }
                    },
                }
                out
            },
        }
    }
}

} // verus!
