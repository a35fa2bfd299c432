use io_check::backtrace_impl::{capture, resolve, DisplayBacktrace, Snapshot};

#[test]
fn absent_snapshot_renders_unrelated_note() {
    let rendered = DisplayBacktrace::read().render(&None, false);
    assert_eq!(
        rendered,
        "no backtrace found - the problem is most likely unrelated to flaky IO"
    );
    let rendered = DisplayBacktrace::write().render(&None, true);
    assert_eq!(
        rendered,
        "no backtrace found - the problem is most likely unrelated to flaky IO"
    );
}

#[test]
fn capture_then_resolve_is_idempotent() {
    let mut storage: Option<Snapshot> = None;
    resolve(&mut storage);
    assert!(storage.is_none());

    capture(&mut storage);
    assert!(matches!(storage, Some(Snapshot::Unresolved(_))));

    resolve(&mut storage);
    assert!(matches!(storage, Some(Snapshot::Resolved(_))));

    resolve(&mut storage);
    assert!(matches!(storage, Some(Snapshot::Resolved(_))));
}

#[test]
fn present_snapshot_renders_nonempty_report() {
    let mut storage: Option<Snapshot> = None;
    capture(&mut storage);
    resolve(&mut storage);
    let rendered = DisplayBacktrace::read().render(&storage, false);
    // Non-verbose report over a present snapshot: either a culprit block
    // followed by the prompt, or the full dump when no culprit was found.
    assert!(
        rendered.ends_with("Set RUST_BACKTRACE=1 environment variable to see the full backtrace")
            || rendered.starts_with("backtrace:\n\n")
    );

    let rendered = DisplayBacktrace::write().render(&storage, true);
    // Verbose report: the dump is appended either way.
    assert!(rendered.contains("backtrace:\n\n"));
}
