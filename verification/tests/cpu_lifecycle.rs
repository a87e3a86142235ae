use prof_rs::cpu::CpuController;
use prof_rs::ProfError;

/// Burns CPU for a while so the sampling profiler collects some stacks.
fn busy_work() -> u64 {
    let mut acc: u64 = 0;
    for i in 0..30_000_000u64 {
        acc = acc.wrapping_mul(31).wrapping_add(i);
    }
    acc
}

/// The whole CPU journey against the real sampling profiler: strict
/// re-activation, dump only while active, deactivation as a full reset.
#[test]
fn cpu_full_journey() {
    let mut ctl = CpuController::new();
    assert!(!ctl.currently_active());

    // Dump while inactive is refused and yields no artifact.
    let refused = ctl.dump("cpu_prof", "2024-01-02_03:04:05");
    assert!(matches!(refused, Err(ProfError::NotActive)));

    // First activation succeeds.
    assert!(ctl.active(100).is_ok());
    assert!(ctl.currently_active());

    // A second activation without an intervening deactivation is refused
    // and the running session stays active.
    let again = ctl.active(100);
    assert!(matches!(again, Err(ProfError::AlreadyActive)));
    assert!(ctl.currently_active());

    // Collect some samples, then dump: the artifact carries the exact
    // file name for the given name and timestamp.
    let w = busy_work();
    assert!(w != 1);
    let art = ctl
        .dump("cpu_prof", "2024-01-02_03:04:05")
        .expect("dump while active should render a flamegraph");
    assert_eq!(art.file_name, "cpu_prof.2024-01-02_03:04:05.svg");

    // The artifact's report renders as the host application would render
    // it; the bytes themselves are opaque to the library.
    let mut svg: Vec<u8> = Vec::new();
    let _ = art.report.flamegraph(&mut svg);

    // Dumping is a self-loop: the session stays active and further dumps
    // are permitted; within the same second they name the same file.
    let again = ctl
        .dump("cpu_prof", "2024-01-02_03:04:05")
        .expect("a second dump of the running session should succeed");
    assert_eq!(again.file_name, art.file_name);
    assert!(ctl.currently_active());

    // Deactivation succeeds and fully resets the slot...
    assert!(ctl.deactive().is_ok());
    assert!(!ctl.currently_active());
    // ...so a fresh activation succeeds again.
    assert!(ctl.active(100).is_ok());
    assert!(ctl.currently_active());
    assert!(ctl.deactive().is_ok());
}
