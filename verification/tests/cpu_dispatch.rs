use prof_rs::cpu::{handle_cpu, CpuController};
use prof_rs::ProfError;

/// Routes that never start the profiler: unknown paths do nothing, a dump
/// while inactive is refused without producing anything, and deactivating
/// an inactive controller succeeds.
#[test]
fn cpu_routes_while_inactive() {
    let mut ctl = CpuController::new();

    assert!(matches!(handle_cpu(&mut ctl, "status", None), Ok(None)));
    assert!(matches!(handle_cpu(&mut ctl, "", None), Ok(None)));
    assert!(matches!(handle_cpu(&mut ctl, "Active", None), Ok(None)));
    assert!(!ctl.currently_active());

    let r = handle_cpu(&mut ctl, "dump", None);
    assert!(matches!(r, Err(ProfError::NotActive)));
    assert!(!ctl.currently_active());

    assert!(matches!(handle_cpu(&mut ctl, "deactive", Some("7")), Ok(None)));
    assert!(!ctl.currently_active());
}

/// A parameter that parses to frequency zero is refused with an error —
/// the sampler cannot run at 0 Hz — and the profiler is never started.
/// Only a missing or unparsable parameter falls back to the default.
#[test]
fn cpu_zero_frequency_refused() {
    let mut ctl = CpuController::new();

    for zero in ["0", "+0", "-0", "000"] {
        match handle_cpu(&mut ctl, "active", Some(zero)) {
            Err(ProfError::Collaborator(m)) => {
                assert_eq!(m, "cpu sampling frequency must not be zero");
            }
            _ => panic!("a zero frequency must be refused"),
        }
        assert!(!ctl.currently_active());
    }
}
