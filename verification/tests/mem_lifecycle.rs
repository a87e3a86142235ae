use prof_rs::mem::{handle_mem, MemAction, MemController};
use prof_rs::ProfError;

/// Activating twice in a row without an intervening deactivation is refused.
#[test]
fn mem_activate_twice_refused() {
    let mut st = MemController::new();
    assert!(st.active_decision().is_ok());
    assert!(st.apply_active(Ok(())).is_ok());
    assert!(st.currently_active());

    let again = st.active_decision();
    assert!(matches!(again, Err(ProfError::AlreadyActive)));
    assert!(st.currently_active());
}

/// A dump while inactive is refused, and no file name is handed out.
#[test]
fn mem_dump_inactive_refused() {
    let st = MemController::new();
    let r = st.dump_decision("mem_prof", "2024-01-02_03:04:05");
    assert!(matches!(r, Err(ProfError::NotActive)));
}

/// Activate, dump, deactivate, activate again: deactivation fully resets
/// the slot.
#[test]
fn mem_round_trip() {
    let mut st = MemController::new();
    assert!(st.active_decision().is_ok());
    assert!(st.apply_active(Ok(())).is_ok());

    let name = st
        .dump_decision("mem_prof", "2024-01-02_03:04:05")
        .expect("dump while active yields a file name");
    assert_eq!(name, "mem_prof.2024-01-02_03:04:05.out");

    assert!(st.deactive(Ok(())).is_ok());
    assert!(!st.currently_active());

    assert!(st.active_decision().is_ok());
    assert!(st.apply_active(Ok(())).is_ok());
    assert!(st.currently_active());
}

/// Deactivating an inactive slot succeeds: an idempotent no-op.
#[test]
fn mem_deactivate_idempotent() {
    let mut st = MemController::new();
    assert!(st.deactive(Ok(())).is_ok());
    assert!(!st.currently_active());
    assert!(st.deactive(Ok(())).is_ok());
    assert!(!st.currently_active());
}

/// A failed activation leaves the slot inactive, never partially populated.
#[test]
fn mem_failed_activation_leaves_inactive() {
    let mut st = MemController::new();
    assert!(st.active_decision().is_ok());
    let r = st.apply_active(Err("prof.active not writable".to_string()));
    match r {
        Err(ProfError::Collaborator(m)) => assert_eq!(m, "prof.active not writable"),
        other => panic!("expected a collaborator error, got {:?}", other),
    }
    assert!(!st.currently_active());
    // The slot is free for a later, successful attempt.
    assert!(st.active_decision().is_ok());
    assert!(st.apply_active(Ok(())).is_ok());
    assert!(st.currently_active());
}

/// The `/mem/...` routes map to the right allocator actions.
#[test]
fn mem_routes_dispatch() {
    let mut st = MemController::new();

    assert!(matches!(handle_mem(&st, "status"), Ok(MemAction::Ignore)));
    assert!(matches!(handle_mem(&st, ""), Ok(MemAction::Ignore)));

    assert!(matches!(handle_mem(&st, "dump"), Err(ProfError::NotActive)));
    assert!(matches!(handle_mem(&st, "deactive"), Ok(MemAction::LowerFlag)));

    assert!(matches!(handle_mem(&st, "active"), Ok(MemAction::RaiseFlag)));
    assert!(st.apply_active(Ok(())).is_ok());

    assert!(matches!(handle_mem(&st, "active"), Err(ProfError::AlreadyActive)));

    match handle_mem(&st, "dump") {
        Ok(MemAction::WriteDump(name)) => {
            assert!(name.starts_with("mem_prof."));
            assert!(name.ends_with(".out"));
            assert!(!name.contains('/'));
        }
        other => panic!("expected a dump action, got {:?}", result_kind(&other)),
    }
}

fn result_kind(r: &Result<MemAction, ProfError>) -> &'static str {
    match r {
        Ok(MemAction::RaiseFlag) => "RaiseFlag",
        Ok(MemAction::LowerFlag) => "LowerFlag",
        Ok(MemAction::WriteDump(_)) => "WriteDump",
        Ok(MemAction::Ignore) => "Ignore",
        Err(_) => "Err",
    }
}
