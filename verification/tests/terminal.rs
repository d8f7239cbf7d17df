use leveler_tui::terminal::TerminalGuard;

/// Raw mode is armed before any other setup, so a failed later step still restores.
#[test]
fn guard_restore_is_idempotent() {
    let mut guard = TerminalGuard { restored: false };
    guard.restore();
    assert!(guard.restored);
    guard.restore(); // second call must be a no-op
    assert!(guard.restored);
}

#[test]
fn the_terminal_is_given_back_once() {
    let mut guard = TerminalGuard::armed();
    assert!(guard.restore());
    assert!(!guard.restore());
}
