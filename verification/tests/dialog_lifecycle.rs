use pomobridge::dialog::CloseDecision;
use pomobridge::dialog::DialogSupervisor;
use pomobridge::dialog::OpenDecision;

#[test]
fn open_is_idempotent_while_dialog_is_alive() {
    let mut sup = DialogSupervisor::new();
    assert!(!sup.handle_tracked);

    // First open: nothing tracked, so a dialog is spawned.
    assert_eq!(sup.open_alert(false), OpenDecision::Spawn);
    assert!(sup.handle_tracked);

    // Second open while the first process is still alive: suppressed
    // (the caller logs the duplicate), still exactly one tracked handle.
    assert_eq!(sup.open_alert(true), OpenDecision::Suppress);
    assert!(sup.handle_tracked);
}

#[test]
fn open_respawns_after_the_dialog_process_died() {
    let mut sup = DialogSupervisor::new();
    assert_eq!(sup.open_alert(false), OpenDecision::Spawn);
    // The tracked process exited (the probe says not alive): spawn again.
    assert_eq!(sup.open_alert(false), OpenDecision::Spawn);
    assert!(sup.handle_tracked);
}

#[test]
fn close_kills_the_tracked_dialog() {
    let mut sup = DialogSupervisor::new();
    assert_eq!(sup.open_alert(false), OpenDecision::Spawn);
    assert_eq!(sup.close_alert(), CloseDecision::Kill);
    assert!(!sup.handle_tracked);
}

#[test]
fn close_without_a_dialog_is_a_noop() {
    let mut sup = DialogSupervisor::new();
    assert_eq!(sup.close_alert(), CloseDecision::NoDialog);
    assert!(!sup.handle_tracked);
}

#[test]
fn close_racing_open_leaves_no_live_dialog() {
    // The lock serializes the two calls; once the close has run after the
    // open, no dialog process is tracked.
    let mut sup = DialogSupervisor::new();
    let open = sup.open_alert(false);
    let close = sup.close_alert();
    assert_eq!(open, OpenDecision::Spawn);
    assert_eq!(close, CloseDecision::Kill);
    assert!(!sup.handle_tracked);
}
