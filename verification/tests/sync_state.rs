use cloudboard_tray::controller::{set_sync_state, TrayController};
use cloudboard_tray::sync::SyncState;
use cloudboard_tray::text::str_equal;

#[test]
fn tokens_select_states() {
    assert_eq!(SyncState::from_token("paused"), SyncState::Paused);
    assert_eq!(SyncState::from_token("running"), SyncState::Running);
    assert_eq!(SyncState::from_token("bogus"), SyncState::Running);
    assert_eq!(SyncState::from_token(""), SyncState::Running);
    assert_eq!(SyncState::from_token("Paused"), SyncState::Running);
    assert_eq!(SyncState::from_token("paused "), SyncState::Running);
}

#[test]
fn states_report_tokens() {
    assert_eq!(SyncState::Running.token(), "running");
    assert_eq!(SyncState::Paused.token(), "paused");
    assert_eq!(SyncState::from_token(&SyncState::Paused.token()), SyncState::Paused);
    assert_eq!(SyncState::from_token(&SyncState::Running.token()), SyncState::Running);
}

#[test]
fn toggling_twice_returns() {
    for state in [SyncState::Running, SyncState::Paused] {
        assert_ne!(state.toggled(), state);
        assert_eq!(state.toggled().toggled(), state);
    }
    assert_eq!(SyncState::Running.toggled(), SyncState::Paused);
    assert_eq!(SyncState::Paused.toggled(), SyncState::Running);
}

#[test]
fn unknown_token_after_paused_gives_running() {
    let mut controller = TrayController::new();
    assert_eq!(controller.sync_state(), SyncState::Running);
    set_sync_state(&mut controller, "paused".to_string());
    assert_eq!(controller.sync_state(), SyncState::Paused);
    set_sync_state(&mut controller, "bogus".to_string());
    assert_eq!(controller.sync_state(), SyncState::Running);
}

#[test]
fn set_sync_state_leaves_theme_and_tray_alone() {
    let mut controller = TrayController::new();
    set_sync_state(&mut controller, "paused".to_string());
    assert_eq!(controller.icon_theme(), "light");
    assert!(!controller.is_active());
    set_sync_state(&mut controller, "paused".to_string());
    assert_eq!(controller.sync_state(), SyncState::Paused);
}

#[test]
fn controller_toggle_flips_only_the_flag() {
    let mut controller = TrayController::new();
    assert_eq!(controller.toggle_sync(), SyncState::Paused);
    assert_eq!(controller.sync_state(), SyncState::Paused);
    assert_eq!(controller.toggle_sync(), SyncState::Running);
    assert_eq!(controller.sync_state(), SyncState::Running);
    assert_eq!(controller.icon_theme(), "light");
}

#[test]
fn str_equal_compares_texts() {
    assert!(str_equal("quit", "quit"));
    assert!(!str_equal("quit", "quit "));
    assert!(!str_equal("", "quit"));
    assert!(str_equal("", ""));
}
