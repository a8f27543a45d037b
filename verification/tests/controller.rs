use std::collections::HashMap;

use cloudboard_tray::action::TrayAction;
use cloudboard_tray::controller::{
    create_tray_icon, set_sync_state, update_tray, update_tray_menu, update_tray_tooltip,
    TrayController, TrayError,
};
use cloudboard_tray::icons::{IconSet, ThemeIcons};
use cloudboard_tray::menu::{MenuEntry, TrayMenu, TrayResources};
use cloudboard_tray::sync::SyncState;
use rust_i18n::SimpleBackend;

fn resources() -> TrayResources {
    let icons = IconSet::new(
        ThemeIcons { system_tray: vec![10], sync: vec![11], sync_pause: vec![12] },
        ThemeIcons { system_tray: vec![20], sync: vec![21], sync_pause: vec![22] },
    )
    .unwrap();
    let mut catalog = SimpleBackend::new();
    let mut french = HashMap::new();
    french.insert("Hide Window", "Masquer");
    french.insert("Show Window", "Afficher");
    french.insert("Pause Sync", "Suspendre");
    french.insert("Resume Sync", "Reprendre");
    french.insert("Quit", "Quitter");
    french.insert("CloudBoard", "PresseNuage");
    catalog.add_translations("fr", &french);
    let mut english = HashMap::new();
    english.insert("CloudBoard", "CloudBoard (en)");
    catalog.add_translations("en_US", &english);
    TrayResources { icons, catalog }
}

fn menu(visibility: &str, sync: &str, icon: Vec<u8>, quit: &str) -> TrayMenu {
    TrayMenu {
        entries: vec![
            MenuEntry { id: "toggle-visibility".to_string(), label: visibility.to_string(), icon: None },
            MenuEntry { id: "toggle-sync".to_string(), label: sync.to_string(), icon: Some(icon) },
            MenuEntry { id: "quit".to_string(), label: quit.to_string(), icon: None },
        ],
    }
}

#[test]
fn controller_starts_without_tray() {
    let controller = TrayController::new();
    assert!(!controller.is_active());
    assert_eq!(controller.sync_state(), SyncState::Running);
    assert_eq!(controller.icon_theme(), "light");
}

#[test]
fn tray_is_created_once() {
    let resources = resources();
    let mut controller = TrayController::new();
    let setup = create_tray_icon(&mut controller, &resources, false).unwrap();
    assert!(controller.is_active());
    assert_eq!(setup.id, "tray-main");
    assert_eq!(setup.tooltip, "CloudBoard (en)");
    assert!(!setup.menu_on_left_click);
    assert_eq!(setup.menu, menu("Show Window", "Pause Sync", vec![12], "Quit"));

    assert_eq!(create_tray_icon(&mut controller, &resources, true), Err(TrayError::AlreadyActive));
    assert!(controller.is_active());
    assert_eq!(controller.sync_state(), SyncState::Running);
    assert_eq!(controller.icon_theme(), "light");
}

#[test]
fn tray_creation_uses_the_state_in_place() {
    let resources = resources();
    let mut controller = TrayController::new();
    set_sync_state(&mut controller, "paused".to_string());
    let setup = create_tray_icon(&mut controller, &resources, true).unwrap();
    assert_eq!(setup.menu, menu("Hide Window", "Resume Sync", vec![11], "Quit"));
    assert_eq!(controller.sync_state(), SyncState::Paused);
}

#[test]
fn refresh_without_tray_does_nothing() {
    let resources = resources();
    let mut controller = TrayController::new();
    assert!(update_tray(&mut controller, &resources, true, "fr".to_string(), "dark".to_string())
        .is_empty());
    assert_eq!(controller.icon_theme(), "light");
    assert!(update_tray_menu(&controller, &resources, true, "fr".to_string()).is_empty());
    assert!(update_tray_tooltip(&controller, "hello".to_string()).is_empty());
    assert!(!controller.is_active());
}

#[test]
fn update_tray_rebuilds_menu_then_icon() {
    let resources = resources();
    let mut controller = TrayController::new();
    create_tray_icon(&mut controller, &resources, true).unwrap();
    let actions = update_tray(&mut controller, &resources, true, "fr".to_string(), "dark".to_string());
    assert_eq!(
        actions,
        vec![
            TrayAction::SetMenu(menu("Masquer", "Suspendre", vec![22], "Quitter")),
            TrayAction::SetIcon(vec![20]),
        ]
    );
    assert_eq!(controller.icon_theme(), "dark");
    assert_eq!(controller.sync_state(), SyncState::Running);
    assert!(controller.is_active());
}

#[test]
fn update_tray_does_not_depend_on_what_came_before() {
    let resources = resources();
    let mut first = TrayController::new();
    create_tray_icon(&mut first, &resources, true).unwrap();
    let mut second = TrayController::new();
    create_tray_icon(&mut second, &resources, true).unwrap();
    update_tray(&mut second, &resources, false, "en_US".to_string(), "sepia".to_string());
    update_tray(&mut second, &resources, true, "de".to_string(), "light".to_string());

    let direct = update_tray(&mut first, &resources, false, "fr".to_string(), "dark".to_string());
    let later = update_tray(&mut second, &resources, false, "fr".to_string(), "dark".to_string());
    assert_eq!(direct, later);
    assert_eq!(
        direct,
        vec![
            TrayAction::SetMenu(menu("Afficher", "Suspendre", vec![22], "Quitter")),
            TrayAction::SetIcon(vec![20]),
        ]
    );
}

#[test]
fn update_tray_with_unknown_theme_keeps_it_and_shows_default_images() {
    let resources = resources();
    let mut controller = TrayController::new();
    create_tray_icon(&mut controller, &resources, true).unwrap();
    let actions =
        update_tray(&mut controller, &resources, true, "fr".to_string(), "sepia".to_string());
    assert_eq!(controller.icon_theme(), "sepia");
    assert_eq!(
        actions,
        vec![
            TrayAction::SetMenu(menu("Masquer", "Suspendre", vec![10], "Quitter")),
            TrayAction::SetIcon(vec![10]),
        ]
    );
}

#[test]
fn update_tray_is_idempotent() {
    let resources = resources();
    let mut controller = TrayController::new();
    create_tray_icon(&mut controller, &resources, true).unwrap();
    let once = update_tray(&mut controller, &resources, true, "fr".to_string(), "dark".to_string());
    let twice = update_tray(&mut controller, &resources, true, "fr".to_string(), "dark".to_string());
    assert_eq!(once, twice);
    assert_eq!(controller.icon_theme(), "dark");
}

#[test]
fn update_tray_menu_rebuilds_the_menu_only() {
    let resources = resources();
    let mut controller = TrayController::new();
    create_tray_icon(&mut controller, &resources, true).unwrap();
    set_sync_state(&mut controller, "paused".to_string());
    let actions = update_tray_menu(&controller, &resources, false, "fr".to_string());
    assert_eq!(
        actions,
        vec![TrayAction::SetMenu(menu("Afficher", "Reprendre", vec![11], "Quitter"))]
    );
}

#[test]
fn tooltip_is_set_as_given() {
    let resources = resources();
    let mut controller = TrayController::new();
    create_tray_icon(&mut controller, &resources, true).unwrap();
    assert_eq!(
        update_tray_tooltip(&controller, "3 devices".to_string()),
        vec![TrayAction::SetTooltip("3 devices".to_string())]
    );
    assert_eq!(
        update_tray_tooltip(&controller, String::new()),
        vec![TrayAction::SetTooltip(String::new())]
    );
}
