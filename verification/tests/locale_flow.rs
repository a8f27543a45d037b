use std::collections::HashMap;

use cloudboard_tray::action::{TrayAction, WindowRequest, WindowStatus};
use cloudboard_tray::controller::{create_tray_icon, update_tray, TrayController};
use cloudboard_tray::handlers::{handle_menu_event, handle_window_outcome};
use cloudboard_tray::icons::{IconSet, ThemeIcons};
use cloudboard_tray::menu::{MenuEntry, TrayMenu, TrayResources};
use cloudboard_tray::payload::IconTrayPayload;
use rust_i18n::SimpleBackend;

fn resources() -> TrayResources {
    let icons = IconSet::new(
        ThemeIcons { system_tray: vec![10], sync: vec![11], sync_pause: vec![12] },
        ThemeIcons { system_tray: vec![20], sync: vec![21], sync_pause: vec![22] },
    )
    .unwrap();
    let mut catalog = SimpleBackend::new();
    let mut french = HashMap::new();
    french.insert("Hide Window", "Masquer");
    french.insert("Show Window", "Afficher");
    french.insert("Pause Sync", "Suspendre");
    french.insert("Resume Sync", "Reprendre");
    french.insert("Quit", "Quitter");
    catalog.add_translations("fr", &french);
    TrayResources { icons, catalog }
}

fn menu(visibility: &str, sync: &str, icon: Vec<u8>, quit: &str) -> TrayMenu {
    TrayMenu {
        entries: vec![
            MenuEntry { id: "toggle-visibility".to_string(), label: visibility.to_string(), icon: None },
            MenuEntry { id: "toggle-sync".to_string(), label: sync.to_string(), icon: Some(icon) },
            MenuEntry { id: "quit".to_string(), label: quit.to_string(), icon: None },
        ],
    }
}

fn emit(id: &str, data: &str) -> TrayAction {
    TrayAction::Emit {
        event: "systemTray".to_string(),
        payload: IconTrayPayload::new(id, Some(data.to_string())),
    }
}

// The one test of this file: it follows the locale of the process through a
// sequence of calls, so nothing else may change that locale meanwhile.
#[test]
fn later_rebuilds_use_the_locale_of_the_last_update() {
    let resources = resources();
    let mut controller = TrayController::new();
    create_tray_icon(&mut controller, &resources, true).unwrap();
    assert_eq!(&*rust_i18n::locale(), "en_US");

    let actions = handle_menu_event(&mut controller, &resources, "toggle-sync", WindowStatus::Visible);
    assert_eq!(
        actions,
        vec![
            TrayAction::SetMenu(menu("Hide Window", "Resume Sync", vec![11], "Quit")),
            emit("toggle-sync", "paused"),
        ]
    );

    let actions = update_tray(&mut controller, &resources, true, "fr".to_string(), "dark".to_string());
    assert_eq!(
        actions,
        vec![
            TrayAction::SetMenu(menu("Masquer", "Reprendre", vec![21], "Quitter")),
            TrayAction::SetIcon(vec![20]),
        ]
    );
    assert_eq!(&*rust_i18n::locale(), "fr");

    let actions = handle_menu_event(&mut controller, &resources, "toggle-sync", WindowStatus::Hidden);
    assert_eq!(
        actions,
        vec![
            TrayAction::SetMenu(menu("Afficher", "Suspendre", vec![22], "Quitter")),
            emit("toggle-sync", "running"),
        ]
    );

    let actions = handle_window_outcome(&mut controller, &resources, WindowRequest::Show, true);
    assert_eq!(
        actions,
        vec![
            TrayAction::SetMenu(menu("Masquer", "Suspendre", vec![22], "Quitter")),
            TrayAction::SetIcon(vec![20]),
            emit("toggle-visibility", "visible"),
        ]
    );
    assert_eq!(controller.icon_theme(), "dark");
}
