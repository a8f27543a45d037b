use cloudboard_tray::icons::{get_icon_bytes, IconSet, IconType, ThemeIcons};

fn icons() -> IconSet {
    IconSet::new(
        ThemeIcons { system_tray: vec![1, 1], sync: vec![2], sync_pause: vec![3] },
        ThemeIcons { system_tray: vec![4], sync: vec![5, 5], sync_pause: vec![6] },
    )
    .unwrap()
}

#[test]
fn each_kind_and_theme_has_its_image() {
    let icons = icons();
    assert_eq!(get_icon_bytes(&icons, IconType::SystemTray, "light"), &[1, 1]);
    assert_eq!(get_icon_bytes(&icons, IconType::Sync, "light"), &[2]);
    assert_eq!(get_icon_bytes(&icons, IconType::SyncPause, "light"), &[3]);
    assert_eq!(get_icon_bytes(&icons, IconType::SystemTray, "dark"), &[4]);
    assert_eq!(get_icon_bytes(&icons, IconType::Sync, "dark"), &[5, 5]);
    assert_eq!(get_icon_bytes(&icons, IconType::SyncPause, "dark"), &[6]);
}

#[test]
fn unknown_theme_gets_the_default_tray_image() {
    let icons = icons();
    let default = get_icon_bytes(&icons, IconType::SystemTray, "light").to_vec();
    for theme in ["", "solarized", "Dark", "LIGHT", "dark "] {
        assert_eq!(get_icon_bytes(&icons, IconType::SystemTray, theme), &default[..]);
        assert_eq!(get_icon_bytes(&icons, IconType::Sync, theme), &default[..]);
        assert_eq!(get_icon_bytes(&icons, IconType::SyncPause, theme), &default[..]);
    }
}

#[test]
fn no_selection_is_empty() {
    let icons = icons();
    for theme in ["light", "dark", "other"] {
        for kind in [IconType::SystemTray, IconType::Sync, IconType::SyncPause] {
            assert!(!get_icon_bytes(&icons, kind, theme).is_empty());
        }
    }
}

#[test]
fn a_set_with_an_empty_image_is_refused() {
    let full = || ThemeIcons { system_tray: vec![1], sync: vec![2], sync_pause: vec![3] };
    assert!(IconSet::new(full(), full()).is_some());
    let mut light = full();
    light.sync = Vec::new();
    assert!(IconSet::new(light, full()).is_none());
    let mut dark = full();
    dark.system_tray = Vec::new();
    assert!(IconSet::new(full(), dark).is_none());
    let mut dark = full();
    dark.sync_pause = Vec::new();
    assert!(IconSet::new(full(), dark).is_none());
    assert!(full().is_complete());
}
