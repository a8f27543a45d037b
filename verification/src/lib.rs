//! Tray-side state of a clipboard synchronisation utility: the sync flag and
//! icon theme, the menu derived from them, and the handlers that turn menu,
//! click and relaunch events into instructions for the windowing layer.
//!
//! The library touches neither tray nor window. Its handlers take what the
//! windowing layer has observed, change the shared state, and return the
//! instructions that bring tray and window in line with it.

pub mod action;
pub mod controller;
pub mod handlers;
pub mod icons;
pub mod labels;
pub mod menu;
pub mod payload;
pub mod store;
pub mod sync;
pub mod text;

pub use action::{TrayAction, TrayNotice, WindowRequest, WindowStatus};
pub use controller::{
    create_tray_icon, set_sync_state, update_tray, update_tray_menu, update_tray_tooltip,
    TrayController, TrayError, TraySetup,
};
pub use handlers::{
    emit_tray_event, handle_menu_event, handle_second_instance, handle_sync_toggle,
    handle_tray_icon_event, handle_visibility_toggle, handle_window_outcome, has_hidden_flag,
    Handled, TrayIconEvent,
};
pub use icons::{get_icon_bytes, IconSet, IconType, ThemeIcons};
pub use labels::{label, LabelKey};
pub use menu::{
    create_tray_menu, get_sync_text_and_type, get_visibility_text, MenuEntry, TrayMenu,
    TrayResources,
};
pub use payload::{IconTrayPayload, SingleInstancePayload};
pub use store::StateStore;
pub use sync::SyncState;
