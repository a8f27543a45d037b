//! The tray controller: whether the tray icon exists, the shared state, and
//! the operations that refresh menu, icon and tooltip.

use vstd::prelude::*;
use vstd::slice::slice_to_vec;
use crate::action::{actions_view, TrayAction, TrayActionView};
use crate::icons::{get_icon_bytes, IconType, LIGHT_THEME};
use crate::labels::{label, label_spec, LabelKey, DEFAULT_LOCALE};
use crate::menu::{
    create_tray_menu, menu_complete, menu_spec, sync_icon_type, sync_key, MenuEntryView, TrayMenu,
    TrayResources,
};
use crate::store::StateStore;
use crate::sync::SyncState;

verus! {

/// The id under which the tray icon is registered.
pub const TRAY_ID: &'static str = "tray-main";

/// Why the tray icon was not created.
#[derive(Clone, Copy, Debug, PartialEq, Eq, Structural)]
pub enum TrayError {
    /// The tray icon exists already; a process has one at most.
    AlreadyActive,
}

/// What the windowing layer needs to create the tray icon.
#[derive(Clone, Debug, PartialEq, Eq)]
pub struct TraySetup {
    pub id: String,
    pub tooltip: String,
    /// Whether a left click opens the menu.
    pub menu_on_left_click: bool,
    pub menu: TrayMenu,
}

/// A tray setup as plain values.
pub struct TraySetupView {
    pub id: Seq<char>,
    pub tooltip: Seq<char>,
    pub menu_on_left_click: bool,
    pub menu: Seq<MenuEntryView>,
}

impl View for TraySetup {
    type V = TraySetupView;

    open spec fn view(&self) -> TraySetupView {
        TraySetupView {
            id: self.id@,
            tooltip: self.tooltip@,
            menu_on_left_click: self.menu_on_left_click,
            menu: self.menu@,
        }
    }
}

/// The controller of the one tray icon of the process. It starts without a
/// tray icon, gets one through `create_tray_icon`, and keeps it from then on.
pub struct TrayController {
    active: bool,
    store: StateStore,
}

/// The setup of the tray icon: the fixed id, the application's name in the
/// default locale as tooltip, no menu on left click, and the menu in the
/// default locale.
pub open spec fn setup_spec(
    resources: &TrayResources,
    sync_state: SyncState,
    theme: Seq<char>,
    window_visible: bool,
) -> TraySetupView {
    TraySetupView {
        id: TRAY_ID@,
        tooltip: label_spec(&resources.catalog, DEFAULT_LOCALE@, LabelKey::AppName),
        menu_on_left_click: false,
        menu: menu_spec(resources, sync_state, theme, window_visible, DEFAULT_LOCALE@),
    }
}

/// What a menu refresh asks for: the menu for the state and the locale.
pub open spec fn menu_refresh_spec(
    resources: &TrayResources,
    sync_state: SyncState,
    theme: Seq<char>,
    window_visible: bool,
    lang: Seq<char>,
) -> Seq<TrayActionView> {
    seq![TrayActionView::SetMenu(menu_spec(resources, sync_state, theme, window_visible, lang))]
}

/// What a tray refresh asks for: first the menu for the state and the
/// locale, then the tray image of the theme.
pub open spec fn tray_refresh_spec(
    resources: &TrayResources,
    sync_state: SyncState,
    theme: Seq<char>,
    window_visible: bool,
    lang: Seq<char>,
) -> Seq<TrayActionView> {
    seq![
        TrayActionView::SetMenu(menu_spec(resources, sync_state, theme, window_visible, lang)),
        TrayActionView::SetIcon(resources.icons.bytes_spec(IconType::SystemTray, theme)),
    ]
}

impl TrayController {
    /// Whether the tray icon exists.
    pub closed spec fn active_spec(&self) -> bool {
        self.active
    }

    /// The sync flag.
    pub closed spec fn sync_spec(&self) -> SyncState {
        self.store.sync_spec()
    }

    /// The icon theme.
    pub closed spec fn theme_spec(&self) -> Seq<char> {
        self.store.theme_spec()
    }

    /// The controller at process start: no tray icon yet, synchronisation
    /// running, light theme.
    pub fn new() -> (controller: TrayController)
        ensures
            !controller.active_spec(),
            controller.sync_spec() == SyncState::Running,
            controller.theme_spec() == LIGHT_THEME@,
    {
        TrayController { active: false, store: StateStore::new() }
    }

    pub fn is_active(&self) -> (active: bool)
        ensures
            active == self.active_spec(),
    {
        self.active
    }

    pub fn sync_state(&self) -> (state: SyncState)
        ensures
            state == self.sync_spec(),
    {
        self.store.sync_state()
    }

    pub fn icon_theme(&self) -> (theme: &str)
        ensures
            theme@ == self.theme_spec(),
    {
        self.store.icon_theme()
    }

    /// Flips the sync flag and returns the new value. Nothing else changes.
    pub fn toggle_sync(&mut self) -> (state: SyncState)
        ensures
            state == old(self).sync_spec().toggled_spec(),
            final(self).sync_spec() == state,
            final(self).theme_spec() == old(self).theme_spec(),
            final(self).active_spec() == old(self).active_spec(),
    {
        self.store.toggle_sync()
    }
}

/// Creates the tray icon, once. Without a tray icon yet, the controller
/// becomes active and the setup comes back: the menu is built in the default
/// locale, which becomes the locale of the process. With a tray icon in
/// place nothing changes and the call is refused.
pub fn create_tray_icon(
    controller: &mut TrayController,
    resources: &TrayResources,
    window_visible: bool,
) -> (created: Result<TraySetup, TrayError>)
    ensures
        final(controller).active_spec(),
        final(controller).sync_spec() == old(controller).sync_spec(),
        final(controller).theme_spec() == old(controller).theme_spec(),
        created.is_ok() == !old(controller).active_spec(),
        created.is_ok() ==> created.unwrap()@ == setup_spec(
            resources,
            old(controller).sync_spec(),
            old(controller).theme_spec(),
            window_visible,
        ) && menu_complete(created.unwrap()@.menu),
        created.is_err() ==> created.unwrap_err() == TrayError::AlreadyActive,
{
    if controller.active {
        return Err(TrayError::AlreadyActive);
    }
    let tooltip = label(&resources.catalog, DEFAULT_LOCALE, LabelKey::AppName);
    let menu = create_tray_menu(
        &controller.store,
        resources,
        window_visible,
        DEFAULT_LOCALE.to_owned(),
    );
    controller.active = true;
    Ok(TraySetup { id: TRAY_ID.to_owned(), tooltip, menu_on_left_click: false, menu })
}

/// Rebuilds the menu in the given locale, which becomes the locale of the
/// process. Without a tray icon there is nothing to refresh.
pub fn update_tray_menu(
    controller: &TrayController,
    resources: &TrayResources,
    window_visible: bool,
    lang: String,
) -> (actions: Vec<TrayAction>)
    ensures
        controller.active_spec() ==> actions_view(actions@) == menu_refresh_spec(
            resources,
            controller.sync_spec(),
            controller.theme_spec(),
            window_visible,
            lang@,
        ),
        !controller.active_spec() ==> actions@.len() == 0,
{
    if !controller.active {
        return Vec::new();
    }
    let menu = create_tray_menu(&controller.store, resources, window_visible, lang);
    let actions = vec![TrayAction::SetMenu(menu)];
    assert(actions_view(actions@) =~= menu_refresh_spec(
        resources,
        controller.sync_spec(),
        controller.theme_spec(),
        window_visible,
        lang@,
    ));
    actions
}

/// Takes over a new theme and refreshes the tray: the theme is replaced
/// first, then the menu is rebuilt in the given locale, then the tray image
/// of the new theme is fetched, so that neither menu nor image shows the
/// theme that was replaced. Without a tray icon nothing happens and the theme
/// stays.
pub fn update_tray(
    controller: &mut TrayController,
    resources: &TrayResources,
    window_visible: bool,
    lang: String,
    theme: String,
) -> (actions: Vec<TrayAction>)
    ensures
        final(controller).active_spec() == old(controller).active_spec(),
        final(controller).sync_spec() == old(controller).sync_spec(),
        old(controller).active_spec() ==> final(controller).theme_spec() == theme@
            && actions_view(actions@) == tray_refresh_spec(
            resources,
            old(controller).sync_spec(),
            theme@,
            window_visible,
            lang@,
        ),
        !old(controller).active_spec() ==> final(controller).theme_spec() == old(
            controller,
        ).theme_spec() && actions@.len() == 0,
{
    if !controller.active {
        return Vec::new();
    }
    controller.store.replace_icon_theme(theme);
    let menu = create_tray_menu(&controller.store, resources, window_visible, lang);
    let image = slice_to_vec(
        get_icon_bytes(&resources.icons, IconType::SystemTray, controller.store.icon_theme()),
    );
    let actions = vec![TrayAction::SetMenu(menu), TrayAction::SetIcon(image)];
    assert(actions_view(actions@) =~= tray_refresh_spec(
        resources,
        old(controller).sync_spec(),
        theme@,
        window_visible,
        lang@,
    ));
    actions
}

/// Sets the tooltip to the given text. Without a tray icon nothing happens.
pub fn update_tray_tooltip(controller: &TrayController, tooltip: String) -> (actions: Vec<
    TrayAction,
>)
    ensures
        controller.active_spec() ==> actions_view(actions@) == seq![
            TrayActionView::SetTooltip(tooltip@),
        ],
        !controller.active_spec() ==> actions@.len() == 0,
{
    if !controller.active {
        return Vec::new();
    }
    let actions = vec![TrayAction::SetTooltip(tooltip)];
    assert(actions_view(actions@) =~= seq![TrayActionView::SetTooltip(tooltip@)]);
    actions
}

/// Sets the sync flag from a token: `"paused"` pauses, and every other text
/// stands for running. Neither the theme nor the tray icon is touched.
pub fn set_sync_state(controller: &mut TrayController, state: String)
    ensures
        final(controller).sync_spec() == SyncState::from_token_spec(state@),
        final(controller).theme_spec() == old(controller).theme_spec(),
        final(controller).active_spec() == old(controller).active_spec(),
{
    let next = SyncState::from_token(state.as_str());
    controller.store.replace_sync_state(next);
}

/// A tray refresh shows what was asked for and nothing of what was there
/// before: the sync entry carries the text of the given locale and the icon
/// of the given theme, and the tray image is that of the given theme.
pub proof fn lemma_refresh_follows_request(
    resources: &TrayResources,
    sync_state: SyncState,
    theme: Seq<char>,
    window_visible: bool,
    lang: Seq<char>,
)
    ensures
        tray_refresh_spec(resources, sync_state, theme, window_visible, lang).len() == 2,
        tray_refresh_spec(resources, sync_state, theme, window_visible, lang)[0]
            == TrayActionView::SetMenu(
            menu_spec(resources, sync_state, theme, window_visible, lang),
        ),
        menu_spec(resources, sync_state, theme, window_visible, lang)[1].label == label_spec(
            &resources.catalog,
            lang,
            sync_key(sync_state),
        ),
        menu_spec(resources, sync_state, theme, window_visible, lang)[1].icon == Some(
            resources.icons.bytes_spec(sync_icon_type(sync_state), theme),
        ),
        tray_refresh_spec(resources, sync_state, theme, window_visible, lang)[1]
            == TrayActionView::SetIcon(resources.icons.bytes_spec(IconType::SystemTray, theme)),
{
}

} // verus!
