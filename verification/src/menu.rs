//! The tray menu, derived anew from the shared state, the window's
//! visibility and the catalog each time it is needed.

use vstd::prelude::*;
use vstd::slice::slice_to_vec;
use rust_i18n::SimpleBackend;
use crate::icons::{get_icon_bytes, IconSet, IconType};
use crate::labels::{activate_locale, label, label_spec, LabelKey};
use crate::store::StateStore;
use crate::sync::SyncState;

verus! {

/// The id of the entry that hides or shows the main window.
pub const TOGGLE_VISIBILITY_ID: &'static str = "toggle-visibility";

/// The id of the entry that pauses or resumes synchronisation.
pub const TOGGLE_SYNC_ID: &'static str = "toggle-sync";

/// The id of the entry that ends the process.
pub const QUIT_ID: &'static str = "quit";

/// What the menu is drawn from: the icon images and the catalog of texts.
pub struct TrayResources {
    pub icons: IconSet,
    pub catalog: SimpleBackend,
}

/// One entry of the tray menu.
#[derive(Clone, Debug, PartialEq, Eq)]
pub struct MenuEntry {
    pub id: String,
    pub label: String,
    pub icon: Option<Vec<u8>>,
}

/// A menu entry as plain values.
pub struct MenuEntryView {
    pub id: Seq<char>,
    pub label: Seq<char>,
    pub icon: Option<Seq<u8>>,
}

impl View for MenuEntry {
    type V = MenuEntryView;

    open spec fn view(&self) -> MenuEntryView {
        MenuEntryView {
            id: self.id@,
            label: self.label@,
            icon: match self.icon {
                Some(bytes) => Some(bytes@),
                None => None,
            },
        }
    }
}

/// The tray menu: its entries from top to bottom.
#[derive(Clone, Debug, PartialEq, Eq)]
pub struct TrayMenu {
    pub entries: Vec<MenuEntry>,
}

impl View for TrayMenu {
    type V = Seq<MenuEntryView>;

    open spec fn view(&self) -> Seq<MenuEntryView> {
        self.entries@.map_values(|entry: MenuEntry| entry@)
    }
}

/// The key of the text on the visibility entry: it offers to hide a visible
/// window and to show a hidden one.
pub open spec fn visibility_key(window_visible: bool) -> LabelKey {
    if window_visible {
        LabelKey::HideWindow
    } else {
        LabelKey::ShowWindow
    }
}

/// The key of the text on the sync entry: it offers to pause a running
/// synchronisation and to resume a paused one.
pub open spec fn sync_key(sync_state: SyncState) -> LabelKey {
    match sync_state {
        SyncState::Running => LabelKey::PauseSync,
        SyncState::Paused => LabelKey::ResumeSync,
    }
}

/// The kind of icon on the sync entry. It shows what the entry will do, not
/// the state that holds.
pub open spec fn sync_icon_type(sync_state: SyncState) -> IconType {
    match sync_state {
        SyncState::Running => IconType::SyncPause,
        SyncState::Paused => IconType::Sync,
    }
}

/// The menu for a state, a window visibility and a locale: the visibility
/// entry, the sync entry with its icon, and the quit entry, in this order.
pub open spec fn menu_spec(
    resources: &TrayResources,
    sync_state: SyncState,
    theme: Seq<char>,
    window_visible: bool,
    lang: Seq<char>,
) -> Seq<MenuEntryView> {
    seq![
        MenuEntryView {
            id: TOGGLE_VISIBILITY_ID@,
            label: label_spec(&resources.catalog, lang, visibility_key(window_visible)),
            icon: None,
        },
        MenuEntryView {
            id: TOGGLE_SYNC_ID@,
            label: label_spec(&resources.catalog, lang, sync_key(sync_state)),
            icon: Some(resources.icons.bytes_spec(sync_icon_type(sync_state), theme)),
        },
        MenuEntryView {
            id: QUIT_ID@,
            label: label_spec(&resources.catalog, lang, LabelKey::Quit),
            icon: None,
        },
    ]
}

/// A menu has exactly one entry for each of its three tasks, in the fixed
/// order, and every entry has a text.
pub open spec fn menu_complete(menu: Seq<MenuEntryView>) -> bool {
    &&& menu.len() == 3
    &&& menu[0].id == TOGGLE_VISIBILITY_ID@
    &&& menu[1].id == TOGGLE_SYNC_ID@
    &&& menu[2].id == QUIT_ID@
    &&& forall|i: int| 0 <= i < 3 ==> (#[trigger] menu[i]).label.len() > 0
    &&& menu[1].icon.is_some() && menu[1].icon.unwrap().len() > 0
}

/// The three ids differ, so that a complete menu has exactly one entry for
/// each task.
pub proof fn lemma_menu_ids_distinct()
    ensures
        TOGGLE_VISIBILITY_ID@ != TOGGLE_SYNC_ID@,
        TOGGLE_VISIBILITY_ID@ != QUIT_ID@,
        TOGGLE_SYNC_ID@ != QUIT_ID@,
{
    reveal_strlit("toggle-visibility");
    reveal_strlit("toggle-sync");
    reveal_strlit("quit");
    assert(TOGGLE_VISIBILITY_ID@.len() == 17);
    assert(TOGGLE_SYNC_ID@.len() == 11);
    assert(QUIT_ID@.len() == 4);
}

/// In a complete menu each task has its entry at one place and nowhere else.
pub proof fn lemma_one_entry_per_task(menu: Seq<MenuEntryView>)
    requires
        menu_complete(menu),
    ensures
        forall|i: int| 0 <= i < menu.len() ==> ((#[trigger] menu[i]).id == TOGGLE_VISIBILITY_ID@ <==> i == 0),
        forall|i: int| 0 <= i < menu.len() ==> ((#[trigger] menu[i]).id == TOGGLE_SYNC_ID@ <==> i == 1),
        forall|i: int| 0 <= i < menu.len() ==> ((#[trigger] menu[i]).id == QUIT_ID@ <==> i == 2),
{
    lemma_menu_ids_distinct();
}

/// The text of the visibility entry.
pub fn get_visibility_text(catalog: &SimpleBackend, lang: &str, window_visible: bool) -> (text:
    String)
    ensures
        text@ == label_spec(catalog, lang@, visibility_key(window_visible)),
        text@.len() > 0,
{
    if window_visible {
        label(catalog, lang, LabelKey::HideWindow)
    } else {
        label(catalog, lang, LabelKey::ShowWindow)
    }
}

/// The text of the sync entry and the kind of its icon.
pub fn get_sync_text_and_type(catalog: &SimpleBackend, lang: &str, sync_state: &SyncState) -> (entry:
    (String, IconType))
    ensures
        entry.0@ == label_spec(catalog, lang@, sync_key(*sync_state)),
        entry.0@.len() > 0,
        entry.1 == sync_icon_type(*sync_state),
{
    match *sync_state {
        SyncState::Running => (label(catalog, lang, LabelKey::PauseSync), IconType::SyncPause),
        SyncState::Paused => (label(catalog, lang, LabelKey::ResumeSync), IconType::Sync),
    }
}

/// Makes `lang` the locale of the process and builds the menu for the state
/// in `store`, in that locale.
pub fn create_tray_menu(
    store: &StateStore,
    resources: &TrayResources,
    window_visible: bool,
    lang: String,
) -> (menu: TrayMenu)
    ensures
        menu@ == menu_spec(resources, store.sync_spec(), store.theme_spec(), window_visible, lang@),
        menu_complete(menu@),
{
    activate_locale(lang.as_str());
    let sync_state = store.sync_state();
    let visibility_text = get_visibility_text(&resources.catalog, lang.as_str(), window_visible);
    let (sync_text, sync_type) = get_sync_text_and_type(
        &resources.catalog,
        lang.as_str(),
        &sync_state,
    );
    let sync_icon = slice_to_vec(get_icon_bytes(&resources.icons, sync_type, store.icon_theme()));
    let quit_text = label(&resources.catalog, lang.as_str(), LabelKey::Quit);
    let entries = vec![
        MenuEntry { id: TOGGLE_VISIBILITY_ID.to_owned(), label: visibility_text, icon: None },
        MenuEntry { id: TOGGLE_SYNC_ID.to_owned(), label: sync_text, icon: Some(sync_icon) },
        MenuEntry { id: QUIT_ID.to_owned(), label: quit_text, icon: None },
    ];
    let menu = TrayMenu { entries };
    assert(menu@ =~= menu_spec(
        resources,
        store.sync_spec(),
        store.theme_spec(),
        window_visible,
        lang@,
    ));
    menu
}

} // verus!
