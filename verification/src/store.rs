//! The state that every tray operation shares: the sync flag and the icon
//! theme.

use vstd::prelude::*;
use crate::icons::LIGHT_THEME;
use crate::sync::SyncState;

verus! {

/// The sync flag and the icon theme. Each is read and replaced as a whole;
/// neither constrains the other.
pub struct StateStore {
    sync_state: SyncState,
    icon_theme: String,
}

impl StateStore {
    /// The sync flag.
    pub closed spec fn sync_spec(&self) -> SyncState {
        self.sync_state
    }

    /// The icon theme.
    pub closed spec fn theme_spec(&self) -> Seq<char> {
        self.icon_theme@
    }

    /// The store at process start: synchronisation runs and the theme is
    /// light.
    pub fn new() -> (store: StateStore)
        ensures
            store.sync_spec() == SyncState::Running,
            store.theme_spec() == LIGHT_THEME@,
    {
        StateStore { sync_state: SyncState::Running, icon_theme: LIGHT_THEME.to_owned() }
    }

    pub fn sync_state(&self) -> (state: SyncState)
        ensures
            state == self.sync_spec(),
    {
        self.sync_state
    }

    pub fn icon_theme(&self) -> (theme: &str)
        ensures
            theme@ == self.theme_spec(),
    {
        self.icon_theme.as_str()
    }

    /// Replaces the sync flag and leaves the theme alone.
    pub fn replace_sync_state(&mut self, state: SyncState)
        ensures
            final(self).sync_spec() == state,
            final(self).theme_spec() == old(self).theme_spec(),
    {
        self.sync_state = state;
    }

    /// Replaces the theme and leaves the sync flag alone. Any text is taken:
    /// one that names no theme selects the default images later.
    pub fn replace_icon_theme(&mut self, theme: String)
        ensures
            final(self).theme_spec() == theme@,
            final(self).sync_spec() == old(self).sync_spec(),
    {
        self.icon_theme = theme;
    }

    /// Flips the sync flag and returns the new value.
    pub fn toggle_sync(&mut self) -> (state: SyncState)
        ensures
            state == old(self).sync_spec().toggled_spec(),
            final(self).sync_spec() == state,
            final(self).theme_spec() == old(self).theme_spec(),
    {
        let next = self.sync_state.toggled();
        self.sync_state = next;
        next
    }
}

} // verus!
