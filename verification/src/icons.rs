//! Selection among the pre-rendered icon images.

use vstd::prelude::*;
use crate::text::str_equal;

verus! {

/// The theme with dark-on-light images. It is also the default theme.
pub const LIGHT_THEME: &'static str = "light";

/// The theme with light-on-dark images.
pub const DARK_THEME: &'static str = "dark";

/// What an icon shows.
#[derive(Clone, Copy, Debug, PartialEq, Eq, Structural)]
pub enum IconType {
    /// The tray icon itself.
    SystemTray,
    /// Synchronisation can be resumed.
    Sync,
    /// Synchronisation can be paused.
    SyncPause,
}

/// The three images of one theme.
pub struct ThemeIcons {
    pub system_tray: Vec<u8>,
    pub sync: Vec<u8>,
    pub sync_pause: Vec<u8>,
}

impl ThemeIcons {
    /// The image of one kind.
    pub open spec fn image(&self, icon_type: IconType) -> Seq<u8> {
        match icon_type {
            IconType::SystemTray => self.system_tray@,
            IconType::Sync => self.sync@,
            IconType::SyncPause => self.sync_pause@,
        }
    }

    /// No image is empty.
    pub open spec fn complete(&self) -> bool {
        &&& self.system_tray@.len() > 0
        &&& self.sync@.len() > 0
        &&& self.sync_pause@.len() > 0
    }

    pub fn is_complete(&self) -> (complete: bool)
        ensures
            complete == self.complete(),
    {
        self.system_tray.len() > 0 && self.sync.len() > 0 && self.sync_pause.len() > 0
    }
}

/// The images of both themes, none of them empty.
pub struct IconSet {
    light: ThemeIcons,
    dark: ThemeIcons,
}

impl IconSet {
    /// Every image of the set holds at least one byte.
    #[verifier::type_invariant]
    pub closed spec fn wf(&self) -> bool {
        self.light.complete() && self.dark.complete()
    }

    /// The images of the light theme.
    pub closed spec fn light(&self) -> ThemeIcons {
        self.light
    }

    /// The images of the dark theme.
    pub closed spec fn dark(&self) -> ThemeIcons {
        self.dark
    }

    /// The image for a kind and a theme: the theme's own image of that kind
    /// for `"light"` and `"dark"`, and the light tray image for any other
    /// theme, whatever the kind.
    pub open spec fn bytes_spec(&self, icon_type: IconType, theme: Seq<char>) -> Seq<u8> {
        if theme == LIGHT_THEME@ {
            self.light().image(icon_type)
        } else if theme == DARK_THEME@ {
            self.dark().image(icon_type)
        } else {
            self.light().image(IconType::SystemTray)
        }
    }

    /// Builds the set, or returns `None` when an image is empty.
    pub fn new(light: ThemeIcons, dark: ThemeIcons) -> (set: Option<IconSet>)
        ensures
            set.is_some() == (light.complete() && dark.complete()),
            set.is_some() ==> set.unwrap().wf() && set.unwrap().light() == light
                && set.unwrap().dark() == dark,
    {
        if light.is_complete() && dark.is_complete() {
            Some(IconSet { light, dark })
        } else {
            None
        }
    }
}

/// Whether a theme has images of its own.
pub open spec fn known_theme(theme: Seq<char>) -> bool {
    theme == LIGHT_THEME@ || theme == DARK_THEME@
}

/// The image for a kind and a theme. It is never empty, and a theme without
/// images of its own gets the light tray image.
pub fn get_icon_bytes<'a>(icons: &'a IconSet, icon_type: IconType, theme: &str) -> (bytes: &'a [u8])
    ensures
        bytes@ == icons.bytes_spec(icon_type, theme@),
        bytes@.len() > 0,
{
    proof {
        use_type_invariant(icons);
    }
    let themed = if str_equal(theme, LIGHT_THEME) {
        (&icons.light, icon_type)
    } else if str_equal(theme, DARK_THEME) {
        (&icons.dark, icon_type)
    } else {
        (&icons.light, IconType::SystemTray)
    };
    match themed.1 {
        IconType::SystemTray => themed.0.system_tray.as_slice(),
        IconType::Sync => themed.0.sync.as_slice(),
        IconType::SyncPause => themed.0.sync_pause.as_slice(),
    }
}

/// The tray image exists for every theme, and a theme without images of its
/// own shows the tray image of the default theme.
pub proof fn lemma_tray_icon_total(icons: IconSet, theme: Seq<char>)
    requires
        icons.wf(),
    ensures
        icons.bytes_spec(IconType::SystemTray, theme).len() > 0,
        !known_theme(theme) ==> icons.bytes_spec(IconType::SystemTray, theme)
            == icons.bytes_spec(IconType::SystemTray, LIGHT_THEME@),
{
}

} // verus!
