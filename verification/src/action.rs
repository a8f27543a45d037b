//! What the handlers ask of the windowing layer, and what that layer reports.

use vstd::prelude::*;
use crate::menu::{MenuEntryView, TrayMenu};
use crate::payload::{
    IconTrayPayload, IconTrayPayloadView, SingleInstancePayload, SingleInstancePayloadView,
};

verus! {

/// What is known of the main window when an event arrives.
#[derive(Clone, Copy, Debug, PartialEq, Eq, Structural)]
pub enum WindowStatus {
    /// There is no main window.
    Missing,
    /// The main window exists and is hidden.
    Hidden,
    /// The main window exists and is visible, or its visibility cannot be
    /// told.
    Visible,
}

/// A change of visibility whose outcome decides what follows.
#[derive(Clone, Copy, Debug, PartialEq, Eq, Structural)]
pub enum WindowRequest {
    /// Hide the main window.
    Hide,
    /// Show the main window and give it the focus.
    Show,
}

/// A click on the tray icon that is reported and has no other effect.
#[derive(Clone, Copy, Debug, PartialEq, Eq, Structural)]
pub enum TrayNotice {
    LeftClick,
    RightClick,
    DoubleClick,
}

impl TrayNotice {
    /// The line that reports the click.
    pub open spec fn text_spec(self) -> Seq<char> {
        match self {
            TrayNotice::LeftClick => "system tray received a left click"@,
            TrayNotice::RightClick => "system tray received a right click"@,
            TrayNotice::DoubleClick => "system tray received a double click"@,
        }
    }

    pub fn text(self) -> (line: &'static str)
        ensures
            line@ == self.text_spec(),
    {
        match self {
            TrayNotice::LeftClick => "system tray received a left click",
            TrayNotice::RightClick => "system tray received a right click",
            TrayNotice::DoubleClick => "system tray received a double click",
        }
    }
}

/// One instruction to the windowing layer. A list of them is carried out in
/// order. Where one fails, the failure is dropped and the rest goes on; only
/// the outcome of `RequestWindow` is handed back.
#[derive(Clone, Debug, PartialEq, Eq)]
pub enum TrayAction {
    /// End the process with this exit code.
    Exit { code: i32 },
    /// Replace the tray menu. If the menu cannot be built, the one in place
    /// stays.
    SetMenu(TrayMenu),
    /// Replace the tray icon by this image.
    SetIcon(Vec<u8>),
    /// Replace the tooltip of the tray icon.
    SetTooltip(String),
    /// Show the main window.
    ShowWindow,
    /// Give the main window the focus.
    FocusWindow,
    /// Hide or show the main window, and hand the outcome to
    /// `handle_window_outcome`.
    RequestWindow(WindowRequest),
    /// Send a tray payload to the main window under an event name.
    Emit { event: String, payload: IconTrayPayload },
    /// Send the payload of a second launch to the main window.
    EmitNewInstance(SingleInstancePayload),
    /// Report a click.
    Notify(TrayNotice),
}

/// An instruction as plain values.
pub enum TrayActionView {
    Exit { code: i32 },
    SetMenu(Seq<MenuEntryView>),
    SetIcon(Seq<u8>),
    SetTooltip(Seq<char>),
    ShowWindow,
    FocusWindow,
    RequestWindow(WindowRequest),
    Emit { event: Seq<char>, payload: IconTrayPayloadView },
    EmitNewInstance(SingleInstancePayloadView),
    Notify(TrayNotice),
}

impl View for TrayAction {
    type V = TrayActionView;

    open spec fn view(&self) -> TrayActionView {
        match *self {
            TrayAction::Exit { code } => TrayActionView::Exit { code },
            TrayAction::SetMenu(menu) => TrayActionView::SetMenu(menu@),
            TrayAction::SetIcon(image) => TrayActionView::SetIcon(image@),
            TrayAction::SetTooltip(text) => TrayActionView::SetTooltip(text@),
            TrayAction::ShowWindow => TrayActionView::ShowWindow,
            TrayAction::FocusWindow => TrayActionView::FocusWindow,
            TrayAction::RequestWindow(request) => TrayActionView::RequestWindow(request),
            TrayAction::Emit { event, payload } => TrayActionView::Emit {
                event: event@,
                payload: payload@,
            },
            TrayAction::EmitNewInstance(payload) => TrayActionView::EmitNewInstance(payload@),
            TrayAction::Notify(notice) => TrayActionView::Notify(notice),
        }
    }
}

/// A list of instructions as plain values.
pub open spec fn actions_view(actions: Seq<TrayAction>) -> Seq<TrayActionView> {
    actions.map_values(|action: TrayAction| action@)
}

} // verus!
