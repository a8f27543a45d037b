//! The handlers: what a menu selection, a click on the tray icon or a second
//! launch changes, and what it asks of the windowing layer.

use vstd::prelude::*;
use crate::action::{
    actions_view, TrayAction, TrayActionView, TrayNotice, WindowRequest, WindowStatus,
};
use crate::controller::{
    menu_refresh_spec, tray_refresh_spec, update_tray, update_tray_menu, TrayController,
};
use crate::labels::active_locale;
use crate::menu::{
    lemma_menu_ids_distinct, TrayResources, QUIT_ID, TOGGLE_SYNC_ID, TOGGLE_VISIBILITY_ID,
};
use crate::payload::{
    text_view, texts_view, IconTrayPayload, IconTrayPayloadView, SingleInstancePayload,
    SingleInstancePayloadView,
};
use crate::sync::SyncState;
use crate::text::str_equal;

verus! {

/// The event that reports a menu selection to the main window.
pub const SYSTEM_TRAY_EVENT: &'static str = "systemTray";

/// The event that reports a left click on the tray icon to the main window.
pub const TRAY_CLICK_EVENT: &'static str = "system-tray";

/// The event that hands the payload of a second launch to the main window.
pub const NEW_INSTANCE_EVENT: &'static str = "newInstance";

/// The message of the payload that reports a left click.
pub const LEFT_CLICK_MESSAGE: &'static str = "left-click";

/// The data that reports that the main window was hidden.
pub const HIDDEN_DATA: &'static str = "hidden";

/// The data that reports that the main window was shown.
pub const VISIBLE_DATA: &'static str = "visible";

/// The argument of a launch that asks for the main window to stay hidden.
pub const HIDDEN_FLAG: &'static str = "--hidden";

/// The exit code of a process that the quit entry ends.
pub const QUIT_EXIT_CODE: i32 = 0;

/// What a handler leaves behind: the refreshes it asks for, and the data of
/// the notification that follows.
#[derive(Clone, Debug, PartialEq, Eq)]
pub struct Handled {
    pub actions: Vec<TrayAction>,
    pub data: Option<String>,
}

/// A button of the pointing device.
#[derive(Clone, Copy, Debug, PartialEq, Eq, Structural)]
pub enum MouseButton {
    Left,
    Right,
    Middle,
}

/// Whether a button went down or came up.
#[derive(Clone, Copy, Debug, PartialEq, Eq, Structural)]
pub enum MouseButtonState {
    Up,
    Down,
}

/// What the pointing device did on the tray icon.
#[derive(Clone, Copy, Debug, PartialEq, Eq, Structural)]
pub enum TrayIconEvent {
    Click { button: MouseButton, button_state: MouseButtonState },
    DoubleClick { button: MouseButton },
    Enter,
    Move,
    Leave,
}

/// Whether the menu offers to hide the window: it does unless the window is
/// known to be hidden.
pub open spec fn shown_spec(window: WindowStatus) -> bool {
    window != WindowStatus::Hidden
}

/// The change that the visibility entry asks for: a visible window is hidden,
/// a hidden one is shown and focused, and without a window there is nothing
/// to ask.
pub open spec fn visibility_request_spec(window: WindowStatus) -> Option<WindowRequest> {
    match window {
        WindowStatus::Missing => None,
        WindowStatus::Hidden => Some(WindowRequest::Show),
        WindowStatus::Visible => Some(WindowRequest::Hide),
    }
}

/// Whether the main window is visible once a change has succeeded.
pub open spec fn visible_after_spec(request: WindowRequest) -> bool {
    request == WindowRequest::Show
}

/// The data that reports a change of visibility that succeeded.
pub open spec fn visibility_data_spec(request: WindowRequest) -> Seq<char> {
    match request {
        WindowRequest::Hide => HIDDEN_DATA@,
        WindowRequest::Show => VISIBLE_DATA@,
    }
}

/// The notification of a menu selection: the id of the entry and the data of
/// its handler, under the tray event.
pub open spec fn emit_spec(event_id: Seq<char>, event_data: Option<Seq<char>>) -> TrayActionView {
    TrayActionView::Emit {
        event: SYSTEM_TRAY_EVENT@,
        payload: IconTrayPayloadView { message: event_id, data: event_data },
    }
}

/// What a refresh of the menu asks for when there may be no tray icon.
pub open spec fn menu_refresh_if(
    active: bool,
    resources: &TrayResources,
    sync_state: SyncState,
    theme: Seq<char>,
    window_visible: bool,
    lang: Seq<char>,
) -> Seq<TrayActionView> {
    if active {
        menu_refresh_spec(resources, sync_state, theme, window_visible, lang)
    } else {
        Seq::empty()
    }
}

/// What a refresh of the tray asks for when there may be no tray icon.
pub open spec fn tray_refresh_if(
    active: bool,
    resources: &TrayResources,
    sync_state: SyncState,
    theme: Seq<char>,
    window_visible: bool,
    lang: Seq<char>,
) -> Seq<TrayActionView> {
    if active {
        tray_refresh_spec(resources, sync_state, theme, window_visible, lang)
    } else {
        Seq::empty()
    }
}

pub fn window_shown(window: WindowStatus) -> (shown: bool)
    ensures
        shown == shown_spec(window),
{
    match window {
        WindowStatus::Hidden => false,
        _ => true,
    }
}

pub fn visibility_request(window: WindowStatus) -> (request: Option<WindowRequest>)
    ensures
        request == visibility_request_spec(window),
{
    match window {
        WindowStatus::Missing => None,
        WindowStatus::Hidden => Some(WindowRequest::Show),
        WindowStatus::Visible => Some(WindowRequest::Hide),
    }
}

/// Flips the sync flag and rebuilds the menu in the given locale. The data
/// is the token of the new state.
pub fn apply_sync_toggle(
    controller: &mut TrayController,
    resources: &TrayResources,
    window_visible: bool,
    lang: String,
) -> (handled: Handled)
    ensures
        final(controller).sync_spec() == old(controller).sync_spec().toggled_spec(),
        final(controller).theme_spec() == old(controller).theme_spec(),
        final(controller).active_spec() == old(controller).active_spec(),
        text_view(handled.data) == Some(final(controller).sync_spec().token_spec()),
        actions_view(handled.actions@) == menu_refresh_if(
            old(controller).active_spec(),
            resources,
            final(controller).sync_spec(),
            old(controller).theme_spec(),
            window_visible,
            lang@,
        ),
{
    let state = controller.toggle_sync();
    let actions = update_tray_menu(controller, resources, window_visible, lang);
    assert(!controller.active_spec() ==> actions_view(actions@) =~= Seq::empty());
    Handled { actions, data: Some(state.token()) }
}

/// Flips the sync flag and rebuilds the menu in the locale that the process
/// has at that moment. The data is the token of the new state.
pub fn handle_sync_toggle(
    controller: &mut TrayController,
    resources: &TrayResources,
    window_visible: bool,
) -> (handled: Handled)
    ensures
        final(controller).sync_spec() == old(controller).sync_spec().toggled_spec(),
        final(controller).theme_spec() == old(controller).theme_spec(),
        final(controller).active_spec() == old(controller).active_spec(),
        text_view(handled.data) == Some(final(controller).sync_spec().token_spec()),
        exists|lang: Seq<char>|
            actions_view(handled.actions@) == #[trigger] menu_refresh_if(
                old(controller).active_spec(),
                resources,
                final(controller).sync_spec(),
                old(controller).theme_spec(),
                window_visible,
                lang,
            ),
{
    let lang = active_locale();
    apply_sync_toggle(controller, resources, window_visible, lang)
}

/// Takes note of the outcome of a change of visibility, with the tray
/// refreshed in the given locale. After a failure nothing is assumed to have
/// changed: there is no refresh and no data. After a success the tray is
/// refreshed with the theme in place, for a window that is now hidden or
/// shown, and the data says which.
pub fn apply_visibility_toggle(
    controller: &mut TrayController,
    resources: &TrayResources,
    request: WindowRequest,
    succeeded: bool,
    lang: String,
) -> (handled: Handled)
    ensures
        final(controller).sync_spec() == old(controller).sync_spec(),
        final(controller).theme_spec() == old(controller).theme_spec(),
        final(controller).active_spec() == old(controller).active_spec(),
        !succeeded ==> handled.actions@.len() == 0 && handled.data.is_none(),
        succeeded ==> text_view(handled.data) == Some(visibility_data_spec(request))
            && actions_view(handled.actions@) == tray_refresh_if(
            old(controller).active_spec(),
            resources,
            old(controller).sync_spec(),
            old(controller).theme_spec(),
            visible_after_spec(request),
            lang@,
        ),
{
    if !succeeded {
        return Handled { actions: Vec::new(), data: None };
    }
    let theme = controller.icon_theme().to_owned();
    let (window_visible, data) = match request {
        WindowRequest::Hide => (false, HIDDEN_DATA.to_owned()),
        WindowRequest::Show => (true, VISIBLE_DATA.to_owned()),
    };
    let actions = update_tray(controller, resources, window_visible, lang, theme);
    assert(!controller.active_spec() ==> actions_view(actions@) =~= Seq::empty());
    Handled { actions, data: Some(data) }
}

/// Takes note of the outcome of a change of visibility, with the tray
/// refreshed in the locale that the process has at that moment.
pub fn handle_visibility_toggle(
    controller: &mut TrayController,
    resources: &TrayResources,
    request: WindowRequest,
    succeeded: bool,
) -> (handled: Handled)
    ensures
        final(controller).sync_spec() == old(controller).sync_spec(),
        final(controller).theme_spec() == old(controller).theme_spec(),
        final(controller).active_spec() == old(controller).active_spec(),
        !succeeded ==> handled.actions@.len() == 0 && handled.data.is_none(),
        succeeded ==> text_view(handled.data) == Some(visibility_data_spec(request)) && exists|
            lang: Seq<char>,
        |
            actions_view(handled.actions@) == #[trigger] tray_refresh_if(
                old(controller).active_spec(),
                resources,
                old(controller).sync_spec(),
                old(controller).theme_spec(),
                visible_after_spec(request),
                lang,
            ),
{
    if !succeeded {
        return Handled { actions: Vec::new(), data: None };
    }
    let lang = active_locale();
    apply_visibility_toggle(controller, resources, request, true, lang)
}

/// The notification of a menu selection.
pub fn emit_tray_event(event_id: &str, event_data: Option<String>) -> (action: TrayAction)
    ensures
        action@ == emit_spec(event_id@, text_view(event_data)),
{
    TrayAction::Emit {
        event: SYSTEM_TRAY_EVENT.to_owned(),
        payload: IconTrayPayload::new(event_id, event_data),
    }
}

/// What a selection of the sync entry asks for: the refreshed menu, then the
/// notification with the token of the new state.
pub open spec fn sync_selected_spec(
    active: bool,
    resources: &TrayResources,
    sync_state: SyncState,
    theme: Seq<char>,
    window_visible: bool,
    lang: Seq<char>,
) -> Seq<TrayActionView> {
    menu_refresh_if(active, resources, sync_state, theme, window_visible, lang).push(
        emit_spec(TOGGLE_SYNC_ID@, Some(sync_state.token_spec())),
    )
}

/// What follows a change of visibility that succeeded: the refreshed tray,
/// then the notification that says whether the window was hidden or shown.
pub open spec fn visibility_changed_spec(
    active: bool,
    resources: &TrayResources,
    sync_state: SyncState,
    theme: Seq<char>,
    request: WindowRequest,
    lang: Seq<char>,
) -> Seq<TrayActionView> {
    tray_refresh_if(active, resources, sync_state, theme, visible_after_spec(request), lang).push(
        emit_spec(TOGGLE_VISIBILITY_ID@, Some(visibility_data_spec(request))),
    )
}

/// The instructions with one more at the end.
fn with_last(actions: Vec<TrayAction>, last: TrayAction) -> (all: Vec<TrayAction>)
    ensures
        actions_view(all@) == actions_view(actions@).push(last@),
{
    let mut all = actions;
    all.push(last);
    assert(actions_view(all@) =~= actions_view(actions@).push(last@));
    all
}

/// One instruction as a list.
fn only(action: TrayAction) -> (all: Vec<TrayAction>)
    ensures
        actions_view(all@) == seq![action@],
{
    let all = vec![action];
    assert(actions_view(all@) =~= seq![action@]);
    all
}

/// Handles the selection of a menu entry, by its id.
///
/// The quit entry ends the process with exit code 0: that is the only
/// instruction, and no notification follows. The sync entry flips the sync
/// flag and rebuilds the menu in the locale that the process has at that
/// moment. The visibility entry asks for the window to be hidden or shown;
/// the notification waits for the outcome, which goes to
/// `handle_window_outcome`. Without a main window, and for any other id,
/// nothing changes. But for the quit entry and for a visibility entry that
/// waits, the instructions end with one notification that carries the id and
/// the handler's data.
pub fn handle_menu_event(
    controller: &mut TrayController,
    resources: &TrayResources,
    event_id: &str,
    window: WindowStatus,
) -> (actions: Vec<TrayAction>)
    ensures
        final(controller).theme_spec() == old(controller).theme_spec(),
        final(controller).active_spec() == old(controller).active_spec(),
        final(controller).sync_spec() == (if event_id@ == TOGGLE_SYNC_ID@ {
            old(controller).sync_spec().toggled_spec()
        } else {
            old(controller).sync_spec()
        }),
        event_id@ == QUIT_ID@ ==> final(controller).sync_spec() == old(controller).sync_spec()
            && actions_view(actions@) == seq![TrayActionView::Exit { code: QUIT_EXIT_CODE }],
        event_id@ == TOGGLE_VISIBILITY_ID@ ==> final(controller).sync_spec() == old(
            controller,
        ).sync_spec(),
        event_id@ == TOGGLE_SYNC_ID@ ==> exists|lang: Seq<char>|
            actions_view(actions@) == #[trigger] sync_selected_spec(
                old(controller).active_spec(),
                resources,
                final(controller).sync_spec(),
                old(controller).theme_spec(),
                shown_spec(window),
                lang,
            ),
        event_id@ == TOGGLE_VISIBILITY_ID@ ==> actions_view(actions@) == (match visibility_request_spec(
            window,
        ) {
            Some(request) => seq![TrayActionView::RequestWindow(request)],
            None => seq![emit_spec(event_id@, None)],
        }),
        event_id@ != QUIT_ID@ && event_id@ != TOGGLE_SYNC_ID@ && event_id@ != TOGGLE_VISIBILITY_ID@
            ==> actions_view(actions@) == seq![emit_spec(event_id@, None)],
{
    proof {
        lemma_menu_ids_distinct();
    }
    if str_equal(event_id, QUIT_ID) {
        only(TrayAction::Exit { code: QUIT_EXIT_CODE })
    } else if str_equal(event_id, TOGGLE_SYNC_ID) {
        let handled = handle_sync_toggle(controller, resources, window_shown(window));
        proof {
            let lang = choose|lang: Seq<char>|
                actions_view(handled.actions@) == #[trigger] menu_refresh_if(
                    old(controller).active_spec(),
                    resources,
                    controller.sync_spec(),
                    old(controller).theme_spec(),
                    shown_spec(window),
                    lang,
                );
            assert(actions_view(handled.actions@).push(
                emit_spec(event_id@, text_view(handled.data)),
            ) == sync_selected_spec(
                old(controller).active_spec(),
                resources,
                controller.sync_spec(),
                old(controller).theme_spec(),
                shown_spec(window),
                lang,
            ));
        }
        with_last(handled.actions, emit_tray_event(event_id, handled.data))
    } else if str_equal(event_id, TOGGLE_VISIBILITY_ID) {
        match visibility_request(window) {
            Some(request) => only(TrayAction::RequestWindow(request)),
            None => only(emit_tray_event(event_id, None)),
        }
    } else {
        only(emit_tray_event(event_id, None))
    }
}

/// Finishes the selection of the visibility entry once the windowing layer
/// has tried to hide or show the window. After a failure nothing is assumed
/// to have changed and the notification carries no data. After a success the
/// tray is refreshed, with the theme in place and the locale that the process
/// has at that moment, and the notification says whether the window was
/// hidden or shown.
pub fn handle_window_outcome(
    controller: &mut TrayController,
    resources: &TrayResources,
    request: WindowRequest,
    succeeded: bool,
) -> (actions: Vec<TrayAction>)
    ensures
        final(controller).sync_spec() == old(controller).sync_spec(),
        final(controller).theme_spec() == old(controller).theme_spec(),
        final(controller).active_spec() == old(controller).active_spec(),
        !succeeded ==> actions_view(actions@) == seq![emit_spec(TOGGLE_VISIBILITY_ID@, None)],
        succeeded ==> exists|lang: Seq<char>|
            actions_view(actions@) == #[trigger] visibility_changed_spec(
                old(controller).active_spec(),
                resources,
                old(controller).sync_spec(),
                old(controller).theme_spec(),
                request,
                lang,
            ),
{
    let handled = handle_visibility_toggle(controller, resources, request, succeeded);
    proof {
        if succeeded {
            let lang = choose|lang: Seq<char>|
                actions_view(handled.actions@) == #[trigger] tray_refresh_if(
                    old(controller).active_spec(),
                    resources,
                    old(controller).sync_spec(),
                    old(controller).theme_spec(),
                    visible_after_spec(request),
                    lang,
                );
            assert(actions_view(handled.actions@).push(
                emit_spec(TOGGLE_VISIBILITY_ID@, Some(visibility_data_spec(request))),
            ) == visibility_changed_spec(
                old(controller).active_spec(),
                resources,
                old(controller).sync_spec(),
                old(controller).theme_spec(),
                request,
                lang,
            ));
        } else {
            assert(actions_view(handled.actions@) =~= Seq::empty());
        }
    }
    let actions = with_last(handled.actions, emit_tray_event(TOGGLE_VISIBILITY_ID, handled.data));
    assert(!succeeded ==> actions_view(actions@) =~= seq![emit_spec(TOGGLE_VISIBILITY_ID@, None)]);
    actions
}

/// What a click on the tray icon asks for. A left button that comes up sends
/// the left-click payload, without data, to the main window, shows and
/// focuses the window, and is reported. A right button that comes up and a
/// double click are reported and do nothing else. Everything else is passed
/// over.
pub open spec fn tray_icon_event_spec(event: TrayIconEvent) -> Seq<TrayActionView> {
    match event {
        TrayIconEvent::Click { button: MouseButton::Left, button_state: MouseButtonState::Up } => seq![
            TrayActionView::Emit {
                event: TRAY_CLICK_EVENT@,
                payload: IconTrayPayloadView { message: LEFT_CLICK_MESSAGE@, data: None },
            },
            TrayActionView::ShowWindow,
            TrayActionView::FocusWindow,
            TrayActionView::Notify(TrayNotice::LeftClick),
        ],
        TrayIconEvent::Click { button: MouseButton::Right, button_state: MouseButtonState::Up } => seq![
            TrayActionView::Notify(TrayNotice::RightClick),
        ],
        TrayIconEvent::DoubleClick { .. } => seq![TrayActionView::Notify(TrayNotice::DoubleClick)],
        _ => Seq::empty(),
    }
}

/// Handles what the pointing device did on the tray icon. The shared state
/// takes no part in it.
pub fn handle_tray_icon_event(event: TrayIconEvent) -> (actions: Vec<TrayAction>)
    ensures
        actions_view(actions@) == tray_icon_event_spec(event),
{
    let actions = match event {
        TrayIconEvent::Click { button: MouseButton::Left, button_state: MouseButtonState::Up } => {
            vec![
                TrayAction::Emit {
                    event: TRAY_CLICK_EVENT.to_owned(),
                    payload: IconTrayPayload::new(LEFT_CLICK_MESSAGE, None),
                },
                TrayAction::ShowWindow,
                TrayAction::FocusWindow,
                TrayAction::Notify(TrayNotice::LeftClick),
            ]
        },
        TrayIconEvent::Click { button: MouseButton::Right, button_state: MouseButtonState::Up } => {
            vec![TrayAction::Notify(TrayNotice::RightClick)]
        },
        TrayIconEvent::DoubleClick { .. } => vec![TrayAction::Notify(TrayNotice::DoubleClick)],
        _ => Vec::new(),
    };
    assert(actions_view(actions@) =~= tray_icon_event_spec(event));
    actions
}

/// Whether a launch asks for the main window to stay hidden: one of its
/// arguments is the hidden flag, letter for letter.
pub open spec fn hidden_launch_spec(args: Seq<Seq<char>>) -> bool {
    args.contains(HIDDEN_FLAG@)
}

pub fn has_hidden_flag(args: &Vec<String>) -> (hidden: bool)
    ensures
        hidden == hidden_launch_spec(texts_view(args@)),
{
    let mut i: usize = 0;
    while i < args.len()
        invariant
            i <= args.len(),
            forall|j: int| 0 <= j < i ==> texts_view(args@)[j] != HIDDEN_FLAG@,
        decreases args.len() - i,
    {
        if str_equal(args[i].as_str(), HIDDEN_FLAG) {
            assert(texts_view(args@)[i as int] == HIDDEN_FLAG@);
            return true;
        }
        i += 1;
    }
    false
}

/// What a second launch asks for: the payload always goes to the main
/// window, with the arguments and the working directory as they came; the
/// window is shown and focused first unless the launch carries the hidden
/// flag.
pub open spec fn second_instance_spec(args: Seq<Seq<char>>, cwd: Seq<char>) -> Seq<TrayActionView> {
    if hidden_launch_spec(args) {
        seq![TrayActionView::EmitNewInstance(SingleInstancePayloadView { args, cwd })]
    } else {
        seq![
            TrayActionView::ShowWindow,
            TrayActionView::FocusWindow,
            TrayActionView::EmitNewInstance(SingleInstancePayloadView { args, cwd }),
        ]
    }
}

/// Handles a second launch of the application.
pub fn handle_second_instance(args: Vec<String>, cwd: String) -> (actions: Vec<TrayAction>)
    ensures
        actions_view(actions@) == second_instance_spec(texts_view(args@), cwd@),
{
    let hidden = has_hidden_flag(&args);
    let emit = TrayAction::EmitNewInstance(SingleInstancePayload { args, cwd });
    let actions = if hidden {
        vec![emit]
    } else {
        vec![TrayAction::ShowWindow, TrayAction::FocusWindow, emit]
    };
    assert(actions_view(actions@) =~= second_instance_spec(texts_view(args@), cwd@));
    actions
}

} // verus!
