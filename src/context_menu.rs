//! Opening a context menu at a right click, and closing it.

use vstd::prelude::*;
use crate::editor::{ContextMenuBuilder, Editor, EditorMode, ScreenPoint};
use crate::menu::{default_entries, default_menu_entries, ContextMenu, Platform};
use crate::selections::{
    selections_hold_point, DisplayPoint, PendingSelection, SelectMode, Selection,
    SelectionsCollection,
};
use crate::window::Window;

verus! {

/// The context menu open on a surface: where it was asked for, the menu, and
/// the subscription through which its dismissal reaches the surface.
#[derive(Clone, Debug)]
pub struct MouseContextMenu {
    pub position: ScreenPoint,
    pub context_menu: ContextMenu,
    pub subscription: u64,
}

impl MouseContextMenu {
    /// Takes `context_menu` at `position` and moves focus into it, so that its
    /// entries can be reached by keyboard.
    pub fn new(position: ScreenPoint, context_menu: ContextMenu, subscription: u64, window: &mut Window) -> (r:
        MouseContextMenu)
        ensures
            r.position == position,
            r.context_menu == context_menu,
            r.subscription == subscription,
            *final(window) == (Window { focused: Some(context_menu.focus_handle), ..*old(window) }),
    {
        window.focus(context_menu.focus_handle);
        MouseContextMenu { position, context_menu, subscription }
    }
}

/// `window` after focus has moved to the element with `handle`.
pub open spec fn focused_on(window: Window, handle: u64) -> Window {
    Window { focused: Some(handle), ..window }
}

/// The state after `menu` has opened at `position` on the surface `editor`.
pub open spec fn opened<B>(editor: Editor<B>, window: Window, position: ScreenPoint, menu: ContextMenu) -> (
    Editor<B>,
    Window,
) {
    (
        Editor {
            mouse_context_menu: Some(
                MouseContextMenu {
                    position,
                    context_menu: menu,
                    subscription: editor.next_subscription,
                },
            ),
            next_subscription: (editor.next_subscription + 1) as u64,
            needs_redraw: true,
            ..editor
        },
        focused_on(window, menu.focus_handle),
    )
}

/// `post` is `pre` with a new menu open at `position` (its selections aside),
/// and that menu holds focus in `post_window`.
pub open spec fn menu_opened<B>(pre: Editor<B>, position: ScreenPoint, post: Editor<B>, post_window: Window) -> bool {
    &&& match post.mouse_context_menu {
        Some(m) => {
            &&& m.position == position
            &&& m.subscription == pre.next_subscription
            &&& post_window.focused == Some(m.context_menu.focus_handle)
        },
        None => false,
    }
    &&& post.next_subscription == pre.next_subscription + 1
    &&& post.needs_redraw
    &&& post.mode == pre.mode
    &&& post.focus_handle == pre.focus_handle
    &&& post.has_project == pre.has_project
    &&& post.custom_context_menu == pre.custom_context_menu
}

/// The selections after a click at `point`: left alone where a selection
/// holds the point, else one pending cursor at the point and nothing else.
pub open spec fn selections_after_click(
    pre: SelectionsCollection,
    point: DisplayPoint,
    post: SelectionsCollection,
) -> bool {
    if pre.holds_point(point) {
        post == pre
    } else {
        &&& post.disjoint@.len() == 0
        &&& post.pending == Some(
            PendingSelection { selection: Selection::cursor_at(point), mode: SelectMode::Character },
        )
    }
}

/// The state after the menu with `subscription` reports its dismissal: where
/// it is the open menu, the surface lets it go and takes focus back if the
/// menu still held it; a menu that was since replaced changes nothing.
pub open spec fn dismissed<B>(editor: Editor<B>, window: Window, subscription: u64) -> (Editor<B>, Window) {
    match editor.mouse_context_menu {
        Some(m) => if m.subscription == subscription {
            (
                Editor { mouse_context_menu: None, ..editor },
                if window.focused == Some(m.context_menu.focus_handle) {
                    focused_on(window, editor.focus_handle)
                } else {
                    window
                },
            )
        } else {
            (editor, window)
        },
        None => (editor, window),
    }
}

/// Opens `menu` at `position` on the surface, in place of any menu open
/// there, gives it focus, and asks for a redraw.
pub fn show_context_menu<B>(
    editor: &mut Editor<B>,
    window: &mut Window,
    position: ScreenPoint,
    menu: ContextMenu,
)
    requires
        old(editor).next_subscription < u64::MAX,
    ensures
        (*final(editor), *final(window)) == opened(*old(editor), *old(window), position, menu),
        menu_opened(*old(editor), position, *final(editor), *final(window)),
        final(editor).selections == old(editor).selections,
        old(editor).wf() ==> final(editor).wf(),
{
    let subscription = editor.next_subscription;
    let mouse_context_menu = MouseContextMenu::new(position, menu, subscription, window);
    editor.mouse_context_menu = Some(mouse_context_menu);
    editor.next_subscription = subscription + 1;
    editor.needs_redraw = true;
}

/// Handles the dismissal that the menu with `subscription` reports.
pub fn on_context_menu_dismissed<B>(editor: &mut Editor<B>, window: &mut Window, subscription: u64)
    ensures
        (*final(editor), *final(window)) == dismissed(*old(editor), *old(window), subscription),
        old(editor).wf() ==> final(editor).wf(),
        old(editor).mouse_context_menu.is_some() && old(editor).mouse_context_menu.unwrap().subscription
            == subscription ==> {
            let menu_focus = old(editor).mouse_context_menu.unwrap().context_menu.focus_handle;
            &&& final(editor).mouse_context_menu.is_none()
            &&& old(window).focused == Some(menu_focus) ==> final(window).focused == Some(
                old(editor).focus_handle,
            )
            &&& old(window).focused != Some(menu_focus) ==> *final(window) == *old(window)
        },
{
    let live = match &editor.mouse_context_menu {
        Some(m) => m.subscription == subscription,
        None => false,
    };
    if live {
        if let Some(m) = editor.mouse_context_menu.take() {
            if window.contains_focused(m.context_menu.focus_handle) {
                editor.focus(window);
            }
        }
    }
}

/// Answers a right click at screen `position`, which lands on `point` of the
/// surface. The surface takes focus first. A surface in any mode but the full
/// one opens no menu. A builder of the surface's own is asked once for the
/// menu and is kept. Else, with a project behind the surface, a click outside
/// every selection puts one pending cursor at the click, and the default menu
/// for `platform` opens, bound to the key bindings of the focused element.
pub fn deploy_context_menu<B: ContextMenuBuilder>(
    editor: &mut Editor<B>,
    window: &mut Window,
    position: ScreenPoint,
    point: DisplayPoint,
    platform: Platform,
)
    requires
        old(editor).next_subscription < u64::MAX,
        old(window).next_focus_handle < u64::MAX,
    ensures
        old(editor).mode != EditorMode::Full ==> {
            &&& *final(editor) == *old(editor)
            &&& *final(window) == focused_on(*old(window), old(editor).focus_handle)
        },
        old(editor).mode == EditorMode::Full && old(editor).custom_context_menu.is_some() ==> {
            &&& final(editor).custom_context_menu == old(editor).custom_context_menu
            &&& final(editor).selections == old(editor).selections
            &&& (*final(editor) == *old(editor) || menu_opened(
                *old(editor),
                position,
                *final(editor),
                *final(window),
            ))
        },
        old(editor).mode == EditorMode::Full && old(editor).custom_context_menu.is_none()
            && !old(editor).has_project ==> {
            &&& *final(editor) == *old(editor)
            &&& *final(window) == focused_on(*old(window), old(editor).focus_handle)
        },
        old(editor).mode == EditorMode::Full && old(editor).custom_context_menu.is_none()
            && old(editor).has_project ==> {
            &&& selections_after_click(old(editor).selections, point, final(editor).selections)
            &&& menu_opened(*old(editor), position, *final(editor), *final(window))
            &&& final(editor).mouse_context_menu.unwrap().context_menu.entries@ == default_entries(
                platform,
            )
            &&& final(editor).mouse_context_menu.unwrap().context_menu.context == Some(
                old(editor).focus_handle,
            )
            &&& *final(window) == (Window {
                focused: Some(old(window).next_focus_handle),
                next_focus_handle: (old(window).next_focus_handle + 1) as u64,
            })
        },
        old(editor).selections.holds_point(point) ==> final(editor).selections == old(
            editor,
        ).selections,
        old(editor).mode == EditorMode::Full && old(editor).custom_context_menu.is_none()
            && old(editor).has_project && !old(editor).selections.holds_point(point) ==> {
            &&& final(editor).selections.disjoint@.len() == 0
            &&& final(editor).selections.pending == Some(
                PendingSelection {
                    selection: Selection::cursor_at(point),
                    mode: SelectMode::Character,
                },
            )
        },
        old(editor).wf() ==> final(editor).wf(),
{
    if !editor.is_focused(window) {
        editor.focus(window);
    }
    match editor.mode() {
        EditorMode::Full => {},
        _ => {
            return ;
        },
    }
    let menu = if let Some(custom) = editor.custom_context_menu.take() {
        let built = custom.build(point, window);
        editor.custom_context_menu = Some(custom);
        match built {
            Some(menu) => menu,
            None => {
                return ;
            },
        }
    } else {
        if !editor.has_project {
            return ;
        }
        if !selections_hold_point(&editor.selections, &point) {
            editor.selections.clear_disjoint();
            editor.selections.set_pending_range(point, point, SelectMode::Character);
        }
        let focus = window.focused();
        ContextMenu::build(window, default_menu_entries(platform), focus)
    };
    show_context_menu(editor, window, position, menu);
}

/// Two menus opened one after the other leave exactly one menu, the second,
/// and the dismissal that the first menu reports afterwards changes nothing.
pub proof fn lemma_second_menu_replaces_first<B>(
    start: Editor<B>,
    first_position: ScreenPoint,
    after_first: Editor<B>,
    first_window: Window,
    second_position: ScreenPoint,
    after_second: Editor<B>,
    second_window: Window,
    window: Window,
)
    requires
        menu_opened(start, first_position, after_first, first_window),
        menu_opened(after_first, second_position, after_second, second_window),
    ensures
        after_second.mouse_context_menu.is_some(),
        after_second.mouse_context_menu.unwrap().position == second_position,
        dismissed(after_second, window, after_first.mouse_context_menu.unwrap().subscription) == (
            after_second,
            window,
        ),
{
}

} // verus!
