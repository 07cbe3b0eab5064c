//! The editing surface as the context menu sees it.

use vstd::prelude::*;
use crate::context_menu::MouseContextMenu;
use crate::menu::ContextMenu;
use crate::selections::{DisplayPoint, SelectionsCollection};
use crate::window::Window;

verus! {

/// How much of the editor's feature set a surface offers.
#[derive(Clone, Copy, PartialEq, Eq, Structural, Debug)]
pub enum EditorMode {
    SingleLine,
    AutoHeight { max_lines: u32 },
    Full,
}

/// A position on screen, in whole pixels.
#[derive(Clone, Copy, PartialEq, Eq, Structural, Debug, Default)]
pub struct ScreenPoint {
    pub x: i32,
    pub y: i32,
}

impl ScreenPoint {
    pub fn new(x: i32, y: i32) -> (r: ScreenPoint)
        ensures
            r.x == x,
            r.y == y,
    {
        ScreenPoint { x, y }
    }
}

/// A menu of the surface's owner's choosing, in place of the default one.
pub trait ContextMenuBuilder {
    /// The menu for a click at `point`, or `None` where no menu should open.
    fn build(&self, point: DisplayPoint, window: &mut Window) -> Option<ContextMenu>;
}

/// One editing surface: its mode, focus handle, whether a project stands
/// behind it, its selections, an optional menu builder of its own, and the
/// context menu that is open on it, if any.
pub struct Editor<B> {
    pub mode: EditorMode,
    pub focus_handle: u64,
    pub has_project: bool,
    pub selections: SelectionsCollection,
    pub custom_context_menu: Option<B>,
    pub mouse_context_menu: Option<MouseContextMenu>,
    pub next_subscription: u64,
    pub needs_redraw: bool,
}

impl<B> Editor<B> {
    /// The selections are well formed, and the open menu's subscription is
    /// one that was handed out.
    pub open spec fn wf(self) -> bool {
        &&& self.selections.wf()
        &&& match self.mouse_context_menu {
            Some(m) => m.subscription < self.next_subscription,
            None => true,
        }
    }

    /// A surface with nothing selected, no menu open and no builder of its own.
    pub fn new(mode: EditorMode, focus_handle: u64, has_project: bool) -> (r: Editor<B>)
        ensures
            r.mode == mode,
            r.focus_handle == focus_handle,
            r.has_project == has_project,
            r.selections.disjoint@.len() == 0,
            r.selections.pending.is_none(),
            r.custom_context_menu.is_none(),
            r.mouse_context_menu.is_none(),
            r.next_subscription == 0,
            !r.needs_redraw,
            r.wf(),
    {
        Editor {
            mode,
            focus_handle,
            has_project,
            selections: SelectionsCollection::new(),
            custom_context_menu: None,
            mouse_context_menu: None,
            next_subscription: 0,
            needs_redraw: false,
        }
    }

    /// Lets `builder` make this surface's context menus.
    pub fn set_custom_context_menu(&mut self, builder: B)
        ensures
            *final(self) == (Editor { custom_context_menu: Some(builder), ..*old(self) }),
    {
        self.custom_context_menu = Some(builder);
    }

    pub fn mode(&self) -> (r: EditorMode)
        ensures
            r == self.mode,
    {
        self.mode
    }

    /// Whether this surface holds focus.
    pub fn is_focused(&self, window: &Window) -> (r: bool)
        ensures
            r == (window.focused == Some(self.focus_handle)),
    {
        window.contains_focused(self.focus_handle)
    }

    /// Moves focus to this surface.
    pub fn focus(&self, window: &mut Window)
        ensures
            *final(window) == (Window { focused: Some(self.focus_handle), ..*old(window) }),
    {
        window.focus(self.focus_handle);
    }
}

} // verus!
