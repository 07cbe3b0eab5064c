//! Which element holds input focus, and the handles that name focusable elements.

use vstd::prelude::*;

verus! {

/// The focus state of one window: the element that holds focus, if any, and
/// the next free focus handle.
#[derive(Clone, Copy, PartialEq, Eq, Structural, Debug)]
pub struct Window {
    pub focused: Option<u64>,
    pub next_focus_handle: u64,
}

impl Window {
    pub fn new() -> (r: Window)
        ensures
            r.focused.is_none(),
            r.next_focus_handle == 0,
    {
        Window { focused: None, next_focus_handle: 0 }
    }

    /// A handle that no element of this window has had before.
    pub fn new_focus_handle(&mut self) -> (r: u64)
        requires
            old(self).next_focus_handle < u64::MAX,
        ensures
            r == old(self).next_focus_handle,
            *final(self) == (Window { next_focus_handle: (r + 1) as u64, ..*old(self) }),
    {
        let r = self.next_focus_handle;
        self.next_focus_handle = r + 1;
        r
    }

    /// The element that holds focus.
    pub fn focused(&self) -> (r: Option<u64>)
        ensures
            r == self.focused,
    {
        self.focused
    }

    /// Moves focus to the element with `handle`.
    pub fn focus(&mut self, handle: u64)
        ensures
            *final(self) == (Window { focused: Some(handle), ..*old(self) }),
    {
        self.focused = Some(handle);
    }

    /// Whether the element with `handle` holds focus.
    pub fn contains_focused(&self, handle: u64) -> (r: bool)
        ensures
            r == (self.focused == Some(handle)),
    {
        match self.focused {
            Some(h) => h == handle,
            None => false,
        }
    }
}

} // verus!
