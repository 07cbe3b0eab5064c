//! Right-click context menus for a text-editing surface: whether a menu may
//! open, how the selection is moved to the click, which entries the menu
//! holds, and how closing the menu hands focus back to the surface.

pub mod context_menu;
pub mod editor;
pub mod menu;
pub mod selections;
pub mod window;
