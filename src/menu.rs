//! The entries of a context menu and the menu that the surface offers by default.

use vstd::prelude::*;
use crate::window::Window;

verus! {

/// The host platform, which names the command that reveals a file.
#[derive(Clone, Copy, PartialEq, Eq, Structural, Debug)]
pub enum Platform {
    MacOs,
    Other,
}

/// A command that a menu entry dispatches; the menu passes it on unchanged.
#[derive(Clone, Copy, PartialEq, Eq, Structural, Debug)]
pub enum EditorAction {
    Rename,
    GoToDefinition,
    GoToTypeDefinition,
    GoToImplementation,
    FindAllReferences,
    ToggleCodeActions { deployed_from_indicator: Option<u32> },
    Cut,
    Copy,
    Paste,
    RevealInFileManager,
    OpenInTerminal,
    CopyPermalinkToLine,
    CopyFileLine,
}

/// One line of a menu: a labelled command, or a separator.
#[derive(Clone, Copy, PartialEq, Eq, Debug)]
pub enum MenuEntry {
    Action { label: &'static str, action: EditorAction },
    Separator,
}

/// A built menu: its entries in order, the element whose key bindings apply
/// to its commands, and the focus handle of the menu itself.
#[derive(Clone, Debug)]
pub struct ContextMenu {
    pub entries: Vec<MenuEntry>,
    pub context: Option<u64>,
    pub focus_handle: u64,
}

pub open spec fn action_entry(label: &'static str, action: EditorAction) -> MenuEntry {
    MenuEntry::Action { label, action }
}

/// The label of the entry that reveals the file in the platform's file manager.
pub open spec fn reveal_label(platform: Platform) -> &'static str {
    match platform {
        Platform::MacOs => "Reveal in Finder",
        Platform::Other => "Reveal in File Manager",
    }
}

/// The entries of the menu that a surface offers when no builder of its own is set.
pub open spec fn default_entries(platform: Platform) -> Seq<MenuEntry> {
    seq![
        action_entry("Rename Symbol", EditorAction::Rename),
        action_entry("Go to Definition", EditorAction::GoToDefinition),
        action_entry("Go to Type Definition", EditorAction::GoToTypeDefinition),
        action_entry("Go to Implementation", EditorAction::GoToImplementation),
        action_entry("Find All References", EditorAction::FindAllReferences),
        action_entry(
            "Code Actions",
            EditorAction::ToggleCodeActions { deployed_from_indicator: None },
        ),
        MenuEntry::Separator,
        action_entry("Cut", EditorAction::Cut),
        action_entry("Copy", EditorAction::Copy),
        action_entry("Paste", EditorAction::Paste),
        MenuEntry::Separator,
        action_entry(reveal_label(platform), EditorAction::RevealInFileManager),
        action_entry("Open in Terminal", EditorAction::OpenInTerminal),
        action_entry("Copy Permalink", EditorAction::CopyPermalinkToLine),
        action_entry("Copy File:Line", EditorAction::CopyFileLine),
    ]
}

/// The default entries, in their fixed order, with the reveal entry that `platform` names.
pub fn default_menu_entries(platform: Platform) -> (r: Vec<MenuEntry>)
    ensures
        r@ == default_entries(platform),
{
    let mut v: Vec<MenuEntry> = Vec::new();
    v.push(MenuEntry::Action { label: "Rename Symbol", action: EditorAction::Rename });
    v.push(MenuEntry::Action { label: "Go to Definition", action: EditorAction::GoToDefinition });
    v.push(
        MenuEntry::Action {
            label: "Go to Type Definition",
            action: EditorAction::GoToTypeDefinition,
        },
    );
    v.push(
        MenuEntry::Action {
            label: "Go to Implementation",
            action: EditorAction::GoToImplementation,
        },
    );
    v.push(
        MenuEntry::Action { label: "Find All References", action: EditorAction::FindAllReferences },
    );
    v.push(
        MenuEntry::Action {
            label: "Code Actions",
            action: EditorAction::ToggleCodeActions { deployed_from_indicator: None },
        },
    );
    v.push(MenuEntry::Separator);
    v.push(MenuEntry::Action { label: "Cut", action: EditorAction::Cut });
    v.push(MenuEntry::Action { label: "Copy", action: EditorAction::Copy });
    v.push(MenuEntry::Action { label: "Paste", action: EditorAction::Paste });
    v.push(MenuEntry::Separator);
    match platform {
        Platform::MacOs => {
            v.push(
                MenuEntry::Action {
                    label: "Reveal in Finder",
                    action: EditorAction::RevealInFileManager,
                },
            );
        },
        Platform::Other => {
            v.push(
                MenuEntry::Action {
                    label: "Reveal in File Manager",
                    action: EditorAction::RevealInFileManager,
                },
            );
        },
    }
    v.push(MenuEntry::Action { label: "Open in Terminal", action: EditorAction::OpenInTerminal });
    v.push(
        MenuEntry::Action { label: "Copy Permalink", action: EditorAction::CopyPermalinkToLine },
    );
    v.push(MenuEntry::Action { label: "Copy File:Line", action: EditorAction::CopyFileLine });
    assert(v@ =~= default_entries(platform));
    v
}

impl ContextMenu {
    /// A menu with `entries`, bound to the key bindings of `context`, that
    /// takes a fresh focus handle of `window`.
    pub fn build(window: &mut Window, entries: Vec<MenuEntry>, context: Option<u64>) -> (r:
        ContextMenu)
        requires
            old(window).next_focus_handle < u64::MAX,
        ensures
            r.entries == entries,
            r.context == context,
            r.focus_handle == old(window).next_focus_handle,
            *final(window) == (Window {
                next_focus_handle: (old(window).next_focus_handle + 1) as u64,
                ..*old(window)
            }),
    {
        let focus_handle = window.new_focus_handle();
        ContextMenu { entries, context, focus_handle }
    }
}

} // verus!
