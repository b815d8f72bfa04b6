use vstd::prelude::*;
use crate::text::same_text;

verus! {

/// What a native menu item asks for.
#[derive(Clone, Copy, Debug, PartialEq, Eq, Structural)]
pub enum MenuAction {
    About,
    NewWindow,
    Open,
    ZoomIn,
    ZoomOut,
}

/// The identifier the native menu gives the item of each action.
pub open spec fn item_id_of(action: MenuAction) -> Seq<char> {
    match action {
        MenuAction::About => "about"@,
        MenuAction::NewWindow => "new_window"@,
        MenuAction::Open => "open"@,
        MenuAction::ZoomIn => "zoom_in"@,
        MenuAction::ZoomOut => "zoom_out"@,
    }
}

/// The action of the item with identifier `id`, if it is one of ours.
pub open spec fn action_of_item(id: Seq<char>) -> Option<MenuAction> {
    if id == "about"@ {
        Some(MenuAction::About)
    } else if id == "new_window"@ {
        Some(MenuAction::NewWindow)
    } else if id == "open"@ {
        Some(MenuAction::Open)
    } else if id == "zoom_in"@ {
        Some(MenuAction::ZoomIn)
    } else if id == "zoom_out"@ {
        Some(MenuAction::ZoomOut)
    } else {
        None
    }
}

impl MenuAction {
    /// The identifier under which the native menu item for this action is
    /// built.
    pub fn item_id(&self) -> (r: &'static str)
        ensures
            r@ == item_id_of(*self),
    {
        match self {
            MenuAction::About => "about",
            MenuAction::NewWindow => "new_window",
            MenuAction::Open => "open",
            MenuAction::ZoomIn => "zoom_in",
            MenuAction::ZoomOut => "zoom_out",
        }
    }
}

/// Maps the identifier of a clicked menu item to its action; items that are
/// not ours map to nothing.
pub fn action_for_item_id(id: &str) -> (r: Option<MenuAction>)
    ensures
        r == action_of_item(id@),
{
    if same_text(id, "about") {
        Some(MenuAction::About)
    } else if same_text(id, "new_window") {
        Some(MenuAction::NewWindow)
    } else if same_text(id, "open") {
        Some(MenuAction::Open)
    } else if same_text(id, "zoom_in") {
        Some(MenuAction::ZoomIn)
    } else if same_text(id, "zoom_out") {
        Some(MenuAction::ZoomOut)
    } else {
        None
    }
}

/// Every action's item is recognised as that action again.
pub proof fn lemma_item_ids_round_trip(action: MenuAction)
    ensures
        action_of_item(item_id_of(action)) == Some(action),
{
    reveal_strlit("about");
    reveal_strlit("new_window");
    reveal_strlit("open");
    reveal_strlit("zoom_in");
    reveal_strlit("zoom_out");
    assert("about"@[0] == 'a' && "new_window"@[0] == 'n' && "open"@[0] == 'o');
    assert("zoom_in"@[0] == 'z' && "zoom_out"@[0] == 'z');
    assert("zoom_in"@.len() == 7 && "zoom_out"@.len() == 8);
}

} // verus!
