use vstd::prelude::*;

verus! {

pub const NEW_MENU_ITEM_ID: &'static str = "new_menu_item";

pub const EXIT_MENU_ITEM_ID: &'static str = "exit_menu_item";

pub const OTHER_MENU_ITEM_ID_1: &'static str = "scary_menu_item_1";

pub const OTHER_MENU_ITEM_ID_2: &'static str = "scary_menu_item_2";

/// What the host does for a menu event.
#[derive(Clone, Copy, Debug, PartialEq, Eq, Structural)]
pub enum MenuCommand {
    /// Note that "New" was chosen.
    New,
    /// Leave the application.
    Exit,
    /// Nothing: the identifier is not one the host acts on.
    Ignore,
}

/// The command for a menu entry identifier: exact match only.
pub open spec fn command_of(id: Seq<char>) -> MenuCommand {
    if id == NEW_MENU_ITEM_ID@ {
        MenuCommand::New
    } else if id == EXIT_MENU_ITEM_ID@ {
        MenuCommand::Exit
    } else {
        MenuCommand::Ignore
    }
}

/// Dispatches a menu event by the identifier of its entry.
pub fn menu_command(id: &str) -> (r: MenuCommand)
    ensures
        r == command_of(id@),
{
    let id = String::from_str(id);
    if id == String::from_str(NEW_MENU_ITEM_ID) {
        MenuCommand::New
    } else if id == String::from_str(EXIT_MENU_ITEM_ID) {
        MenuCommand::Exit
    } else {
        MenuCommand::Ignore
    }
}

} // verus!
