//! The tray menu: its entries in the order in which they are shown, and
//! what the selection of an entry leads to.

use crate::text::same_text;
use vstd::prelude::*;

verus! {

/// An entry of the tray menu.
#[derive(Clone, Copy, Debug, PartialEq, Eq, Structural)]
pub enum MenuCommand {
    OpenApp,
    CreateBoard,
    CreateTask,
    Quit,
}

/// What the selection of a menu entry leads to.
#[derive(Clone, Copy, Debug, PartialEq, Eq, Structural)]
pub enum MenuEffect {
    /// The process ends.
    Terminate,
    /// The selection is passed on to whoever subscribed to the menu.
    Forward,
}

/// A menu entry as the host builds it.
#[derive(Clone, Copy, Debug, PartialEq, Eq)]
pub struct MenuEntry {
    pub command: MenuCommand,
    pub id: &'static str,
    pub label: &'static str,
    pub enabled: bool,
}

impl MenuCommand {
    /// The identifier under which the host reports a selection.
    pub open spec fn id_text(self) -> Seq<char> {
        match self {
            MenuCommand::OpenApp => "open_app"@,
            MenuCommand::CreateBoard => "create_board"@,
            MenuCommand::CreateTask => "create_task"@,
            MenuCommand::Quit => "quit"@,
        }
    }

    /// The text that the menu shows.
    pub open spec fn label_text(self) -> Seq<char> {
        match self {
            MenuCommand::OpenApp => "Open App"@,
            MenuCommand::CreateBoard => "Create New Board"@,
            MenuCommand::CreateTask => "Create New Task"@,
            MenuCommand::Quit => "Quit"@,
        }
    }

    /// Different entries have different identifiers.
    pub proof fn lemma_id_identifies(a: MenuCommand, b: MenuCommand)
        requires
            a.id_text() == b.id_text(),
        ensures
            a == b,
    {
        reveal_strlit("open_app");
        reveal_strlit("create_board");
        reveal_strlit("create_task");
        reveal_strlit("quit");
        assert("open_app"@.len() == 8 && "create_board"@.len() == 12);
        assert("create_task"@.len() == 11 && "quit"@.len() == 4);
    }

    /// The identifier under which the host reports a selection.
    pub fn id(self) -> (id: &'static str)
        ensures
            id@ == self.id_text(),
    {
        match self {
            MenuCommand::OpenApp => "open_app",
            MenuCommand::CreateBoard => "create_board",
            MenuCommand::CreateTask => "create_task",
            MenuCommand::Quit => "quit",
        }
    }

    /// The text that the menu shows.
    pub fn label(self) -> (label: &'static str)
        ensures
            label@ == self.label_text(),
    {
        match self {
            MenuCommand::OpenApp => "Open App",
            MenuCommand::CreateBoard => "Create New Board",
            MenuCommand::CreateTask => "Create New Task",
            MenuCommand::Quit => "Quit",
        }
    }

    /// The entry that the host means by `id`; none where the identifier
    /// belongs to no entry of this menu.
    pub fn from_id(id: &str) -> (found: Option<MenuCommand>)
        ensures
            found matches Some(command) ==> command.id_text() == id@,
            found is None ==> forall|command: MenuCommand| command.id_text() != id@,
    {
        if same_text(id, "open_app") {
            Some(MenuCommand::OpenApp)
        } else if same_text(id, "create_board") {
            Some(MenuCommand::CreateBoard)
        } else if same_text(id, "create_task") {
            Some(MenuCommand::CreateTask)
        } else if same_text(id, "quit") {
            Some(MenuCommand::Quit)
        } else {
            None
        }
    }

    /// Selecting `Quit` ends the process; every other selection is passed
    /// on.
    pub fn effect(self) -> (effect: MenuEffect)
        ensures
            effect == MenuEffect::Terminate <==> self == MenuCommand::Quit,
            effect == MenuEffect::Forward <==> self != MenuCommand::Quit,
    {
        match self {
            MenuCommand::Quit => MenuEffect::Terminate,
            _ => MenuEffect::Forward,
        }
    }

    /// The entry as the host builds it: enabled, and without a keyboard
    /// shortcut.
    pub fn entry(self) -> (entry: MenuEntry)
        ensures
            entry.command == self,
            entry.id@ == self.id_text(),
            entry.label@ == self.label_text(),
            entry.enabled,
    {
        MenuEntry { command: self, id: self.id(), label: self.label(), enabled: true }
    }
}

/// The commands of the tray menu, top to bottom.
pub open spec fn menu_order() -> Seq<MenuCommand> {
    seq![MenuCommand::OpenApp, MenuCommand::CreateBoard, MenuCommand::CreateTask, MenuCommand::Quit]
}

/// The entries of the tray menu, top to bottom.
pub fn tray_menu() -> (entries: Vec<MenuEntry>)
    ensures
        entries@.len() == menu_order().len(),
        forall|i: int|
            0 <= i < entries@.len() ==> {
                &&& (#[trigger] entries@[i]).command == menu_order()[i]
                &&& entries@[i].id@ == menu_order()[i].id_text()
                &&& entries@[i].label@ == menu_order()[i].label_text()
                &&& entries@[i].enabled
            },
{
    let mut entries: Vec<MenuEntry> = Vec::new();
    entries.push(MenuCommand::OpenApp.entry());
    entries.push(MenuCommand::CreateBoard.entry());
    entries.push(MenuCommand::CreateTask.entry());
    entries.push(MenuCommand::Quit.entry());
    entries
}

} // verus!
