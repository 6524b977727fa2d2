//! The menu-bar demo page: three menu bars whose entries record the last
//! action, one of them also driving orientation and icon-size settings,
//! plus keyboard shortcuts for the second menu bar.

use vstd::prelude::*;

verus! {

/// The menu entries of the three menu bars. `NoAction` means no entry
/// has been picked yet.
#[derive(Clone, Copy, Debug, Default, PartialEq, Eq, Structural)]
pub enum Action {
    #[default]
    NoAction,
    New,
    Open,
    Save,
    Exit,
    PlainTextDocument,
    RichTextDocument,
    OtherFormats,
    Undo,
    Cut,
    Copy,
    Paste,
    Output,
    Landscape,
    Portait,
    SmallIcon,
    MediumIcon,
    LargeIcon,
    About,
}

impl Action {
    /// The label shown for this menu entry.
    pub open spec fn spec_name(self) -> Seq<char> {
        match self {
            Action::NoAction => ""@,
            Action::New => "New"@,
            Action::Open => "Open"@,
            Action::Save => "Save"@,
            Action::Exit => "Exit"@,
            Action::PlainTextDocument => "Plain Text Document"@,
            Action::RichTextDocument => "Rich Text Document"@,
            Action::OtherFormats => "Other Formats"@,
            Action::Undo => "Undo"@,
            Action::Cut => "Cut"@,
            Action::Copy => "Copy"@,
            Action::Paste => "Paste"@,
            Action::Output => "Output"@,
            Action::Landscape => "Landscape"@,
            Action::Portait => "Portrait"@,
            Action::SmallIcon => "Small Icons"@,
            Action::MediumIcon => "Medium Icons"@,
            Action::LargeIcon => "Large Icons"@,
            Action::About => "About"@,
        }
    }

    /// The label shown for this menu entry.
    pub fn name(&self) -> (n: &'static str)
        ensures
            n@ == self.spec_name(),
    {
        match self {
            Action::NoAction => "",
            Action::New => "New",
            Action::Open => "Open",
            Action::Save => "Save",
            Action::Exit => "Exit",
            Action::PlainTextDocument => "Plain Text Document",
            Action::RichTextDocument => "Rich Text Document",
            Action::OtherFormats => "Other Formats",
            Action::Undo => "Undo",
            Action::Cut => "Cut",
            Action::Copy => "Copy",
            Action::Paste => "Paste",
            Action::Output => "Output",
            Action::Landscape => "Landscape",
            Action::Portait => "Portrait",
            Action::SmallIcon => "Small Icons",
            Action::MediumIcon => "Medium Icons",
            Action::LargeIcon => "Large Icons",
            Action::About => "About",
        }
    }
}

/// The page orientation driven by the third menu bar.
#[derive(Clone, Copy, Debug, Default, PartialEq, Eq, Structural)]
pub enum Orientation {
    Landscape,
    #[default]
    Portait,
}

/// The icon size driven by the third menu bar.
#[derive(Clone, Copy, Debug, Default, PartialEq, Eq, Structural)]
pub enum IconSize {
    Small,
    #[default]
    Medium,
    Large,
}

/// State of the menu-bar page.
#[derive(Clone, Copy, Debug, PartialEq, Eq, Structural)]
pub struct MenuBar {
    /// The entry last picked in the first menu bar.
    pub menu_bar1_action: Action,
    /// The entry last picked in the second menu bar.
    pub menu_bar2_action: Action,
    /// The entry last picked in the third menu bar.
    pub menu_bar3_action: Action,
    /// The orientation chosen through the third menu bar.
    pub orientation: Orientation,
    /// The icon size chosen through the third menu bar.
    pub icon_size: IconSize,
}

#[derive(Clone, Copy, Debug)]
pub enum Message {
    NoOp,
    MenuBar1Selected(Action),
    MenuBar2Selected(Action),
    MenuBar3Selected(Action),
}

impl Default for MenuBar {
    /// No entry picked yet; portrait orientation and medium icons.
    fn default() -> (m: MenuBar)
        ensures
            m == (MenuBar {
                menu_bar1_action: Action::NoAction,
                menu_bar2_action: Action::NoAction,
                menu_bar3_action: Action::NoAction,
                orientation: Orientation::Portait,
                icon_size: IconSize::Medium,
            }),
    {
        MenuBar {
            menu_bar1_action: Action::NoAction,
            menu_bar2_action: Action::NoAction,
            menu_bar3_action: Action::NoAction,
            orientation: Orientation::Portait,
            icon_size: IconSize::Medium,
        }
    }
}

impl MenuBar {
    /// The state after applying one message: each menu bar records its
    /// picked entry, and an entry of the third menu bar additionally
    /// sets the orientation or icon size it names.
    pub open spec fn spec_update(self, message: Message) -> MenuBar {
        match message {
            Message::NoOp => self,
            Message::MenuBar1Selected(action) => MenuBar { menu_bar1_action: action, ..self },
            Message::MenuBar2Selected(action) => MenuBar { menu_bar2_action: action, ..self },
            Message::MenuBar3Selected(action) => MenuBar {
                menu_bar3_action: action,
                orientation: match action {
                    Action::Portait => Orientation::Portait,
                    Action::Landscape => Orientation::Landscape,
                    _ => self.orientation,
                },
                icon_size: match action {
                    Action::SmallIcon => IconSize::Small,
                    Action::MediumIcon => IconSize::Medium,
                    Action::LargeIcon => IconSize::Large,
                    _ => self.icon_size,
                },
                ..self
            },
        }
    }

    /// Applies one message to the page state.
    pub fn update(&mut self, message: Message)
        ensures
            *final(self) == old(self).spec_update(message),
    {
        match message {
            Message::NoOp => (),
            Message::MenuBar1Selected(action) => self.menu_bar1_action = action,
            Message::MenuBar2Selected(action) => self.menu_bar2_action = action,
            Message::MenuBar3Selected(action) => {
                match action {
                    Action::Portait => self.orientation = Orientation::Portait,
                    Action::Landscape => self.orientation = Orientation::Landscape,
                    Action::SmallIcon => self.icon_size = IconSize::Small,
                    Action::MediumIcon => self.icon_size = IconSize::Medium,
                    Action::LargeIcon => self.icon_size = IconSize::Large,
                    _ => (),
                }
                self.menu_bar3_action = action;
            },
        }
    }
}

/// The entry the second menu bar's keyboard shortcuts pick for a key
/// press: with the control modifier held, the listed letters select
/// their entry; anything else selects nothing.
pub open spec fn spec_shortcut_action(ctrl: bool, key: char) -> Option<Action> {
    if ctrl {
        match key {
            'n' => Some(Action::New),
            'o' => Some(Action::Open),
            's' => Some(Action::Save),
            'e' => Some(Action::Exit),
            'z' => Some(Action::Undo),
            'x' => Some(Action::Cut),
            'c' => Some(Action::Copy),
            'v' => Some(Action::Paste),
            'i' => Some(Action::About),
            _ => None,
        }
    } else {
        None
    }
}

/// Maps a key press to the menu entry its shortcut picks, if any.
pub fn shortcut_action(ctrl: bool, key: char) -> (a: Option<Action>)
    ensures
        a == spec_shortcut_action(ctrl, key),
{
    if ctrl {
        match key {
            'n' => Some(Action::New),
            'o' => Some(Action::Open),
            's' => Some(Action::Save),
            'e' => Some(Action::Exit),
            'z' => Some(Action::Undo),
            'x' => Some(Action::Cut),
            'c' => Some(Action::Copy),
            'v' => Some(Action::Paste),
            'i' => Some(Action::About),
            _ => None,
        }
    } else {
        None
    }
}

} // verus!
