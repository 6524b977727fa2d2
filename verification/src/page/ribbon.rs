//! The ribbon demo page: a tab strip of tasks, bands of buttons, font
//! and alignment toggles, and a status line recording the last action.

use vstd::prelude::*;

verus! {

/// The ribbon tasks the tab strip can select.
#[derive(Clone, Copy, Debug, Default, PartialEq, Eq, Structural)]
pub enum Task {
    #[default]
    PageLayout,
    Write,
    Animations,
    ContextualA,
    ContextualB,
}

/// Where the document band saves the document.
#[derive(Clone, Copy, Debug, Default, PartialEq, Eq, Structural)]
pub enum DocumentSaveLocation {
    #[default]
    Local,
    Remote,
    Saved,
}

/// The density chosen in the presentation band.
#[derive(Clone, Copy, Debug, Default, PartialEq, Eq, Structural)]
pub enum Presentation {
    #[default]
    Comfortable,
    Cozy,
    Compact,
}

/// State of the ribbon page.
#[derive(Clone, Copy, Debug, PartialEq)]
pub struct Ribbon {
    /// The task whose bands are shown.
    pub selected_task: Task,
    /// Whether the paste split button's flyout is open.
    pub paste_flyout_open: bool,
    /// The four font-formatting toggles.
    pub bold: bool,
    pub italic: bool,
    pub underline: bool,
    pub strikethrough: bool,
    /// The mutually exclusive alignment flags; none is set until an
    /// alignment button is first pressed.
    pub align_left: bool,
    pub align_center: bool,
    pub align_right: bool,
    /// The save location picked in the document band.
    pub save_location: DocumentSaveLocation,
    /// The three show/hide toggles of the write task.
    pub show_ruler: bool,
    pub show_gridlines: bool,
    pub show_document_map: bool,
    /// The density picked in the presentation band.
    pub presentation: Presentation,
    /// Whether the contextual tab group is offered in the tab strip.
    pub contextual_group_visible: bool,
    /// The label of the last command button pressed, shown in the
    /// status line; `None` until one is pressed.
    pub last_action: Option<&'static str>,
}

#[derive(Clone, Copy, Debug)]
pub enum Message {
    TaskSelected(Task),
    PastePressed,
    PasteFlyoutOpened,
    PasteFlyoutClosed,
    CutPressed,
    CopyPressed,
    FormatPressed,
    ToggleBold,
    ToggleItalic,
    ToggleUnderline,
    ToggleStrikethrough,
    AlignLeftPressed,
    AlignCenterPressed,
    AlignRightPressed,
    FontIncreasePressed,
    FontDecreasePressed,
    SaveLocationChanged(DocumentSaveLocation),
    DocumentNewPressed,
    DocumentOpenPressed,
    DocumentSavePressed,
    DocumentPrintPressed,
    SearchPressed,
    FindPressed,
    FindReplacePressed,
    SelectAllPressed,
    AddressBookPressed,
    DocumentActionPressed,
    AppointmentPressed,
    BookmarkPressed,
    ContactPressed,
    AccessibilityPressed,
    FontPrefPressed,
    ThemesPressed,
    ToggleRuler,
    ToggleGridlines,
    ToggleDocumentMap,
    PresentationChanged(Presentation),
    ToggleContextualGroup,
}

impl Message {
    /// The status-line label of this message: command buttons have one,
    /// while pure state switches (task, flyout, save location, show/hide
    /// and presentation changes) have none.
    pub open spec fn spec_action_label(self) -> Option<&'static str> {
        match self {
            Message::PastePressed => Some("Paste"),
            Message::CutPressed => Some("Cut"),
            Message::CopyPressed => Some("Copy"),
            Message::FormatPressed => Some("Format"),
            Message::ToggleBold => Some("Bold toggled"),
            Message::ToggleItalic => Some("Italic toggled"),
            Message::ToggleUnderline => Some("Underline toggled"),
            Message::ToggleStrikethrough => Some("Strikethrough toggled"),
            Message::AlignLeftPressed => Some("Align Left"),
            Message::AlignCenterPressed => Some("Align Center"),
            Message::AlignRightPressed => Some("Align Right"),
            Message::FontIncreasePressed => Some("Font Increase"),
            Message::FontDecreasePressed => Some("Font Decrease"),
            Message::DocumentNewPressed => Some("New Document"),
            Message::DocumentOpenPressed => Some("Open Document"),
            Message::DocumentSavePressed => Some("Save Document"),
            Message::DocumentPrintPressed => Some("Print Document"),
            Message::SearchPressed => Some("Search"),
            Message::FindPressed => Some("Find"),
            Message::FindReplacePressed => Some("Find & Replace"),
            Message::SelectAllPressed => Some("Select All"),
            Message::AddressBookPressed => Some("Address Book"),
            Message::DocumentActionPressed => Some("Document"),
            Message::AppointmentPressed => Some("Appointment"),
            Message::BookmarkPressed => Some("Bookmark"),
            Message::ContactPressed => Some("Contact"),
            Message::AccessibilityPressed => Some("Accessibility"),
            Message::FontPrefPressed => Some("Font Preferences"),
            Message::ThemesPressed => Some("Themes"),
            _ => None,
        }
    }

    /// The status-line label of this message, if it has one.
    pub fn action_label(&self) -> (label: Option<&'static str>)
        ensures
            label == self.spec_action_label(),
    {
        match self {
            Message::PastePressed => Some("Paste"),
            Message::CutPressed => Some("Cut"),
            Message::CopyPressed => Some("Copy"),
            Message::FormatPressed => Some("Format"),
            Message::ToggleBold => Some("Bold toggled"),
            Message::ToggleItalic => Some("Italic toggled"),
            Message::ToggleUnderline => Some("Underline toggled"),
            Message::ToggleStrikethrough => Some("Strikethrough toggled"),
            Message::AlignLeftPressed => Some("Align Left"),
            Message::AlignCenterPressed => Some("Align Center"),
            Message::AlignRightPressed => Some("Align Right"),
            Message::FontIncreasePressed => Some("Font Increase"),
            Message::FontDecreasePressed => Some("Font Decrease"),
            Message::DocumentNewPressed => Some("New Document"),
            Message::DocumentOpenPressed => Some("Open Document"),
            Message::DocumentSavePressed => Some("Save Document"),
            Message::DocumentPrintPressed => Some("Print Document"),
            Message::SearchPressed => Some("Search"),
            Message::FindPressed => Some("Find"),
            Message::FindReplacePressed => Some("Find & Replace"),
            Message::SelectAllPressed => Some("Select All"),
            Message::AddressBookPressed => Some("Address Book"),
            Message::DocumentActionPressed => Some("Document"),
            Message::AppointmentPressed => Some("Appointment"),
            Message::BookmarkPressed => Some("Bookmark"),
            Message::ContactPressed => Some("Contact"),
            Message::AccessibilityPressed => Some("Accessibility"),
            Message::FontPrefPressed => Some("Font Preferences"),
            Message::ThemesPressed => Some("Themes"),
            _ => None,
        }
    }
}

impl Default for Ribbon {
    /// The untouched ribbon: page-layout task, every toggle off, local
    /// save location, comfortable density, no action yet.
    fn default() -> (r: Ribbon)
        ensures
            r == (Ribbon {
                selected_task: Task::PageLayout,
                paste_flyout_open: false,
                bold: false,
                italic: false,
                underline: false,
                strikethrough: false,
                align_left: false,
                align_center: false,
                align_right: false,
                save_location: DocumentSaveLocation::Local,
                show_ruler: false,
                show_gridlines: false,
                show_document_map: false,
                presentation: Presentation::Comfortable,
                contextual_group_visible: false,
                last_action: Option::<&'static str>::None,
            }),
    {
        Ribbon {
            selected_task: Task::PageLayout,
            paste_flyout_open: false,
            bold: false,
            italic: false,
            underline: false,
            strikethrough: false,
            align_left: false,
            align_center: false,
            align_right: false,
            save_location: DocumentSaveLocation::Local,
            show_ruler: false,
            show_gridlines: false,
            show_document_map: false,
            presentation: Presentation::Comfortable,
            contextual_group_visible: false,
            last_action: None,
        }
    }
}

impl Ribbon {
    /// The status line after one message: it takes the message's label
    /// whenever the message has one, and is otherwise kept.
    pub open spec fn spec_record(self, message: Message) -> Ribbon {
        Ribbon {
            last_action: match message.spec_action_label() {
                Option::Some(label) => Some(label),
                Option::None => self.last_action,
            },
            ..self
        }
    }

    /// The effect of one message on everything but the status line,
    /// stated field by field: selections are stored, toggles are
    /// flipped, the paste flyout opens on its own message and closes on
    /// any clipboard press, and an alignment press sets its flag alone.
    /// Every field a message does not name is kept.
    pub open spec fn spec_effect(self, message: Message) -> Ribbon {
        Ribbon {
            selected_task: match message {
                Message::TaskSelected(task) => task,
                _ => self.selected_task,
            },
            paste_flyout_open: match message {
                Message::PasteFlyoutOpened => true,
                Message::PastePressed
                | Message::PasteFlyoutClosed
                | Message::CutPressed
                | Message::CopyPressed
                | Message::FormatPressed => false,
                _ => self.paste_flyout_open,
            },
            bold: if message is ToggleBold {
                !self.bold
            } else {
                self.bold
            },
            italic: if message is ToggleItalic {
                !self.italic
            } else {
                self.italic
            },
            underline: if message is ToggleUnderline {
                !self.underline
            } else {
                self.underline
            },
            strikethrough: if message is ToggleStrikethrough {
                !self.strikethrough
            } else {
                self.strikethrough
            },
            align_left: match message {
                Message::AlignLeftPressed => true,
                Message::AlignCenterPressed | Message::AlignRightPressed => false,
                _ => self.align_left,
            },
            align_center: match message {
                Message::AlignCenterPressed => true,
                Message::AlignLeftPressed | Message::AlignRightPressed => false,
                _ => self.align_center,
            },
            align_right: match message {
                Message::AlignRightPressed => true,
                Message::AlignLeftPressed | Message::AlignCenterPressed => false,
                _ => self.align_right,
            },
            save_location: match message {
                Message::SaveLocationChanged(loc) => loc,
                _ => self.save_location,
            },
            show_ruler: if message is ToggleRuler {
                !self.show_ruler
            } else {
                self.show_ruler
            },
            show_gridlines: if message is ToggleGridlines {
                !self.show_gridlines
            } else {
                self.show_gridlines
            },
            show_document_map: if message is ToggleDocumentMap {
                !self.show_document_map
            } else {
                self.show_document_map
            },
            presentation: match message {
                Message::PresentationChanged(p) => p,
                _ => self.presentation,
            },
            contextual_group_visible: if message is ToggleContextualGroup {
                !self.contextual_group_visible
            } else {
                self.contextual_group_visible
            },
            ..self
        }
    }

    /// The state after applying one message: the status line is updated
    /// first, then the message's own effect is applied.
    pub open spec fn spec_update(self, message: Message) -> Ribbon {
        self.spec_record(message).spec_effect(message)
    }

    /// Records the message's label in the status line, if it has one.
    fn record_action(&mut self, message: Message)
        ensures
            *final(self) == old(self).spec_record(message),
    {
        if let Some(label) = message.action_label() {
            self.last_action = Some(label);
        }
    }

    /// The message's effect on everything but the status line. The
    /// command buttons whose only observable effect is the status line
    /// fall to the final arm and change nothing here.
    #[verifier::rlimit(100)]
    fn applied_effect(self, message: Message) -> (r: Ribbon)
        ensures
            r == self.spec_effect(message),
    {
        match message {
            Message::TaskSelected(task) => Ribbon { selected_task: task, ..self },
            Message::PastePressed => Ribbon { paste_flyout_open: false, ..self },
            Message::PasteFlyoutOpened => Ribbon { paste_flyout_open: true, ..self },
            Message::PasteFlyoutClosed => Ribbon { paste_flyout_open: false, ..self },
            Message::CutPressed | Message::CopyPressed | Message::FormatPressed => Ribbon {
                paste_flyout_open: false,
                ..self
            },
            Message::ToggleBold => Ribbon { bold: !self.bold, ..self },
            Message::ToggleItalic => Ribbon { italic: !self.italic, ..self },
            Message::ToggleUnderline => Ribbon { underline: !self.underline, ..self },
            Message::ToggleStrikethrough => Ribbon {
                strikethrough: !self.strikethrough,
                ..self
            },
            Message::AlignLeftPressed => Ribbon {
                align_left: true,
                align_center: false,
                align_right: false,
                ..self
            },
            Message::AlignCenterPressed => Ribbon {
                align_left: false,
                align_center: true,
                align_right: false,
                ..self
            },
            Message::AlignRightPressed => Ribbon {
                align_left: false,
                align_center: false,
                align_right: true,
                ..self
            },
            Message::SaveLocationChanged(loc) => Ribbon { save_location: loc, ..self },
            Message::ToggleRuler => Ribbon { show_ruler: !self.show_ruler, ..self },
            Message::ToggleGridlines => Ribbon {
                show_gridlines: !self.show_gridlines,
                ..self
            },
            Message::ToggleDocumentMap => Ribbon {
                show_document_map: !self.show_document_map,
                ..self
            },
            Message::PresentationChanged(p) => Ribbon { presentation: p, ..self },
            Message::ToggleContextualGroup => Ribbon {
                contextual_group_visible: !self.contextual_group_visible,
                ..self
            },
            _ => self,
        }
    }

    /// Applies one message to the page state.
    pub fn update(&mut self, message: Message)
        ensures
            *final(self) == old(self).spec_update(message),
    {
        self.record_action(message);
        *self = self.applied_effect(message);
    }
}

/// Whether this message is one of the three alignment buttons.
pub open spec fn is_align_message(message: Message) -> bool {
    ||| message is AlignLeftPressed
    ||| message is AlignCenterPressed
    ||| message is AlignRightPressed
}

/// Whether exactly one of the three alignment flags is set.
pub open spec fn alignment_exclusive(s: Ribbon) -> bool {
    ||| (s.align_left && !s.align_center && !s.align_right)
    ||| (!s.align_left && s.align_center && !s.align_right)
    ||| (!s.align_left && !s.align_center && s.align_right)
}

/// The state after applying a whole sequence of messages in order.
pub open spec fn spec_update_all(s: Ribbon, messages: Seq<Message>) -> Ribbon
    decreases messages.len(),
{
    if messages.len() == 0 {
        s
    } else {
        spec_update_all(s.spec_update(messages[0]), messages.subrange(1, messages.len() as int))
    }
}

/// An alignment press leaves exactly one alignment flag set, and every
/// other message leaves the alignment flags alone.
pub proof fn lemma_alignment_step(s: Ribbon, message: Message)
    ensures
        is_align_message(message) ==> alignment_exclusive(s.spec_update(message)),
        !is_align_message(message) ==> {
            &&& s.spec_update(message).align_left == s.align_left
            &&& s.spec_update(message).align_center == s.align_center
            &&& s.spec_update(message).align_right == s.align_right
        },
{
}

/// Once exactly one alignment flag is set, any sequence of messages
/// keeps exactly one set.
pub proof fn lemma_alignment_exclusive_preserved(s: Ribbon, messages: Seq<Message>)
    requires
        alignment_exclusive(s),
    ensures
        alignment_exclusive(spec_update_all(s, messages)),
    decreases messages.len(),
{
    if messages.len() > 0 {
        lemma_alignment_step(s, messages[0]);
        lemma_alignment_exclusive_preserved(
            s.spec_update(messages[0]),
            messages.subrange(1, messages.len() as int),
        );
    }
}

/// After any sequence of messages that contains at least one alignment
/// press, exactly one of the three alignment flags is set, whatever
/// state the ribbon started in.
pub proof fn lemma_alignment_exclusive_after_press(s: Ribbon, messages: Seq<Message>)
    requires
        exists|i: int| 0 <= i < messages.len() && is_align_message(messages[i]),
    ensures
        alignment_exclusive(spec_update_all(s, messages)),
    decreases messages.len(),
{
    let i = choose|i: int| 0 <= i < messages.len() && is_align_message(messages[i]);
    let rest = messages.subrange(1, messages.len() as int);
    let stepped = s.spec_update(messages[0]);
    if i == 0 {
        lemma_alignment_step(s, messages[0]);
        lemma_alignment_exclusive_preserved(stepped, rest);
    } else {
        assert(rest[i - 1] == messages[i]);
        lemma_alignment_exclusive_after_press(stepped, rest);
    }
}

} // verus!
