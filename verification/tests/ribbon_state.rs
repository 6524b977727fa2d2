//! Behaviour of the ribbon page's state machine.

use gallery::page::ribbon::{
    DocumentSaveLocation, Message, Presentation, Ribbon, Task,
};

#[test]
fn task_selection() {
    let mut state = Ribbon::default();
    assert_eq!(state.selected_task, Task::PageLayout);
    state.update(Message::TaskSelected(Task::Write));
    assert_eq!(state.selected_task, Task::Write);
    state.update(Message::TaskSelected(Task::ContextualB));
    assert_eq!(state.selected_task, Task::ContextualB);
}

#[test]
fn font_toggles_flip_independently() {
    let mut state = Ribbon::default();
    state.update(Message::ToggleBold);
    state.update(Message::ToggleUnderline);
    assert!(state.bold);
    assert!(!state.italic);
    assert!(state.underline);
    assert!(!state.strikethrough);
    state.update(Message::ToggleBold);
    assert!(!state.bold);
    assert!(state.underline);
}

#[test]
fn alignment_presses_leave_exactly_one_flag() {
    let mut state = Ribbon::default();
    assert!(!state.align_left && !state.align_center && !state.align_right);
    let presses = [
        Message::AlignCenterPressed,
        Message::ToggleBold,
        Message::AlignRightPressed,
        Message::TaskSelected(Task::Write),
        Message::AlignLeftPressed,
        Message::AlignLeftPressed,
    ];
    for press in presses {
        state.update(press);
        let count = [state.align_left, state.align_center, state.align_right]
            .iter()
            .filter(|set| **set)
            .count();
        if matches!(
            press,
            Message::AlignLeftPressed | Message::AlignCenterPressed | Message::AlignRightPressed
        ) {
            assert_eq!(count, 1);
        }
    }
    assert!(state.align_left && !state.align_center && !state.align_right);
}

#[test]
fn paste_flyout_opens_and_clipboard_presses_close_it() {
    let mut state = Ribbon::default();
    state.update(Message::PasteFlyoutOpened);
    assert!(state.paste_flyout_open);
    state.update(Message::CutPressed);
    assert!(!state.paste_flyout_open);
    state.update(Message::PasteFlyoutOpened);
    state.update(Message::PastePressed);
    assert!(!state.paste_flyout_open);
    state.update(Message::PasteFlyoutOpened);
    state.update(Message::PasteFlyoutClosed);
    assert!(!state.paste_flyout_open);
}

#[test]
fn status_line_records_command_labels() {
    let mut state = Ribbon::default();
    assert_eq!(state.last_action, None);
    state.update(Message::CopyPressed);
    assert_eq!(state.last_action, Some("Copy"));
    state.update(Message::TaskSelected(Task::Animations));
    assert_eq!(state.last_action, Some("Copy"));
    state.update(Message::FindReplacePressed);
    assert_eq!(state.last_action, Some("Find & Replace"));
    state.update(Message::ToggleBold);
    assert_eq!(state.last_action, Some("Bold toggled"));
}

#[test]
fn action_labels() {
    assert_eq!(Message::PastePressed.action_label(), Some("Paste"));
    assert_eq!(Message::DocumentNewPressed.action_label(), Some("New Document"));
    assert_eq!(Message::ThemesPressed.action_label(), Some("Themes"));
    assert_eq!(Message::PasteFlyoutOpened.action_label(), None);
    assert_eq!(Message::TaskSelected(Task::Write).action_label(), None);
    assert_eq!(Message::ToggleRuler.action_label(), None);
}

#[test]
fn document_and_presentation_bands() {
    let mut state = Ribbon::default();
    assert_eq!(state.save_location, DocumentSaveLocation::Local);
    state.update(Message::SaveLocationChanged(DocumentSaveLocation::Remote));
    assert_eq!(state.save_location, DocumentSaveLocation::Remote);
    assert_eq!(state.presentation, Presentation::Comfortable);
    state.update(Message::PresentationChanged(Presentation::Compact));
    assert_eq!(state.presentation, Presentation::Compact);
}

#[test]
fn show_hide_and_contextual_toggles() {
    let mut state = Ribbon::default();
    state.update(Message::ToggleRuler);
    state.update(Message::ToggleGridlines);
    state.update(Message::ToggleDocumentMap);
    assert!(state.show_ruler && state.show_gridlines && state.show_document_map);
    state.update(Message::ToggleGridlines);
    assert!(!state.show_gridlines);
    state.update(Message::ToggleContextualGroup);
    assert!(state.contextual_group_visible);
    state.update(Message::ToggleContextualGroup);
    assert!(!state.contextual_group_visible);
}

#[test]
fn command_presses_change_nothing_but_the_status_line() {
    let mut state = Ribbon::default();
    state.update(Message::TaskSelected(Task::Write));
    let before = state;
    state.update(Message::SearchPressed);
    assert_eq!(state.last_action, Some("Search"));
    assert_eq!(state.selected_task, before.selected_task);
    assert_eq!(state.bold, before.bold);
    assert_eq!(state.save_location, before.save_location);
    assert_eq!(state.presentation, before.presentation);
}
