//! Behaviour of the whole-application state: navigation, overlays,
//! window size, and theme.

use gallery::gallery::{
    content_padding, footer_pages, group_expanded, pages, same_variant, Gallery, GroupLabel,
    Message, Page, WindowSize, SIDE_NAV_COMPACT_WIDTH,
};
use gallery::page::slider;
use gallery::theme::Theme;
use gallery::widget::side_nav::{effective_display_mode, DisplayMode};

fn wide() -> WindowSize {
    WindowSize { width: 1400, height: 900 }
}

fn narrow() -> WindowSize {
    WindowSize { width: 700, height: 900 }
}

#[test]
fn starts_on_home_with_dark_theme() {
    let gallery = Gallery::default();
    assert!(matches!(gallery.current_page, Page::Home));
    assert_eq!(gallery.side_nav_display_mode, DisplayMode::Full);
    assert_eq!(gallery.page_group_overlay_open, None);
    assert_eq!(gallery.theme, Theme::Dark);
    assert!(!gallery.explain);
}

#[test]
fn nav_registry_layout() {
    let groups = pages();
    assert_eq!(groups.len(), 7);
    assert_eq!(groups[0].label, GroupLabel::Home);
    assert_eq!(groups[0].page, Some(Page::Home));
    assert!(groups[0].page_items.is_empty());
    assert_eq!(groups[1].label, GroupLabel::BasicInput);
    assert_eq!(groups[1].page_items.len(), 9);
    assert_eq!(groups[1].page_items[0].label, "Button");
    assert_eq!(groups[1].page_items[8].label, "Toggler");
    assert_eq!(groups[2].page_items[0].label, "Dialog");
    assert_eq!(groups[3].page_items[0].label, "Row & Column");
    assert_eq!(groups[4].page_items.len(), 2);
    assert_eq!(groups[5].page_items.len(), 3);
    assert_eq!(groups[6].page_items[0].label, "Text Input");
    assert!(groups.iter().all(|group| !group.expanded));

    let footer = footer_pages();
    assert_eq!(footer.len(), 1);
    assert_eq!(footer[0].label, GroupLabel::Settings);
    assert_eq!(footer[0].page, Some(Page::Settings));
}

#[test]
fn group_label_names() {
    assert_eq!(GroupLabel::Home.name(), "Home");
    assert_eq!(GroupLabel::BasicInput.name(), "Basic input");
    assert_eq!(GroupLabel::DialogsAndFlyouts.name(), "Dialogs and flyouts");
    assert_eq!(GroupLabel::MenuAndToolbars.name(), "Menu & toolbars");
}

#[test]
fn selecting_a_page_clears_open_overlay() {
    let mut gallery = Gallery::default();
    gallery.update(Message::WindowResized(narrow()));
    gallery.update(Message::PageGroupToggled(GroupLabel::Media));
    assert_eq!(gallery.page_group_overlay_open, Some(GroupLabel::Media));
    gallery.update(Message::PageSelected(Page::Settings));
    assert_eq!(gallery.page_group_overlay_open, None);
    assert!(matches!(gallery.current_page, Page::Settings));
}

#[test]
fn selecting_same_kind_of_page_keeps_state() {
    let mut gallery = Gallery::default();
    gallery.update(Message::PageSelected(Page::Slider(
        slider::Slider::default(),
    )));
    gallery.update(Message::SliderPage(slider::Message::ValueChanged(999)));
    gallery.update(Message::PageSelected(Page::Slider(
        slider::Slider::default(),
    )));
    match &gallery.current_page {
        Page::Slider(slider_state) => assert_eq!(slider_state.value, 999),
        other => panic!("unexpected page: {other:?}"),
    }
}

#[test]
fn page_messages_reach_the_current_page() {
    let mut gallery = Gallery::default();
    gallery.update(Message::PageSelected(Page::Slider(
        slider::Slider::default(),
    )));
    gallery.update(Message::SliderPage(slider::Message::MinChanged(950)));
    match &gallery.current_page {
        Page::Slider(slider_state) => {
            assert_eq!(slider_state.min, 950);
            assert_eq!(slider_state.value, 950);
        }
        other => panic!("unexpected page: {other:?}"),
    }
}

#[test]
fn full_rail_toggles_group_expansion_in_place() {
    let mut gallery = Gallery::default();
    gallery.update(Message::WindowResized(wide()));
    gallery.update(Message::PageGroupToggled(GroupLabel::BasicInput));
    assert_eq!(gallery.page_group_overlay_open, None);
    assert!(gallery.pages[1].expanded);
    gallery.update(Message::PageGroupToggled(GroupLabel::BasicInput));
    assert!(!gallery.pages[1].expanded);
}

#[test]
fn compact_rail_opens_overlay_instead() {
    let mut gallery = Gallery::default();
    gallery.update(Message::WindowResized(wide()));
    gallery.update(Message::SideNavDisplayModeToggled);
    assert_eq!(gallery.side_nav_display_mode, DisplayMode::Compact);
    gallery.update(Message::PageGroupToggled(GroupLabel::Text));
    assert_eq!(gallery.page_group_overlay_open, Some(GroupLabel::Text));
    assert!(!gallery.pages[6].expanded);
    gallery.update(Message::PageGroupOverlayDismissed);
    assert_eq!(gallery.page_group_overlay_open, None);
}

#[test]
fn shrinking_the_window_closes_overlay() {
    let mut gallery = Gallery::default();
    gallery.update(Message::WindowResized(narrow()));
    gallery.update(Message::PageGroupToggled(GroupLabel::Layout));
    assert_eq!(gallery.page_group_overlay_open, Some(GroupLabel::Layout));
    gallery.update(Message::WindowResized(WindowSize {
        width: 600,
        height: 400,
    }));
    assert_eq!(gallery.page_group_overlay_open, None);
    assert_eq!(gallery.window_size.width, 600);
}

#[test]
fn theme_and_explain_toggles() {
    let mut gallery = Gallery::default();
    gallery.update(Message::ThemeToggled);
    assert_eq!(gallery.theme, Theme::Light);
    assert_eq!(gallery.theme(), Theme::Light);
    gallery.update(Message::ThemeToggled);
    assert_eq!(gallery.theme, Theme::Dark);
    gallery.update(Message::ExplainToggled);
    assert!(gallery.explain);
}

#[test]
fn effective_display_mode_needs_width_and_choice() {
    assert_eq!(
        effective_display_mode(DisplayMode::Full, SIDE_NAV_COMPACT_WIDTH + 1),
        DisplayMode::Full
    );
    assert_eq!(
        effective_display_mode(DisplayMode::Full, SIDE_NAV_COMPACT_WIDTH),
        DisplayMode::Compact
    );
    assert_eq!(
        effective_display_mode(DisplayMode::Compact, SIDE_NAV_COMPACT_WIDTH + 400),
        DisplayMode::Compact
    );
}

#[test]
fn group_expansion_decision() {
    let groups = pages();
    assert!(group_expanded(
        DisplayMode::Compact,
        1400,
        Some(GroupLabel::Media),
        &groups[4]
    ));
    assert!(!group_expanded(
        DisplayMode::Compact,
        1400,
        Some(GroupLabel::Media),
        &groups[3]
    ));
    assert!(!group_expanded(DisplayMode::Full, 1400, None, &groups[4]));
    let mut expanded_group = pages().swap_remove(4);
    expanded_group.expanded = true;
    assert!(group_expanded(
        DisplayMode::Full,
        1400,
        None,
        &expanded_group
    ));
    assert!(group_expanded(
        DisplayMode::Full,
        700,
        Some(GroupLabel::Media),
        &expanded_group
    ));
}

#[test]
fn same_variant_ignores_carried_state() {
    let a = Page::Slider(slider::Slider::default());
    let mut changed = slider::Slider::default();
    changed.update(slider::Message::ValueChanged(501));
    let b = Page::Slider(changed);
    assert!(same_variant(&a, &b));
    assert!(!same_variant(&a, &Page::Home));
    assert!(same_variant(&Page::Settings, &Page::Settings));
}

#[test]
fn content_padding_only_home_fills() {
    assert_eq!(content_padding(&Page::Home), 0);
    assert_eq!(content_padding(&Page::Settings), 24);
    assert_eq!(
        content_padding(&Page::Slider(slider::Slider::default())),
        24
    );
}

#[test]
fn toggling_unknown_group_changes_nothing() {
    let mut gallery = Gallery::default();
    gallery.update(Message::WindowResized(wide()));
    let before = gallery.clone();
    gallery.update(Message::PageGroupToggled(GroupLabel::Settings));
    assert_eq!(gallery, before);
}
