//! Behaviour of the individual demo pages' state machines.

use gallery::page::app_bar_button;
use gallery::page::button;
use gallery::page::checkbox;
use gallery::page::combo_box;
use gallery::page::dialog;
use gallery::page::drop_down_button;
use gallery::page::image;
use gallery::page::menu_bar;
use gallery::page::radio;
use gallery::page::row_column;
use gallery::page::slider;
use gallery::page::split_button;
use gallery::page::svg;
use gallery::page::text_input;
use gallery::page::toggle_button;
use gallery::page::toggler;
use gallery::page::menu_bar::shortcut_action;
use gallery::widget::checkbox::ThreeState;

#[test]
fn toggle_button_flips_to_complement() {
    let mut state = toggle_button::ToggleButton::default();
    assert!(!state.button1_on);
    state.update(toggle_button::Message::Button1Toggled);
    assert!(state.button1_on);
    state.update(toggle_button::Message::Button1Toggled);
    assert!(!state.button1_on);
}

#[test]
fn toggle_button_disable_checkbox() {
    let mut state = toggle_button::ToggleButton::default();
    assert!(state.button1_enabled);
    state.update(toggle_button::Message::Button1EnabledToggled(true));
    assert!(!state.button1_enabled);
    state.update(toggle_button::Message::Button1EnabledToggled(false));
    assert!(state.button1_enabled);
}

#[test]
fn three_state_rotation_returns_after_three_toggles() {
    for start in [
        ThreeState::Checked,
        ThreeState::Unchecked,
        ThreeState::Indeterminate,
    ] {
        let mut state = start;
        let first = state.toggle();
        let mut state2 = first;
        let second = state2.toggle();
        let mut state3 = second;
        let third = state3.toggle();
        assert_ne!(first, start);
        assert_ne!(second, start);
        assert_eq!(third, start);
    }
}

#[test]
fn three_state_rotation_order() {
    let mut state = ThreeState::Unchecked;
    assert_eq!(state.toggle(), ThreeState::Checked);
    let mut state = ThreeState::Checked;
    assert_eq!(state.toggle(), ThreeState::Indeterminate);
    let mut state = ThreeState::Indeterminate;
    assert_eq!(state.toggle(), ThreeState::Unchecked);
}

#[test]
fn slider_min_above_value_clamps_value_up() {
    let mut state = slider::Slider::default();
    assert_eq!(state.value, 800);
    state.update(slider::Message::MinChanged(900));
    assert_eq!(state.min, 900);
    assert_eq!(state.value, 900);
}

#[test]
fn slider_min_below_value_keeps_value() {
    let mut state = slider::Slider::default();
    state.update(slider::Message::MinChanged(600));
    assert_eq!(state.min, 600);
    assert_eq!(state.value, 800);
}

#[test]
fn slider_max_below_value_clamps_value_down() {
    let mut state = slider::Slider::default();
    state.update(slider::Message::MaxChanged(700));
    assert_eq!(state.max, 700);
    assert_eq!(state.value, 700);
}

#[test]
fn slider_max_above_value_keeps_value() {
    let mut state = slider::Slider::default();
    state.update(slider::Message::MaxChanged(950));
    assert_eq!(state.max, 950);
    assert_eq!(state.value, 800);
}

#[test]
fn slider_plain_messages_store_values() {
    let mut state = slider::Slider::default();
    state.update(slider::Message::SimpleValueChanged(42));
    state.update(slider::Message::StepChanged(25));
    state.update(slider::Message::ValueChanged(640));
    assert_eq!(state.simple_value, 42);
    assert_eq!(state.step, 25);
    assert_eq!(state.value, 640);
}

#[test]
fn checkbox_two_state_records_reported_value() {
    let mut state = checkbox::Checkbox::default();
    assert_eq!(state.checkbox1_checked, None);
    state.update(checkbox::Message::Checkbox1Toggled(true));
    assert_eq!(state.checkbox1_checked, Some(true));
    state.update(checkbox::Message::Checkbox1Toggled(false));
    assert_eq!(state.checkbox1_checked, Some(false));
}

#[test]
fn checkbox_three_state_starts_rotation_at_checked() {
    let mut state = checkbox::Checkbox::default();
    assert_eq!(state.checkbox2_state, None);
    state.update(checkbox::Message::Checkbox2Toggled);
    assert_eq!(state.checkbox2_state, Some(ThreeState::Checked));
    state.update(checkbox::Message::Checkbox2Toggled);
    assert_eq!(state.checkbox2_state, Some(ThreeState::Indeterminate));
    state.update(checkbox::Message::Checkbox2Toggled);
    assert_eq!(state.checkbox2_state, Some(ThreeState::Unchecked));
}

#[test]
fn checkbox_group_parent_summarises_options() {
    let mut state = checkbox::Checkbox::default();
    assert_eq!(state.group_parent_state, ThreeState::Indeterminate);
    state.update(checkbox::Message::Option1Toggled(true));
    state.update(checkbox::Message::Option3Toggled(true));
    assert_eq!(state.group_parent_state, ThreeState::Checked);
    state.update(checkbox::Message::Option2Toggled(false));
    assert_eq!(state.group_parent_state, ThreeState::Indeterminate);
    state.update(checkbox::Message::Option1Toggled(false));
    state.update(checkbox::Message::Option3Toggled(false));
    assert_eq!(state.group_parent_state, ThreeState::Unchecked);
}

#[test]
fn checkbox_parent_toggle_checks_or_clears_all() {
    let mut state = checkbox::Checkbox::default();
    state.update(checkbox::Message::CheckboxParentToggled);
    assert_eq!(state.group_parent_state, ThreeState::Unchecked);
    assert!(!state.group_option1_checked);
    assert!(!state.group_option2_checked);
    assert!(!state.group_option3_checked);
    state.update(checkbox::Message::CheckboxParentToggled);
    assert_eq!(state.group_parent_state, ThreeState::Checked);
    assert!(state.group_option1_checked);
    assert!(state.group_option2_checked);
    assert!(state.group_option3_checked);
}

#[test]
fn dialog_opens_and_actions_close() {
    let mut state = dialog::Dialog::default();
    assert!(!state.is_dialog_open());
    state.update(dialog::Message::Opened);
    assert!(state.is_dialog_open());
    state.update(dialog::Message::Action(dialog::Action::Saved));
    assert!(!state.is_dialog_open());
    assert_eq!(state.action, dialog::Action::Saved);
    state.update(dialog::Message::Opened);
    state.update(dialog::Message::Action(dialog::Action::Cancelled));
    assert!(!state.is_dialog_open());
    assert_eq!(state.action, dialog::Action::Cancelled);
}

#[test]
fn dialog_checkbox_toggles() {
    let mut state = dialog::Dialog::default();
    state.update(dialog::Message::Toggled(true));
    assert!(state.is_checked);
    state.update(dialog::Message::Toggled(false));
    assert!(!state.is_checked);
}

#[test]
fn drop_down_press_opens_then_any_press_closes() {
    let mut state = drop_down_button::DropDownButton::default();
    assert!(!state.is_open(drop_down_button::OpenButton::Simple));
    state.update(drop_down_button::Message::DropDownPressed(
        drop_down_button::OpenButton::Simple,
    ));
    assert!(state.is_open(drop_down_button::OpenButton::Simple));
    assert!(!state.is_open(drop_down_button::OpenButton::Icon));
    state.update(drop_down_button::Message::DropDownPressed(
        drop_down_button::OpenButton::Icon,
    ));
    assert_eq!(state.current_open, None);
}

#[test]
fn drop_down_dismiss_closes() {
    let mut state = drop_down_button::DropDownButton::default();
    state.update(drop_down_button::Message::DropDownPressed(
        drop_down_button::OpenButton::Icon,
    ));
    state.update(drop_down_button::Message::DropDownDismissed);
    assert_eq!(state.current_open, None);
}

#[test]
fn split_button_opens_one_at_a_time() {
    let mut state = split_button::SplitButton::default();
    state.update(split_button::Message::SplitButton1Pressed);
    assert_eq!(state.open_splitbutton, split_button::OpenSplitButton::One);
    state.update(split_button::Message::SplitButton2Pressed);
    assert_eq!(state.open_splitbutton, split_button::OpenSplitButton::Closed);
    state.update(split_button::Message::SplitButton2Pressed);
    assert_eq!(state.open_splitbutton, split_button::OpenSplitButton::Two);
}

#[test]
fn split_button_colour_pick_stores_and_closes() {
    let mut state = split_button::SplitButton::default();
    assert_eq!(state.colour1, split_button::PaletteColour::Green);
    state.update(split_button::Message::SplitButton1Pressed);
    state.update(split_button::Message::Colour1Selected(
        split_button::PaletteColour::Indigo,
    ));
    assert_eq!(state.colour1, split_button::PaletteColour::Indigo);
    assert_eq!(state.colour2, split_button::PaletteColour::Green);
    assert_eq!(state.open_splitbutton, split_button::OpenSplitButton::Closed);
}

#[test]
fn combo_box_selections() {
    let mut state = combo_box::ComboBox::default();
    assert_eq!(state.selected_colour, None);
    assert_eq!(state.selected_font_size, 10);
    assert_eq!(
        state.font_sizes,
        vec![8, 9, 10, 11, 12, 14, 16, 18, 20, 24, 28, 36, 48, 72]
    );
    state.update(combo_box::Message::ColourSelected(combo_box::Colour::Red));
    state.update(combo_box::Message::FontSizeSelected(24));
    assert_eq!(state.selected_colour, Some(combo_box::Colour::Red));
    assert_eq!(state.selected_font_size, 24);
}

#[test]
fn radio_selection_is_exclusive() {
    let mut state = radio::Radio::default();
    assert_eq!(state.choice, None);
    state.update(radio::Message::ChoiceSelected(radio::Choice::Two));
    assert_eq!(state.choice, Some(radio::Choice::Two));
    state.update(radio::Message::ChoiceSelected(radio::Choice::Three));
    assert_eq!(state.choice, Some(radio::Choice::Three));
}

#[test]
fn row_column_orientation_selection() {
    let mut state = row_column::RowColumn::default();
    assert_eq!(state.orientation, row_column::Orientation::Column);
    state.update(row_column::Message::OrientationSelected(
        row_column::Orientation::Row,
    ));
    assert_eq!(state.orientation, row_column::Orientation::Row);
}

#[test]
fn image_and_svg_content_fit_selection() {
    let mut image_state = image::Image::default();
    assert_eq!(image_state.content_fit, image::ContentFit::Contain);
    image_state.update(image::Message::ContentFitChanged(image::ContentFit::Cover));
    assert_eq!(image_state.content_fit, image::ContentFit::Cover);

    let mut svg_state = svg::Svg::default();
    assert_eq!(svg_state.content_fit, image::ContentFit::Contain);
    svg_state.update(svg::Message::ContentFitChanged(image::ContentFit::ScaleDown));
    assert_eq!(svg_state.content_fit, image::ContentFit::ScaleDown);
}

#[test]
fn buttons_latch_presses() {
    let mut state = button::Button::default();
    state.update(button::Message::Button1Pressed);
    state.update(button::Message::Button2Pressed);
    assert!(state.button1_pressed);
    assert!(state.button2_pressed);
    state.update(button::Message::Button1EnabledToggled(true));
    assert!(!state.button1_enabled);

    let mut app_bar = app_bar_button::AppBarButton::default();
    assert!(!app_bar.button1_pressed);
    app_bar.update(app_bar_button::Message::Button1Pressed);
    assert!(app_bar.button1_pressed);
}

#[test]
fn toggler_takes_reported_value() {
    let mut state = toggler::Toggler::default();
    state.update(toggler::Message::Toggled(true));
    assert!(state.is_toggled);
    state.update(toggler::Message::Toggled(false));
    assert!(!state.is_toggled);
}

#[test]
fn text_input_stores_reported_text() {
    let mut state = text_input::TextInput::default();
    state.update(text_input::Message::TextInput1ContentChanged(String::from(
        "hello",
    )));
    assert_eq!(state.text_input1_content, "hello");
    assert_eq!(state.text_input2_content, "");
    state.update(text_input::Message::TextInput2ContentChanged(String::from(
        "world",
    )));
    assert_eq!(state.text_input2_content, "world");
    state.update(text_input::Message::NoOp);
    assert_eq!(state.text_input1_content, "hello");
}

#[test]
fn menu_bar_records_actions() {
    let mut state = menu_bar::MenuBar::default();
    state.update(menu_bar::Message::MenuBar1Selected(menu_bar::Action::Open));
    assert_eq!(state.menu_bar1_action, menu_bar::Action::Open);
    state.update(menu_bar::Message::MenuBar2Selected(menu_bar::Action::Undo));
    assert_eq!(state.menu_bar2_action, menu_bar::Action::Undo);
    assert_eq!(state.menu_bar1_action, menu_bar::Action::Open);
}

#[test]
fn menu_bar_third_menu_drives_settings() {
    let mut state = menu_bar::MenuBar::default();
    assert_eq!(state.orientation, menu_bar::Orientation::Portait);
    assert_eq!(state.icon_size, menu_bar::IconSize::Medium);
    state.update(menu_bar::Message::MenuBar3Selected(
        menu_bar::Action::Landscape,
    ));
    assert_eq!(state.orientation, menu_bar::Orientation::Landscape);
    assert_eq!(state.menu_bar3_action, menu_bar::Action::Landscape);
    state.update(menu_bar::Message::MenuBar3Selected(
        menu_bar::Action::LargeIcon,
    ));
    assert_eq!(state.icon_size, menu_bar::IconSize::Large);
    assert_eq!(state.orientation, menu_bar::Orientation::Landscape);
    state.update(menu_bar::Message::MenuBar3Selected(menu_bar::Action::About));
    assert_eq!(state.menu_bar3_action, menu_bar::Action::About);
    assert_eq!(state.icon_size, menu_bar::IconSize::Large);
}

#[test]
fn menu_bar_action_names() {
    assert_eq!(menu_bar::Action::NoAction.name(), "");
    assert_eq!(menu_bar::Action::New.name(), "New");
    assert_eq!(menu_bar::Action::Portait.name(), "Portrait");
    assert_eq!(menu_bar::Action::SmallIcon.name(), "Small Icons");
    assert_eq!(
        menu_bar::Action::PlainTextDocument.name(),
        "Plain Text Document"
    );
}

#[test]
fn menu_bar_keyboard_shortcuts() {
    assert_eq!(shortcut_action(true, 'n'), Some(menu_bar::Action::New));
    assert_eq!(shortcut_action(true, 'o'), Some(menu_bar::Action::Open));
    assert_eq!(shortcut_action(true, 's'), Some(menu_bar::Action::Save));
    assert_eq!(shortcut_action(true, 'e'), Some(menu_bar::Action::Exit));
    assert_eq!(shortcut_action(true, 'z'), Some(menu_bar::Action::Undo));
    assert_eq!(shortcut_action(true, 'x'), Some(menu_bar::Action::Cut));
    assert_eq!(shortcut_action(true, 'c'), Some(menu_bar::Action::Copy));
    assert_eq!(shortcut_action(true, 'v'), Some(menu_bar::Action::Paste));
    assert_eq!(shortcut_action(true, 'i'), Some(menu_bar::Action::About));
    assert_eq!(shortcut_action(true, 'q'), None);
    assert_eq!(shortcut_action(false, 'n'), None);
}
