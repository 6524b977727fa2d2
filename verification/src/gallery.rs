//! The application state of the gallery: the page being shown, the
//! navigation rail and its overlays, the window size, and the theme.

use crate::page;
use crate::theme::Theme;
use crate::widget::side_nav::DisplayMode;
use vstd::prelude::*;

verus! {

/// The window width, in logical pixels, below which the navigation rail
/// collapses and group overlays are used instead of in-place expansion.
pub const SIDE_NAV_COMPACT_WIDTH: u32 = 1000;

/// The window size in whole logical pixels, as last reported by the
/// host toolkit.
#[derive(Clone, Copy, Debug, Default, PartialEq, Eq, Structural)]
pub struct WindowSize {
    pub width: u32,
    pub height: u32,
}

/// The page the gallery is showing: the home page, one demo page per
/// widget kind, or the settings page. Each demo variant carries that
/// page's state.
#[derive(Clone, Debug, PartialEq)]
pub enum Page {
    Home,
    Button(page::button::Button),
    DropDownButton(page::drop_down_button::DropDownButton),
    Checkbox(page::checkbox::Checkbox),
    ToggleButton(page::toggle_button::ToggleButton),
    SplitButton(page::split_button::SplitButton),
    ComboBox(page::combo_box::ComboBox),
    Radio(page::radio::Radio),
    Slider(page::slider::Slider),
    Toggler(page::toggler::Toggler),
    Dialog(page::dialog::Dialog),
    RowColumn(page::row_column::RowColumn),
    Image(page::image::Image),
    Svg(page::svg::Svg),
    AppBarButton(page::app_bar_button::AppBarButton),
    MenuBar(page::menu_bar::MenuBar),
    Ribbon(page::ribbon::Ribbon),
    TextInput(page::text_input::TextInput),
    Settings,
}

impl Default for Page {
    /// The gallery opens on the home page.
    fn default() -> (p: Page)
        ensures
            p is Home,
    {
        Page::Home
    }
}

/// Whether two pages are the same kind of page, whatever state each
/// carries.
pub open spec fn spec_same_variant(a: Page, b: Page) -> bool {
    match (a, b) {
        (Page::Home, Page::Home) => true,
        (Page::Button(_), Page::Button(_)) => true,
        (Page::DropDownButton(_), Page::DropDownButton(_)) => true,
        (Page::Checkbox(_), Page::Checkbox(_)) => true,
        (Page::ToggleButton(_), Page::ToggleButton(_)) => true,
        (Page::SplitButton(_), Page::SplitButton(_)) => true,
        (Page::ComboBox(_), Page::ComboBox(_)) => true,
        (Page::Radio(_), Page::Radio(_)) => true,
        (Page::Slider(_), Page::Slider(_)) => true,
        (Page::Toggler(_), Page::Toggler(_)) => true,
        (Page::Dialog(_), Page::Dialog(_)) => true,
        (Page::RowColumn(_), Page::RowColumn(_)) => true,
        (Page::Image(_), Page::Image(_)) => true,
        (Page::Svg(_), Page::Svg(_)) => true,
        (Page::AppBarButton(_), Page::AppBarButton(_)) => true,
        (Page::MenuBar(_), Page::MenuBar(_)) => true,
        (Page::Ribbon(_), Page::Ribbon(_)) => true,
        (Page::TextInput(_), Page::TextInput(_)) => true,
        (Page::Settings, Page::Settings) => true,
        _ => false,
    }
}

/// Whether two pages are the same kind of page.
pub fn same_variant(a: &Page, b: &Page) -> (same: bool)
    ensures
        same == spec_same_variant(*a, *b),
{
    match (a, b) {
        (Page::Home, Page::Home) => true,
        (Page::Button(_), Page::Button(_)) => true,
        (Page::DropDownButton(_), Page::DropDownButton(_)) => true,
        (Page::Checkbox(_), Page::Checkbox(_)) => true,
        (Page::ToggleButton(_), Page::ToggleButton(_)) => true,
        (Page::SplitButton(_), Page::SplitButton(_)) => true,
        (Page::ComboBox(_), Page::ComboBox(_)) => true,
        (Page::Radio(_), Page::Radio(_)) => true,
        (Page::Slider(_), Page::Slider(_)) => true,
        (Page::Toggler(_), Page::Toggler(_)) => true,
        (Page::Dialog(_), Page::Dialog(_)) => true,
        (Page::RowColumn(_), Page::RowColumn(_)) => true,
        (Page::Image(_), Page::Image(_)) => true,
        (Page::Svg(_), Page::Svg(_)) => true,
        (Page::AppBarButton(_), Page::AppBarButton(_)) => true,
        (Page::MenuBar(_), Page::MenuBar(_)) => true,
        (Page::Ribbon(_), Page::Ribbon(_)) => true,
        (Page::TextInput(_), Page::TextInput(_)) => true,
        (Page::Settings, Page::Settings) => true,
        _ => false,
    }
}

/// The identity of a navigation group. The rail shows each group under
/// the name `name` returns.
#[derive(Clone, Copy, Debug, PartialEq, Eq, Structural)]
pub enum GroupLabel {
    Home,
    BasicInput,
    DialogsAndFlyouts,
    Layout,
    Media,
    MenuAndToolbars,
    Text,
    Settings,
}

impl GroupLabel {
    /// The name the rail shows for this group.
    pub open spec fn spec_name(self) -> Seq<char> {
        match self {
            GroupLabel::Home => "Home"@,
            GroupLabel::BasicInput => "Basic input"@,
            GroupLabel::DialogsAndFlyouts => "Dialogs and flyouts"@,
            GroupLabel::Layout => "Layout"@,
            GroupLabel::Media => "Media"@,
            GroupLabel::MenuAndToolbars => "Menu & toolbars"@,
            GroupLabel::Text => "Text"@,
            GroupLabel::Settings => "Settings"@,
        }
    }

    /// The name the rail shows for this group.
    pub fn name(&self) -> (n: &'static str)
        ensures
            n@ == self.spec_name(),
    {
        match self {
            GroupLabel::Home => "Home",
            GroupLabel::BasicInput => "Basic input",
            GroupLabel::DialogsAndFlyouts => "Dialogs and flyouts",
            GroupLabel::Layout => "Layout",
            GroupLabel::Media => "Media",
            GroupLabel::MenuAndToolbars => "Menu & toolbars",
            GroupLabel::Text => "Text",
            GroupLabel::Settings => "Settings",
        }
    }
}

/// One page offered inside a navigation group.
#[derive(Clone, Debug, PartialEq)]
pub struct PageItem {
    /// The name the rail shows for this page.
    pub label: &'static str,
    /// The page selected when this item is clicked, carrying that
    /// page's starting state.
    pub page: Page,
}

/// One group of the navigation rail: a single page, or a heading over
/// several page items.
#[derive(Clone, Debug, PartialEq)]
pub struct PageGroup {
    /// The icon shown for the group.
    pub icon: char,
    /// The group's identity and displayed name.
    pub label: GroupLabel,
    /// Whether the group is expanded in the full rail.
    pub expanded: bool,
    /// The width, in logical pixels, of the group's overlay in the
    /// compact rail.
    pub overlay_width: u16,
    /// The page a group without items selects directly.
    pub page: Option<Page>,
    /// The pages offered under the group's heading.
    pub page_items: Vec<PageItem>,
}

#[derive(Clone, Debug)]
pub enum Message {
    PageSelected(Page),
    PageGroupToggled(GroupLabel),
    PageGroupOverlayDismissed,
    SideNavDisplayModeToggled,
    WindowResized(WindowSize),
    ThemeToggled,
    ExplainToggled,
    ButtonPage(page::button::Message),
    DropDownButtonPage(page::drop_down_button::Message),
    ToggleButtonPage(page::toggle_button::Message),
    SplitButtonPage(page::split_button::Message),
    CheckboxPage(page::checkbox::Message),
    ComboBoxPage(page::combo_box::Message),
    SliderPage(page::slider::Message),
    TogglerPage(page::toggler::Message),
    DialogPage(page::dialog::Message),
    RowColumnPage(page::row_column::Message),
    ImagePage(page::image::Message),
    SvgPage(page::svg::Message),
    AppBarButton(page::app_bar_button::Message),
    MenuBar(page::menu_bar::Message),
    Ribbon(page::ribbon::Message),
    TextInputPage(page::text_input::Message),
    RadioPage(page::radio::Message),
}

/// The whole application state.
#[derive(Clone, Debug, PartialEq)]
pub struct Gallery {
    /// The page being shown.
    pub current_page: Page,
    /// The display mode the user chose for the navigation rail.
    pub side_nav_display_mode: DisplayMode,
    /// The groups of the navigation rail.
    pub pages: Vec<PageGroup>,
    /// The groups pinned to the rail's footer.
    pub footer_pages: Vec<PageGroup>,
    /// The group whose overlay is open in the compact rail, if any.
    pub page_group_overlay_open: Option<GroupLabel>,
    /// The window size last reported by the host toolkit.
    pub window_size: WindowSize,
    /// The colour theme.
    pub theme: Theme,
    /// Whether layout explanation outlines are drawn.
    pub explain: bool,
}

/// Whether a page message names the kind of page that is current: the
/// dispatcher owes work only to matched pairs, and every other pairing
/// is a caller error.
pub open spec fn message_matches_page(message: Message, current: Page) -> bool {
    match message {
        Message::ButtonPage(_) => current is Button,
        Message::DropDownButtonPage(_) => current is DropDownButton,
        Message::ToggleButtonPage(_) => current is ToggleButton,
        Message::SplitButtonPage(_) => current is SplitButton,
        Message::CheckboxPage(_) => current is Checkbox,
        Message::ComboBoxPage(_) => current is ComboBox,
        Message::SliderPage(_) => current is Slider,
        Message::TogglerPage(_) => current is Toggler,
        Message::DialogPage(_) => current is Dialog,
        Message::RowColumnPage(_) => current is RowColumn,
        Message::ImagePage(_) => current is Image,
        Message::SvgPage(_) => current is Svg,
        Message::AppBarButton(_) => current is AppBarButton,
        Message::MenuBar(_) => current is MenuBar,
        Message::Ribbon(_) => current is Ribbon,
        Message::TextInputPage(_) => current is TextInput,
        Message::RadioPage(_) => current is Radio,
        _ => true,
    }
}

/// The current page after routing a page message to the page it names:
/// the page's own update is applied, and a message for another kind of
/// page leaves the current page as it is.
pub open spec fn spec_page_dispatch(current: Page, message: Message) -> Page {
    match message {
        Message::ButtonPage(m) => match current {
            Page::Button(p) => Page::Button(p.spec_update(m)),
            _ => current,
        },
        Message::DropDownButtonPage(m) => match current {
            Page::DropDownButton(p) => Page::DropDownButton(p.spec_update(m)),
            _ => current,
        },
        Message::ToggleButtonPage(m) => match current {
            Page::ToggleButton(p) => Page::ToggleButton(p.spec_update(m)),
            _ => current,
        },
        Message::SplitButtonPage(m) => match current {
            Page::SplitButton(p) => Page::SplitButton(p.spec_update(m)),
            _ => current,
        },
        Message::CheckboxPage(m) => match current {
            Page::Checkbox(p) => Page::Checkbox(p.spec_update(m)),
            _ => current,
        },
        Message::ComboBoxPage(m) => match current {
            Page::ComboBox(p) => Page::ComboBox(p.spec_update(m)),
            _ => current,
        },
        Message::SliderPage(m) => match current {
            Page::Slider(p) => Page::Slider(p.spec_update(m)),
            _ => current,
        },
        Message::TogglerPage(m) => match current {
            Page::Toggler(p) => Page::Toggler(p.spec_update(m)),
            _ => current,
        },
        Message::DialogPage(m) => match current {
            Page::Dialog(p) => Page::Dialog(p.spec_update(m)),
            _ => current,
        },
        Message::RowColumnPage(m) => match current {
            Page::RowColumn(p) => Page::RowColumn(p.spec_update(m)),
            _ => current,
        },
        Message::ImagePage(m) => match current {
            Page::Image(p) => Page::Image(p.spec_update(m)),
            _ => current,
        },
        Message::SvgPage(m) => match current {
            Page::Svg(p) => Page::Svg(p.spec_update(m)),
            _ => current,
        },
        Message::AppBarButton(m) => match current {
            Page::AppBarButton(p) => Page::AppBarButton(p.spec_update(m)),
            _ => current,
        },
        Message::MenuBar(m) => match current {
            Page::MenuBar(p) => Page::MenuBar(p.spec_update(m)),
            _ => current,
        },
        Message::Ribbon(m) => match current {
            Page::Ribbon(p) => Page::Ribbon(p.spec_update(m)),
            _ => current,
        },
        Message::TextInputPage(m) => match current {
            Page::TextInput(p) => Page::TextInput(p.spec_update(m)),
            _ => current,
        },
        Message::RadioPage(m) => match current {
            Page::Radio(p) => Page::Radio(p.spec_update(m)),
            _ => current,
        },
        _ => current,
    }
}

/// The first group carrying `label`: position `i` holds it and no
/// earlier position does.
pub open spec fn is_first_match(groups: Seq<PageGroup>, label: GroupLabel, i: int) -> bool {
    &&& 0 <= i < groups.len()
    &&& groups[i].label == label
    &&& forall|j: int| 0 <= j < i ==> groups[j].label != label
}

/// How toggling the group `label` takes the gallery from `s` to `t`:
/// when no group carries the label nothing changes; otherwise, while
/// the compact rail is in use (chosen, or forced by a narrow window)
/// the group's overlay opens, and in the full rail the first group
/// carrying the label flips its expansion flag in place.
pub open spec fn spec_group_toggled(s: Gallery, t: Gallery, label: GroupLabel) -> bool {
    if exists|i: int| is_first_match(s.pages@, label, i) {
        let i = choose|i: int| is_first_match(s.pages@, label, i);
        if s.side_nav_display_mode == DisplayMode::Compact
            || s.window_size.width < SIDE_NAV_COMPACT_WIDTH {
            t == (Gallery { page_group_overlay_open: Some(label), ..s })
        } else {
            &&& t.pages@ == s.pages@.update(i, (PageGroup {
                expanded: !s.pages@[i].expanded,
                ..s.pages@[i]
            }))
            &&& t == (Gallery { pages: t.pages, ..s })
        }
    } else {
        t == s
    }
}

impl Gallery {
    /// Applies one message to the application state.
    ///
    /// Selecting a page closes any open group overlay, whichever page
    /// was active, and swaps the page unless the selected page is of
    /// the kind already shown. Shrinking the window below the compact
    /// threshold also closes any open overlay. Page messages are routed
    /// to the current page; a page message of the wrong kind for the
    /// current page is owed nothing and is excluded by the caller.
    pub fn update(&mut self, message: Message)
        requires
            message_matches_page(message, old(self).current_page),
        ensures
            match message {
                Message::PageSelected(pg) => *final(self) == (Gallery {
                    page_group_overlay_open: Option::<GroupLabel>::None,
                    current_page: if spec_same_variant(old(self).current_page, pg) {
                        old(self).current_page
                    } else {
                        pg
                    },
                    ..*old(self)
                }),
                Message::PageGroupToggled(label) => spec_group_toggled(
                    *old(self),
                    *final(self),
                    label,
                ),
                Message::PageGroupOverlayDismissed => *final(self) == (Gallery {
                    page_group_overlay_open: Option::<GroupLabel>::None,
                    ..*old(self)
                }),
                Message::SideNavDisplayModeToggled => *final(self) == (Gallery {
                    side_nav_display_mode: match old(self).side_nav_display_mode {
                        DisplayMode::Compact => DisplayMode::Full,
                        DisplayMode::Full => DisplayMode::Compact,
                    },
                    ..*old(self)
                }),
                Message::WindowResized(size) => *final(self) == (Gallery {
                    window_size: size,
                    page_group_overlay_open: if size.width < SIDE_NAV_COMPACT_WIDTH {
                        Option::<GroupLabel>::None
                    } else {
                        old(self).page_group_overlay_open
                    },
                    ..*old(self)
                }),
                Message::ThemeToggled => *final(self) == (Gallery {
                    theme: match old(self).theme {
                        Theme::Light => Theme::Dark,
                        Theme::Dark => Theme::Light,
                    },
                    ..*old(self)
                }),
                Message::ExplainToggled => *final(self) == (Gallery {
                    explain: !old(self).explain,
                    ..*old(self)
                }),
                _ => *final(self) == (Gallery {
                    current_page: spec_page_dispatch(old(self).current_page, message),
                    ..*old(self)
                }),
            },
    {
        match message {
            Message::PageSelected(pg) => self.select_page(pg),
            Message::PageGroupToggled(label) => self.toggle_group(label),
            Message::PageGroupOverlayDismissed => self.page_group_overlay_open = None,
            Message::SideNavDisplayModeToggled => {
                self.side_nav_display_mode = self.side_nav_display_mode.toggled();
            },
            Message::WindowResized(size) => {
                self.window_size = size;
                if size.width < SIDE_NAV_COMPACT_WIDTH {
                    self.page_group_overlay_open = None;
                }
            },
            Message::ThemeToggled => self.theme = self.theme.toggled(),
            Message::ExplainToggled => self.explain = !self.explain,
            _ => self.dispatch_page(message),
        }
    }

    /// The theme the application should draw with.
    pub fn theme(&self) -> (t: Theme)
        ensures
            t == self.theme,
    {
        self.theme
    }

    /// Closes any open group overlay and shows the selected page,
    /// keeping the current page when the selection is of the same kind.
    fn select_page(&mut self, pg: Page)
        ensures
            *final(self) == (Gallery {
                page_group_overlay_open: Option::<GroupLabel>::None,
                current_page: if spec_same_variant(old(self).current_page, pg) {
                    old(self).current_page
                } else {
                    pg
                },
                ..*old(self)
            }),
    {
        self.page_group_overlay_open = None;
        if !same_variant(&self.current_page, &pg) {
            self.current_page = pg;
        }
    }

    /// Opens the overlay of, or expands in place, the first navigation
    /// group carrying `label`.
    fn toggle_group(&mut self, label: GroupLabel)
        ensures
            spec_group_toggled(*old(self), *final(self), label),
    {
        let compact = self.side_nav_display_mode == DisplayMode::Compact
            || self.window_size.width < SIDE_NAV_COMPACT_WIDTH;
        let n = self.pages.len();
        let mut i: usize = 0;
        while i < n && self.pages[i].label != label
            invariant
                n == self.pages@.len(),
                i <= n,
                forall|j: int| 0 <= j < i ==> self.pages@[j].label != label,
                *self == *old(self),
            decreases n - i,
        {
            i += 1;
        }
        if i < n {
            if compact {
                self.page_group_overlay_open = Some(label);
            } else {
                let expanded = self.pages[i].expanded;
                self.pages[i].expanded = !expanded;
            }
            proof {
                // The loop stopped at the first index carrying the
                // label, so it is the witness the contract speaks of.
                let w = choose|k: int| is_first_match(old(self).pages@, label, k);
                assert(is_first_match(old(self).pages@, label, i as int));
                assert(w == i as int);
            }
        }
    }

    /// Routes a page message to the page it names; a message for
    /// another kind of page changes nothing.
    #[verifier::rlimit(100)]
    fn dispatch_page(&mut self, message: Message)
        ensures
            *final(self) == (Gallery {
                current_page: spec_page_dispatch(old(self).current_page, message),
                ..*old(self)
            }),
    {
        match message {
            Message::ButtonPage(m) => {
                if let Page::Button(p) = &mut self.current_page {
                    p.update(m);
                }
            },
            Message::DropDownButtonPage(m) => {
                if let Page::DropDownButton(p) = &mut self.current_page {
                    p.update(m);
                }
            },
            Message::ToggleButtonPage(m) => {
                if let Page::ToggleButton(p) = &mut self.current_page {
                    p.update(m);
                }
            },
            Message::SplitButtonPage(m) => {
                if let Page::SplitButton(p) = &mut self.current_page {
                    p.update(m);
                }
            },
            Message::CheckboxPage(m) => {
                if let Page::Checkbox(p) = &mut self.current_page {
                    p.update(m);
                }
            },
            Message::ComboBoxPage(m) => {
                if let Page::ComboBox(p) = &mut self.current_page {
                    p.update(m);
                }
            },
            Message::SliderPage(m) => {
                if let Page::Slider(p) = &mut self.current_page {
                    p.update(m);
                }
            },
            Message::TogglerPage(m) => {
                if let Page::Toggler(p) = &mut self.current_page {
                    p.update(m);
                }
            },
            Message::DialogPage(m) => {
                if let Page::Dialog(p) = &mut self.current_page {
                    p.update(m);
                }
            },
            Message::RowColumnPage(m) => {
                if let Page::RowColumn(p) = &mut self.current_page {
                    p.update(m);
                }
            },
            Message::ImagePage(m) => {
                if let Page::Image(p) = &mut self.current_page {
                    p.update(m);
                }
            },
            Message::SvgPage(m) => {
                if let Page::Svg(p) = &mut self.current_page {
                    p.update(m);
                }
            },
            Message::AppBarButton(m) => {
                if let Page::AppBarButton(p) = &mut self.current_page {
                    p.update(m);
                }
            },
            Message::MenuBar(m) => {
                if let Page::MenuBar(p) = &mut self.current_page {
                    p.update(m);
                }
            },
            Message::Ribbon(m) => {
                if let Page::Ribbon(p) = &mut self.current_page {
                    p.update(m);
                }
            },
            Message::TextInputPage(m) => {
                if let Page::TextInput(p) = &mut self.current_page {
                    p.update(m);
                }
            },
            Message::RadioPage(m) => {
                if let Page::Radio(p) = &mut self.current_page {
                    p.update(m);
                }
            },
            _ => {},
        }
    }
}

/// The layout of the navigation rail: seven groups in a fixed order,
/// all starting collapsed. The home group selects its page directly;
/// the others offer their pages under a heading.
pub open spec fn spec_nav_groups_wf(groups: Seq<PageGroup>) -> bool {
    &&& groups.len() == 7
    &&& groups[0].label == GroupLabel::Home
    &&& groups[0].icon == '\u{E80F}'
    &&& groups[0].overlay_width == 100
    &&& !groups[0].expanded
    &&& groups[0].page == Some(Page::Home)
    &&& groups[0].page_items@.len() == 0
    &&& groups[1].label == GroupLabel::BasicInput
    &&& groups[1].icon == '\u{E73A}'
    &&& groups[1].overlay_width == 160
    &&& !groups[1].expanded
    &&& groups[1].page is None
    &&& groups[1].page_items@.len() == 9
    &&& groups[1].page_items@[0].label@ == "Button"@
    &&& groups[1].page_items@[0].page is Button
    &&& groups[1].page_items@[1].label@ == "Drop Down Button"@
    &&& groups[1].page_items@[1].page is DropDownButton
    &&& groups[1].page_items@[2].label@ == "Toggle Button"@
    &&& groups[1].page_items@[2].page is ToggleButton
    &&& groups[1].page_items@[3].label@ == "Split Button"@
    &&& groups[1].page_items@[3].page is SplitButton
    &&& groups[1].page_items@[4].label@ == "Checkbox"@
    &&& groups[1].page_items@[4].page is Checkbox
    &&& groups[1].page_items@[5].label@ == "ComboBox"@
    &&& groups[1].page_items@[5].page is ComboBox
    &&& groups[1].page_items@[6].label@ == "Radio"@
    &&& groups[1].page_items@[6].page is Radio
    &&& groups[1].page_items@[7].label@ == "Slider"@
    &&& groups[1].page_items@[7].page is Slider
    &&& groups[1].page_items@[8].label@ == "Toggler"@
    &&& groups[1].page_items@[8].page is Toggler
    &&& groups[2].label == GroupLabel::DialogsAndFlyouts
    &&& groups[2].icon == '\u{E8BD}'
    &&& groups[2].overlay_width == 120
    &&& !groups[2].expanded
    &&& groups[2].page is None
    &&& groups[2].page_items@.len() == 1
    &&& groups[2].page_items@[0].label@ == "Dialog"@
    &&& groups[2].page_items@[0].page is Dialog
    &&& groups[3].label == GroupLabel::Layout
    &&& groups[3].icon == '\u{E8A1}'
    &&& groups[3].overlay_width == 120
    &&& !groups[3].expanded
    &&& groups[3].page is None
    &&& groups[3].page_items@.len() == 1
    &&& groups[3].page_items@[0].label@ == "Row & Column"@
    &&& groups[3].page_items@[0].page is RowColumn
    &&& groups[4].label == GroupLabel::Media
    &&& groups[4].icon == '\u{E786}'
    &&& groups[4].overlay_width == 120
    &&& !groups[4].expanded
    &&& groups[4].page is None
    &&& groups[4].page_items@.len() == 2
    &&& groups[4].page_items@[0].label@ == "Image"@
    &&& groups[4].page_items@[0].page is Image
    &&& groups[4].page_items@[1].label@ == "Svg"@
    &&& groups[4].page_items@[1].page is Svg
    &&& groups[5].label == GroupLabel::MenuAndToolbars
    &&& groups[5].icon == '\u{E74E}'
    &&& groups[5].overlay_width == 120
    &&& !groups[5].expanded
    &&& groups[5].page is None
    &&& groups[5].page_items@.len() == 3
    &&& groups[5].page_items@[0].label@ == "AppBar Button"@
    &&& groups[5].page_items@[0].page is AppBarButton
    &&& groups[5].page_items@[1].label@ == "MenuBar"@
    &&& groups[5].page_items@[1].page is MenuBar
    &&& groups[5].page_items@[2].label@ == "Ribbon"@
    &&& groups[5].page_items@[2].page is Ribbon
    &&& groups[6].label == GroupLabel::Text
    &&& groups[6].icon == '\u{E8D2}'
    &&& groups[6].overlay_width == 120
    &&& !groups[6].expanded
    &&& groups[6].page is None
    &&& groups[6].page_items@.len() == 1
    &&& groups[6].page_items@[0].label@ == "Text Input"@
    &&& groups[6].page_items@[0].page is TextInput
}

/// The layout of the rail's footer: the settings group alone, selecting
/// its page directly.
pub open spec fn spec_footer_groups_wf(groups: Seq<PageGroup>) -> bool {
    &&& groups.len() == 1
    &&& groups[0].label == GroupLabel::Settings
    &&& groups[0].icon == '\u{E713}'
    &&& groups[0].overlay_width == 100
    &&& !groups[0].expanded
    &&& groups[0].page == Some(Page::Settings)
    &&& groups[0].page_items@.len() == 0
}

/// Builds the navigation rail's groups, each demo page starting in its
/// default state.
pub fn pages() -> (groups: Vec<PageGroup>)
    ensures
        spec_nav_groups_wf(groups@),
{
    let home = PageGroup {
        icon: '\u{E80F}',
        label: GroupLabel::Home,
        expanded: false,
        overlay_width: 100,
        page: Some(Page::Home),
        page_items: Vec::new(),
    };
    let basic_input = PageGroup {
        icon: '\u{E73A}',
        label: GroupLabel::BasicInput,
        expanded: false,
        overlay_width: 160,
        page: None,
        page_items: vec![
            PageItem {
                label: "Button",
                page: Page::Button(page::button::Button::default()),
            },
            PageItem {
                label: "Drop Down Button",
                page: Page::DropDownButton(page::drop_down_button::DropDownButton::default()),
            },
            PageItem {
                label: "Toggle Button",
                page: Page::ToggleButton(page::toggle_button::ToggleButton::default()),
            },
            PageItem {
                label: "Split Button",
                page: Page::SplitButton(page::split_button::SplitButton::default()),
            },
            PageItem {
                label: "Checkbox",
                page: Page::Checkbox(page::checkbox::Checkbox::default()),
            },
            PageItem {
                label: "ComboBox",
                page: Page::ComboBox(page::combo_box::ComboBox::default()),
            },
            PageItem {
                label: "Radio",
                page: Page::Radio(page::radio::Radio::default()),
            },
            PageItem {
                label: "Slider",
                page: Page::Slider(page::slider::Slider::default()),
            },
            PageItem {
                label: "Toggler",
                page: Page::Toggler(page::toggler::Toggler::default()),
            },
        ],
    };
    let dialogs = PageGroup {
        icon: '\u{E8BD}',
        label: GroupLabel::DialogsAndFlyouts,
        expanded: false,
        overlay_width: 120,
        page: None,
        page_items: vec![
            PageItem {
                label: "Dialog",
                page: Page::Dialog(page::dialog::Dialog::default()),
            },
        ],
    };
    let layout = PageGroup {
        icon: '\u{E8A1}',
        label: GroupLabel::Layout,
        expanded: false,
        overlay_width: 120,
        page: None,
        page_items: vec![
            PageItem {
                label: "Row & Column",
                page: Page::RowColumn(page::row_column::RowColumn::default()),
            },
        ],
    };
    let media = PageGroup {
        icon: '\u{E786}',
        label: GroupLabel::Media,
        expanded: false,
        overlay_width: 120,
        page: None,
        page_items: vec![
            PageItem {
                label: "Image",
                page: Page::Image(page::image::Image::default()),
            },
            PageItem {
                label: "Svg",
                page: Page::Svg(page::svg::Svg::default()),
            },
        ],
    };
    let menus = PageGroup {
        icon: '\u{E74E}',
        label: GroupLabel::MenuAndToolbars,
        expanded: false,
        overlay_width: 120,
        page: None,
        page_items: vec![
            PageItem {
                label: "AppBar Button",
                page: Page::AppBarButton(page::app_bar_button::AppBarButton::default()),
            },
            PageItem {
                label: "MenuBar",
                page: Page::MenuBar(page::menu_bar::MenuBar::default()),
            },
            PageItem {
                label: "Ribbon",
                page: Page::Ribbon(page::ribbon::Ribbon::default()),
            },
        ],
    };
    let text = PageGroup {
        icon: '\u{E8D2}',
        label: GroupLabel::Text,
        expanded: false,
        overlay_width: 120,
        page: None,
        page_items: vec![
            PageItem {
                label: "Text Input",
                page: Page::TextInput(page::text_input::TextInput::default()),
            },
        ],
    };
    vec![home, basic_input, dialogs, layout, media, menus, text]
}

/// Builds the rail's footer groups.
pub fn footer_pages() -> (groups: Vec<PageGroup>)
    ensures
        spec_footer_groups_wf(groups@),
{
    vec![
        PageGroup {
            icon: '\u{E713}',
            label: GroupLabel::Settings,
            expanded: false,
            overlay_width: 100,
            page: Some(Page::Settings),
            page_items: Vec::new(),
        },
    ]
}

impl Default for Gallery {
    /// The gallery as it starts: the home page under the full rail,
    /// no overlay open, a zero window size until the host reports one,
    /// the dark theme, and no explanation outlines.
    fn default() -> (g: Gallery)
        ensures
            g.current_page is Home,
            g.side_nav_display_mode == DisplayMode::Full,
            spec_nav_groups_wf(g.pages@),
            spec_footer_groups_wf(g.footer_pages@),
            g.page_group_overlay_open is None,
            g.window_size == (WindowSize { width: 0, height: 0 }),
            g.theme == Theme::Dark,
            !g.explain,
    {
        Gallery {
            current_page: Page::Home,
            side_nav_display_mode: DisplayMode::Full,
            pages: pages(),
            footer_pages: footer_pages(),
            page_group_overlay_open: None,
            window_size: WindowSize { width: 0, height: 0 },
            theme: Theme::Dark,
            explain: false,
        }
    }
}

/// Whether a navigation group is shown expanded: while the compact rail
/// is in use (chosen, or forced by a narrow window) a group is expanded
/// exactly when its overlay is open, and in the full rail the group's
/// own expansion flag decides.
pub open spec fn spec_group_expanded(
    mode: DisplayMode,
    window_width: u32,
    overlay_open: Option<GroupLabel>,
    group: PageGroup,
) -> bool {
    if mode == DisplayMode::Compact || window_width < SIDE_NAV_COMPACT_WIDTH {
        overlay_open == Some(group.label)
    } else {
        group.expanded
    }
}

/// Decides whether a navigation group is shown expanded.
pub fn group_expanded(
    mode: DisplayMode,
    window_width: u32,
    overlay_open: Option<GroupLabel>,
    group: &PageGroup,
) -> (expanded: bool)
    ensures
        expanded == spec_group_expanded(mode, window_width, overlay_open, *group),
{
    if mode == DisplayMode::Compact || window_width < SIDE_NAV_COMPACT_WIDTH {
        match overlay_open {
            Some(open) => open == group.label,
            None => false,
        }
    } else {
        group.expanded
    }
}

/// The padding around the page content: the home page fills the whole
/// area, every other page is inset.
pub fn content_padding(current: &Page) -> (padding: u16)
    ensures
        padding == (if *current is Home { 0u16 } else { 24u16 }),
{
    match current {
        Page::Home => 0,
        _ => 24,
    }
}

} // verus!
