//! One module per demo page. Each page holds the state its widgets show
//! and an `update` function that applies one message to that state.

pub mod app_bar_button;
pub mod button;
pub mod checkbox;
pub mod combo_box;
pub mod dialog;
pub mod drop_down_button;
pub mod image;
pub mod menu_bar;
pub mod radio;
pub mod ribbon;
pub mod row_column;
pub mod slider;
pub mod split_button;
pub mod svg;
pub mod text_input;
pub mod toggle_button;
pub mod toggler;
