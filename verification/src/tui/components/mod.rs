//! Reusable interface components.

pub mod text_input;
pub mod text_area;
pub mod select;
pub mod confirm_dialog;
pub mod status_bar;
pub mod search_bar;
pub mod group_picker;
pub mod filter_panel;
pub mod detail_panel;
pub mod tag_editor;
pub mod form_example;
pub mod tree_panel;
pub mod tree;
