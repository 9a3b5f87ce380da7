pub mod command;
pub mod list_text;
pub mod scroll_vertical;
pub mod state;
pub mod submodules;
