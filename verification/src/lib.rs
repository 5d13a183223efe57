//! The document and viewport engine of a terminal text editor: line storage
//! with a tab-expanded render cache, cursor and scroll bookkeeping,
//! incremental search, a time-boxed status message and the composition of
//! the screen contents.

pub mod tabs;
pub mod text;
pub mod rows;
pub mod keys;
pub mod search;
pub mod status;
pub mod buffer;
pub mod ansi;
pub mod screen;
pub mod cursor_controller;
pub mod output;
pub mod editor;
