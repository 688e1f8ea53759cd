//! Editing core of a terminal text editor: a line-oriented document model,
//! a viewport/cursor engine that maps the document onto a fixed-size window,
//! and a modal command overlay for line-oriented sub-commands.
pub mod cmdbar;
pub mod coord;
pub mod display;
pub mod edit;
pub mod editor;
pub mod laws;
pub mod numfmt;
pub mod persist;
pub mod textbox;
