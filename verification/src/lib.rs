//! A small terminal text editor: the text model, caret movement, scrolling,
//! key decoding and status reporting, verified with Verus.
mod terminal;
pub mod text;
pub mod line;

pub use terminal::{Position, Size};
pub mod fileinfo;
pub mod buffer;
pub mod view;
pub mod documentstatus;
pub mod command;
pub mod uicomponent;
pub mod editor;
pub mod editorcommand;
pub mod location;
pub mod style;
pub mod messagebar;
pub mod statusbar;
