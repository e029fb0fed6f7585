//! The view layer of a terminal text editor: the window onto a text buffer,
//! its scrolling rules, and the cells it paints on the screen.

pub mod text_object;
pub mod clock;
pub mod width;
pub mod render;
pub mod scroll;
pub mod view;
