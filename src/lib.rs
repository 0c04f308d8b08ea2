//! Placing a selection of files on the system clipboard, and the tuning
//! settings of the media tools around it.

pub mod selection;
pub mod hdrop;
pub mod linux;
pub mod text;
pub mod settings;
pub mod util;
pub mod windows;
pub mod filemanager;
pub mod digest;
