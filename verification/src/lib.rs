//! Settings for niri's touchscreen and touchpad gestures, and the gesture
//! files that hold them.

pub mod text;
pub mod document;
pub mod trigger;
pub mod binds;
pub mod settings;
pub mod editing;
pub mod files;
pub mod menus;
pub mod laws;
