//! Everything between a key press and the draft.

pub mod area;
pub mod composer;
pub mod csi;
pub mod edit_laws;
pub mod editor;
pub mod keymap;
pub mod keys;
pub mod layout;
pub mod normalize;
pub mod vim;
