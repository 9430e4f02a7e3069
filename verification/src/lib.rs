use vstd::prelude::*;

pub mod text;
pub mod tree;
pub mod subtree;
pub mod icons;
pub mod sidebar;
pub mod keybinding;
pub mod settings;
pub mod settings_components;
pub mod notes;
pub mod export;
pub mod server;
pub mod views;
pub mod updates;
pub mod workspace;

verus! {

} // verus!
