//! The decision logic of the Citybound user interface: the session state of
//! the UI, the global keyboard shortcuts, the state changes that the toolbar,
//! window and menu controls make, and the labels that are derived from the
//! state. Rendering lives outside this crate; it reads the state and calls
//! the functions here.

pub mod model;
pub mod text;
pub mod actions;
pub mod shortcuts;
pub mod land_use;
pub mod layout;
pub mod laws;
