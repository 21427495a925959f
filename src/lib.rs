//! Start-up decisions of a desktop application shell: which plugins the
//! host gets, which submenu becomes the windows menu, and the order and
//! failure handling of the one-time setup run.

pub mod menu;
pub mod plugins;
pub mod setup;
pub mod sequencer;
