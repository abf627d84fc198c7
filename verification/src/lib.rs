//! Verified protocol logic for syncing Zoom65 v3 screen modules.

pub mod consts;
pub mod protocol;
pub mod sensors;
pub mod sync;
pub mod types;
pub mod hid;
pub mod keyboard;

pub use keyboard::Zoom65v3;
