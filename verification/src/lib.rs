//! Verified core of DeskGate, a desktop-fence manager.

pub mod autostart;
pub mod config;
pub mod customize;
pub mod dragdrop;
pub mod fence;
pub mod geometry;
pub mod icon;
pub mod layout;
pub mod locales;
pub mod look;
pub mod menu;
pub mod modal;
pub mod shortcut;
pub mod storage;
pub mod text;
pub mod tray;
pub mod window;
