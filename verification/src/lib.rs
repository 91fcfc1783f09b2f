//! Verified core of the KeyAura overlay: modifier-combo matching, the
//! sanitising of imported settings, menu and update-flow decisions.

pub mod grab;
pub mod text;
pub mod config;
pub mod export;
pub mod legacy;
pub mod tray;
pub mod updater;
