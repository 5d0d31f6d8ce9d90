//! Quota display logic for the Codex usage tray: reading the app-server's
//! rate-limit reply, choosing the window to watch, deciding which
//! notifications to raise and composing the tray tooltip.
pub mod text;
pub mod i18n;
pub mod clock;
pub mod json;
pub mod usage;
pub mod config;
pub mod state;
pub mod icon;
pub mod laws;
