pub mod clipboard;
pub mod config;
pub mod config_laws;
pub mod events;
pub mod logger;
pub mod platform;
pub mod startup;
pub mod text;
pub mod tray;
pub mod watcher;
pub mod wide;
