//! ambientd: automatic screen and keyboard brightness from an ambient light
//! sensor. This library holds the daemon's logic: its options and how the
//! config file and the command line set them, the keyboard backlight's
//! Schmitt trigger, the singleton lock, and the paths and commands it uses.
pub mod text;
pub mod settings;
pub mod config;
pub mod cli;
pub mod options;
pub mod keyboard;
pub mod lock;
pub mod usage;
pub mod dirs;
pub mod sysfs;
pub mod commands;
