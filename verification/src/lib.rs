//! Kwick: the decision logic of a small command launcher, verified with Verus.
pub mod config;
pub mod history;
pub mod hotkey;
pub mod icons;
pub mod launcher;
pub mod matcher;
pub mod paths;
pub mod plugins;
pub mod providers;
pub mod registration;
pub mod search;
pub mod startup;
pub mod text;
pub mod tray;
pub mod winctl;
