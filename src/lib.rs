//! Start-up planning for a plugin-based application shell.
//!
//! The library decides which plugins an application builder receives, in
//! which order, and how the one-shot setup hook moves start-up towards the
//! main loop. The host runtime that performs the attachments and runs the
//! event loop stays outside: it hands the library its events and acts on
//! the answers.
mod plugin;
mod config;
mod bootstrap;
mod laws;

pub use plugin::{LogLevel, Plugin};
pub use config::{
    base_plugins, builder_plugins, builder_plugins_spec, setup_plugins, setup_plugins_spec,
    BuildConfig, Platform,
};
pub use bootstrap::{initial, replay, setup_count, step, wf, BootState, Bootstrap, Event, Phase};
pub use laws::{
    lemma_attached_plugins, lemma_failed_setup_stops, lemma_replay_keeps_config,
    lemma_replay_wf, lemma_setup_once_before_loop, lemma_step_preserves_wf,
};
