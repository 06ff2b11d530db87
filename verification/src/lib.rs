//! Host-side logic of the Ring visual-novel engine: logical resource paths,
//! save-slot bookkeeping, declarative screen behaviour, session ownership and
//! the small state machines that sit between the script runtime and the UI.

pub mod text;
pub mod resources;
pub mod normal_form;
pub mod protocol;
pub mod render;
pub mod session;
pub mod control;
pub mod snapshots;
pub mod persistent;
pub mod screens;
pub mod saves;
pub mod config;
pub mod zip_source;
pub mod debug_api;
pub mod launch;
pub mod toast;
pub mod sprite_groups;
pub mod save_pages;
pub mod typewriter;
pub mod debug_requests;
pub mod audio_state;
pub mod command_exec;
pub mod tick;
pub mod keys;
